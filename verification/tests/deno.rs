//! The function runtime, driven the way an engine drives it.

use ultrafinance::deno::{
    CallOutcome, ContentType, EngineReply, EngineRequest, ExportShape, FunctionRuntime, LoadStep,
    LoaderError, ModuleType, ParamsExport, RemoteResponse, RuntimeError, Stage,
};
use ultrafinance::models::{Function, FunctionParams, Timestamp};

fn function(function_type: &str, source: &str) -> Function {
    Function {
        id: 1,
        name: "Test".into(),
        function_type: function_type.into(),
        source: source.into(),
        user_id: 1,
        created_at: Timestamp::from_timestamp(0, 0),
        updated_at: Timestamp::from_timestamp(0, 0),
    }
}

/// Builds a runtime and does for it what an engine does at bootstrap: loads
/// the entry module through the runtime's loader and reports it evaluated.
fn construct(function: &Function) -> Result<FunctionRuntime, String> {
    let mut runtime = FunctionRuntime::new(function).map_err(|e| e.message())?;
    let entry = runtime
        .loader()
        .resolve(&runtime.main_module().href, ".")
        .map_err(|e| e.message())?;
    match runtime.loader().load(&entry) {
        Ok(LoadStep::Loaded(_)) => {
            runtime.bootstrap(Ok(7)).map_err(|e| e.message())?;
            Ok(runtime)
        }
        Ok(LoadStep::Fetch(url)) => panic!("the entry module is never remote: {}", url),
        Err(error) => {
            let message = error.message();
            let _ = runtime.bootstrap(Err(message.clone()));
            Err(message)
        }
    }
}

/// Runs the function with an engine whose answers are scripted.
fn run_with(
    runtime: &mut FunctionRuntime,
    params: &str,
    payload: &str,
    replies: Vec<EngineReply>,
) -> Result<String, RuntimeError> {
    let mut request = runtime.run(params, payload);
    let mut replies = replies.into_iter();
    loop {
        match request {
            EngineRequest::Finish(result) => return result,
            EngineRequest::ParseParams(ref text) => assert_eq!(text, params),
            EngineRequest::ParsePayload(ref text) => assert_eq!(text, payload),
            _ => {}
        }
        let reply = replies.next().expect("the script ran out before the run was over");
        request = runtime.step(reply);
    }
}

/// The answers of an engine for which every step goes well and whose guest
/// writes `written`.
fn good_run(written: &str) -> Vec<EngineReply> {
    vec![
        EngineReply::Export(ExportShape::Function),
        EngineReply::Parsed(true),
        EngineReply::Parsed(true),
        EngineReply::Called(CallOutcome::Returned),
        EngineReply::Settled(Ok(())),
        EngineReply::Stringified(Some(written.to_string())),
    ]
}

fn object(entries: &[(&str, serde_json::Value)]) -> String {
    let mut map = serde_json::Map::new();
    for (key, value) in entries {
        map.insert(key.to_string(), value.clone());
    }
    serde_json::Value::Object(map).to_string()
}

fn text(value: &str) -> serde_json::Value {
    serde_json::Value::String(value.to_string())
}

fn sample_params() -> String {
    object(&[("apiKey", text("123")), ("accountId", text("41112"))])
}

fn sample_transaction() -> String {
    object(&[
        ("id", serde_json::Value::Number(12345.into())),
        ("bookingDate", text("2024-01-15T10:30:00+00:00")),
        ("transactionAmount", text("100")),
        ("transactionAmountCurrency", text("EUR")),
        ("creditorName", text("Joe Test")),
        ("remittanceInformation", text("Test transaction")),
    ])
}

#[test]
fn get_params() {
    let function = function("built-in", "lunchmoney.ts");
    construct(&function).unwrap();
}

#[test]
fn run_function() {
    let function = function("built-in", "lunchmoney.ts");
    let mut runtime = construct(&function).unwrap();
    let params = sample_params();
    let transaction = sample_transaction();
    let _result = run_with(
        &mut runtime,
        &params,
        &transaction,
        vec![
            EngineReply::Export(ExportShape::Function),
            EngineReply::Parsed(true),
            EngineReply::Parsed(true),
            EngineReply::Called(CallOutcome::Returned),
            EngineReply::Settled(Err("Requires net access to \"dev.lunchmoney.app\"".into())),
        ],
    );
}

#[test]
fn console_log() {
    let function = function(
        "user",
        "
            console.log(new Date());
            console.log('Hello world');
            console.log(true);
            console.log(false);
            console.log(1);
            ",
    );
    let mut runtime = construct(&function).unwrap();
    for line in ["2024-01-15T10:30:00.000Z", "Hello world", "true", "false", "1"] {
        runtime.print(&format!("{}\n", line), false);
    }
    let output = runtime.get_output();
    let lines: Vec<&str> = output.iter().map(|m| m.msg.as_str()).collect();
    assert_eq!(
        lines,
        vec!["2024-01-15T10:30:00.000Z", "Hello world", "true", "false", "1"]
    );
    assert!(output.iter().all(|m| !m.is_err));
}

#[test]
fn run_source_function() {
    let function = function(
        "source",
        "export default function () {
                    return 'ji';
                }",
    );
    let mut runtime = construct(&function).unwrap();
    let params = sample_params();
    let transaction = sample_transaction();
    run_with(&mut runtime, &params, &transaction, good_run("\"ji\"")).unwrap();
}

#[test]
fn external_dep() {
    let function = function(
        "user",
        r#"
            import { camelCase } from "https://deno.land/x/camelcase/mod.ts";
            export default async function() {
                console.log(camelCase)
                return camelCase("hello world");
            }
            "#,
    );
    let mut runtime = construct(&function).unwrap();

    // The import is resolved against the entry module and found to be remote.
    let entry = runtime.main_module().href.clone();
    let import = runtime
        .loader()
        .resolve("https://deno.land/x/camelcase/mod.ts", &entry)
        .unwrap();
    assert_eq!(import.href, "https://deno.land/x/camelcase/mod.ts");
    match runtime.loader().load(&import).unwrap() {
        LoadStep::Fetch(url) => assert_eq!(url, "https://deno.land/x/camelcase/mod.ts"),
        LoadStep::Loaded(_) => panic!("a remote module is never served from the table"),
    }
    let fetched = RemoteResponse {
        status: 200,
        content_type: Some(ContentType::Text("application/typescript; charset=utf-8".into())),
        body: Ok("export function camelCase(input: string): string { return input; }".into()),
    };
    let module = runtime.loader().load_fetched(&import, Ok(fetched)).unwrap();
    assert_eq!(module.module_type, ModuleType::JavaScript);
    assert!(module.code.contains("export function camelCase(input)"));

    runtime.print("[Function: camelCase]\n", false);
    let result = run_with(&mut runtime, "{}", "{}", good_run(r#""helloWorld""#)).unwrap();
    assert_eq!(r#""helloWorld""#, result);
    let output = runtime.get_output();
    assert_eq!(output.len(), 1);
    assert_eq!(output[0].msg, "[Function: camelCase]");
}

#[test]
fn construction_registers_user_source_under_index_ts() {
    let function = function("user", "export default () => 1;");
    let runtime = FunctionRuntime::new(&function).unwrap();
    assert_eq!(runtime.stage(), Stage::Constructed);
    assert_eq!(runtime.main_module().href, "https://localhost/index.ts");
    assert_eq!(runtime.main_module().path, "/index.ts");
    assert_eq!(runtime.main_module_id(), None);
    assert_eq!(
        runtime.loader().files.get("index.ts").map(|s| s.as_str()),
        Some("export default () => 1;")
    );
    assert_eq!(runtime.loader().files.len(), 1);
}

#[test]
fn built_in_is_served_from_the_bundle() {
    let function = function("built-in", "lunchmoney.ts");
    let runtime = FunctionRuntime::new(&function).unwrap();
    assert_eq!(runtime.main_module().href, "https://localhost/lunchmoney.ts");
    let served = runtime.loader().files.get("lunchmoney.ts").unwrap();
    assert_eq!(served, ultrafinance::functions::lunchmoney::source());
    assert_ne!(served, "lunchmoney.ts");
    assert!(runtime.loader().files.get("index.ts").is_none());
    assert_eq!(runtime.loader().files.len(), 1);
}

#[test]
fn sandbox_allows_nothing() {
    let runtime = FunctionRuntime::new(&function("user", "")).unwrap();
    let capabilities = runtime.capabilities();
    assert!(!capabilities.filesystem);
    assert!(!capabilities.inspector);
    assert!(capabilities.network.is_empty());
    assert!(capabilities.captures_stdio);
}

#[test]
fn bootstrap_makes_ready_once() {
    let mut runtime = FunctionRuntime::new(&function("user", "")).unwrap();
    runtime.bootstrap(Ok(3)).unwrap();
    assert_eq!(runtime.stage(), Stage::Ready);
    assert_eq!(runtime.main_module_id(), Some(3));
    assert!(matches!(runtime.bootstrap(Ok(4)), Err(RuntimeError::OutOfOrder)));
    assert_eq!(runtime.main_module_id(), Some(3));
}

#[test]
fn failed_bootstrap_breaks_the_runtime() {
    let mut runtime = FunctionRuntime::new(&function("user", "syntax error here")).unwrap();
    match runtime.bootstrap(Err("Unexpected identifier".into())) {
        Err(RuntimeError::Construction(message)) => assert_eq!(message, "Unexpected identifier"),
        other => panic!("unexpected: {:?}", other),
    }
    assert_eq!(runtime.stage(), Stage::Broken);
    assert!(matches!(
        runtime.run("{}", "{}"),
        EngineRequest::Finish(Err(RuntimeError::OutOfOrder))
    ));
    assert!(matches!(
        runtime.get_params(ParamsExport::Missing),
        Err(RuntimeError::OutOfOrder)
    ));
}

#[test]
fn doubling_scenario_returns_what_the_guest_wrote() {
    let function = function(
        "user",
        "export default function(params, payload) { return payload.amount * 2; }",
    );
    let mut runtime = construct(&function).unwrap();
    let result = run_with(&mut runtime, "{}", "{\"amount\": 21}", good_run("42"));
    assert_eq!(result.unwrap(), "42");
    assert_eq!(runtime.stage(), Stage::Completed);
}

#[test]
fn typescript_entry_is_transpiled_and_runs() {
    let function = function(
        "user",
        "export default function(p: any, x: any): string { return \"ji\"; }",
    );
    let mut runtime = construct(&function).unwrap();
    let entry = runtime.loader().resolve("https://localhost/index.ts", ".").unwrap();
    match runtime.loader().load(&entry).unwrap() {
        LoadStep::Loaded(module) => {
            assert_eq!(module.module_type, ModuleType::JavaScript);
            assert_eq!(module.specifier, "https://localhost/index.ts");
            assert!(module.code.contains("export default function(p, x)"));
            assert!(!module.code.contains(": any"));
            assert!(!module.code.contains("): string"));
        }
        LoadStep::Fetch(_) => panic!("the entry module is local"),
    }
    let result = run_with(&mut runtime, "{\"a\":[1,2]}", "null", good_run("\"ji\""));
    assert_eq!(result.unwrap(), "\"ji\"");
}

#[test]
fn json_passes_through_untouched() {
    let function = function("user", "export default (params, payload) => params");
    let mut runtime = construct(&function).unwrap();
    let params = "{ \"b\" : [1, 2.50, \"x\"],\n \"a\": {\"n\": null} }";
    assert!(matches!(runtime.run(params, "{}"), EngineRequest::LookupDefault));
    match runtime.step(EngineReply::Export(ExportShape::Function)) {
        EngineRequest::ParseParams(text) => assert_eq!(text, params),
        other => panic!("unexpected: {:?}", other),
    }
    match runtime.step(EngineReply::Parsed(true)) {
        EngineRequest::ParsePayload(text) => assert_eq!(text, "{}"),
        other => panic!("unexpected: {:?}", other),
    }
    assert!(matches!(runtime.step(EngineReply::Parsed(true)), EngineRequest::Call));
    assert!(matches!(
        runtime.step(EngineReply::Called(CallOutcome::Returned)),
        EngineRequest::Settle
    ));
    assert!(matches!(runtime.step(EngineReply::Settled(Ok(()))), EngineRequest::Stringify));
    let written = "{\"b\":[1,2.5,\"x\"],\"a\":{\"n\":null}}";
    match runtime.step(EngineReply::Stringified(Some(written.into()))) {
        EngineRequest::Finish(Ok(text)) => assert_eq!(text, written),
        other => panic!("unexpected: {:?}", other),
    }
    let sent: serde_json::Value = serde_json::from_str(params).unwrap();
    let got: serde_json::Value = serde_json::from_str(written).unwrap();
    assert_eq!(sent, got);
}

#[test]
fn missing_default_export_fails_the_run_not_the_construction() {
    let function = function("user", "export const params = {};");
    let mut runtime = construct(&function).unwrap();
    assert_eq!(runtime.stage(), Stage::Ready);
    let error = run_with(
        &mut runtime,
        "{}",
        "{}",
        vec![EngineReply::Export(ExportShape::Missing)],
    )
    .unwrap_err();
    assert!(matches!(error, RuntimeError::NoDefaultExport));
    assert_eq!(error.message(), "No default export function found.");
    assert_eq!(runtime.stage(), Stage::Failed);
}

#[test]
fn default_export_that_is_no_function_fails_the_run() {
    let function = function("user", "export default 42;");
    let mut runtime = construct(&function).unwrap();
    let error =
        run_with(&mut runtime, "{}", "{}", vec![EngineReply::Export(ExportShape::Other)])
            .unwrap_err();
    assert!(matches!(error, RuntimeError::NoDefaultExport));
}

#[test]
fn params_and_payload_fail_apart() {
    let function = function("user", "export default () => 1;");
    let mut runtime = construct(&function).unwrap();
    let error = run_with(
        &mut runtime,
        "{not json",
        "{}",
        vec![EngineReply::Export(ExportShape::Function), EngineReply::Parsed(false)],
    )
    .unwrap_err();
    assert!(matches!(error, RuntimeError::DecodeParams));
    assert_eq!(error.message(), "Error decoding params.");

    let mut runtime = construct(&function).unwrap();
    let error = run_with(
        &mut runtime,
        "{}",
        "{not json",
        vec![
            EngineReply::Export(ExportShape::Function),
            EngineReply::Parsed(true),
            EngineReply::Parsed(false),
        ],
    )
    .unwrap_err();
    assert!(matches!(error, RuntimeError::DecodePayload));
    assert_eq!(error.message(), "Error decoding payload.");
}

#[test]
fn throwing_guest_fails_the_run_with_what_it_threw() {
    let function = function(
        "user",
        "export default async function() { throw new Error('boom'); }",
    );
    // An async function hands back a promise that is rejected.
    let mut runtime = construct(&function).unwrap();
    let error = run_with(
        &mut runtime,
        "{}",
        "{}",
        vec![
            EngineReply::Export(ExportShape::Function),
            EngineReply::Parsed(true),
            EngineReply::Parsed(true),
            EngineReply::Called(CallOutcome::Returned),
            EngineReply::Settled(Err("Error: boom".into())),
        ],
    )
    .unwrap_err();
    match &error {
        RuntimeError::GuestFailed(thrown) => assert_eq!(thrown, "Error: boom"),
        other => panic!("unexpected: {:?}", other),
    }
    assert_eq!(error.message(), "guest execution failed: Error: boom");
    assert_eq!(runtime.stage(), Stage::Failed);

    // A plain function throws in the call itself. That is a failure too,
    // never an empty result.
    let mut runtime = construct(&function).unwrap();
    let result = run_with(
        &mut runtime,
        "{}",
        "{}",
        vec![
            EngineReply::Export(ExportShape::Function),
            EngineReply::Parsed(true),
            EngineReply::Parsed(true),
            EngineReply::Called(CallOutcome::Threw("Error: boom".into())),
        ],
    );
    assert_ne!(result.as_ref().ok().map(|s| s.as_str()), Some(""));
    assert_eq!(result.unwrap_err().message(), "guest execution failed: Error: boom");
}

#[test]
fn stopped_engine_and_empty_call_fail_the_run() {
    let function = function("user", "export default () => 1;");
    let opening = || {
        vec![
            EngineReply::Export(ExportShape::Function),
            EngineReply::Parsed(true),
            EngineReply::Parsed(true),
        ]
    };
    let mut runtime = construct(&function).unwrap();
    let mut script = opening();
    script.push(EngineReply::Called(CallOutcome::Terminated));
    let error = run_with(&mut runtime, "{}", "{}", script).unwrap_err();
    assert_eq!(error.message(), "guest execution failed: execution terminated");

    let mut runtime = construct(&function).unwrap();
    let mut script = opening();
    script.push(EngineReply::Called(CallOutcome::NoValue));
    let error = run_with(&mut runtime, "{}", "{}", script).unwrap_err();
    assert!(matches!(error, RuntimeError::NoResult));
    assert_eq!(error.message(), "No global promise found.");
}

#[test]
fn result_that_is_no_json_fails_the_run() {
    let function = function("user", "export default () => 1n;");
    let mut runtime = construct(&function).unwrap();
    let error = run_with(
        &mut runtime,
        "{}",
        "{}",
        vec![
            EngineReply::Export(ExportShape::Function),
            EngineReply::Parsed(true),
            EngineReply::Parsed(true),
            EngineReply::Called(CallOutcome::Returned),
            EngineReply::Settled(Ok(())),
            EngineReply::Stringified(None),
        ],
    )
    .unwrap_err();
    assert!(matches!(error, RuntimeError::Stringify));
    assert_eq!(error.message(), "Error stringifying result.");
}

#[test]
fn timeout_fails_the_run_at_any_step() {
    let function = function("user", "export default () => new Promise(() => {});");
    let mut runtime = construct(&function).unwrap();
    let error = run_with(
        &mut runtime,
        "{}",
        "{}",
        vec![
            EngineReply::Export(ExportShape::Function),
            EngineReply::Parsed(true),
            EngineReply::Parsed(true),
            EngineReply::Called(CallOutcome::Returned),
            EngineReply::TimedOut,
        ],
    )
    .unwrap_err();
    assert!(matches!(error, RuntimeError::Timeout));
    assert_eq!(error.message(), "failed: timeout");
    assert_eq!(runtime.stage(), Stage::Failed);

    let mut runtime = construct(&function).unwrap();
    let error = run_with(&mut runtime, "{}", "{}", vec![EngineReply::TimedOut]).unwrap_err();
    assert!(matches!(error, RuntimeError::Timeout));
}

#[test]
fn runtime_runs_once() {
    let function = function("user", "export default () => 1;");
    let mut runtime = construct(&function).unwrap();
    assert_eq!(run_with(&mut runtime, "{}", "{}", good_run("1")).unwrap(), "1");
    assert!(matches!(
        runtime.run("{}", "{}"),
        EngineRequest::Finish(Err(RuntimeError::OutOfOrder))
    ));
    assert!(matches!(
        runtime.step(EngineReply::Stringified(Some("2".into()))),
        EngineRequest::Finish(Err(RuntimeError::OutOfOrder))
    ));
    assert_eq!(runtime.stage(), Stage::Completed);
}

#[test]
fn answer_to_another_question_fails_the_run() {
    let function = function("user", "export default () => 1;");
    let mut runtime = construct(&function).unwrap();
    assert!(matches!(runtime.run("{}", "{}"), EngineRequest::LookupDefault));
    assert!(matches!(
        runtime.step(EngineReply::Parsed(true)),
        EngineRequest::Finish(Err(RuntimeError::OutOfOrder))
    ));
    assert_eq!(runtime.stage(), Stage::Failed);
}

#[test]
fn run_before_bootstrap_is_turned_away() {
    let mut runtime = FunctionRuntime::new(&function("user", "")).unwrap();
    assert!(matches!(
        runtime.run("{}", "{}"),
        EngineRequest::Finish(Err(RuntimeError::OutOfOrder))
    ));
    assert_eq!(runtime.stage(), Stage::Constructed);
    assert!(matches!(
        runtime.step(EngineReply::Export(ExportShape::Function)),
        EngineRequest::Finish(Err(RuntimeError::OutOfOrder))
    ));
    assert_eq!(runtime.stage(), Stage::Constructed);
}

#[test]
fn declared_params_are_read_twice_alike_and_print_nothing() {
    let function = function(
        "user",
        "export const params = {\"a\": {\"name\":\"A\",\"type\":\"string\"}}",
    );
    let mut runtime = construct(&function).unwrap();
    let declared = || {
        let mut params = FunctionParams::new();
        params.declare("a", "A", "string");
        ParamsExport::Declared(params)
    };
    let first = runtime.get_params(declared()).unwrap();
    let second = runtime.get_params(declared()).unwrap();
    assert_eq!(first.entries().len(), 1);
    assert_eq!(first.entries()[0].0, "a");
    assert_eq!(first.entries()[0].1.name, "A");
    assert_eq!(first.entries()[0].1.param_type, "string");
    assert_eq!(second.entries().len(), 1);
    assert_eq!(second.entries()[0].0, first.entries()[0].0);
    assert_eq!(second.entries()[0].1.name, first.entries()[0].1.name);
    assert_eq!(second.entries()[0].1.param_type, first.entries()[0].1.param_type);
    assert_eq!(runtime.stage(), Stage::Ready);
    assert!(runtime.get_output().is_empty());
}

#[test]
fn params_export_that_is_missing_or_odd_is_reported() {
    let mut runtime = construct(&function("user", "export default () => 1;")).unwrap();
    let missing = runtime.get_params(ParamsExport::Missing).unwrap_err();
    assert!(matches!(missing, RuntimeError::NoParamsExport));
    assert_eq!(missing.message(), "No params export found.");
    let odd = runtime.get_params(ParamsExport::NotObject).unwrap_err();
    assert!(matches!(odd, RuntimeError::NoParamsExport));
    match runtime.get_params(ParamsExport::Malformed("missing field `name`".into())) {
        Err(RuntimeError::MalformedParams(text)) => assert_eq!(text, "missing field `name`"),
        other => panic!("unexpected: {:?}", other.map(|_| ())),
    }
    // Reading the params is still possible once the function has run.
    run_with(&mut runtime, "{}", "{}", good_run("1")).unwrap();
    assert!(matches!(
        runtime.get_params(ParamsExport::Missing),
        Err(RuntimeError::NoParamsExport)
    ));
}

#[test]
fn console_lines_are_kept_without_their_line_feed() {
    let mut runtime = construct(&function("user", "export default () => 1;")).unwrap();
    runtime.print("a\n", false);
    runtime.print("b", true);
    runtime.print("two\nlines\n\n", false);
    runtime.print("\n", false);
    runtime.print("", false);
    let output = runtime.get_output();
    let lines: Vec<(&str, bool)> = output.iter().map(|m| (m.msg.as_str(), m.is_err)).collect();
    assert_eq!(
        lines,
        vec![("a", false), ("b", true), ("two\nlines\n", false), ("", false), ("", false)]
    );
}

#[test]
fn entry_module_is_local_whatever_the_source_is_called() {
    for name in ["lunchmoney.ts", "//evil.example/x.ts", "\\\\evil.example\\x.ts", "@evil.example/x.ts", "../../x.ts", ""] {
        let runtime = FunctionRuntime::new(&function("built-in", name)).unwrap();
        assert!(runtime.main_module().is_local(), "{}", name);
        assert_eq!(runtime.main_module().host.as_deref(), Some("localhost"), "{}", name);
        match runtime.loader().load(runtime.main_module()) {
            Ok(LoadStep::Fetch(url)) => panic!("{} would be fetched from {}", name, url),
            _ => {}
        }
    }
}

#[test]
fn typescript_behind_a_byte_order_mark_is_transpiled() {
    let source = "\u{FEFF}export default function(p: any): string { return \"ji\"; }";
    let runtime = construct(&function("user", source)).unwrap();
    match runtime.loader().load(runtime.main_module()).unwrap() {
        LoadStep::Loaded(module) => {
            assert!(module.code.contains("export default function(p)"));
            assert!(!module.code.contains('\u{FEFF}'));
        }
        LoadStep::Fetch(_) => panic!("the entry module is local"),
    }
    let twice = "\u{FEFF}\u{FEFF}export const n: number = 1;";
    let runtime = construct(&function("user", twice)).unwrap();
    match runtime.loader().load(runtime.main_module()).unwrap() {
        LoadStep::Loaded(module) => assert!(module.code.contains("export const n = 1;")),
        LoadStep::Fetch(_) => panic!("the entry module is local"),
    }
}

#[test]
fn output_comes_in_order_and_once() {
    let mut runtime = construct(&function("user", "export default () => 1;")).unwrap();
    runtime.print("a", false);
    let first = runtime.get_output();
    assert_eq!(first.len(), 1);
    assert_eq!((first[0].msg.as_str(), first[0].is_err), ("a", false));
    assert!(runtime.get_output().is_empty());
    runtime.print("b", false);
    runtime.print("c", true);
    let second = runtime.get_output();
    assert_eq!(second.len(), 2);
    assert_eq!((second[0].msg.as_str(), second[0].is_err), ("b", false));
    assert_eq!((second[1].msg.as_str(), second[1].is_err), ("c", true));
    assert!(runtime.get_output().is_empty());
}

#[test]
fn unregistered_import_is_not_found() {
    let function = function("user", "import \"./missing.ts\"; export default () => 1;");
    let runtime = FunctionRuntime::new(&function).unwrap();
    let import = runtime
        .loader()
        .resolve("./missing.ts", &runtime.main_module().href)
        .unwrap();
    assert_eq!(import.href, "https://localhost/missing.ts");
    match runtime.loader().load(&import) {
        Err(LoaderError::FileNotFound) => {}
        other => panic!("unexpected: {:?}", other),
    }
    assert_eq!(LoaderError::FileNotFound.message(), "File not found.");
}

#[test]
fn unregistered_import_fails_construction() {
    let function = function("user", "import \"./missing.ts\"; export default () => 1;");
    let mut runtime = FunctionRuntime::new(&function).unwrap();
    // The engine loads the entry module, comes upon the import, and cannot
    // load it: that ends the construction.
    let entry = runtime.loader().resolve("https://localhost/index.ts", ".").unwrap();
    assert!(matches!(runtime.loader().load(&entry), Ok(LoadStep::Loaded(_))));
    let import = runtime.loader().resolve("./missing.ts", &entry.href).unwrap();
    let error = runtime.loader().load(&import).unwrap_err();
    match runtime.bootstrap(Err(error.message())) {
        Err(error @ RuntimeError::Construction(_)) => {
            assert_eq!(error.message(), "File not found.")
        }
        other => panic!("unexpected: {:?}", other),
    }
    assert_eq!(runtime.stage(), Stage::Broken);
    assert_eq!(runtime.main_module_id(), None);
}
