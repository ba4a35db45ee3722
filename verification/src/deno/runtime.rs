//! The function runtime: one sandboxed engine instance per invocation, seen
//! from the host.
//!
//! The engine is driven from outside this library. The runtime decides what
//! the engine is asked next and what its answers mean: the driver performs
//! each `EngineRequest`, hands back the `EngineReply`, and goes on until it
//! is told to `Finish`.

use crate::deno::bridge::{messages_view, op_print, HostBridge, StdioMsg, StdioMsgView};
use crate::deno::loader::ModuleLoader;
use crate::deno::specifier::{parse_url, url_parse, ModuleSpecifier, ModuleSpecifierView};
use crate::functions::lunchmoney;
use crate::models::function::{Function, FunctionParamView, FunctionParams};
use crate::utils::str_eq;
use vstd::prelude::*;
use vstd::string::*;

verus! {

/// What an engine instance is allowed to do.
#[derive(Debug)]
pub struct Capabilities {
    /// Whether the guest may touch the file system.
    pub filesystem: bool,
    /// Whether a debugger may attach.
    pub inspector: bool,
    /// The hosts that the guest may contact.
    pub network: Vec<String>,
    /// Whether the guest's output goes to the host's bridge in place of the
    /// process's own streams.
    pub captures_stdio: bool,
}

impl Capabilities {
    /// Whether nothing is allowed: no file system, no debugger, no host on
    /// the network, and all output captured.
    pub open spec fn is_sandbox(&self) -> bool {
        &&& !self.filesystem
        &&& !self.inspector
        &&& self.network@.len() == 0
        &&& self.captures_stdio
    }

    /// The capability set of every function runtime.
    pub fn sandbox() -> (capabilities: Capabilities)
        ensures
            capabilities.is_sandbox(),
    {
        Capabilities {
            filesystem: false,
            inspector: false,
            network: Vec::new(),
            captures_stdio: true,
        }
    }
}

/// Why a runtime could not be built, read or run.
#[derive(Debug)]
pub enum RuntimeError {
    /// The entry module's URL does not parse; the text is the parser's.
    InvalidEntry(String),
    /// The engine could not load or evaluate the entry module.
    Construction(String),
    /// The module has no `params` export, or one that is no object.
    NoParamsExport,
    /// The `params` export does not have the shape of declared parameters.
    MalformedParams(String),
    /// The module has no `default` export, or one that cannot be called.
    NoDefaultExport,
    /// The params are not JSON.
    DecodeParams,
    /// The payload is not JSON.
    DecodePayload,
    /// The guest threw, its promise was rejected, or the engine was stopped
    /// under it.
    GuestFailed(String),
    /// The call came back without a value and without an exception.
    NoResult,
    /// The guest's result cannot be written as JSON.
    Stringify,
    /// The guest did not finish in the time it was given.
    Timeout,
    /// The runtime was asked for something that its stage does not allow.
    OutOfOrder,
}

/// A runtime error as a mathematical value.
pub enum RuntimeErrorView {
    InvalidEntry(Seq<char>),
    Construction(Seq<char>),
    NoParamsExport,
    MalformedParams(Seq<char>),
    NoDefaultExport,
    DecodeParams,
    DecodePayload,
    GuestFailed(Seq<char>),
    NoResult,
    Stringify,
    Timeout,
    OutOfOrder,
}

impl View for RuntimeError {
    type V = RuntimeErrorView;

    open spec fn view(&self) -> RuntimeErrorView {
        match self {
            RuntimeError::InvalidEntry(text) => RuntimeErrorView::InvalidEntry(text@),
            RuntimeError::Construction(text) => RuntimeErrorView::Construction(text@),
            RuntimeError::NoParamsExport => RuntimeErrorView::NoParamsExport,
            RuntimeError::MalformedParams(text) => RuntimeErrorView::MalformedParams(text@),
            RuntimeError::NoDefaultExport => RuntimeErrorView::NoDefaultExport,
            RuntimeError::DecodeParams => RuntimeErrorView::DecodeParams,
            RuntimeError::DecodePayload => RuntimeErrorView::DecodePayload,
            RuntimeError::GuestFailed(text) => RuntimeErrorView::GuestFailed(text@),
            RuntimeError::NoResult => RuntimeErrorView::NoResult,
            RuntimeError::Stringify => RuntimeErrorView::Stringify,
            RuntimeError::Timeout => RuntimeErrorView::Timeout,
            RuntimeError::OutOfOrder => RuntimeErrorView::OutOfOrder,
        }
    }
}

/// What an error says of itself.
pub open spec fn spec_message(error: RuntimeErrorView) -> Seq<char> {
    match error {
        RuntimeErrorView::InvalidEntry(text) => text,
        RuntimeErrorView::Construction(text) => text,
        RuntimeErrorView::NoParamsExport => "No params export found."@,
        RuntimeErrorView::MalformedParams(text) => text,
        RuntimeErrorView::NoDefaultExport => "No default export function found."@,
        RuntimeErrorView::DecodeParams => "Error decoding params."@,
        RuntimeErrorView::DecodePayload => "Error decoding payload."@,
        RuntimeErrorView::GuestFailed(text) => "guest execution failed: "@ + text,
        RuntimeErrorView::NoResult => "No global promise found."@,
        RuntimeErrorView::Stringify => "Error stringifying result."@,
        RuntimeErrorView::Timeout => "failed: timeout"@,
        RuntimeErrorView::OutOfOrder => "The runtime is not ready for this."@,
    }
}

impl RuntimeError {
    /// What the error says of itself.
    pub fn message(&self) -> (text: String)
        ensures
            text@ == spec_message(self@),
    {
        match self {
            RuntimeError::InvalidEntry(text) => text.clone(),
            RuntimeError::Construction(text) => text.clone(),
            RuntimeError::NoParamsExport => "No params export found.".to_owned(),
            RuntimeError::MalformedParams(text) => text.clone(),
            RuntimeError::NoDefaultExport => "No default export function found.".to_owned(),
            RuntimeError::DecodeParams => "Error decoding params.".to_owned(),
            RuntimeError::DecodePayload => "Error decoding payload.".to_owned(),
            RuntimeError::GuestFailed(text) => {
                let mut message = "guest execution failed: ".to_owned();
                message.append(text.as_str());
                message
            },
            RuntimeError::NoResult => "No global promise found.".to_owned(),
            RuntimeError::Stringify => "Error stringifying result.".to_owned(),
            RuntimeError::Timeout => "failed: timeout".to_owned(),
            RuntimeError::OutOfOrder => "The runtime is not ready for this.".to_owned(),
        }
    }
}

/// Where a runtime stands in its life.
#[derive(Clone, Copy, Debug, PartialEq, Eq, Structural)]
pub enum Stage {
    /// Built; the engine has not evaluated the entry module yet.
    Constructed,
    /// The engine could not evaluate the entry module. Nothing can be done
    /// with the runtime any more.
    Broken,
    /// The entry module is evaluated; the function can be run.
    Ready,
    /// Running: the `default` export is being looked up.
    AwaitingExport,
    /// Running: the guest is parsing the params.
    AwaitingParams,
    /// Running: the guest is parsing the payload.
    AwaitingPayload,
    /// Running: the function is being called.
    AwaitingCall,
    /// Running: the returned promise is settling.
    AwaitingSettle,
    /// Running: the guest is writing the result as JSON.
    AwaitingText,
    /// The run came to a result.
    Completed,
    /// The run failed.
    Failed,
}

impl Stage {
    /// Whether a run is under way.
    pub open spec fn running(self) -> bool {
        match self {
            Stage::AwaitingExport
            | Stage::AwaitingParams
            | Stage::AwaitingPayload
            | Stage::AwaitingCall
            | Stage::AwaitingSettle
            | Stage::AwaitingText => true,
            _ => false,
        }
    }

    /// Whether the entry module is evaluated, so that its exports can be
    /// read.
    pub open spec fn evaluated(self) -> bool {
        self != Stage::Constructed && self != Stage::Broken
    }
}

/// What the default export of a module turned out to be.
#[derive(Clone, Copy, Debug, PartialEq, Eq, Structural)]
pub enum ExportShape {
    /// There is no such export.
    Missing,
    /// There is one, and it cannot be called.
    Other,
    /// There is one, and it is a function.
    Function,
}

/// How a call of the guest's function ended.
#[derive(Debug)]
pub enum CallOutcome {
    /// It returned a value, most often a promise.
    Returned,
    /// It threw; the text is the exception's.
    Threw(String),
    /// The engine was stopped under it.
    Terminated,
    /// It came back with neither a value nor an exception.
    NoValue,
}

/// What the engine answers to a request.
#[derive(Debug)]
pub enum EngineReply {
    /// To `LookupDefault`: what the export is.
    Export(ExportShape),
    /// To `ParseParams` and `ParsePayload`: whether the guest's JSON parser
    /// took the text.
    Parsed(bool),
    /// To `Call`: how the call ended.
    Called(CallOutcome),
    /// To `Settle`: that the promise was fulfilled, or why it was not.
    Settled(Result<(), String>),
    /// To `Stringify`: the result as JSON, where the guest's JSON writer
    /// gave any.
    Stringified(Option<String>),
    /// To any request of a run: the time was up before the answer came, and
    /// the engine has been stopped.
    TimedOut,
}

/// An engine reply as a mathematical value.
pub enum EngineReplyView {
    Export(ExportShape),
    Parsed(bool),
    Returned,
    Threw(Seq<char>),
    Terminated,
    NoValue,
    Settled(Result<(), Seq<char>>),
    Stringified(Option<Seq<char>>),
    TimedOut,
}

impl View for EngineReply {
    type V = EngineReplyView;

    open spec fn view(&self) -> EngineReplyView {
        match self {
            EngineReply::Export(shape) => EngineReplyView::Export(*shape),
            EngineReply::Parsed(taken) => EngineReplyView::Parsed(*taken),
            EngineReply::Called(CallOutcome::Returned) => EngineReplyView::Returned,
            EngineReply::Called(CallOutcome::Threw(text)) => EngineReplyView::Threw(text@),
            EngineReply::Called(CallOutcome::Terminated) => EngineReplyView::Terminated,
            EngineReply::Called(CallOutcome::NoValue) => EngineReplyView::NoValue,
            EngineReply::Settled(Ok(_)) => EngineReplyView::Settled(Ok(())),
            EngineReply::Settled(Err(text)) => EngineReplyView::Settled(Err(text@)),
            EngineReply::Stringified(Some(text)) => EngineReplyView::Stringified(Some(text@)),
            EngineReply::Stringified(None) => EngineReplyView::Stringified(None),
            EngineReply::TimedOut => EngineReplyView::TimedOut,
        }
    }
}

/// What the driver is to do next.
#[derive(Debug)]
pub enum EngineRequest {
    /// Read the export named `default` from the entry module's namespace.
    LookupDefault,
    /// Have the guest's own JSON parser read this text as the params.
    ParseParams(String),
    /// Have the guest's own JSON parser read this text as the payload.
    ParsePayload(String),
    /// Call the default export with the parsed params and payload, catching
    /// what it throws.
    Call,
    /// Drive the event loop until the returned promise has settled.
    Settle,
    /// Have the guest's own JSON writer write the settled value.
    Stringify,
    /// Nothing: the run is over, and this is what it came to.
    Finish(Result<String, RuntimeError>),
}

/// An engine request as a mathematical value.
pub enum EngineRequestView {
    LookupDefault,
    ParseParams(Seq<char>),
    ParsePayload(Seq<char>),
    Call,
    Settle,
    Stringify,
    Finish(Result<Seq<char>, RuntimeErrorView>),
}

impl View for EngineRequest {
    type V = EngineRequestView;

    open spec fn view(&self) -> EngineRequestView {
        match self {
            EngineRequest::LookupDefault => EngineRequestView::LookupDefault,
            EngineRequest::ParseParams(text) => EngineRequestView::ParseParams(text@),
            EngineRequest::ParsePayload(text) => EngineRequestView::ParsePayload(text@),
            EngineRequest::Call => EngineRequestView::Call,
            EngineRequest::Settle => EngineRequestView::Settle,
            EngineRequest::Stringify => EngineRequestView::Stringify,
            EngineRequest::Finish(Ok(text)) => EngineRequestView::Finish(Ok(text@)),
            EngineRequest::Finish(Err(error)) => EngineRequestView::Finish(Err(error@)),
        }
    }
}

/// What is said where the engine was stopped under a call.
pub open spec fn terminated_text() -> Seq<char> {
    "execution terminated"@
}

/// A failed run: the stage it leaves and the request that ends it.
pub open spec fn fails(error: RuntimeErrorView) -> (Stage, EngineRequestView) {
    (Stage::Failed, EngineRequestView::Finish(Err(error)))
}

/// The protocol of a run: the stage that a reply leads to from a stage, and
/// what the driver is asked next. A run asks, in this order, for the default
/// export, for the params and the payload to be parsed, for the call, for
/// the promise to settle and for the result as JSON; the first answer that
/// is not the good one ends it with the error that names the step. A reply
/// that answers no pending request fails a run that is under way, and is
/// turned away with no change outside of one.
pub open spec fn spec_step(
    stage: Stage,
    params: Seq<char>,
    payload: Seq<char>,
    reply: EngineReplyView,
) -> (Stage, EngineRequestView) {
    if !stage.running() {
        (stage, EngineRequestView::Finish(Err(RuntimeErrorView::OutOfOrder)))
    } else if reply is TimedOut {
        fails(RuntimeErrorView::Timeout)
    } else {
        match (stage, reply) {
            (Stage::AwaitingExport, EngineReplyView::Export(ExportShape::Function)) => (
                Stage::AwaitingParams,
                EngineRequestView::ParseParams(params),
            ),
            (Stage::AwaitingExport, EngineReplyView::Export(_)) => fails(
                RuntimeErrorView::NoDefaultExport,
            ),
            (Stage::AwaitingParams, EngineReplyView::Parsed(true)) => (
                Stage::AwaitingPayload,
                EngineRequestView::ParsePayload(payload),
            ),
            (Stage::AwaitingParams, EngineReplyView::Parsed(false)) => fails(
                RuntimeErrorView::DecodeParams,
            ),
            (Stage::AwaitingPayload, EngineReplyView::Parsed(true)) => (
                Stage::AwaitingCall,
                EngineRequestView::Call,
            ),
            (Stage::AwaitingPayload, EngineReplyView::Parsed(false)) => fails(
                RuntimeErrorView::DecodePayload,
            ),
            (Stage::AwaitingCall, EngineReplyView::Returned) => (
                Stage::AwaitingSettle,
                EngineRequestView::Settle,
            ),
            (Stage::AwaitingCall, EngineReplyView::Threw(text)) => fails(
                RuntimeErrorView::GuestFailed(text),
            ),
            (Stage::AwaitingCall, EngineReplyView::Terminated) => fails(
                RuntimeErrorView::GuestFailed(terminated_text()),
            ),
            (Stage::AwaitingCall, EngineReplyView::NoValue) => fails(RuntimeErrorView::NoResult),
            (Stage::AwaitingSettle, EngineReplyView::Settled(Ok(_))) => (
                Stage::AwaitingText,
                EngineRequestView::Stringify,
            ),
            (Stage::AwaitingSettle, EngineReplyView::Settled(Err(text))) => fails(
                RuntimeErrorView::GuestFailed(text),
            ),
            (Stage::AwaitingText, EngineReplyView::Stringified(Some(text))) => (
                Stage::Completed,
                EngineRequestView::Finish(Ok(text)),
            ),
            (Stage::AwaitingText, EngineReplyView::Stringified(None)) => fails(
                RuntimeErrorView::Stringify,
            ),
            _ => fails(RuntimeErrorView::OutOfOrder),
        }
    }
}

/// A message of the guest's console as it is kept: the text without the one
/// line feed that the console puts behind each message.
pub open spec fn line_of(text: Seq<char>) -> Seq<char> {
    if text.len() > 0 && text.last() == '\n' {
        text.drop_last()
    } else {
        text
    }
}

/// What the `params` export of a module turned out to be.
#[derive(Debug)]
pub enum ParamsExport {
    /// There is no such export.
    Missing,
    /// There is one, and it is no object.
    NotObject,
    /// There is an object, and it does not read as declared parameters; the
    /// text says what is wrong with it.
    Malformed(String),
    /// The declared parameters.
    Declared(FunctionParams),
}

/// A `params` export as a mathematical value.
pub enum ParamsExportView {
    Missing,
    NotObject,
    Malformed(Seq<char>),
    Declared(Seq<(Seq<char>, FunctionParamView)>),
}

impl View for ParamsExport {
    type V = ParamsExportView;

    open spec fn view(&self) -> ParamsExportView {
        match self {
            ParamsExport::Missing => ParamsExportView::Missing,
            ParamsExport::NotObject => ParamsExportView::NotObject,
            ParamsExport::Malformed(text) => ParamsExportView::Malformed(text@),
            ParamsExport::Declared(params) => ParamsExportView::Declared(params@),
        }
    }
}

/// What reading the declared parameters comes to, at a stage and for what
/// the export turned out to be.
pub open spec fn spec_get_params(stage: Stage, export: ParamsExportView) -> Result<
    Seq<(Seq<char>, FunctionParamView)>,
    RuntimeErrorView,
> {
    if !stage.evaluated() {
        Err(RuntimeErrorView::OutOfOrder)
    } else {
        match export {
            ParamsExportView::Missing => Err(RuntimeErrorView::NoParamsExport),
            ParamsExportView::NotObject => Err(RuntimeErrorView::NoParamsExport),
            ParamsExportView::Malformed(text) => Err(RuntimeErrorView::MalformedParams(text)),
            ParamsExportView::Declared(params) => Ok(params),
        }
    }
}

/// The file name under which the code of a user's function is served.
pub open spec fn user_entry() -> Seq<char> {
    "index.ts"@
}

/// The type of function whose code is a bundled script.
pub open spec fn builtin_type() -> Seq<char> {
    "built-in"@
}

/// The synthetic origin that entry modules are anchored to.
pub open spec fn entry_origin() -> Seq<char> {
    "https://localhost/"@
}

/// The file name of a function's entry module: for a built-in the name that
/// its `source` gives, for every other function `index.ts`.
pub open spec fn entry_file(function_type: Seq<char>, source: Seq<char>) -> Seq<char> {
    if function_type == builtin_type() {
        source
    } else {
        user_entry()
    }
}

/// The text served as a function's entry module: for a built-in the bundled
/// script, for every other function its `source`.
pub open spec fn entry_text(function_type: Seq<char>, source: Seq<char>) -> Seq<char> {
    if function_type == builtin_type() {
        lunchmoney::spec_source()
    } else {
        source
    }
}

/// What is said of an entry module that would have to be fetched.
pub open spec fn not_local_text() -> Seq<char> {
    "The entry module is not served from the module table."@
}

/// The entry module of a function: the URL that its file name makes under
/// the synthetic origin. It has to parse, and it has to be local, so that it
/// is served from the module table and never fetched.
pub open spec fn spec_entry(function_type: Seq<char>, source: Seq<char>) -> Result<
    ModuleSpecifierView,
    RuntimeErrorView,
> {
    match url_parse(entry_origin() + entry_file(function_type, source)) {
        Err(complaint) => Err(RuntimeErrorView::InvalidEntry(complaint)),
        Ok(module) => if module.is_local() {
            Ok(module)
        } else {
            Err(RuntimeErrorView::InvalidEntry(not_local_text()))
        },
    }
}

/// The host's side of one sandboxed engine instance.
pub struct FunctionRuntime {
    loader: ModuleLoader,
    main_module: ModuleSpecifier,
    main_module_id: usize,
    capabilities: Capabilities,
    bridge: HostBridge,
    stage: Stage,
    params: String,
    payload: String,
}

/// A runtime as a mathematical value.
pub struct FunctionRuntimeView {
    /// The module table: text by file name.
    pub files: Map<Seq<char>, Seq<char>>,
    /// The entry module.
    pub main_module: ModuleSpecifierView,
    /// The engine's handle on the evaluated entry module.
    pub main_module_id: usize,
    /// Whether the engine is held to the sandbox.
    pub sandboxed: bool,
    /// The guest output that nobody has collected, oldest first.
    pub queued: Seq<StdioMsgView>,
    pub stage: Stage,
    /// The params of the run, as they were handed in.
    pub params: Seq<char>,
    /// The payload of the run, as it was handed in.
    pub payload: Seq<char>,
}

impl View for FunctionRuntime {
    type V = FunctionRuntimeView;

    closed spec fn view(&self) -> FunctionRuntimeView {
        FunctionRuntimeView {
            files: self.loader@,
            main_module: self.main_module@,
            main_module_id: self.main_module_id,
            sandboxed: self.capabilities.is_sandbox(),
            queued: self.bridge@,
            stage: self.stage,
            params: self.params@,
            payload: self.payload@,
        }
    }
}

impl FunctionRuntime {
    /// Builds the runtime of a function: the module table with the one entry
    /// module in it, the entry module's URL under the synthetic origin, and
    /// the sandbox's capability set. For a built-in the entry module is the
    /// bundled script under the file name that `source` gives; for every
    /// other function it is `source` itself under `index.ts`. Fails only
    /// where that URL does not parse or is not local.
    pub fn new(function: &Function) -> (built: Result<FunctionRuntime, RuntimeError>)
        ensures
            match built {
                Ok(runtime) => {
                    &&& spec_entry(function.function_type@, function.source@) == Ok::<
                        ModuleSpecifierView,
                        RuntimeErrorView,
                    >(runtime@.main_module)
                    &&& runtime@.main_module.is_local()
                    &&& runtime@.files == Map::<Seq<char>, Seq<char>>::empty().insert(
                        entry_file(function.function_type@, function.source@),
                        entry_text(function.function_type@, function.source@),
                    )
                    &&& runtime@.sandboxed
                    &&& runtime@.queued == Seq::<StdioMsgView>::empty()
                    &&& runtime@.stage == Stage::Constructed
                },
                Err(error) => spec_entry(function.function_type@, function.source@) == Err::<
                    ModuleSpecifierView,
                    RuntimeErrorView,
                >(error@),
            },
    {
        let mut loader = ModuleLoader::new();
        let mut url = "https://localhost/".to_owned();
        if str_eq(function.function_type.as_str(), "built-in") {
            loader.register(function.source.as_str(), lunchmoney::source());
            url.append(function.source.as_str());
        } else {
            loader.register("index.ts", function.source.as_str());
            url.append("index.ts");
        }
        match parse_url(url.as_str()) {
            Err(complaint) => Err(RuntimeError::InvalidEntry(complaint)),
            Ok(main_module) => {
                if !main_module.is_local() {
                    return Err(
                        RuntimeError::InvalidEntry(
                            "The entry module is not served from the module table.".to_owned(),
                        ),
                    );
                }
                Ok(
                    FunctionRuntime {
                        loader,
                        main_module,
                        main_module_id: 0,
                        capabilities: Capabilities::sandbox(),
                        bridge: HostBridge::new(),
                        stage: Stage::Constructed,
                        params: String::new(),
                        payload: String::new(),
                    },
                )
            },
        }
    }

    /// The module table that the engine's loader is to serve from.
    pub fn loader(&self) -> (loader: &ModuleLoader)
        ensures
            loader@ == self@.files,
    {
        &self.loader
    }

    /// The entry module.
    pub fn main_module(&self) -> (module: &ModuleSpecifier)
        ensures
            module@ == self@.main_module,
    {
        &self.main_module
    }

    /// The capability set that the engine is to be bootstrapped with.
    pub fn capabilities(&self) -> (capabilities: &Capabilities)
        ensures
            capabilities.is_sandbox() == self@.sandboxed,
    {
        &self.capabilities
    }

    /// Where the runtime stands.
    pub fn stage(&self) -> (stage: Stage)
        ensures
            stage == self@.stage,
    {
        self.stage
    }

    /// The engine's handle on the entry module, once it is evaluated.
    pub fn main_module_id(&self) -> (id: Option<usize>)
        ensures
            id == if self@.stage.evaluated() {
                Some(self@.main_module_id)
            } else {
                None
            },
    {
        match self.stage {
            Stage::Constructed | Stage::Broken => None,
            _ => Some(self.main_module_id),
        }
    }

    /// Takes note of how the engine fared with the entry module: it was
    /// bootstrapped with the runtime's capability set, has loaded the
    /// module's graph through the runtime's loader, evaluated the module and
    /// let the event loop run once, and hands in its handle on the module;
    /// or one of these steps failed, and it hands in why. The first makes
    /// the runtime ready; the second breaks it for good. A runtime that has
    /// been told before takes no second telling.
    pub fn bootstrap(&mut self, evaluated: Result<usize, String>) -> (done: Result<
        (),
        RuntimeError,
    >)
        ensures
            old(self)@.stage == Stage::Constructed ==> match evaluated {
                Ok(id) => done is Ok && final(self)@ == (FunctionRuntimeView {
                    stage: Stage::Ready,
                    main_module_id: id,
                    ..old(self)@
                }),
                Err(complaint) => {
                    &&& done matches Err(error)
                    &&& error@ == RuntimeErrorView::Construction(complaint@)
                    &&& final(self)@ == (FunctionRuntimeView { stage: Stage::Broken, ..old(self)@ })
                },
            },
            old(self)@.stage != Stage::Constructed ==> {
                &&& done matches Err(error)
                &&& error@ == RuntimeErrorView::OutOfOrder
                &&& final(self)@ == old(self)@
            },
    {
        match self.stage {
            Stage::Constructed => match evaluated {
                Ok(id) => {
                    self.main_module_id = id;
                    self.stage = Stage::Ready;
                    Ok(())
                },
                Err(complaint) => {
                    self.stage = Stage::Broken;
                    Err(RuntimeError::Construction(complaint))
                },
            },
            _ => Err(RuntimeError::OutOfOrder),
        }
    }

    /// Reads the parameters that the module declares, from what its `params`
    /// export turned out to be. An export that is missing or no object is
    /// reported as no export; one of the wrong shape with what is wrong.
    /// Nothing runs and nothing changes, so this can be asked as often as
    /// one likes, once the module is evaluated.
    pub fn get_params(&self, export: ParamsExport) -> (declared: Result<
        FunctionParams,
        RuntimeError,
    >)
        ensures
            match declared {
                Ok(params) => spec_get_params(self@.stage, export@) == Ok::<
                    Seq<(Seq<char>, FunctionParamView)>,
                    RuntimeErrorView,
                >(params@),
                Err(error) => spec_get_params(self@.stage, export@) == Err::<
                    Seq<(Seq<char>, FunctionParamView)>,
                    RuntimeErrorView,
                >(error@),
            },
    {
        match self.stage {
            Stage::Constructed | Stage::Broken => Err(RuntimeError::OutOfOrder),
            _ => match export {
                ParamsExport::Missing => Err(RuntimeError::NoParamsExport),
                ParamsExport::NotObject => Err(RuntimeError::NoParamsExport),
                ParamsExport::Malformed(text) => Err(RuntimeError::MalformedParams(text)),
                ParamsExport::Declared(params) => Ok(params),
            },
        }
    }

    /// Starts the one run of a ready runtime on JSON params and a JSON
    /// payload. Both texts are kept as they are: only the guest's own parser
    /// ever reads them. The driver is asked for the default export first. A
    /// runtime that is not ready, or has run before, is left as it is.
    pub fn run(&mut self, params: &str, payload: &str) -> (request: EngineRequest)
        ensures
            old(self)@.stage == Stage::Ready ==> {
                &&& request@ == EngineRequestView::LookupDefault
                &&& final(self)@ == (FunctionRuntimeView {
                    stage: Stage::AwaitingExport,
                    params: params@,
                    payload: payload@,
                    ..old(self)@
                })
            },
            old(self)@.stage != Stage::Ready ==> {
                &&& request@ == EngineRequestView::Finish(Err(RuntimeErrorView::OutOfOrder))
                &&& final(self)@ == old(self)@
            },
    {
        match self.stage {
            Stage::Ready => {
                self.params = params.to_owned();
                self.payload = payload.to_owned();
                self.stage = Stage::AwaitingExport;
                EngineRequest::LookupDefault
            },
            _ => EngineRequest::Finish(Err(RuntimeError::OutOfOrder)),
        }
    }

    /// Takes the engine's answer to the pending request and says what is to
    /// be done next, as `spec_step` lays down. Nothing but the stage
    /// changes.
    pub fn step(&mut self, reply: EngineReply) -> (request: EngineRequest)
        ensures
            ({
                let next = spec_step(
                    old(self)@.stage,
                    old(self)@.params,
                    old(self)@.payload,
                    reply@,
                );
                &&& request@ == next.1
                &&& final(self)@ == (FunctionRuntimeView { stage: next.0, ..old(self)@ })
            }),
    {
        let stage = self.stage;
        let (next, request) = match stage {
            Stage::Constructed | Stage::Broken | Stage::Ready | Stage::Completed | Stage::Failed => (
                stage,
                EngineRequest::Finish(Err(RuntimeError::OutOfOrder)),
            ),
            _ => match reply {
                EngineReply::TimedOut => failed(RuntimeError::Timeout),
                EngineReply::Export(shape) => match (stage, shape) {
                    (Stage::AwaitingExport, ExportShape::Function) => (
                        Stage::AwaitingParams,
                        EngineRequest::ParseParams(self.params.clone()),
                    ),
                    (Stage::AwaitingExport, _) => failed(RuntimeError::NoDefaultExport),
                    _ => failed(RuntimeError::OutOfOrder),
                },
                EngineReply::Parsed(taken) => match (stage, taken) {
                    (Stage::AwaitingParams, true) => (
                        Stage::AwaitingPayload,
                        EngineRequest::ParsePayload(self.payload.clone()),
                    ),
                    (Stage::AwaitingParams, false) => failed(RuntimeError::DecodeParams),
                    (Stage::AwaitingPayload, true) => (Stage::AwaitingCall, EngineRequest::Call),
                    (Stage::AwaitingPayload, false) => failed(RuntimeError::DecodePayload),
                    _ => failed(RuntimeError::OutOfOrder),
                },
                EngineReply::Called(outcome) => match stage {
                    Stage::AwaitingCall => match outcome {
                        CallOutcome::Returned => (Stage::AwaitingSettle, EngineRequest::Settle),
                        CallOutcome::Threw(text) => failed(RuntimeError::GuestFailed(text)),
                        CallOutcome::Terminated => failed(
                            RuntimeError::GuestFailed("execution terminated".to_owned()),
                        ),
                        CallOutcome::NoValue => failed(RuntimeError::NoResult),
                    },
                    _ => failed(RuntimeError::OutOfOrder),
                },
                EngineReply::Settled(settled) => match stage {
                    Stage::AwaitingSettle => match settled {
                        Ok(_) => (Stage::AwaitingText, EngineRequest::Stringify),
                        Err(text) => failed(RuntimeError::GuestFailed(text)),
                    },
                    _ => failed(RuntimeError::OutOfOrder),
                },
                EngineReply::Stringified(written) => match stage {
                    Stage::AwaitingText => match written {
                        Some(text) => (Stage::Completed, EngineRequest::Finish(Ok(text))),
                        None => failed(RuntimeError::Stringify),
                    },
                    _ => failed(RuntimeError::OutOfOrder),
                },
            },
        };
        self.stage = next;
        request
    }

    /// Queues one message of guest output on the runtime's bridge, without
    /// the line feed that the guest's console puts behind it.
    pub fn print(&mut self, msg: &str, is_err: bool)
        ensures
            final(self)@ == (FunctionRuntimeView {
                queued: old(self)@.queued.push(StdioMsgView { msg: line_of(msg@), is_err }),
                ..old(self)@
            }),
    {
        let len: usize = msg.unicode_len();
        let line = if len > 0 && msg.get_char(len - 1) == '\n' {
            msg.substring_char(0, len - 1)
        } else {
            msg
        };
        assert(line@ =~= line_of(msg@));
        op_print(&mut self.bridge, line, is_err);
    }

    /// Collects the guest output that is queued, oldest first, and leaves
    /// the queue empty. Never waits for more.
    pub fn get_output(&mut self) -> (output: Vec<StdioMsg>)
        ensures
            messages_view(output@) == old(self)@.queued,
            final(self)@ == (FunctionRuntimeView {
                queued: Seq::<StdioMsgView>::empty(),
                ..old(self)@
            }),
    {
        self.bridge.drain()
    }
}

/// A failed run: the stage it leaves and the request that ends it.
fn failed(error: RuntimeError) -> (end: (Stage, EngineRequest))
    ensures
        (end.0, end.1@) == fails(error@),
{
    (Stage::Failed, EngineRequest::Finish(Err(error)))
}

/// An entry module without a callable `default` export is found out at the
/// run and not before: whatever the params and the payload, the lookup that
/// opens a run ends it with the error that names the missing function.
pub proof fn lemma_default_export_is_missed_at_run(
    params: Seq<char>,
    payload: Seq<char>,
    shape: ExportShape,
)
    requires
        shape != ExportShape::Function,
    ensures
        spec_step(Stage::AwaitingExport, params, payload, EngineReplyView::Export(shape)) == fails(
            RuntimeErrorView::NoDefaultExport,
        ),
        spec_message(RuntimeErrorView::NoDefaultExport)
            == "No default export function found."@,
{
}

/// Reading the declared parameters is a pure read. Once the entry module
/// is evaluated, the answer goes by the export alone: it is the same before,
/// during and after the run, however often it is asked for, and it is the
/// declared parameters themselves where the export holds any.
pub proof fn lemma_get_params_repeats(first: Stage, second: Stage, export: ParamsExportView)
    requires
        first.evaluated(),
        second.evaluated(),
    ensures
        spec_get_params(first, export) == spec_get_params(second, export),
        export matches ParamsExportView::Declared(params) ==> spec_get_params(first, export)
            == Ok::<Seq<(Seq<char>, FunctionParamView)>, RuntimeErrorView>(params),
        !(export is Declared) ==> spec_get_params(first, export) is Err,
{
}

/// JSON passes through the host untouched. In a run in which every step
/// goes well, the guest's parser is handed the params and the payload
/// exactly as the caller gave them, and the caller gets the text of the
/// guest's JSON writer exactly as the guest wrote it.
pub proof fn lemma_run_hands_json_through(
    params: Seq<char>,
    payload: Seq<char>,
    written: Seq<char>,
)
    ensures
        ({
            let looked = spec_step(
                Stage::AwaitingExport,
                params,
                payload,
                EngineReplyView::Export(ExportShape::Function),
            );
            let parsed = spec_step(looked.0, params, payload, EngineReplyView::Parsed(true));
            let both = spec_step(parsed.0, params, payload, EngineReplyView::Parsed(true));
            let called = spec_step(both.0, params, payload, EngineReplyView::Returned);
            let settled = spec_step(called.0, params, payload, EngineReplyView::Settled(Ok(())));
            let ended = spec_step(
                settled.0,
                params,
                payload,
                EngineReplyView::Stringified(Some(written)),
            );
            &&& looked.1 == EngineRequestView::ParseParams(params)
            &&& parsed.1 == EngineRequestView::ParsePayload(payload)
            &&& both.1 == EngineRequestView::Call
            &&& called.1 == EngineRequestView::Settle
            &&& settled.1 == EngineRequestView::Stringify
            &&& ended == (Stage::Completed, EngineRequestView::Finish(Ok(written)))
        }),
{
}

/// A guest that throws fails the run, and the run's error carries what was
/// thrown: in the call itself, or later through the promise it returned.
pub proof fn lemma_guest_exception_fails_run(
    params: Seq<char>,
    payload: Seq<char>,
    thrown: Seq<char>,
)
    ensures
        spec_step(Stage::AwaitingCall, params, payload, EngineReplyView::Threw(thrown)) == fails(
            RuntimeErrorView::GuestFailed(thrown),
        ),
        spec_step(Stage::AwaitingSettle, params, payload, EngineReplyView::Settled(Err(thrown)))
            == fails(RuntimeErrorView::GuestFailed(thrown)),
        spec_message(RuntimeErrorView::GuestFailed(thrown)) == "guest execution failed: "@
            + thrown,
{
}

/// A runtime runs once. A step never leads back to a stage from which a run
/// can be started, and the step that ends a run, and no other, hands out
/// its result.
pub proof fn lemma_runtime_is_single_use(
    stage: Stage,
    params: Seq<char>,
    payload: Seq<char>,
    reply: EngineReplyView,
)
    ensures
        ({
            let next = spec_step(stage, params, payload, reply);
            &&& stage != Stage::Ready ==> next.0 != Stage::Ready
            &&& stage.running() ==> (next.0.running() <==> !(next.1 is Finish))
            &&& stage.running() && next.1 is Finish ==> (next.0 == Stage::Completed
                <==> next.1->Finish_0 is Ok)
            &&& !stage.running() ==> next == (
                stage,
                EngineRequestView::Finish(Err(RuntimeErrorView::OutOfOrder)),
            )
        }),
{
}

/// A built-in function is served from the bundle: its entry module goes by
/// the file name that `source` gives and holds the bundled script, whatever
/// else `source` may look like. Every other function is served its own
/// `source` under `index.ts`.
pub proof fn lemma_builtin_is_served_from_bundle(function_type: Seq<char>, source: Seq<char>)
    ensures
        function_type == builtin_type() ==> entry_file(function_type, source) == source
            && entry_text(function_type, source) == lunchmoney::spec_source(),
        function_type != builtin_type() ==> entry_file(function_type, source) == user_entry()
            && entry_text(function_type, source) == source,
{
}

/// How many answers a run can still take at a stage.
pub open spec fn answers_left(stage: Stage) -> nat {
    match stage {
        Stage::AwaitingExport => 6,
        Stage::AwaitingParams => 5,
        Stage::AwaitingPayload => 4,
        Stage::AwaitingCall => 3,
        Stage::AwaitingSettle => 2,
        Stage::AwaitingText => 1,
        _ => 0,
    }
}

/// The stage that a run of answers leads to from a stage.
pub open spec fn stage_after(
    stage: Stage,
    params: Seq<char>,
    payload: Seq<char>,
    replies: Seq<EngineReplyView>,
) -> Stage
    decreases replies.len(),
{
    if replies.len() == 0 {
        stage
    } else {
        spec_step(stage_after(stage, params, payload, replies.drop_last()), params, payload, replies.last()).0
    }
}

/// A run is over after six answers at the latest: every answer to a run
/// that is under way brings it one step nearer to its end or ends it, and
/// an answer to anything else changes nothing.
pub proof fn lemma_run_ends_within_six_answers(
    stage: Stage,
    params: Seq<char>,
    payload: Seq<char>,
    replies: Seq<EngineReplyView>,
)
    ensures
        answers_left(stage_after(stage, params, payload, replies)) + replies.len()
            <= answers_left(stage) || answers_left(stage_after(stage, params, payload, replies))
            == 0,
        replies.len() >= 6 ==> !stage_after(stage, params, payload, replies).running(),
        !stage.running() ==> stage_after(stage, params, payload, replies) == stage,
    decreases replies.len(),
{
    if replies.len() > 0 {
        lemma_run_ends_within_six_answers(stage, params, payload, replies.drop_last());
    }
}

/// The entry module is never fetched: the entry module of a runtime that
/// could be built is local, so that loading it looks at the module table
/// and at nothing else, whatever the function's source holds.
pub proof fn lemma_entry_is_never_fetched(
    function_type: Seq<char>,
    source: Seq<char>,
    files: Map<Seq<char>, Seq<char>>,
)
    ensures
        spec_entry(function_type, source) matches Ok(module) ==> module.is_local() && !(
        crate::deno::loader::spec_load(files, module) matches Ok(
            crate::deno::loader::LoadStepView::Fetch(_),
        )),
{
}

} // verus!
