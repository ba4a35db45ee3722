//! Media types of module text, as `deno_ast` tells them, and the
//! TypeScript-to-JavaScript transpiler behind them.

use crate::utils::{str_eq, text_view};
use vstd::prelude::*;
use vstd::utf8::encode_utf8;

verus! {

/// How a module's text is to be read. The kinds and their names are those
/// of `deno_ast::MediaType`.
#[derive(Clone, Copy, Debug, PartialEq, Eq, Structural)]
pub enum MediaKind {
    JavaScript,
    Jsx,
    Mjs,
    Cjs,
    TypeScript,
    Mts,
    Cts,
    Dts,
    Dmts,
    Dcts,
    Tsx,
    Css,
    Json,
    Jsonc,
    Json5,
    Html,
    Markdown,
    Sql,
    Wasm,
    SourceMap,
    Unknown,
}

/// What the engine is told a module is.
#[derive(Clone, Copy, Debug, PartialEq, Eq, Structural)]
pub enum ModuleType {
    JavaScript,
    Json,
}

/// The kind that goes by a name; `Unknown` for a name that no kind has.
pub open spec fn kind_named(name: Seq<char>) -> MediaKind {
    if name == "JavaScript"@ {
        MediaKind::JavaScript
    } else if name == "JSX"@ {
        MediaKind::Jsx
    } else if name == "Mjs"@ {
        MediaKind::Mjs
    } else if name == "Cjs"@ {
        MediaKind::Cjs
    } else if name == "TypeScript"@ {
        MediaKind::TypeScript
    } else if name == "Mts"@ {
        MediaKind::Mts
    } else if name == "Cts"@ {
        MediaKind::Cts
    } else if name == "Dts"@ {
        MediaKind::Dts
    } else if name == "Dmts"@ {
        MediaKind::Dmts
    } else if name == "Dcts"@ {
        MediaKind::Dcts
    } else if name == "TSX"@ {
        MediaKind::Tsx
    } else if name == "Css"@ {
        MediaKind::Css
    } else if name == "Json"@ {
        MediaKind::Json
    } else if name == "Jsonc"@ {
        MediaKind::Jsonc
    } else if name == "Json5"@ {
        MediaKind::Json5
    } else if name == "Html"@ {
        MediaKind::Html
    } else if name == "Markdown"@ {
        MediaKind::Markdown
    } else if name == "Sql"@ {
        MediaKind::Sql
    } else if name == "Wasm"@ {
        MediaKind::Wasm
    } else if name == "SourceMap"@ {
        MediaKind::SourceMap
    } else {
        MediaKind::Unknown
    }
}

impl MediaKind {
    /// The kind that goes by `name`.
    pub fn from_name(name: &str) -> (kind: MediaKind)
        ensures
            kind == kind_named(name@),
    {
        if str_eq(name, "JavaScript") {
            MediaKind::JavaScript
        } else if str_eq(name, "JSX") {
            MediaKind::Jsx
        } else if str_eq(name, "Mjs") {
            MediaKind::Mjs
        } else if str_eq(name, "Cjs") {
            MediaKind::Cjs
        } else if str_eq(name, "TypeScript") {
            MediaKind::TypeScript
        } else if str_eq(name, "Mts") {
            MediaKind::Mts
        } else if str_eq(name, "Cts") {
            MediaKind::Cts
        } else if str_eq(name, "Dts") {
            MediaKind::Dts
        } else if str_eq(name, "Dmts") {
            MediaKind::Dmts
        } else if str_eq(name, "Dcts") {
            MediaKind::Dcts
        } else if str_eq(name, "TSX") {
            MediaKind::Tsx
        } else if str_eq(name, "Css") {
            MediaKind::Css
        } else if str_eq(name, "Json") {
            MediaKind::Json
        } else if str_eq(name, "Jsonc") {
            MediaKind::Jsonc
        } else if str_eq(name, "Json5") {
            MediaKind::Json5
        } else if str_eq(name, "Html") {
            MediaKind::Html
        } else if str_eq(name, "Markdown") {
            MediaKind::Markdown
        } else if str_eq(name, "Sql") {
            MediaKind::Sql
        } else if str_eq(name, "Wasm") {
            MediaKind::Wasm
        } else if str_eq(name, "SourceMap") {
            MediaKind::SourceMap
        } else {
            MediaKind::Unknown
        }
    }

    /// The name of the kind.
    pub open spec fn spec_name(self) -> Seq<char> {
        match self {
            MediaKind::JavaScript => "JavaScript"@,
            MediaKind::Jsx => "JSX"@,
            MediaKind::Mjs => "Mjs"@,
            MediaKind::Cjs => "Cjs"@,
            MediaKind::TypeScript => "TypeScript"@,
            MediaKind::Mts => "Mts"@,
            MediaKind::Cts => "Cts"@,
            MediaKind::Dts => "Dts"@,
            MediaKind::Dmts => "Dmts"@,
            MediaKind::Dcts => "Dcts"@,
            MediaKind::Tsx => "TSX"@,
            MediaKind::Css => "Css"@,
            MediaKind::Json => "Json"@,
            MediaKind::Jsonc => "Jsonc"@,
            MediaKind::Json5 => "Json5"@,
            MediaKind::Html => "Html"@,
            MediaKind::Markdown => "Markdown"@,
            MediaKind::Sql => "Sql"@,
            MediaKind::Wasm => "Wasm"@,
            MediaKind::SourceMap => "SourceMap"@,
            MediaKind::Unknown => "Unknown"@,
        }
    }

    /// The name of the kind.
    pub fn name(&self) -> (name: &'static str)
        ensures
            name@ == self.spec_name(),
    {
        match self {
            MediaKind::JavaScript => "JavaScript",
            MediaKind::Jsx => "JSX",
            MediaKind::Mjs => "Mjs",
            MediaKind::Cjs => "Cjs",
            MediaKind::TypeScript => "TypeScript",
            MediaKind::Mts => "Mts",
            MediaKind::Cts => "Cts",
            MediaKind::Dts => "Dts",
            MediaKind::Dmts => "Dmts",
            MediaKind::Dcts => "Dcts",
            MediaKind::Tsx => "TSX",
            MediaKind::Css => "Css",
            MediaKind::Json => "Json",
            MediaKind::Jsonc => "Jsonc",
            MediaKind::Json5 => "Json5",
            MediaKind::Html => "Html",
            MediaKind::Markdown => "Markdown",
            MediaKind::Sql => "Sql",
            MediaKind::Wasm => "Wasm",
            MediaKind::SourceMap => "SourceMap",
            MediaKind::Unknown => "Unknown",
        }
    }

    /// Whether text of this kind has to be turned into JavaScript before
    /// the engine can take it.
    pub open spec fn spec_needs_transpile(self) -> bool {
        match self {
            MediaKind::Jsx
            | MediaKind::TypeScript
            | MediaKind::Mts
            | MediaKind::Cts
            | MediaKind::Dts
            | MediaKind::Dmts
            | MediaKind::Dcts
            | MediaKind::Tsx => true,
            _ => false,
        }
    }

    /// What the engine is told a module of this kind is; `None` for a kind
    /// that cannot be loaded as a module.
    pub open spec fn spec_module_type(self) -> Option<ModuleType> {
        match self {
            MediaKind::JavaScript | MediaKind::Mjs | MediaKind::Cjs => Some(ModuleType::JavaScript),
            MediaKind::Json => Some(ModuleType::Json),
            _ => if self.spec_needs_transpile() {
                Some(ModuleType::JavaScript)
            } else {
                None
            },
        }
    }

    /// Whether text of this kind has to be turned into JavaScript before
    /// the engine can take it.
    #[verifier::when_used_as_spec(spec_needs_transpile)]
    pub fn needs_transpile(self) -> (needed: bool)
        ensures
            needed == self.spec_needs_transpile(),
    {
        match self {
            MediaKind::Jsx
            | MediaKind::TypeScript
            | MediaKind::Mts
            | MediaKind::Cts
            | MediaKind::Dts
            | MediaKind::Dmts
            | MediaKind::Dcts
            | MediaKind::Tsx => true,
            _ => false,
        }
    }

    /// What the engine is told a module of this kind is: JavaScript for
    /// JavaScript and for all that is transpiled to it, JSON for JSON, and
    /// `None` for every other kind.
    #[verifier::when_used_as_spec(spec_module_type)]
    pub fn module_type(self) -> (module_type: Option<ModuleType>)
        ensures
            module_type == self.spec_module_type(),
    {
        match self {
            MediaKind::JavaScript | MediaKind::Mjs | MediaKind::Cjs => Some(ModuleType::JavaScript),
            MediaKind::Json => Some(ModuleType::Json),
            _ => if self.needs_transpile() {
                Some(ModuleType::JavaScript)
            } else {
                None
            },
        }
    }

    /// A file name that `deno_ast` reads as this kind, for the kinds that
    /// are transpiled; for the others the name of a plain script.
    pub open spec fn spec_file_name(self) -> Seq<char> {
        match self {
            MediaKind::Jsx => "module.jsx"@,
            MediaKind::TypeScript => "module.ts"@,
            MediaKind::Mts => "module.mts"@,
            MediaKind::Cts => "module.cts"@,
            MediaKind::Dts => "module.d.ts"@,
            MediaKind::Dmts => "module.d.mts"@,
            MediaKind::Dcts => "module.d.cts"@,
            MediaKind::Tsx => "module.tsx"@,
            _ => "module.js"@,
        }
    }

    /// A file name that `deno_ast` reads as this kind, for the kinds that
    /// are transpiled; for the others the name of a plain script.
    pub fn file_name(self) -> (name: &'static str)
        ensures
            name@ == self.spec_file_name(),
    {
        match self {
            MediaKind::Jsx => "module.jsx",
            MediaKind::TypeScript => "module.ts",
            MediaKind::Mts => "module.mts",
            MediaKind::Cts => "module.cts",
            MediaKind::Dts => "module.d.ts",
            MediaKind::Dmts => "module.d.mts",
            MediaKind::Dcts => "module.d.cts",
            MediaKind::Tsx => "module.tsx",
            _ => "module.js",
        }
    }
}

/// The name of the media type that `deno_ast::MediaType::from_filename`
/// gives for a file name.
pub uninterp spec fn media_type_of_filename(name: Seq<char>) -> Seq<char>;

/// The name of the media type that
/// `deno_ast::MediaType::from_specifier_and_content_type` gives for the URL
/// that `href` parses to and a `content-type` header; `None` where `href`
/// does not parse.
pub uninterp spec fn media_type_of_response(
    href: Seq<char>,
    content_type: Option<Seq<char>>,
) -> Option<Seq<char>>;

/// What `deno_ast` emits for module text that opens with no byte-order
/// mark and is short enough for it: the JavaScript that `parse_module` and `ParsedSource::transpile`,
/// with every option at its default, make of `code`, read as the media type
/// of `file_name`, under the specifier `href`; or the text of the error that
/// stopped them.
pub uninterp spec fn transpiled(href: Seq<char>, code: Seq<char>, file_name: Seq<char>) -> Result<
    Seq<char>,
    Seq<char>,
>;

/// Calls `deno_ast::MediaType::from_filename` and hands back the name that
/// the media type's `Display` gives it.
#[verifier::external_body]
pub(crate) fn media_type_from_filename(name: &str) -> (media_type: String)
    ensures
        media_type@ == media_type_of_filename(name@),
{
    deno_ast::MediaType::from_filename(name).to_string()
}

/// Parses `href` with `url::Url::parse`, calls
/// `deno_ast::MediaType::from_specifier_and_content_type` on the URL and the
/// header, and hands back the name that the media type's `Display` gives it;
/// `None` where `href` is no URL.
#[verifier::external_body]
pub(crate) fn media_type_from_content_type(href: &str, content_type: Option<&str>) -> (name:
    Option<String>)
    ensures
        match name {
            Some(n) => media_type_of_response(href@, text_view(content_type)) == Some(n@),
            None => media_type_of_response(href@, text_view(content_type)) is None,
        },
{
    let url = url::Url::parse(href).ok()?;
    Some(deno_ast::MediaType::from_specifier_and_content_type(&url, content_type).to_string())
}

/// The byte-order mark.
pub const BOM: char = '\u{FEFF}';

/// The most bytes of module text that the transpiler is handed: it counts
/// positions in the text in 32 bits, and keeps the highest for its own use.
pub const MAX_MODULE_BYTES: usize = 0x7FFF_FFFF;

/// Whether a text is short enough for the transpiler.
pub open spec fn fits_transpiler(text: Seq<char>) -> bool {
    encode_utf8(text).len() <= MAX_MODULE_BYTES
}

/// Whether a text opens with a byte-order mark.
pub open spec fn opens_with_bom(text: Seq<char>) -> bool {
    text.len() > 0 && text[0] == BOM
}

/// How many byte-order marks a text opens with.
pub open spec fn leading_boms(text: Seq<char>) -> nat
    decreases text.len(),
{
    if opens_with_bom(text) {
        1 + leading_boms(text.drop_first())
    } else {
        0
    }
}

/// A text without the byte-order marks that it may open with.
pub open spec fn without_bom(text: Seq<char>) -> Seq<char> {
    text.subrange(leading_boms(text) as int, text.len() as int)
}

/// The marks that a text opens with are its first characters, and what
/// stands behind them is no mark.
pub proof fn lemma_leading_boms(text: Seq<char>)
    ensures
        leading_boms(text) <= text.len(),
        forall|i: int| 0 <= i < leading_boms(text) ==> text[i] == BOM,
        leading_boms(text) < text.len() ==> text[leading_boms(text) as int] != BOM,
        !opens_with_bom(without_bom(text)),
    decreases text.len(),
{
    if opens_with_bom(text) {
        let rest = text.drop_first();
        lemma_leading_boms(rest);
        assert forall|i: int| 0 <= i < leading_boms(text) implies text[i] == BOM by {
            if i > 0 {
                assert(text[i] == rest[i - 1]);
            }
        }
        if leading_boms(text) < text.len() {
            assert(text[leading_boms(text) as int] == rest[leading_boms(rest) as int]);
        }
    }
}

/// A run of marks at the head of a text, with no mark behind it, is all the
/// marks that the text opens with.
pub proof fn lemma_leading_boms_unique(text: Seq<char>, count: int)
    requires
        0 <= count <= text.len(),
        forall|i: int| 0 <= i < count ==> text[i] == BOM,
        count < text.len() ==> text[count] != BOM,
    ensures
        leading_boms(text) == count,
{
    lemma_leading_boms(text);
}

/// Whether `emitted` is what the transpiler's outcome has to look like.
pub open spec fn emits(outcome: Result<Seq<char>, Seq<char>>, emitted: Result<String, String>) -> bool {
    match emitted {
        Ok(text) => outcome == Ok::<Seq<char>, Seq<char>>(text@),
        Err(complaint) => outcome == Err::<Seq<char>, Seq<char>>(complaint@),
    }
}

/// Calls `deno_ast::parse_module` on `code`, under the URL that `href`
/// parses to and with the media type that
/// `deno_ast::MediaType::from_filename` gives for `file_name`, then
/// `ParsedSource::transpile` with default options, and hands back the
/// emitted text. An `href` that is no URL, text that does not parse and a
/// failed emit each give the text of their error. Text that opens with a
/// byte-order mark is kept out: `parse_module` panics on it where it is
/// built with debug assertions. So is text of 2 GiB and more, whose
/// positions `parse_module` cannot count.
#[verifier::external_body]
pub(crate) fn transpile_module(href: &str, code: &str, file_name: &str) -> (emitted: Result<
    String,
    String,
>)
    requires
        !opens_with_bom(code@),
        fits_transpiler(code@),
    ensures
        emits(transpiled(href@, code@, file_name@), emitted),
{
    let specifier = url::Url::parse(href).map_err(|e| e.to_string())?;
    let media_type = deno_ast::MediaType::from_filename(file_name);
    let params = deno_ast::ParseParams {
        specifier, text: code.into(), media_type,
        capture_tokens: false, scope_analysis: false, maybe_syntax: None,
    };
    let parsed = deno_ast::parse_module(params).map_err(|e| e.to_string())?;
    let options = (Default::default(), Default::default(), Default::default());
    let emitted = parsed.transpile(&options.0, &options.1, &options.2);
    emitted.map(|e| e.into_source().text).map_err(|e| e.to_string())
}

/// Every kind goes by a name of its own: the kind of a kind's name is the
/// kind itself.
pub proof fn lemma_kind_of_name(kind: MediaKind)
    ensures
        kind_named(kind.spec_name()) == kind,
{
    reveal_strlit("JavaScript");
    reveal_strlit("JSX");
    reveal_strlit("Mjs");
    reveal_strlit("Cjs");
    reveal_strlit("TypeScript");
    reveal_strlit("Mts");
    reveal_strlit("Cts");
    reveal_strlit("Dts");
    reveal_strlit("Dmts");
    reveal_strlit("Dcts");
    reveal_strlit("TSX");
    reveal_strlit("Css");
    reveal_strlit("Json");
    reveal_strlit("Jsonc");
    reveal_strlit("Json5");
    reveal_strlit("Html");
    reveal_strlit("Markdown");
    reveal_strlit("Sql");
    reveal_strlit("Wasm");
    reveal_strlit("SourceMap");
    reveal_strlit("Unknown");
    // No two names are alike in length and in their first two characters,
    // but `Json5` and `Jsonc`, which part at the fifth.
    let name = kind.spec_name();
    let told_apart_by = (name.len(), name[0], name[1], name[4]);
}

} // verus!
