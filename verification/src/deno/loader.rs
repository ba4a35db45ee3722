//! The module loader: serves module text from an in-memory table, or asks
//! for it to be fetched, and prepares it for the engine.

use crate::deno::media::{
    kind_named, media_type_from_content_type, media_type_from_filename, media_type_of_filename,
    lemma_leading_boms, lemma_leading_boms_unique, media_type_of_response, transpile_module,
    fits_transpiler, transpiled, without_bom, MediaKind, ModuleType, BOM, MAX_MODULE_BYTES,
};
use crate::deno::specifier::{
    join_url, parse_url, url_join, url_parse, ModuleSpecifier, ModuleSpecifierView,
};
use crate::utils::{file_name, last_segment, str_eq};
use vstd::hash_map::StringHashMap;
use vstd::prelude::*;
use vstd::string::*;

verus! {

/// Why a module could not be resolved or loaded.
#[derive(Debug)]
pub enum LoaderError {
    /// A specifier or a referrer is no URL; the text is the parser's.
    InvalidSpecifier(String),
    /// The module is local and no text is registered under its file name.
    FileNotFound,
    /// A remote module could not be fetched; the text says why.
    Fetch(String),
    /// A remote module came without a `content-type` header.
    NoContentType,
    /// The module's text is of a kind that cannot be loaded as a module.
    UnknownModuleType(MediaKind),
    /// The text could not be turned into JavaScript; the text is the
    /// transpiler's.
    Transpile(String),
    /// The text is too long for the transpiler.
    TooLong,
}

/// A loader error as a mathematical value.
pub enum LoaderErrorView {
    InvalidSpecifier(Seq<char>),
    FileNotFound,
    Fetch(Seq<char>),
    NoContentType,
    UnknownModuleType(MediaKind),
    Transpile(Seq<char>),
    TooLong,
}

impl View for LoaderError {
    type V = LoaderErrorView;

    open spec fn view(&self) -> LoaderErrorView {
        match self {
            LoaderError::InvalidSpecifier(text) => LoaderErrorView::InvalidSpecifier(text@),
            LoaderError::FileNotFound => LoaderErrorView::FileNotFound,
            LoaderError::Fetch(text) => LoaderErrorView::Fetch(text@),
            LoaderError::NoContentType => LoaderErrorView::NoContentType,
            LoaderError::UnknownModuleType(kind) => LoaderErrorView::UnknownModuleType(*kind),
            LoaderError::Transpile(text) => LoaderErrorView::Transpile(text@),
            LoaderError::TooLong => LoaderErrorView::TooLong,
        }
    }
}

/// What a loader error says of itself.
pub open spec fn spec_loader_message(error: LoaderErrorView) -> Seq<char> {
    match error {
        LoaderErrorView::InvalidSpecifier(text) => text,
        LoaderErrorView::FileNotFound => "File not found."@,
        LoaderErrorView::Fetch(text) => text,
        LoaderErrorView::NoContentType => "No content type header found."@,
        LoaderErrorView::UnknownModuleType(kind) => "Unknown type "@ + kind.spec_name(),
        LoaderErrorView::Transpile(text) => text,
        LoaderErrorView::TooLong => "The module text is too long."@,
    }
}

impl LoaderError {
    /// What the error says of itself.
    pub fn message(&self) -> (text: String)
        ensures
            text@ == spec_loader_message(self@),
    {
        match self {
            LoaderError::InvalidSpecifier(text) => text.clone(),
            LoaderError::FileNotFound => "File not found.".to_owned(),
            LoaderError::Fetch(text) => text.clone(),
            LoaderError::NoContentType => "No content type header found.".to_owned(),
            LoaderError::UnknownModuleType(kind) => {
                let mut message = "Unknown type ".to_owned();
                message.append(kind.name());
                message
            },
            LoaderError::Transpile(text) => text.clone(),
            LoaderError::TooLong => "The module text is too long.".to_owned(),
        }
    }
}

/// A module ready for the engine.
#[derive(Debug)]
pub struct ModuleSource {
    pub module_type: ModuleType,
    /// Executable text: JavaScript, or JSON for a JSON module.
    pub code: String,
    /// The serialised URL of the module.
    pub specifier: String,
}

/// A prepared module as a mathematical value.
pub struct ModuleSourceView {
    pub module_type: ModuleType,
    pub code: Seq<char>,
    pub specifier: Seq<char>,
}

impl View for ModuleSource {
    type V = ModuleSourceView;

    open spec fn view(&self) -> ModuleSourceView {
        ModuleSourceView {
            module_type: self.module_type,
            code: self.code@,
            specifier: self.specifier@,
        }
    }
}

/// What a load comes to without touching the network.
#[derive(Debug)]
pub enum LoadStep {
    /// The module was served from the table.
    Loaded(ModuleSource),
    /// The module is remote: the URL has to be fetched, and the response
    /// handed to `ModuleLoader::load_fetched`.
    Fetch(String),
}

/// A load step as a mathematical value.
pub enum LoadStepView {
    Loaded(ModuleSourceView),
    Fetch(Seq<char>),
}

impl View for LoadStep {
    type V = LoadStepView;

    open spec fn view(&self) -> LoadStepView {
        match self {
            LoadStep::Loaded(source) => LoadStepView::Loaded(source@),
            LoadStep::Fetch(url) => LoadStepView::Fetch(url@),
        }
    }
}

/// The `content-type` header of a response.
#[derive(Debug)]
pub enum ContentType {
    /// The header's value, where it is readable text.
    Text(String),
    /// The header is there and its value is not readable text.
    Opaque,
}

/// What came back for a fetched module.
#[derive(Debug)]
pub struct RemoteResponse {
    /// The HTTP status code.
    pub status: u16,
    /// The `content-type` header, where the response has one.
    pub content_type: Option<ContentType>,
    /// The body as text, or why it could not be read.
    pub body: Result<String, String>,
}

/// A response as a mathematical value.
pub struct RemoteResponseView {
    pub status: u16,
    /// `None` without a header; `Some(None)` for a header that is no text.
    pub content_type: Option<Option<Seq<char>>>,
    pub body: Result<Seq<char>, Seq<char>>,
}

impl View for RemoteResponse {
    type V = RemoteResponseView;

    open spec fn view(&self) -> RemoteResponseView {
        RemoteResponseView {
            status: self.status,
            content_type: match self.content_type {
                None => None,
                Some(ContentType::Opaque) => Some(None),
                Some(ContentType::Text(text)) => Some(Some(text@)),
            },
            body: match self.body {
                Ok(text) => Ok(text@),
                Err(text) => Err(text@),
            },
        }
    }
}

/// The root referrer: a specifier resolved against it is taken as it is.
pub open spec fn root_referrer() -> Seq<char> {
    "."@
}

/// What resolving comes to: against the root the specifier alone is parsed;
/// against anything else the referrer is parsed and the specifier joined to
/// it.
pub open spec fn spec_resolve(specifier: Seq<char>, referrer: Seq<char>) -> Result<
    ModuleSpecifierView,
    LoaderErrorView,
> {
    if referrer == root_referrer() {
        match url_parse(specifier) {
            Ok(module) => Ok(module),
            Err(complaint) => Err(LoaderErrorView::InvalidSpecifier(complaint)),
        }
    } else {
        match url_parse(referrer) {
            Err(complaint) => Err(LoaderErrorView::InvalidSpecifier(complaint)),
            Ok(base) => match url_join(base.href, specifier) {
                Ok(module) => Ok(module),
                Err(complaint) => Err(LoaderErrorView::InvalidSpecifier(complaint)),
            },
        }
    }
}

/// Text of a kind turned into what the engine executes: transpiled,
/// without the byte-order marks that it may open with, where the kind asks
/// for it and the text is short enough, and unchanged otherwise.
pub open spec fn spec_transpile(code: Seq<char>, kind: MediaKind, href: Seq<char>) -> Result<
    Seq<char>,
    LoaderErrorView,
> {
    if kind.spec_needs_transpile() {
        if !fits_transpiler(without_bom(code)) {
            Err(LoaderErrorView::TooLong)
        } else {
            match transpiled(href, without_bom(code), kind.spec_file_name()) {
                Ok(script) => Ok(script),
                Err(complaint) => Err(LoaderErrorView::Transpile(complaint)),
            }
        }
    } else {
        Ok(code)
    }
}

/// The module that text of a kind makes under a URL.
pub open spec fn spec_prepare(kind: MediaKind, code: Seq<char>, href: Seq<char>) -> Result<
    ModuleSourceView,
    LoaderErrorView,
> {
    match kind.spec_module_type() {
        None => Err(LoaderErrorView::UnknownModuleType(kind)),
        Some(module_type) => match spec_transpile(code, kind, href) {
            Ok(script) => Ok(ModuleSourceView { module_type, code: script, specifier: href }),
            Err(error) => Err(error),
        },
    }
}

/// The module that a table serves for a local specifier read as `kind`:
/// the text registered under the last segment of the URL's path.
pub open spec fn spec_load_as(
    files: Map<Seq<char>, Seq<char>>,
    specifier: ModuleSpecifierView,
    kind: MediaKind,
) -> Result<ModuleSourceView, LoaderErrorView> {
    let key = last_segment(specifier.path);
    if files.contains_key(key) {
        spec_prepare(kind, files[key], specifier.href)
    } else {
        Err(LoaderErrorView::FileNotFound)
    }
}

/// What a load comes to: a local specifier is served from the table, read
/// as the kind that the last segment of its path tells as a file name; any
/// other is to be fetched.
pub open spec fn spec_load(
    files: Map<Seq<char>, Seq<char>>,
    specifier: ModuleSpecifierView,
) -> Result<LoadStepView, LoaderErrorView> {
    if specifier.is_local() {
        let kind = kind_named(media_type_of_filename(last_segment(specifier.path)));
        match spec_load_as(files, specifier, kind) {
            Ok(source) => Ok(LoadStepView::Loaded(source)),
            Err(error) => Err(error),
        }
    } else {
        Ok(LoadStepView::Fetch(specifier.href))
    }
}

/// Whether a status code tells success.
pub open spec fn is_success(status: u16) -> bool {
    200 <= status < 300
}

/// The module that a fetched response makes.
pub open spec fn spec_load_fetched(
    specifier: ModuleSpecifierView,
    fetched: Result<RemoteResponseView, Seq<char>>,
) -> Result<ModuleSourceView, LoaderErrorView> {
    match fetched {
        Err(complaint) => Err(LoaderErrorView::Fetch(complaint)),
        Ok(response) => if !is_success(response.status) {
            Err(LoaderErrorView::Fetch(status_complaint()))
        } else {
            match response.content_type {
                None => Err(LoaderErrorView::NoContentType),
                Some(content_type) => match media_type_of_response(specifier.href, content_type) {
                    None => Err(LoaderErrorView::InvalidSpecifier(specifier.href)),
                    Some(name) => match response.body {
                        Err(complaint) => Err(LoaderErrorView::Fetch(complaint)),
                        Ok(body) => spec_prepare(kind_named(name), body, specifier.href),
                    },
                },
            }
        },
    }
}

/// What is said of a response whose status does not tell success.
pub open spec fn status_complaint() -> Seq<char> {
    "The server answered with an error status."@
}

/// Whether `result` is `outcome`, seen as mathematical values.
pub open spec fn is_outcome<T: View, E: View>(outcome: Result<T::V, E::V>, result: Result<T, E>) -> bool {
    match result {
        Ok(value) => outcome == Ok::<T::V, E::V>(value@),
        Err(error) => outcome == Err::<T::V, E::V>(error@),
    }
}

/// Turns module text of a kind into what the engine executes: TypeScript and
/// JSX are transpiled, with no type checking and without the byte-order
/// marks that the text may open with; everything else is handed back as it
/// is. The specifier only names the module in diagnostics.
pub fn transpile(code: &str, kind: MediaKind, specifier: &ModuleSpecifier) -> (script: Result<
    String,
    LoaderError,
>)
    ensures
        match script {
            Ok(text) => spec_transpile(code@, kind, specifier.href@) == Ok::<
                Seq<char>,
                LoaderErrorView,
            >(text@),
            Err(error) => spec_transpile(code@, kind, specifier.href@) == Err::<
                Seq<char>,
                LoaderErrorView,
            >(error@),
        },
{
    if kind.needs_transpile() {
        let len: usize = code.unicode_len();
        let mut marks: usize = 0;
        while marks < len && code.get_char(marks) == BOM
            invariant
                marks <= len,
                len == code@.len(),
                forall|i: int| 0 <= i < marks ==> code@[i] == BOM,
            decreases len - marks,
        {
            marks = marks + 1;
        }
        proof {
            lemma_leading_boms_unique(code@, marks as int);
            lemma_leading_boms(code@);
        }
        let text = code.substring_char(marks, len);
        if text.as_bytes().len() > MAX_MODULE_BYTES {
            return Err(LoaderError::TooLong);
        }
        match transpile_module(specifier.href.as_str(), text, kind.file_name()) {
            Ok(text) => Ok(text),
            Err(complaint) => Err(LoaderError::Transpile(complaint)),
        }
    } else {
        Ok(code.to_owned())
    }
}

/// Makes a module of text of a kind: refuses the kinds that are no modules,
/// transpiles where the kind asks for it, and tells the engine whether it
/// gets JavaScript or JSON.
pub fn prepare(kind: MediaKind, code: &str, specifier: &ModuleSpecifier) -> (module: Result<
    ModuleSource,
    LoaderError,
>)
    ensures
        is_outcome(spec_prepare(kind, code@, specifier.href@), module),
{
    match kind.module_type() {
        None => Err(LoaderError::UnknownModuleType(kind)),
        Some(module_type) => match transpile(code, kind, specifier) {
            Ok(script) => Ok(
                ModuleSource { module_type, code: script, specifier: specifier.href.clone() },
            ),
            Err(error) => Err(error),
        },
    }
}

/// The table of module text that one runtime serves, keyed by file name.
pub struct ModuleLoader {
    pub files: StringHashMap<String>,
}

impl View for ModuleLoader {
    type V = Map<Seq<char>, Seq<char>>;

    open spec fn view(&self) -> Map<Seq<char>, Seq<char>> {
        self.files@.map_values(|text: String| text@)
    }
}

impl ModuleLoader {
    /// A loader that serves nothing yet.
    pub fn new() -> (loader: ModuleLoader)
        ensures
            loader@ == Map::<Seq<char>, Seq<char>>::empty(),
    {
        let loader = ModuleLoader { files: StringHashMap::new() };
        assert(loader@ =~= Map::<Seq<char>, Seq<char>>::empty());
        loader
    }

    /// Registers `source` under `name`, in place of what was there.
    pub fn register(&mut self, name: &str, source: &str)
        ensures
            final(self)@ == old(self)@.insert(name@, source@),
    {
        self.files.insert(name.to_owned(), source.to_owned());
        assert(self@ =~= old(self)@.insert(name@, source@));
    }

    /// The canonical identity of the module that `specifier` names when it
    /// stands in the module `referrer`. Against the root referrer `"."` the
    /// specifier has to be an absolute URL by itself; against any other it
    /// is resolved relative to the referrer's URL.
    pub fn resolve(&self, specifier: &str, referrer: &str) -> (resolved: Result<
        ModuleSpecifier,
        LoaderError,
    >)
        ensures
            match resolved {
                Ok(module) => spec_resolve(specifier@, referrer@) == Ok::<
                    ModuleSpecifierView,
                    LoaderErrorView,
                >(module@),
                Err(error) => spec_resolve(specifier@, referrer@) == Err::<
                    ModuleSpecifierView,
                    LoaderErrorView,
                >(error@),
            },
    {
        if str_eq(referrer, ".") {
            match parse_url(specifier) {
                Ok(module) => Ok(module),
                Err(complaint) => Err(LoaderError::InvalidSpecifier(complaint)),
            }
        } else {
            match parse_url(referrer) {
                Err(complaint) => Err(LoaderError::InvalidSpecifier(complaint)),
                Ok(base) => match join_url(base.href.as_str(), specifier) {
                    Ok(module) => Ok(module),
                    Err(complaint) => Err(LoaderError::InvalidSpecifier(complaint)),
                },
            }
        }
    }

    /// Serves a local module, read as `kind`, from the table: the text
    /// registered under the last segment of the URL's path, prepared for the
    /// engine. Text that is not registered is not found: nothing else is
    /// ever looked at.
    pub fn load_as(&self, module_specifier: &ModuleSpecifier, kind: MediaKind) -> (module: Result<
        ModuleSource,
        LoaderError,
    >)
        ensures
            is_outcome(spec_load_as(self@, module_specifier@, kind), module),
    {
        let key = file_name(module_specifier.path.as_str());
        match self.files.get(key.as_str()) {
            None => Err(LoaderError::FileNotFound),
            Some(code) => prepare(kind, code.as_str(), module_specifier),
        }
    }

    /// Loads a module as far as that goes without the network. A local
    /// specifier is served from the table; for any other the caller is told
    /// to fetch it.
    pub fn load(&self, module_specifier: &ModuleSpecifier) -> (step: Result<LoadStep, LoaderError>)
        ensures
            is_outcome(spec_load(self@, module_specifier@), step),
    {
        if module_specifier.is_local() {
            let key = file_name(module_specifier.path.as_str());
            let name = media_type_from_filename(key.as_str());
            let kind = MediaKind::from_name(name.as_str());
            match self.load_as(module_specifier, kind) {
                Ok(source) => Ok(LoadStep::Loaded(source)),
                Err(error) => Err(error),
            }
        } else {
            Ok(LoadStep::Fetch(module_specifier.href.clone()))
        }
    }

    /// Finishes the load of a remote module with what the fetch brought. A
    /// failed fetch, a status that does not tell success, a missing
    /// `content-type` header and an unreadable body are errors, looked for
    /// in this order; else the body is prepared as the kind that the header
    /// and the URL tell.
    pub fn load_fetched(
        &self,
        module_specifier: &ModuleSpecifier,
        fetched: Result<RemoteResponse, String>,
    ) -> (module: Result<ModuleSource, LoaderError>)
        ensures
            is_outcome(
                spec_load_fetched(
                    module_specifier@,
                    match fetched {
                        Ok(response) => Ok(response@),
                        Err(complaint) => Err(complaint@),
                    },
                ),
                module,
            ),
    {
        match fetched {
            Err(complaint) => Err(LoaderError::Fetch(complaint)),
            Ok(response) => {
                if response.status < 200 || response.status >= 300 {
                    return Err(
                        LoaderError::Fetch("The server answered with an error status.".to_owned()),
                    );
                }
                let name = match &response.content_type {
                    None => { return Err(LoaderError::NoContentType); },
                    Some(ContentType::Opaque) => media_type_from_content_type(
                        module_specifier.href.as_str(),
                        None,
                    ),
                    Some(ContentType::Text(text)) => media_type_from_content_type(
                        module_specifier.href.as_str(),
                        Some(text.as_str()),
                    ),
                };
                match name {
                    None => Err(LoaderError::InvalidSpecifier(module_specifier.href.clone())),
                    Some(name) => match &response.body {
                        Err(complaint) => Err(LoaderError::Fetch(complaint.clone())),
                        Ok(body) => prepare(
                            MediaKind::from_name(name.as_str()),
                            body.as_str(),
                            module_specifier,
                        ),
                    },
                }
            },
        }
    }
}

/// Only registered text is ever served. A local module is looked up in the
/// table and nowhere else: it is not found exactly when nothing is
/// registered under the last segment of its path, and it is never asked to
/// be fetched. Every other module is asked to be fetched, whatever the table
/// holds.
pub proof fn lemma_unregistered_module_is_not_found(
    files: Map<Seq<char>, Seq<char>>,
    specifier: ModuleSpecifierView,
)
    ensures
        specifier.is_local() ==> (!files.contains_key(last_segment(specifier.path)) <==> spec_load(
            files,
            specifier,
        ) == Err::<LoadStepView, LoaderErrorView>(LoaderErrorView::FileNotFound)),
        specifier.is_local() ==> !(spec_load(files, specifier) matches Ok(LoadStepView::Fetch(_))),
        !specifier.is_local() ==> spec_load(files, specifier) == Ok::<
            LoadStepView,
            LoaderErrorView,
        >(LoadStepView::Fetch(specifier.href)),
{
}

/// Text that needs no transpiling reaches the engine as it was registered.
pub proof fn lemma_plain_text_is_served_unchanged(
    files: Map<Seq<char>, Seq<char>>,
    specifier: ModuleSpecifierView,
    kind: MediaKind,
)
    requires
        files.contains_key(last_segment(specifier.path)),
        kind.spec_module_type() is Some,
        !kind.spec_needs_transpile(),
    ensures
        spec_load_as(files, specifier, kind) == Ok::<ModuleSourceView, LoaderErrorView>(
            ModuleSourceView {
                module_type: kind.spec_module_type()->0,
                code: files[last_segment(specifier.path)],
                specifier: specifier.href,
            },
        ),
{
}

} // verus!
