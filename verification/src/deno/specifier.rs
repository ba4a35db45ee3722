//! Module identities: absolute URLs, parsed and joined by the `url` crate.

use crate::utils::{optional_text, str_eq};
use vstd::prelude::*;
use vstd::string::*;

verus! {

/// The canonical identity of a module: an absolute URL, held as the plain
/// values that the loader reads from it.
#[derive(Debug)]
pub struct ModuleSpecifier {
    /// The URL, serialised.
    pub href: String,
    /// The path component of the URL, still percent-encoded.
    pub path: String,
    /// The host of the URL, where it has one.
    pub host: Option<String>,
}

/// A module identity as a mathematical value.
pub struct ModuleSpecifierView {
    pub href: Seq<char>,
    pub path: Seq<char>,
    pub host: Option<Seq<char>>,
}

impl View for ModuleSpecifier {
    type V = ModuleSpecifierView;

    open spec fn view(&self) -> ModuleSpecifierView {
        ModuleSpecifierView { href: self.href@, path: self.path@, host: optional_text(self.host) }
    }
}

/// The one host whose modules are served from the module table.
pub open spec fn local_host() -> Seq<char> {
    "localhost"@
}

impl ModuleSpecifierView {
    /// Whether the module is served from the module table and never
    /// fetched: its URL has a path that starts at the root, and no host or
    /// the host `localhost`.
    pub open spec fn is_local(self) -> bool {
        &&& self.path.len() > 0
        &&& self.path[0] == '/'
        &&& (self.host is None || self.host == Some(local_host()))
    }
}

impl ModuleSpecifier {
    /// Whether the module is served from the module table and never
    /// fetched: its URL has a path that starts at the root, and no host or
    /// the host `localhost`.
    pub fn is_local(&self) -> (local: bool)
        ensures
            local == self@.is_local(),
    {
        let rooted = self.path.as_str().unicode_len() > 0 && self.path.as_str().get_char(0) == '/';
        let near = match &self.host {
            None => true,
            Some(host) => str_eq(host.as_str(), "localhost"),
        };
        rooted && near
    }
}

/// What `url::Url::parse` makes of a text: the URL as its serialisation,
/// its path component and its host, or the parser's complaint.
pub uninterp spec fn url_parse(input: Seq<char>) -> Result<ModuleSpecifierView, Seq<char>>;

/// What `url::Url::join` makes of a reference against the URL that `base`
/// parses to: the URL as its serialisation, its path component and its
/// host, or the parser's complaint about either text.
pub uninterp spec fn url_join(base: Seq<char>, reference: Seq<char>) -> Result<
    ModuleSpecifierView,
    Seq<char>,
>;

/// Whether `parsed` is what the outcome of a parse or a join has to look
/// like: the specifier that came out, or the complaint that came out.
pub open spec fn parses_to(
    outcome: Result<ModuleSpecifierView, Seq<char>>,
    parsed: Result<ModuleSpecifier, String>,
) -> bool {
    match parsed {
        Ok(specifier) => outcome == Ok::<ModuleSpecifierView, Seq<char>>(specifier@),
        Err(complaint) => outcome == Err::<ModuleSpecifierView, Seq<char>>(complaint@),
    }
}

/// Calls `url::Url::parse`. On success the URL is handed back as its
/// serialisation (`as_str`), its path component (`path`) and its host
/// (`host_str`); on failure as the text of the parser's error.
#[verifier::external_body]
pub(crate) fn parse_url(input: &str) -> (parsed: Result<ModuleSpecifier, String>)
    ensures
        parses_to(url_parse(input@), parsed),
{
    let url = url::Url::parse(input).map_err(|error| error.to_string())?;
    Ok(ModuleSpecifier {
        href: url.as_str().to_owned(),
        path: url.path().to_owned(),
        host: url.host_str().map(|host| host.to_owned()),
    })
}

/// Calls `url::Url::join` on the URL that `base` parses to, and hands the
/// result back as `parse_url` does. A `base` that does not parse gives the
/// parser's error for it.
#[verifier::external_body]
pub(crate) fn join_url(base: &str, reference: &str) -> (joined: Result<ModuleSpecifier, String>)
    ensures
        parses_to(url_join(base@, reference@), joined),
{
    let base = url::Url::parse(base).map_err(|error| error.to_string())?;
    let url = base.join(reference).map_err(|error| error.to_string())?;
    Ok(ModuleSpecifier {
        href: url.as_str().to_owned(),
        path: url.path().to_owned(),
        host: url.host_str().map(|host| host.to_owned()),
    })
}

} // verus!
