//! Turning a repository reference into a canonical remote URL.

use vstd::prelude::*;
use crate::error::Error;

verus! {

/// The base that a shorthand reference is joined onto. It carries no `www.`
/// prefix: clones from the host fail with one.
pub const GITHUB_BASE_URL: &'static str = "https://github.com";

/// The host of `GITHUB_BASE_URL`.
pub const DEFAULT_HOST: &'static str = "github.com";

/// What the URL parser reads out of a string: the serialization of the URL,
/// its host where it has one, and its path.
#[derive(Clone, Debug, PartialEq, Eq)]
pub struct ParsedUrl {
    pub text: String,
    pub host: Option<String>,
    pub path: String,
}

/// The mathematical content of a `ParsedUrl`.
pub struct ParsedUrlView {
    pub text: Seq<char>,
    pub host: Option<Seq<char>>,
    pub path: Seq<char>,
}

impl View for ParsedUrl {
    type V = ParsedUrlView;

    open spec fn view(&self) -> ParsedUrlView {
        ParsedUrlView {
            text: self.text@,
            host: match self.host {
                Some(h) => Some(h@),
                None => None,
            },
            path: self.path@,
        }
    }
}

/// An absolute URL with a host: the remote that a reference stands for.
#[derive(Clone, Debug, PartialEq, Eq)]
pub struct CanonicalUrl {
    pub text: String,
    pub host: String,
    pub path: String,
}

/// The mathematical content of a `CanonicalUrl`.
pub struct CanonicalUrlView {
    pub text: Seq<char>,
    pub host: Seq<char>,
    pub path: Seq<char>,
}

impl View for CanonicalUrl {
    type V = CanonicalUrlView;

    open spec fn view(&self) -> CanonicalUrlView {
        CanonicalUrlView { text: self.text@, host: self.host@, path: self.path@ }
    }
}

impl CanonicalUrl {
    /// The serialization of the URL, as it is handed to the clone.
    pub fn as_str(&self) -> (s: &str)
        ensures
            s@ == self@.text,
    {
        self.text.as_str()
    }
}

/// The error of the `url` crate's parser. Nothing is read from it: every
/// failure to parse is a malformed reference.
#[verifier::external_type_specification]
#[verifier::external_body]
pub struct ExParseError(url::ParseError);

/// What the `url` crate's `Url::parse` reads out of `raw`: `None` where it
/// returns an error, else the serialization, host and path of the URL.
pub uninterp spec fn parsed_url(raw: Seq<char>) -> Option<ParsedUrlView>;

/// What the `url` crate reads out of `raw` taken relative to `base`: `None`
/// where `Url::parse` fails on `base` or `Url::join` fails on `raw`, else the
/// serialization, host and path of the joined URL.
pub uninterp spec fn joined_url(base: Seq<char>, raw: Seq<char>) -> Option<ParsedUrlView>;

/// Calls `url::Url::parse` on `raw` and reads the result with `as_str`,
/// `host_str` and `path`. Trusted: the outcome is a function of `raw` alone,
/// named `parsed_url`. Nothing is claimed about which strings parse or what
/// the parts are.
#[verifier::external_body]
fn url_parse(raw: &str) -> (r: Result<ParsedUrl, url::ParseError>)
    ensures
        r matches Ok(parsed) ==> parsed_url(raw@) == Some(parsed@),
        r is Err ==> parsed_url(raw@) is None,
{
    let url = url::Url::parse(raw)?;
    Ok(ParsedUrl {
        text: url.as_str().to_owned(),
        host: url.host_str().map(|h| h.to_owned()),
        path: url.path().to_owned(),
    })
}

/// Calls `url::Url::parse` on `base` and `url::Url::join` with `raw` on the
/// result, and reads the joined URL with `as_str`, `host_str` and `path`.
/// Trusted: the outcome is a function of `base` and `raw` alone, named
/// `joined_url`. Nothing is claimed about which strings join or what the
/// parts are.
#[verifier::external_body]
fn url_join(base: &str, raw: &str) -> (r: Result<ParsedUrl, url::ParseError>)
    ensures
        r matches Ok(joined) ==> joined_url(base@, raw@) == Some(joined@),
        r is Err ==> joined_url(base@, raw@) is None,
{
    let url = url::Url::parse(base)?.join(raw)?;
    Ok(ParsedUrl {
        text: url.as_str().to_owned(),
        host: url.host_str().map(|h| h.to_owned()),
        path: url.path().to_owned(),
    })
}

/// `raw` as a path from the root of a host: itself where it begins with a
/// slash, else with a slash put in front.
pub open spec fn rooted(raw: Seq<char>) -> Seq<char> {
    if raw.len() > 0 && raw[0] == '/' {
        raw
    } else {
        seq!['/'] + raw
    }
}

/// Whether `joined` is the default base with `raw` as its path and nothing
/// else: the host is the default host, the path is `raw` letter for letter,
/// and the serialization is the base followed by that path.
pub open spec fn names_reference(joined: ParsedUrlView, raw: Seq<char>) -> bool {
    &&& joined.host == Some(DEFAULT_HOST@)
    &&& joined.path == rooted(raw)
    &&& joined.text == GITHUB_BASE_URL@ + rooted(raw)
}

/// A parsed URL as a canonical one, where it has a host.
pub open spec fn canonical(parsed: ParsedUrlView) -> Option<CanonicalUrlView> {
    match parsed.host {
        Some(host) => Some(CanonicalUrlView { text: parsed.text, host, path: parsed.path }),
        None => None,
    }
}

/// The canonical URL of the reference `raw`, given what the parser made of
/// `raw` alone (`absolute`) and of `raw` relative to the default base
/// (`joined`). An absolute URL with a host stands for itself. Any other
/// reference must survive the join onto the default base unchanged.
pub open spec fn resolve(
    raw: Seq<char>,
    absolute: Option<ParsedUrlView>,
    joined: Option<ParsedUrlView>,
) -> Result<CanonicalUrlView, Error> {
    if absolute is Some && absolute->0.host is Some {
        Ok(canonical(absolute->0)->0)
    } else if joined is Some && names_reference(joined->0, raw) {
        Ok(canonical(joined->0)->0)
    } else {
        Err(Error::MalformedReference)
    }
}

/// Accepts a parsed reference as it stands where it is an absolute URL with
/// a host.
pub fn absolute_url(parsed: ParsedUrl) -> (r: Option<CanonicalUrl>)
    ensures
        r matches Some(url) ==> canonical(parsed@) == Some(url@),
        r is None ==> canonical(parsed@) is None,
{
    let ParsedUrl { text, host, path } = parsed;
    match host {
        Some(host) => Some(CanonicalUrl { text, host, path }),
        None => None,
    }
}

/// `raw` with a slash in front, unless it begins with one.
fn rooted_reference(raw: &str) -> (r: String)
    ensures
        r@ == rooted(raw@),
{
    if !raw.is_empty() && raw.get_char(0) == '/' {
        raw.to_owned()
    } else {
        proof {
            reveal_strlit("/");
            assert("/"@ =~= seq!['/']);
        }
        "/".to_owned().concat(raw)
    }
}

/// Accepts a reference joined onto the default base where the join left it
/// unchanged, and rejects it as malformed otherwise.
pub fn shorthand_url(raw: &str, joined: ParsedUrl) -> (r: Result<CanonicalUrl, Error>)
    ensures
        r matches Ok(url) ==> names_reference(joined@, raw@) && canonical(joined@) == Some(url@),
        r matches Err(e) ==> !names_reference(joined@, raw@) && e == Error::MalformedReference,
{
    let path = rooted_reference(raw);
    let text = GITHUB_BASE_URL.to_owned().concat(path.as_str());
    let default_host = DEFAULT_HOST.to_owned();
    let ParsedUrl { text: joined_text, host: joined_host, path: joined_path } = joined;
    match joined_host {
        Some(host) => {
            if host == default_host && joined_path == path && joined_text == text {
                Ok(CanonicalUrl { text: joined_text, host, path: joined_path })
            } else {
                Err(Error::MalformedReference)
            }
        },
        None => Err(Error::MalformedReference),
    }
}

/// Resolves a repository reference to its canonical URL.
///
/// A reference that parses as an absolute URL with a host is returned as
/// parsed. Any other is joined onto `GITHUB_BASE_URL`, and accepted where the
/// result is that base followed by the reference as its path.
pub fn parse_url(repo_url: &str) -> (r: Result<CanonicalUrl, Error>)
    ensures
        r matches Ok(url) ==> resolve(
            repo_url@,
            parsed_url(repo_url@),
            joined_url(GITHUB_BASE_URL@, repo_url@),
        ) == Ok::<CanonicalUrlView, Error>(url@),
        r matches Err(e) ==> resolve(
            repo_url@,
            parsed_url(repo_url@),
            joined_url(GITHUB_BASE_URL@, repo_url@),
        ) == Err::<CanonicalUrlView, Error>(e),
{
    if let Ok(parsed) = url_parse(repo_url) {
        if let Some(url) = absolute_url(parsed) {
            return Ok(url);
        }
    }
    match url_join(GITHUB_BASE_URL, repo_url) {
        Ok(joined) => shorthand_url(repo_url, joined),
        Err(_) => Err(Error::MalformedReference),
    }
}

/// An absolute URL resolves to itself: where the parser reads the
/// reference as a URL with a host, that URL is the result, and the default
/// base has no part in it. A reference that is the serialization of its own
/// URL comes back letter for letter.
pub proof fn lemma_absolute_url_resolves_to_itself(
    raw: Seq<char>,
    absolute: ParsedUrlView,
    joined: Option<ParsedUrlView>,
)
    requires
        absolute.host is Some,
    ensures
        resolve(raw, Some(absolute), joined) == Ok::<CanonicalUrlView, Error>(
            CanonicalUrlView { text: absolute.text, host: absolute.host->0, path: absolute.path },
        ),
        absolute.text == raw ==> resolve(raw, Some(absolute), joined)->Ok_0.text == raw,
{
}

/// A reference that is no absolute URL resolves, where it resolves at all,
/// to the default host with the reference as its path, under the default
/// base. It resolves exactly where the join onto the default base gives that
/// URL.
pub proof fn lemma_shorthand_resolves_under_default_host(
    raw: Seq<char>,
    absolute: Option<ParsedUrlView>,
    joined: Option<ParsedUrlView>,
)
    requires
        !(absolute is Some && absolute->0.host is Some),
    ensures
        resolve(raw, absolute, joined) is Ok <==> joined is Some && names_reference(joined->0, raw),
        resolve(raw, absolute, joined) matches Ok(url) ==> url.host == DEFAULT_HOST@,
        resolve(raw, absolute, joined) matches Ok(url) ==> url.path == rooted(raw),
        resolve(raw, absolute, joined) matches Ok(url) ==> url.text == GITHUB_BASE_URL@ + rooted(
            raw,
        ),
{
}

/// The default base is the scheme `https` in front of the default host, and
/// the default host does not begin with `www.`.
pub proof fn lemma_default_base_has_no_www()
    ensures
        GITHUB_BASE_URL@ == "https://"@ + DEFAULT_HOST@,
        !"www."@.is_prefix_of(DEFAULT_HOST@),
{
    reveal_strlit("https://github.com");
    reveal_strlit("github.com");
    reveal_strlit("https://");
    reveal_strlit("www.");
    assert(GITHUB_BASE_URL@ =~= "https://"@ + DEFAULT_HOST@);
    assert("www."@[0] != DEFAULT_HOST@[0]);
}

} // verus!
