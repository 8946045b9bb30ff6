//! Resource locations: turning what the user typed, or what a link holds,
//! into an absolute location, with the page it came from as the base.

use crate::text::{chars_of, contains, find};
use vstd::prelude::*;
use vstd::string::StringExecFns;

verus! {

/// `url::ParseError`, the error of `url::Url::parse` and `url::Url::join`.
/// It is carried from the parser to [`resolve`] as it is; nothing is
/// claimed of what it holds.
#[verifier::external_type_specification]
#[verifier::external_body]
pub struct ExParseError(url::ParseError);

/// An absolute location, as the parser normalized it: nothing in it is
/// relative any more. It is made by [`resolve`] and never changes
/// afterwards.
#[derive(Debug)]
pub struct ResourceLocation {
    text: String,
    scheme: String,
    host: Option<String>,
    port: Option<u16>,
    path: String,
    query: Option<String>,
    fragment: Option<String>,
}

/// The mathematical value of a [`ResourceLocation`]: its string form and
/// the parts of it.
pub struct LocationView {
    pub text: Seq<char>,
    pub scheme: Seq<char>,
    pub host: Option<Seq<char>>,
    pub port: Option<u16>,
    pub path: Seq<char>,
    pub query: Option<Seq<char>>,
    pub fragment: Option<Seq<char>>,
}

/// The view of an optional string.
pub open spec fn option_view(s: Option<String>) -> Option<Seq<char>> {
    match s {
        Some(s) => Some(s@),
        None => None,
    }
}

impl View for ResourceLocation {
    type V = LocationView;

    closed spec fn view(&self) -> LocationView {
        LocationView {
            text: self.text@,
            scheme: self.scheme@,
            host: option_view(self.host),
            port: self.port,
            path: self.path@,
            query: option_view(self.query),
            fragment: option_view(self.fragment),
        }
    }
}

impl ResourceLocation {
    /// The whole location in its string form, as it is sent in a request.
    pub fn text(&self) -> (r: &str)
        ensures
            r@ == self@.text,
    {
        self.text.as_str()
    }

    /// The scheme, without the colon.
    pub fn scheme(&self) -> (r: &str)
        ensures
            r@ == self@.scheme,
    {
        self.scheme.as_str()
    }

    /// The host, where the location names one.
    pub fn host(&self) -> (r: Option<&str>)
        ensures
            match r {
                Some(host) => self@.host == Some(host@),
                None => self@.host is None,
            },
    {
        match &self.host {
            Some(host) => Some(host.as_str()),
            None => None,
        }
    }

    /// The port, where the location gives one that is not its scheme's own.
    pub fn port(&self) -> (r: Option<u16>)
        ensures
            r == self@.port,
    {
        self.port
    }

    /// The path.
    pub fn path(&self) -> (r: &str)
        ensures
            r@ == self@.path,
    {
        self.path.as_str()
    }

    /// The query, without the question mark, where there is one.
    pub fn query(&self) -> (r: Option<&str>)
        ensures
            match r {
                Some(query) => self@.query == Some(query@),
                None => self@.query is None,
            },
    {
        match &self.query {
            Some(query) => Some(query.as_str()),
            None => None,
        }
    }

    /// The fragment, without the hash sign, where there is one.
    pub fn fragment(&self) -> (r: Option<&str>)
        ensures
            match r {
                Some(fragment) => self@.fragment == Some(fragment@),
                None => self@.fragment is None,
            },
    {
        match &self.fragment {
            Some(fragment) => Some(fragment.as_str()),
            None => None,
        }
    }
}

/// What `url::Url::parse` makes of `input`: the location it yields, or
/// nothing where it reports an error.
pub uninterp spec fn url_parse(input: Seq<char>) -> Option<LocationView>;

/// What `url::Url::join` makes of `input` on the location that
/// `url::Url::parse` yields for `base`: the location it yields, or nothing
/// where either reports an error.
pub uninterp spec fn url_join(base: Seq<char>, input: Seq<char>) -> Option<LocationView>;

/// Calls `url::Url::parse`. The contract says only that the outcome is the
/// one that the input determines: the parts are read off the parsed
/// location by its accessors `as_str`, `scheme`, `host_str`, `port`, `path`,
/// `query` and `fragment`.
#[verifier::external_body]
fn parse(input: &str) -> (r: Result<ResourceLocation, url::ParseError>)
    ensures
        match r {
            Ok(location) => url_parse(input@) == Some(location@),
            Err(_) => url_parse(input@) is None,
        },
{
    let u = url::Url::parse(input)?;
    Ok(ResourceLocation {
        text: u.as_str().to_string(),
        scheme: u.scheme().to_string(),
        host: u.host_str().map(str::to_string),
        port: u.port(),
        path: u.path().to_string(),
        query: u.query().map(str::to_string),
        fragment: u.fragment().map(str::to_string),
    })
}

/// Calls `url::Url::join` on the parsed `base`. The contract says only
/// that the outcome is the one that the two inputs determine; the parts
/// are read off as in [`parse`].
#[verifier::external_body]
fn join(base: &str, input: &str) -> (r: Result<ResourceLocation, url::ParseError>)
    ensures
        match r {
            Ok(location) => url_join(base@, input@) == Some(location@),
            Err(_) => url_join(base@, input@) is None,
        },
{
    let u = url::Url::parse(base)?.join(input)?;
    Ok(ResourceLocation {
        text: u.as_str().to_string(),
        scheme: u.scheme().to_string(),
        host: u.host_str().map(str::to_string),
        port: u.port(),
        path: u.path().to_string(),
        query: u.query().map(str::to_string),
        fragment: u.fragment().map(str::to_string),
    })
}

/// The message of a `url::ParseError`, as its `Display` writes it. Nothing
/// is claimed of the text.
#[verifier::external_body]
fn message_of(error: &url::ParseError) -> (r: String) {
    error.to_string()
}

/// Why a location could not be resolved. The malformed cases carry the
/// parser's message.
#[derive(Debug)]
pub enum ResolutionError {
    /// The base is no absolute location.
    MalformedBase(String),
    /// The target, read on its own or against the base, is no location.
    MalformedTarget(String),
    /// The location names no host to connect to.
    MissingHost,
}

/// The kinds of [`ResolutionError`].
pub enum ResolutionFailure {
    MalformedBase,
    MalformedTarget,
    MissingHost,
}

impl ResolutionError {
    /// The kind of this error, without the parser's message.
    pub open spec fn kind(&self) -> ResolutionFailure {
        match *self {
            ResolutionError::MalformedBase(_) => ResolutionFailure::MalformedBase,
            ResolutionError::MalformedTarget(_) => ResolutionFailure::MalformedTarget,
            ResolutionError::MissingHost => ResolutionFailure::MissingHost,
        }
    }

    /// The parser's message, where the error carries one.
    pub open spec fn detail(&self) -> Seq<char> {
        match *self {
            ResolutionError::MalformedBase(detail) => detail@,
            ResolutionError::MalformedTarget(detail) => detail@,
            ResolutionError::MissingHost => Seq::empty(),
        }
    }
}

/// What separates a scheme from the rest of a location.
pub open spec fn scheme_separator() -> Seq<char> {
    seq![':', '/', '/']
}

/// The scheme that a location typed without one gets, with its separator.
pub open spec fn default_scheme() -> Seq<char> {
    seq!['g', 'e', 'm', 'i', 'n', 'i', ':', '/', '/']
}

/// The text that is parsed where there is no base: the input itself where
/// it holds a scheme separator, else the input behind the default scheme.
pub open spec fn with_default_scheme(input: Seq<char>) -> Seq<char> {
    if contains(input, scheme_separator()) {
        input
    } else {
        default_scheme() + input
    }
}

/// A parsed location is accepted where it names a host.
pub open spec fn require_host(parsed: LocationView) -> Result<LocationView, ResolutionFailure> {
    if parsed.host is Some {
        Ok(parsed)
    } else {
        Err(ResolutionFailure::MissingHost)
    }
}

/// The location that `input` names from `base`, an empty base meaning that
/// there is none.
///
/// Without a base, the input (behind the default scheme where it has none)
/// must parse as an absolute location. With one, the base must parse as an
/// absolute location, and the input is resolved against it as a relative
/// reference. Either way the result must name a host.
pub open spec fn resolved(base: Seq<char>, input: Seq<char>) -> Result<
    LocationView,
    ResolutionFailure,
> {
    if base.len() == 0 {
        match url_parse(with_default_scheme(input)) {
            Some(parsed) => require_host(parsed),
            None => Err(ResolutionFailure::MalformedTarget),
        }
    } else if url_parse(base) is None {
        Err(ResolutionFailure::MalformedBase)
    } else {
        match url_join(base, input) {
            Some(parsed) => require_host(parsed),
            None => Err(ResolutionFailure::MalformedTarget),
        }
    }
}

/// Puts the default scheme before an input that holds no scheme separator.
pub fn apply_default_scheme(input: &str) -> (r: String)
    ensures
        r@ == with_default_scheme(input@),
{
    let chars: Vec<char> = chars_of(input);
    let separator: Vec<char> = chars_of("://");
    proof {
        reveal_strlit("://");
        reveal_strlit("gemini://");
        assert(separator@ =~= scheme_separator());
        assert("gemini://"@ =~= default_scheme());
    }
    match find(chars.as_slice(), separator.as_slice()) {
        Some(_) => String::from_str(input),
        None => {
            let mut r: String = String::from_str("gemini://");
            r.append(input);
            r
        },
    }
}

/// Accepts a parsed location where it names a host.
pub fn check_host(location: ResourceLocation) -> (r: Result<ResourceLocation, ResolutionError>)
    ensures
        match r {
            Ok(accepted) => require_host(location@) == Ok::<LocationView, ResolutionFailure>(
                accepted@,
            ),
            Err(e) => require_host(location@) == Err::<LocationView, ResolutionFailure>(e.kind()),
        },
{
    if location.host.is_some() {
        Ok(location)
    } else {
        Err(ResolutionError::MissingHost)
    }
}

/// Resolves `input` from `base`, an empty base meaning that there is none.
pub fn resolve(base: &str, input: &str) -> (r: Result<ResourceLocation, ResolutionError>)
    ensures
        match r {
            Ok(location) => resolved(base@, input@) == Ok::<LocationView, ResolutionFailure>(
                location@,
            ),
            Err(e) => resolved(base@, input@) == Err::<LocationView, ResolutionFailure>(e.kind()),
        },
{
    if base.is_empty() {
        let candidate: String = apply_default_scheme(input);
        match parse(candidate.as_str()) {
            Ok(location) => check_host(location),
            Err(e) => Err(ResolutionError::MalformedTarget(message_of(&e))),
        }
    } else {
        match parse(base) {
            Err(e) => Err(ResolutionError::MalformedBase(message_of(&e))),
            Ok(_) => match join(base, input) {
                Ok(location) => check_host(location),
                Err(e) => Err(ResolutionError::MalformedTarget(message_of(&e))),
            },
        }
    }
}

} // verus!
