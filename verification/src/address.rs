use vstd::prelude::*;

verus! {

/// `url::ParseError`, why a text is no URL; it is not looked into.
#[verifier::external_type_specification]
#[verifier::external_body]
pub struct ExParseError(url::ParseError);

/// What the strategies read from an absolute URL.
#[derive(Debug, PartialEq, Eq)]
pub struct ParsedUrl {
    /// The host, where the URL has one and it is a domain name.
    pub domain: Option<String>,
    /// The segments of the path, where the URL can be a base.
    pub segments: Option<Vec<String>>,
}

/// The mathematical value of a [`ParsedUrl`].
pub struct UrlParts {
    pub domain: Option<Seq<char>>,
    pub segments: Option<Seq<Seq<char>>>,
}

impl View for ParsedUrl {
    type V = UrlParts;

    open spec fn view(&self) -> UrlParts {
        UrlParts { domain: self.domain.deep_view(), segments: self.segments.deep_view() }
    }
}

impl UrlParts {
    /// The last segment of the path, where there is one.
    pub open spec fn last_segment(self) -> Option<Seq<char>> {
        match self.segments {
            Some(segments) if segments.len() > 0 => Some(segments.last()),
            _ => None,
        }
    }
}

impl ParsedUrl {
    /// The last segment of the path, where there is one.
    pub fn last_segment(&self) -> (r: Option<&String>)
        ensures
            match r {
                Some(segment) => self@.last_segment() == Some(segment@),
                None => self@.last_segment() is None,
            },
    {
        match &self.segments {
            Some(segments) => if segments.len() > 0 {
                Some(&segments[segments.len() - 1])
            } else {
                None
            },
            None => None,
        }
    }
}

/// The parts of the absolute URL that `input` spells, as the `url` crate
/// parses it; `None` where it does not parse.
pub uninterp spec fn url_parts(input: Seq<char>) -> Option<UrlParts>;

/// The URL that `reference` resolves to against `base`, with its query
/// replaced by `query`, as the `url` crate serialises it; `None` where `base`
/// does not parse or `reference` does not resolve.
pub uninterp spec fn resolved(base: Seq<char>, reference: Seq<char>, query: Seq<char>) -> Option<
    Seq<char>,
>;

/// Calls `url::Url::parse` and reads the result through `Url::domain` and
/// `Url::path_segments`. The contract claims only that the outcome is a
/// function of the input text: success, the domain and the segments are those
/// that the crate computes, under the name `url_parts`.
#[verifier::external_body]
pub(crate) fn parse_url(input: &str) -> (r: Result<ParsedUrl, url::ParseError>)
    ensures
        match r {
            Ok(p) => url_parts(input@) == Some(p@),
            Err(_) => url_parts(input@) is None,
        },
{
    let parsed = url::Url::parse(input)?;
    Ok(
        ParsedUrl {
            domain: parsed.domain().map(String::from),
            segments: parsed.path_segments().map(|s| s.map(String::from).collect()),
        },
    )
}

/// The longest text that `resolve` takes for each of its arguments.
pub const TEXT_LIMIT: usize = 0x10_0000;

/// Calls `url::Url::parse` on `base`, `Url::join` with `reference` and
/// `Url::set_query` with `query`, and hands back the serialisation. The
/// contract claims only that the outcome is a function of the three texts,
/// under the name `resolved`. The crate counts the serialisation's bytes in 32
/// bits, which texts within the limit cannot exceed.
#[verifier::external_body]
pub(crate) fn resolve(base: &str, reference: &str, query: &str) -> (r: Result<
    String,
    url::ParseError,
>)
    requires
        base@.len() <= TEXT_LIMIT,
        reference@.len() <= TEXT_LIMIT,
        query@.len() <= TEXT_LIMIT,
    ensures
        match r {
            Ok(s) => resolved(base@, reference@, query@) == Some(s@),
            Err(_) => resolved(base@, reference@, query@) is None,
        },
{
    let mut joined = url::Url::parse(base)?.join(reference)?;
    joined.set_query(Some(query));
    Ok(String::from(joined))
}

} // verus!
