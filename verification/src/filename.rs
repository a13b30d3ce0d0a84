use vstd::prelude::*;
use crate::errors::HarvestError;
use crate::sanitize::{sanitize_spec, sanitize_segment};

verus! {

/// What URL parsing finds in one input line, reduced to the parts the
/// deriver reads: whether the line is a URL at all, whether it names a host,
/// and the last segment of its path.
pub enum UrlShape {
    /// The line is not a well-formed URL.
    Malformed,
    /// The line is a URL of a scheme that requires a host, but names none.
    NoHost,
    /// The URL cannot carry path segments (a cannot-be-a-base URL).
    NoSegments,
    /// The URL has a path; this is its last `/`-separated segment, which is
    /// empty for a URL ending in `/`.
    LastSegment(Seq<char>),
}

/// The executable counterpart of `UrlShape`, handed back by the parser.
pub enum UrlParts {
    Malformed,
    NoHost,
    NoSegments,
    LastSegment(String),
}

impl View for UrlParts {
    type V = UrlShape;

    open spec fn view(&self) -> UrlShape {
        match self {
            UrlParts::Malformed => UrlShape::Malformed,
            UrlParts::NoHost => UrlShape::NoHost,
            UrlParts::NoSegments => UrlShape::NoSegments,
            UrlParts::LastSegment(seg) => UrlShape::LastSegment(seg@),
        }
    }
}

/// The shape that URL parsing assigns to a line: a function of the line's
/// characters alone.
pub uninterp spec fn url_shape_of(s: Seq<char>) -> UrlShape;

/// Relies on `url::Url::parse` for whether the line is a well-formed URL
/// (`ParseError::EmptyHost` told apart from the other errors), on
/// `url::Url::path_segments` for whether the URL can carry a path, and on
/// `Iterator::last` over the `/`-separated segments for the final one.
#[verifier::external_body]
fn classify_url(line: &str) -> (r: UrlParts)
    ensures
        r@ == url_shape_of(line@),
{
    match url::Url::parse(line) {
        Err(url::ParseError::EmptyHost) => UrlParts::NoHost,
        Err(_) => UrlParts::Malformed,
        Ok(u) => match u.path_segments() {
            None => UrlParts::NoSegments,
            Some(segments) => match segments.last() {
                None => UrlParts::NoSegments,
                Some(seg) => UrlParts::LastSegment(seg.to_string()),
            },
        },
    }
}

/// What deriving a filename from one line yields: the sanitized last path
/// segment, or the error the line is owed — `ParseError` for a line that is
/// no URL, `MissingPath` for a URL with no usable last segment.
pub open spec fn derive_spec(s: Seq<char>) -> Result<Seq<char>, HarvestError> {
    match url_shape_of(s) {
        UrlShape::Malformed => Err(HarvestError::ParseError),
        UrlShape::NoHost => Err(HarvestError::MissingPath),
        UrlShape::NoSegments => Err(HarvestError::MissingPath),
        UrlShape::LastSegment(seg) => if seg.len() == 0 {
            Err(HarvestError::MissingPath)
        } else {
            Ok(sanitize_spec(seg))
        },
    }
}

/// The view of a derived filename result.
pub open spec fn filename_result_view(r: Result<String, HarvestError>) -> Result<
    Seq<char>,
    HarvestError,
> {
    match r {
        Ok(name) => Ok(name@),
        Err(e) => Err(e),
    }
}

/// Turn one input line into the name of its destination file: the sanitized
/// last path segment of the URL. Pure and deterministic; the caller joins the
/// name under the output directory.
pub fn derive_filename(line: &str) -> (r: Result<String, HarvestError>)
    ensures
        filename_result_view(r) == derive_spec(line@),
{
    match classify_url(line) {
        UrlParts::Malformed => Err(HarvestError::ParseError),
        UrlParts::NoHost => Err(HarvestError::MissingPath),
        UrlParts::NoSegments => Err(HarvestError::MissingPath),
        UrlParts::LastSegment(seg) => {
            if seg.as_str().is_empty() {
                Err(HarvestError::MissingPath)
            } else {
                Ok(sanitize_segment(seg.as_str()))
            }
        },
    }
}

/// Filename derivation is total over parsed URLs: a non-empty last path
/// segment always yields a filename, the sanitized segment; a URL with no
/// usable segment always fails with `MissingPath`, and a line that is no URL
/// with `ParseError`.
pub proof fn lemma_derive_filename_total(s: Seq<char>)
    ensures
        url_shape_of(s) is LastSegment && url_shape_of(s)->LastSegment_0.len() > 0 ==> derive_spec(
            s,
        ) == Ok::<Seq<char>, HarvestError>(sanitize_spec(url_shape_of(s)->LastSegment_0)),
        url_shape_of(s) is LastSegment && url_shape_of(s)->LastSegment_0.len() == 0 ==> derive_spec(
            s,
        ) == Err::<Seq<char>, HarvestError>(HarvestError::MissingPath),
        url_shape_of(s) is NoHost || url_shape_of(s) is NoSegments ==> derive_spec(s) == Err::<
            Seq<char>,
            HarvestError,
        >(HarvestError::MissingPath),
        url_shape_of(s) is Malformed ==> derive_spec(s) == Err::<Seq<char>, HarvestError>(
            HarvestError::ParseError,
        ),
{
}

} // verus!
