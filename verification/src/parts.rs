//! The components of a `safe://` URL, as they stand in the string: nothing
//! is decoded here, only the shape is checked.

use vstd::prelude::*;
use vstd::string::*;
use crate::error::{agrees, failure, failure_with_detail, Error, ErrorKind, Failure};
use crate::foreign::{parse_url, url_error_text, url_parsed, ParsedUrl, ParsedUrlView};
use crate::text::{contains_doubled, has_doubled, split, split_text, text_eq, texts};

verus! {

/// The components of a `safe://` URL.
#[derive(Debug, Clone)]
pub struct SafeUrlParts {
    /// Always `safe`.
    pub scheme: String,
    /// The whole host.
    pub host: String,
    /// The labels of the host before the last one.
    pub sub_names: Vec<String>,
    /// The last label of the host.
    pub tld: String,
    /// The path, percent-encoded as it stood.
    pub path: String,
    /// The query, without `?`; empty if there is none.
    pub query_string: String,
    /// The fragment, without `#`; empty if there is none.
    pub fragment: String,
}

/// The components of a `safe://` URL as contracts see them.
pub struct SafeUrlPartsView {
    pub scheme: Seq<char>,
    pub host: Seq<char>,
    pub sub_names: Seq<Seq<char>>,
    pub tld: Seq<char>,
    pub path: Seq<char>,
    pub query_string: Seq<char>,
    pub fragment: Seq<char>,
}

impl View for SafeUrlParts {
    type V = SafeUrlPartsView;

    open spec fn view(&self) -> SafeUrlPartsView {
        SafeUrlPartsView {
            scheme: self.scheme@,
            host: self.host@,
            sub_names: texts(self.sub_names@),
            tld: self.tld@,
            path: self.path@,
            query_string: self.query_string@,
            fragment: self.fragment@,
        }
    }
}

/// The characters of `s`, or none where `s` is absent.
pub open spec fn or_empty(s: Option<Seq<char>>) -> Seq<char> {
    match s {
        Some(t) => t,
        None => Seq::empty(),
    }
}

/// The beginning of the message for a string that is no URL, or a URL
/// without a host.
pub open spec fn problem_parsing(url: Seq<char>) -> Seq<char> {
    "Problem parsing the URL \""@ + url + "\": "@
}

/// The URL has another scheme than `safe`.
pub open spec fn wrong_scheme(scheme: Seq<char>) -> Failure {
    failure(
        ErrorKind::InvalidXorUrl,
        "invalid scheme: '"@ + scheme + "'. expected: '"@ + "safe"@ + "'"@,
    )
}

/// The components of an already parsed URL, or why it is no `safe://` URL.
/// The scheme is judged first, then the host, then the path.
pub open spec fn checked_parts(url: Seq<char>, p: ParsedUrlView) -> Result<
    SafeUrlPartsView,
    Failure,
> {
    if p.scheme != "safe"@ {
        Err(wrong_scheme(p.scheme))
    } else {
        match p.host {
            None => Err(
                failure(ErrorKind::InvalidXorUrl, problem_parsing(url) + "missing host"@),
            ),
            Some(host) => {
                if has_doubled(host, '.') {
                    Err(failure(ErrorKind::InvalidXorUrl, "host contains empty subname"@))
                } else if has_doubled(p.path, '/') {
                    Err(failure(ErrorKind::InvalidXorUrl, "path contains empty component"@))
                } else {
                    Ok(
                        SafeUrlPartsView {
                            scheme: p.scheme,
                            host,
                            sub_names: split(host, '.').drop_last(),
                            tld: split(host, '.').last(),
                            path: p.path,
                            query_string: or_empty(p.query),
                            fragment: or_empty(p.fragment),
                        },
                    )
                }
            },
        }
    }
}

/// The components of the URL `url`, or why it is no `safe://` URL.
pub open spec fn parts_of(url: Seq<char>) -> Result<SafeUrlPartsView, Failure> {
    match url_parsed(url) {
        None => Err(failure_with_detail(ErrorKind::InvalidXorUrl, problem_parsing(url))),
        Some(p) => checked_parts(url, p),
    }
}

/// The text, or the empty text where there is none.
fn text_or_empty(s: Option<String>) -> (r: String)
    ensures
        r@ == or_empty(
            match s {
                Some(t) => Some(t@),
                None => None,
            },
        ),
{
    match s {
        Some(t) => t,
        None => String::new(),
    }
}

/// The message for a string that is no URL, or a URL without a host.
fn problem_parsing_text(url: &str, detail: &str) -> (r: String)
    ensures
        r@ == problem_parsing(url@) + detail@,
{
    let mut m = String::from_str("Problem parsing the URL \"");
    m.append(url);
    m.append("\": ");
    m.append(detail);
    m
}

impl SafeUrlParts {
    /// Checks the components that the URL parser found in `url` and splits
    /// the host into its labels.
    pub fn from_parsed(url: &str, p: ParsedUrl) -> (r: Result<SafeUrlParts, Error>)
        ensures
            agrees(r, checked_parts(url@, p@)),
    {
        if !text_eq(p.scheme.as_str(), "safe") {
            let mut m = String::from_str("invalid scheme: '");
            m.append(p.scheme.as_str());
            m.append("'. expected: '");
            m.append("safe");
            m.append("'");
            return Err(Error::InvalidXorUrl(m));
        }
        let host = match p.host {
            Some(h) => h,
            None => {
                return Err(Error::InvalidXorUrl(problem_parsing_text(url, "missing host")));
            },
        };
        if contains_doubled(host.as_str(), '.') {
            return Err(Error::InvalidXorUrl(String::from_str("host contains empty subname")));
        }
        if contains_doubled(p.path.as_str(), '/') {
            return Err(Error::InvalidXorUrl(String::from_str("path contains empty component")));
        }
        let mut names = split_text(host.as_str(), '.');
        let ghost all = names@;
        let tld = match names.pop() {
            Some(t) => t,
            None => String::new(),
        };
        proof {
            assert(texts(names@) == texts(all).drop_last());
        }
        Ok(
            SafeUrlParts {
                scheme: p.scheme,
                host,
                sub_names: names,
                tld,
                path: p.path,
                query_string: text_or_empty(p.query),
                fragment: text_or_empty(p.fragment),
            },
        )
    }

    /// Splits a URL into its components and checks its shape: the scheme is
    /// `safe`, there is a host, the host holds no `..`, and the path holds no
    /// `//`.
    pub fn parse(url: &str) -> (r: Result<SafeUrlParts, Error>)
        ensures
            agrees(r, parts_of(url@)),
    {
        match parse_url(url) {
            Ok(p) => SafeUrlParts::from_parsed(url, p),
            Err(e) => {
                let detail = url_error_text(&e);
                Err(Error::InvalidXorUrl(problem_parsing_text(url, detail.as_str())))
            },
        }
    }
}

} // verus!
