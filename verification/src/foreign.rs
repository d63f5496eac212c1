//! The calls into other crates. Verus takes the contract of each item here
//! on trust: the doc comment of each says which function it calls and what
//! the contract claims of it.

use vstd::prelude::*;
use vstd::string::*;
use crate::content::XorUrlBase;

verus! {

/// The components that the URL parser found in a string.
pub struct ParsedUrl {
    /// The scheme, without the colon.
    pub scheme: String,
    /// The host, where the URL has one.
    pub host: Option<String>,
    /// The path.
    pub path: String,
    /// What stands between `?` and the fragment, where there is a `?`.
    pub query: Option<String>,
    /// What stands after `#`, where there is one.
    pub fragment: Option<String>,
}

/// A parsed URL as contracts see it.
pub struct ParsedUrlView {
    pub scheme: Seq<char>,
    pub host: Option<Seq<char>>,
    pub path: Seq<char>,
    pub query: Option<Seq<char>>,
    pub fragment: Option<Seq<char>>,
}

/// The characters of an optional string.
pub open spec fn opt_text(s: Option<String>) -> Option<Seq<char>> {
    match s {
        Some(t) => Some(t@),
        None => None,
    }
}

/// The characters of each name and value of `v`, in order.
pub open spec fn pair_texts(v: Seq<(String, String)>) -> Seq<(Seq<char>, Seq<char>)> {
    Seq::new(v.len(), |i: int| (v[i].0@, v[i].1@))
}

impl View for ParsedUrl {
    type V = ParsedUrlView;

    open spec fn view(&self) -> ParsedUrlView {
        ParsedUrlView {
            scheme: self.scheme@,
            host: opt_text(self.host),
            path: self.path@,
            query: opt_text(self.query),
            fragment: opt_text(self.fragment),
        }
    }
}

/// What `url::Url::parse` makes of `input`: the components of the URL it
/// returns, or nothing where it refuses the input.
pub uninterp spec fn url_parsed(input: Seq<char>) -> Option<ParsedUrlView>;

/// The error of `url::Url::parse`.
#[verifier::external_type_specification]
#[verifier::external_body]
pub struct ExUrlParseError(url::ParseError);

/// Calls `url::Url::parse` and copies out of the URL it returns what
/// `scheme`, `host_str`, `path`, `query` and `fragment` give. Claimed: the
/// outcome depends on `input` alone.
#[verifier::external_body]
pub(crate) fn parse_url(input: &str) -> (r: Result<ParsedUrl, url::ParseError>)
    ensures
        match r {
            Ok(p) => url_parsed(input@) == Some(p@),
            Err(_) => url_parsed(input@) is None,
        },
{
    let u = url::Url::parse(input)?;
    Ok(ParsedUrl {
        scheme: u.scheme().to_string(),
        host: u.host_str().map(String::from),
        path: u.path().to_string(),
        query: u.query().map(String::from),
        fragment: u.fragment().map(String::from),
    })
}

/// Calls `to_string` on an error of `url::Url::parse`. Nothing is claimed of
/// the wording.
#[verifier::external_body]
pub(crate) fn url_error_text(e: &url::ParseError) -> String {
    e.to_string()
}

/// The pairs that `url::form_urlencoded::parse` reads from the bytes of a
/// query, each name and value percent-decoded.
pub uninterp spec fn form_urldecoded(query: Seq<char>) -> Seq<(Seq<char>, Seq<char>)>;

/// Calls `url::form_urlencoded::parse` on the UTF-8 bytes of `query` and
/// collects the pairs it yields, which is what `Url::query_pairs` does with
/// the query of a URL. Claimed: the pairs depend on `query` alone.
#[verifier::external_body]
pub(crate) fn form_urldecode(query: &str) -> (r: Vec<(String, String)>)
    ensures
        pair_texts(r@) == form_urldecoded(query@),
{
    url::form_urlencoded::parse(query.as_bytes()).into_owned().collect()
}

/// What `url::form_urlencoded::Serializer` writes for a list of pairs.
pub uninterp spec fn form_urlencoded(pairs: Seq<(Seq<char>, Seq<char>)>) -> Seq<char>;

/// Calls `url::form_urlencoded::Serializer::new` on an empty string, then
/// `extend_pairs` and `finish`. Claimed: the text depends on the names and
/// values alone.
#[verifier::external_body]
pub(crate) fn form_urlencode(pairs: &Vec<(String, String)>) -> (r: String)
    ensures
        r@ == form_urlencoded(pair_texts(pairs@)),
{
    url::form_urlencoded::Serializer::new(String::new()).extend_pairs(pairs.iter()).finish()
}

/// What `multibase::encode` writes for `data` in the alphabet `base`.
pub uninterp spec fn multibase_text(base: XorUrlBase, data: Seq<u8>) -> Seq<char>;

/// Calls `multibase::encode` with the alphabet of that crate that `base`
/// names. Claimed: the text depends on the alphabet and the bytes alone.
#[verifier::external_body]
pub(crate) fn multibase_encode(base: XorUrlBase, data: &[u8]) -> (r: String)
    ensures
        r@ == multibase_text(base, data@),
{
    let alphabet = match base {
        XorUrlBase::Base32z => multibase::Base::Base32z,
        XorUrlBase::Base32 => multibase::Base::Base32,
        XorUrlBase::Base64 => multibase::Base::Base64,
    };
    multibase::encode(alphabet, data)
}

/// The bytes that `multibase::decode` reads from `text`, or nothing where it
/// refuses the text.
pub uninterp spec fn multibase_bytes(text: Seq<char>) -> Option<Seq<u8>>;

/// Calls `multibase::decode` and keeps the bytes; the alphabet it found is
/// dropped. Where that crate refuses the text, its error comes back as the
/// words that `{:?}` gives for it. Claimed: whether the text is refused, and
/// the bytes read, depend on `text` alone. Nothing is claimed of the words.
#[verifier::external_body]
pub(crate) fn multibase_decode(text: &str) -> (r: Result<Vec<u8>, String>)
    ensures
        match r {
            Ok(b) => multibase_bytes(text@) == Some(b@),
            Err(_) => multibase_bytes(text@) is None,
        },
{
    match multibase::decode(text) {
        Ok((_, bytes)) => Ok(bytes),
        Err(e) => Err(format!("{:?}", e)),
    }
}

/// The SHA3-256 digest of `data`, as `tiny_keccak::sha3_256` computes it.
pub uninterp spec fn sha3_256_digest(data: Seq<u8>) -> Seq<u8>;

/// Calls `tiny_keccak::sha3_256`. Claimed: the digest depends on the bytes
/// alone.
#[verifier::external_body]
pub(crate) fn sha3_256(data: &[u8]) -> (r: [u8; 32])
    ensures
        r@ == sha3_256_digest(data@),
{
    tiny_keccak::sha3_256(data)
}

/// How `safe_nd::XorName` shows the 32 bytes of a name.
pub uninterp spec fn xorname_shown(bytes: Seq<u8>) -> Seq<char>;

/// Calls `to_string` on the `safe_nd::XorName` made of `bytes`. Claimed: the
/// text depends on the bytes alone.
#[verifier::external_body]
pub(crate) fn xorname_text(bytes: &[u8; 32]) -> (r: String)
    ensures
        r@ == xorname_shown(bytes@),
{
    safe_nd::XorName(*bytes).to_string()
}

/// The upper-case hexadecimal digit for `d`, 0 to 15.
pub open spec fn hex_upper(d: int) -> char {
    seq!['0', '1', '2', '3', '4', '5', '6', '7', '8', '9', 'A', 'B', 'C', 'D', 'E', 'F'][d]
}

/// The bytes that percent-encoding leaves as they are: ASCII letters and
/// digits, and `-`, `.`, `_`, `~`.
pub open spec fn is_unreserved(b: u8) -> bool {
    ||| 0x30 <= b <= 0x39
    ||| 0x41 <= b <= 0x5a
    ||| 0x61 <= b <= 0x7a
    ||| b == 0x2d
    ||| b == 0x2e
    ||| b == 0x5f
    ||| b == 0x7e
}

/// One byte, percent-encoded: itself, or `%` and its two hexadecimal digits.
pub open spec fn percent_encoded_byte(b: u8) -> Seq<char> {
    if is_unreserved(b) {
        seq![b as char]
    } else {
        seq!['%', hex_upper(b as int / 16), hex_upper(b as int % 16)]
    }
}

/// The bytes, percent-encoded one after the other.
pub open spec fn percent_encoded(bytes: Seq<u8>) -> Seq<char>
    decreases bytes.len(),
{
    if bytes.len() == 0 {
        Seq::empty()
    } else {
        percent_encoded_byte(bytes[0]) + percent_encoded(bytes.skip(1))
    }
}

/// Calls `urlencoding::encode`. Claimed, as that crate documents it: every
/// byte of the UTF-8 form of `s` is percent-encoded but ASCII letters and
/// digits and `-`, `.`, `_`, `~`; the hexadecimal digits are upper case.
#[verifier::external_body]
pub(crate) fn percent_encode(s: &str) -> (r: String)
    ensures
        r@ == percent_encoded(s.spec_bytes()),
{
    urlencoding::encode(s)
}

/// What `urlencoding::decode` reads from `s`, or nothing where the decoded
/// bytes are no UTF-8 text.
pub uninterp spec fn percent_decoded(s: Seq<char>) -> Option<Seq<char>>;

/// The error of `urlencoding::decode`.
#[verifier::external_type_specification]
#[verifier::external_body]
pub struct ExFromUrlEncodingError(urlencoding::FromUrlEncodingError);

/// Calls `urlencoding::decode`. Claimed: the outcome depends on `s` alone.
#[verifier::external_body]
pub(crate) fn percent_decode(s: &str) -> (r: Result<String, urlencoding::FromUrlEncodingError>)
    ensures
        match r {
            Ok(t) => percent_decoded(s@) == Some(t@),
            Err(_) => percent_decoded(s@) is None,
        },
{
    urlencoding::decode(s)
}

/// Formats an error of `urlencoding::decode` with `{:#?}`. Nothing is
/// claimed of the wording.
#[verifier::external_body]
pub(crate) fn percent_decode_error_text(e: &urlencoding::FromUrlEncodingError) -> String {
    format!("{:#?}", e)
}

} // verus!
