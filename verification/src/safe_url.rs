//! The locator itself: built from its fields or read from a URL, changed
//! through its setters, and written out as a URL in either of its two forms.

use vstd::prelude::*;
use vstd::string::*;
use vstd::utf8::encode_utf8;
use crate::content::{
    content_type_code, ContentTypeView, SafeContentType, SafeDataType, XorName, XorUrlBase,
    DEFAULT_XORURL_BASE,
};
use crate::error::{agrees, failure, failure_with_detail, Error, ErrorKind, Failure};
use crate::foreign::{
    form_urlencode, form_urlencoded, multibase_bytes, multibase_decode, multibase_encode,
    multibase_text, pair_texts, percent_decode, percent_decode_error_text, percent_decoded,
    percent_encode, percent_encoded, sha3_256, sha3_256_digest, xorname_shown, xorname_text,
};
use crate::label::{decode_label, encode_label, label_bytes, label_of_bytes};
use crate::media_types::{code_for_media_type, media_type_code};
use crate::parts::{or_empty, parts_of, SafeUrlParts};
use crate::path::{is_rooted, lemma_normalized_path_is_rooted, normalize_path, normalized_path};
use crate::query::{
    first_value, last_value, pairs_of, pairs_or_none, query_pairs_of, set_pair, values_for_key,
    values_of, version_in, version_of, version_of_text, with_key_set,
};
use crate::text::{decimal, join, join_text, split, split_text, text_eq, texts, u64_to_text};

verus! {

/// The type tag of the map that an alias resolves through.
pub const NRS_MAP_TYPE_TAG: u64 = 1_500;

/// A locator: where a piece of data is, what it is, and which part and
/// version of it is meant.
#[derive(Debug, PartialEq)]
pub struct SafeUrl {
    encoding_version: u64,
    xorname: XorName,
    nrs_host: String,
    type_tag: u64,
    data_type: SafeDataType,
    content_type: SafeContentType,
    path: String,
    sub_names: Vec<String>,
    query: Query,
    fragment: String,
}

/// The query and the content version it carries. The two change together.
#[derive(Debug, PartialEq)]
struct Query {
    text: String,
    version: Option<u64>,
}

/// A locator as contracts see it.
pub struct SafeUrlView {
    /// The version of the binary form; always 1.
    pub encoding_version: u64,
    /// The 32 bytes of the name.
    pub xorname: Seq<u8>,
    /// The whole host of the alias form; empty for the resource form.
    pub nrs_host: Seq<char>,
    pub type_tag: u64,
    pub data_type: SafeDataType,
    pub content_type: ContentTypeView,
    /// The path, percent-encoded; empty, or a `/` and more.
    pub path: Seq<char>,
    /// The labels before the last label of the host.
    pub sub_names: Seq<Seq<char>>,
    /// The query, percent-encoded, without `?`.
    pub query_string: Seq<char>,
    /// The fragment, without `#`.
    pub fragment: Seq<char>,
    /// The version that the name `v` of the query carries.
    pub content_version: Option<u64>,
}

/// The characters of an optional text.
pub open spec fn opt_chars(s: Option<&str>) -> Option<Seq<char>> {
    match s {
        Some(t) => Some(t@),
        None => None,
    }
}

/// The characters of each text of an optional list.
pub open spec fn opt_texts(v: Option<Vec<String>>) -> Option<Seq<Seq<char>>> {
    match v {
        Some(t) => Some(texts(t@)),
        None => None,
    }
}

/// The labels and the locator hash that an alias host stands for: the labels
/// before its last one, and the SHA3-256 digest of the UTF-8 bytes of its
/// last one. The host is read as the host of a `safe://` URL.
pub open spec fn alias_of(nrs_host: Seq<char>) -> Result<(Seq<Seq<char>>, Seq<u8>), Failure> {
    match parts_of("safe://"@ + nrs_host) {
        Err(f) => Err(f),
        Ok(p) => Ok((p.sub_names, sha3_256_digest(encode_utf8(p.tld)))),
    }
}

/// The media type is not in the registry.
pub open spec fn unsupported_media_type(name: Seq<char>) -> Failure {
    failure(
        ErrorKind::InvalidMediaType,
        "Media-type '"@ + name
            + "' not supported. You can use 'SafeContentType::Raw' as the 'content_type' for this type of content"@,
    )
}

/// The last label of the alias host hashes to `computed`, not to the
/// `supplied` name.
pub open spec fn hash_mismatch(label: Seq<char>, computed: Seq<u8>, supplied: Seq<u8>) -> Failure {
    failure(
        ErrorKind::InvalidInput,
        "input mis-match. nrs_host `"@ + label + "` hashes to `"@ + xorname_shown(computed)
            + "`: it does not hash to xorname `"@ + xorname_shown(supplied) + "`"@,
    )
}

/// Some label in the list is empty.
pub open spec fn has_empty(names: Seq<Seq<char>>) -> bool {
    exists|i: int| 0 <= i < names.len() && (#[trigger] names[i]).len() == 0
}

/// The host and the labels of a new locator. With an alias host: the host
/// must not be empty, must stand in a `safe://` URL, and its last label must
/// hash to `xorname`; the labels are those of the host, whatever `sub_names`
/// holds. Without: the host is empty and the labels are `sub_names`, none of
/// which may be empty.
pub open spec fn host_and_labels(
    xorname: Seq<u8>,
    nrs_host: Option<Seq<char>>,
    sub_names: Option<Seq<Seq<char>>>,
) -> Result<(Seq<char>, Seq<Seq<char>>), Failure> {
    match nrs_host {
        Some(host) => {
            if host.len() == 0 {
                Err(failure(ErrorKind::InvalidInput, "nrs_host cannot be empty string."@))
            } else {
                match parts_of("safe://"@ + host) {
                    Err(f) => Err(f),
                    Ok(p) => {
                        let computed = sha3_256_digest(encode_utf8(p.tld));
                        if computed != xorname {
                            Err(hash_mismatch(p.tld, computed, xorname))
                        } else {
                            Ok((host, p.sub_names))
                        }
                    },
                }
            }
        },
        None => {
            let names = match sub_names {
                Some(n) => n,
                None => Seq::empty(),
            };
            if has_empty(names) {
                Err(failure(ErrorKind::InvalidInput, "empty subname"@))
            } else {
                Ok((Seq::empty(), names))
            }
        },
    }
}

/// The labels of a resource host that stand before the encoded label, each
/// followed by a dot.
pub open spec fn labels_prefix(names: Seq<Seq<char>>) -> Seq<char> {
    if names.len() == 0 {
        Seq::empty()
    } else {
        join(names, "."@) + "."@
    }
}

impl SafeUrlView {
    /// Whether this is the alias form: the host is a chosen name.
    pub open spec fn is_nrs(self) -> bool {
        self.nrs_host.len() > 0
    }

    /// What holds of every locator: the version is 1, the name has 32 bytes,
    /// the content type has a code, the path is empty or a `/` and more, the
    /// content version is the one that the query carries under `v`, an alias
    /// host stands in a `safe://` URL, hashes to the name and gives the
    /// labels, and without an alias host no label is empty.
    pub open spec fn wf(self) -> bool {
        &&& self.encoding_version == 1
        &&& self.xorname.len() == 32
        &&& content_type_code(self.content_type) is Some
        &&& is_rooted(self.path)
        &&& version_in(pairs_or_none(self.query_string)) == Ok::<Option<u64>, Failure>(
            self.content_version,
        )
        &&& if self.is_nrs() {
            alias_of(self.nrs_host) == Ok::<(Seq<Seq<char>>, Seq<u8>), Failure>(
                (self.sub_names, self.xorname),
            )
        } else {
            !has_empty(self.sub_names)
        }
    }

    /// The bytes of the label.
    pub open spec fn label(self) -> Seq<u8> {
        label_bytes(
            content_type_code(self.content_type)->0,
            self.data_type,
            self.xorname,
            self.type_tag,
        )
    }

    /// The host of the resource form in the alphabet `base`: the labels,
    /// each with its dot, then the encoded label.
    pub open spec fn xorurl_host(self, base: XorUrlBase) -> Seq<char> {
        labels_prefix(self.sub_names) + multibase_text(base, self.label())
    }

    /// The host: the alias host in the alias form, else the resource host in
    /// the default alphabet.
    pub open spec fn host(self) -> Seq<char> {
        if self.is_nrs() {
            self.nrs_host
        } else {
            self.xorurl_host(DEFAULT_XORURL_BASE)
        }
    }

    /// The query behind `?`, or nothing where it is empty.
    pub open spec fn query_with_separator(self) -> Seq<char> {
        if self.query_string.len() == 0 {
            Seq::empty()
        } else {
            "?"@ + self.query_string
        }
    }

    /// The fragment behind `#`, or nothing where it is empty.
    pub open spec fn fragment_with_separator(self) -> Seq<char> {
        if self.fragment.len() == 0 {
            Seq::empty()
        } else {
            "#"@ + self.fragment
        }
    }

    /// What follows the host in either form.
    pub open spec fn after_host(self) -> Seq<char> {
        self.path + self.query_with_separator() + self.fragment_with_separator()
    }

    /// The resource form in the alphabet `base`.
    pub open spec fn to_base(self, base: XorUrlBase) -> Seq<char> {
        "safe://"@ + self.xorurl_host(base) + self.after_host()
    }

    /// The alias form, where the locator has an alias host.
    pub open spec fn to_nrsurl(self) -> Option<Seq<char>> {
        if self.is_nrs() {
            Some("safe://"@ + self.nrs_host + self.after_host())
        } else {
            None
        }
    }

    /// The URL of the locator: the alias form where it has an alias host,
    /// else the resource form in the default alphabet.
    pub open spec fn to_text(self) -> Seq<char> {
        if self.is_nrs() {
            "safe://"@ + self.nrs_host + self.after_host()
        } else {
            self.to_base(DEFAULT_XORURL_BASE)
        }
    }

    /// The locator with the path `path`, percent-encoded segment by segment
    /// and normalized.
    pub open spec fn with_path(self, path: Seq<char>) -> SafeUrlView {
        SafeUrlView { path: normalized_path(path, true), ..self }
    }

    /// The locator with the fragment `fragment`.
    pub open spec fn with_fragment(self, fragment: Seq<char>) -> SafeUrlView {
        SafeUrlView { fragment, ..self }
    }

    /// The locator with the whole query replaced by `query`, and the content
    /// version that `query` carries; a failure where the last value of `v`
    /// in it is no number.
    pub open spec fn with_query_string(self, query: Seq<char>) -> Result<SafeUrlView, Failure> {
        match version_in(pairs_or_none(query)) {
            Err(f) => Err(f),
            Ok(version) => Ok(
                SafeUrlView { query_string: query, content_version: version, ..self },
            ),
        }
    }

    /// The locator after `key` was set to `value` in its query, or removed
    /// where `value` is absent. The query is read into pairs, changed as
    /// `with_key_set` says, and written anew; the content version is the one
    /// that the new query carries. It fails where the old query cannot be
    /// read, where `key` is `v` and `value` is no number, and where the new
    /// query carries no number under `v`.
    pub open spec fn with_query_key(self, key: Seq<char>, value: Option<Seq<char>>) -> Result<
        SafeUrlView,
        Failure,
    > {
        match pairs_of(self.query_string) {
            None => Err(
                failure(ErrorKind::InvalidInput, "Invalid query string: "@ + self.query_string),
            ),
            Some(pairs) => {
                if key == "v"@ && version_of(value) is Err {
                    Err(version_of(value)->Err_0)
                } else {
                    let query = form_urlencoded(with_key_set(pairs, key, value));
                    match version_in(pairs_or_none(query)) {
                        Err(f) => Err(f),
                        Ok(version) => Ok(
                            SafeUrlView { query_string: query, content_version: version, ..self },
                        ),
                    }
                }
            },
        }
    }

    /// The locator after its content version was set to `version`: the name
    /// `v` of the query is set to the number in decimal, or removed. Where
    /// that cannot be done the locator stays as it is.
    pub open spec fn with_content_version(self, version: Option<u64>) -> SafeUrlView {
        let value = match version {
            Some(n) => Some(decimal(n as nat)),
            None => None,
        };
        match self.with_query_key("v"@, value) {
            Ok(u) => u,
            Err(_) => self,
        }
    }

    /// The locator that `new` builds from its arguments, or why it builds
    /// none. The media type is judged first, then the host and the labels,
    /// then the query; `content_version`, where given, is set last and so
    /// overrides a `v` of the query.
    pub open spec fn spec_new(
        xorname: Seq<u8>,
        nrs_host: Option<Seq<char>>,
        type_tag: u64,
        data_type: SafeDataType,
        content_type: ContentTypeView,
        path: Option<Seq<char>>,
        sub_names: Option<Seq<Seq<char>>>,
        query_string: Option<Seq<char>>,
        fragment: Option<Seq<char>>,
        content_version: Option<u64>,
    ) -> Result<SafeUrlView, Failure> {
        if content_type_code(content_type) is None {
            Err(unsupported_media_type(content_type->MediaType_0))
        } else {
            match host_and_labels(xorname, nrs_host, sub_names) {
                Err(f) => Err(f),
                Ok((host, names)) => match version_in(pairs_or_none(or_empty(query_string))) {
                    Err(f) => Err(f),
                    Ok(version) => {
                        let u = SafeUrlView {
                            encoding_version: 1,
                            xorname,
                            nrs_host: host,
                            type_tag,
                            data_type,
                            content_type,
                            path: normalized_path(or_empty(path), false),
                            sub_names: names,
                            query_string: or_empty(query_string),
                            fragment: or_empty(fragment),
                            content_version: version,
                        };
                        match content_version {
                            Some(v) => Ok(u.with_content_version(Some(v))),
                            None => Ok(u),
                        }
                    },
                },
            }
        }
    }

    /// The locator that the resource-form URL `url` stands for, or why it
    /// stands for none: the shape of the URL is judged first, then the text
    /// of its last host label, then the bytes of the label, then the fields.
    pub open spec fn from_xorurl(url: Seq<char>) -> Result<SafeUrlView, Failure> {
        match parts_of(url) {
            Err(f) => Err(f),
            Ok(p) => match multibase_bytes(p.tld) {
                None => Err(
                    failure_with_detail(ErrorKind::InvalidXorUrl, "Failed to decode XOR-URL: "@),
                ),
                Some(bytes) => match label_of_bytes(bytes) {
                    Err(f) => Err(f),
                    Ok(l) => SafeUrlView::spec_new(
                        l.xorname,
                        None,
                        l.type_tag,
                        l.data_type,
                        l.content_type,
                        Some(p.path),
                        Some(p.sub_names),
                        Some(p.query_string),
                        Some(p.fragment),
                        None,
                    ),
                },
            },
        }
    }

    /// The locator that the alias-form URL `url` stands for, or why it
    /// stands for none: the name is the hash of the last host label, and
    /// type tag, data type and content type are those of the map that
    /// aliases resolve through.
    pub open spec fn from_nrsurl(url: Seq<char>) -> Result<SafeUrlView, Failure> {
        match parts_of(url) {
            Err(f) => Err(f),
            Ok(p) => SafeUrlView::spec_new(
                sha3_256_digest(encode_utf8(p.tld)),
                Some(p.host),
                NRS_MAP_TYPE_TAG,
                SafeDataType::PublishedSeqAppendOnlyData,
                ContentTypeView::NrsMapContainer,
                Some(p.path),
                Some(p.sub_names),
                Some(p.query_string),
                Some(p.fragment),
                None,
            ),
        }
    }

    /// The locator that `url` stands for: read as the resource form where
    /// that succeeds, else as the alias form.
    pub open spec fn from_url(url: Seq<char>) -> Result<SafeUrlView, Failure> {
        match SafeUrlView::from_xorurl(url) {
            Ok(u) => Ok(u),
            Err(_) => SafeUrlView::from_nrsurl(url),
        }
    }
}

impl View for SafeUrl {
    type V = SafeUrlView;

    closed spec fn view(&self) -> SafeUrlView {
        SafeUrlView {
            encoding_version: self.encoding_version,
            xorname: self.xorname@,
            nrs_host: self.nrs_host@,
            type_tag: self.type_tag,
            data_type: self.data_type,
            content_type: self.content_type@,
            path: self.path@,
            sub_names: texts(self.sub_names@),
            query_string: self.query.text@,
            fragment: self.fragment@,
            content_version: self.query.version,
        }
    }
}

impl Clone for SafeUrl {
    /// A copy that holds the same fields.
    fn clone(&self) -> (r: Self)
        ensures
            r@ == self@,
    {
        proof {
            use_type_invariant(self);
        }
        SafeUrl {
            encoding_version: self.encoding_version,
            xorname: self.xorname,
            nrs_host: self.nrs_host.clone(),
            type_tag: self.type_tag,
            data_type: self.data_type,
            content_type: self.content_type.duplicate(),
            path: self.path.clone(),
            sub_names: copy_texts(&self.sub_names),
            query: Query { text: self.query.text.clone(), version: self.query.version },
            fragment: self.fragment.clone(),
        }
    }
}

/// The text, or the empty text where there is none.
fn text_of(s: Option<&str>) -> (r: &str)
    ensures
        r@ == or_empty(opt_chars(s)),
{
    match s {
        Some(t) => t,
        None => {
            proof {
                reveal_strlit("");
            }
            ""
        },
    }
}

/// A copy of every text of `v`.
fn copy_texts(v: &Vec<String>) -> (r: Vec<String>)
    ensures
        r@ == v@,
{
    let mut out: Vec<String> = Vec::new();
    let mut i: usize = 0;
    while i < v.len()
        invariant
            i <= v.len(),
            out@ == v@.take(i as int),
        decreases v.len() - i,
    {
        out.push(v[i].clone());
        i = i + 1;
    }
    out
}

/// Whether some label of `names` is empty.
fn any_empty(names: &Vec<String>) -> (r: bool)
    ensures
        r == has_empty(texts(names@)),
{
    let mut i: usize = 0;
    while i < names.len()
        invariant
            i <= names.len(),
            forall|j: int| 0 <= j < i ==> (#[trigger] texts(names@)[j]).len() != 0,
        decreases names.len() - i,
    {
        if names[i].as_str().is_empty() {
            assert(texts(names@)[i as int].len() == 0);
            return true;
        }
        i = i + 1;
    }
    false
}

/// The content version that the query `query` carries under the name `v`:
/// what its last value stands for.
pub fn version_in_query(query: &str) -> (r: Result<Option<u64>, Error>)
    ensures
        match version_in(pairs_or_none(query@)) {
            Ok(v) => r == Ok::<Option<u64>, Error>(v),
            Err(f) => r matches Err(e) && e.reports(f),
        },
{
    let pairs = match query_pairs_of(query) {
        Some(p) => p,
        None => Vec::new(),
    };
    let values = values_for_key(&pairs, "v");
    if values.len() == 0 {
        version_of_text(None)
    } else {
        version_of_text(Some(values[values.len() - 1].as_str()))
    }
}

/// Holds the label of an alias host against the name it is claimed to hash
/// to: `computed` is the hash of `label`, `supplied` the claimed name.
pub fn check_alias_hash(label: &str, computed: &XorName, supplied: &XorName) -> (r: Result<
    (),
    Error,
>)
    ensures
        computed@ == supplied@ ==> r is Ok,
        computed@ != supplied@ ==> (r matches Err(e) && e.reports(
            hash_mismatch(label@, computed@, supplied@),
        )),
{
    if computed.same(supplied) {
        Ok(())
    } else {
        let mut m = String::from_str("input mis-match. nrs_host `");
        m.append(label);
        m.append("` hashes to `");
        m.append(xorname_text(&computed.0).as_str());
        m.append("`: it does not hash to xorname `");
        m.append(xorname_text(&supplied.0).as_str());
        m.append("`");
        Err(Error::InvalidInput(m))
    }
}

impl SafeUrl {
    /// Every locator is well formed, at every moment.
    #[verifier::type_invariant]
    spec fn well_formed(self) -> bool {
        self@.wf()
    }

    /// Builds a locator from its fields.
    ///
    /// * `nrs_host`: the whole alias host, or nothing for the resource form.
    /// * `path`: percent-encoded already; a leading `/` is added if missing.
    /// * `sub_names`: the labels before the encoded label; not looked at
    ///   where `nrs_host` is given.
    /// * `query_string`: percent-encoded already, without `?`.
    /// * `fragment`: without `#`.
    /// * `content_version`: where given, overrides the `v` of the query.
    pub fn new(
        xorname: XorName,
        nrs_host: Option<&str>,
        type_tag: u64,
        data_type: SafeDataType,
        content_type: SafeContentType,
        path: Option<&str>,
        sub_names: Option<Vec<String>>,
        query_string: Option<&str>,
        fragment: Option<&str>,
        content_version: Option<u64>,
    ) -> (r: Result<SafeUrl, Error>)
        ensures
            agrees(
                r,
                SafeUrlView::spec_new(
                    xorname@,
                    opt_chars(nrs_host),
                    type_tag,
                    data_type,
                    content_type@,
                    opt_chars(path),
                    opt_texts(sub_names),
                    opt_chars(query_string),
                    opt_chars(fragment),
                    content_version,
                ),
            ),
            r matches Ok(u) ==> u@.wf(),
    {
        if let SafeContentType::MediaType(ref media_type) = content_type {
            if !Self::is_media_type_supported(media_type.as_str()) {
                let mut m = String::from_str("Media-type '");
                m.append(media_type.as_str());
                m.append(
                    "' not supported. You can use 'SafeContentType::Raw' as the 'content_type' for this type of content",
                );
                return Err(Error::InvalidMediaType(m));
            }
        }
        let host: String;
        let names: Vec<String>;
        match nrs_host {
            Some(nh) => {
                if nh.is_empty() {
                    return Err(
                        Error::InvalidInput(String::from_str("nrs_host cannot be empty string.")),
                    );
                }
                let mut url = String::from_str("safe://");
                url.append(nh);
                let parts = match SafeUrlParts::parse(url.as_str()) {
                    Ok(p) => p,
                    Err(e) => {
                        return Err(e);
                    },
                };
                let hashed = Self::xorname_from_nrs_string(parts.tld.as_str());
                match check_alias_hash(parts.tld.as_str(), &hashed, &xorname) {
                    Ok(()) => {},
                    Err(e) => {
                        return Err(e);
                    },
                }
                host = String::from_str(nh);
                names = parts.sub_names;
            },
            None => {
                host = String::new();
                names = match sub_names {
                    Some(n) => n,
                    None => {
                        let n: Vec<String> = Vec::new();
                        assert(texts(n@) == Seq::<Seq<char>>::empty());
                        n
                    },
                };
                if any_empty(&names) {
                    return Err(Error::InvalidInput(String::from_str("empty subname")));
                }
            },
        }
        let query = text_of(query_string);
        let version = match version_in_query(query) {
            Ok(v) => v,
            Err(e) => {
                return Err(e);
            },
        };
        proof {
            lemma_normalized_path_is_rooted(or_empty(opt_chars(path)), false);
        }
        let mut x = SafeUrl {
            encoding_version: 1,
            xorname,
            nrs_host: host,
            type_tag,
            data_type,
            content_type,
            path: normalize_path(text_of(path), false),
            sub_names: names,
            query: Query { text: String::from_str(query), version },
            fragment: String::from_str(text_of(fragment)),
        };
        if let Some(v) = content_version {
            x.set_content_version(Some(v));
        }
        Ok(x)
    }

    /// Whether the registry holds the media type `media_type`.
    pub fn is_media_type_supported(media_type: &str) -> (r: bool)
        ensures
            r == (media_type_code(media_type@) is Some),
    {
        code_for_media_type(media_type).is_some()
    }

    /// Reads a URL in either form: as the resource form where that
    /// succeeds, else as the alias form.
    pub fn from_url(url: &str) -> (r: Result<SafeUrl, Error>)
        ensures
            agrees(r, SafeUrlView::from_url(url@)),
            r matches Ok(u) ==> u@.wf(),
    {
        match Self::from_xorurl(url) {
            Ok(u) => Ok(u),
            Err(_) => Self::from_nrsurl(url),
        }
    }

    /// Reads a URL in the alias form.
    pub fn from_nrsurl(nrsurl: &str) -> (r: Result<SafeUrl, Error>)
        ensures
            agrees(r, SafeUrlView::from_nrsurl(nrsurl@)),
            r matches Ok(u) ==> u@.wf(),
    {
        let parts = match SafeUrlParts::parse(nrsurl) {
            Ok(p) => p,
            Err(e) => {
                return Err(e);
            },
        };
        let hashed = Self::xorname_from_nrs_string(parts.tld.as_str());
        Self::new(
            hashed,
            Some(parts.host.as_str()),
            NRS_MAP_TYPE_TAG,
            SafeDataType::PublishedSeqAppendOnlyData,
            SafeContentType::NrsMapContainer,
            Some(parts.path.as_str()),
            Some(parts.sub_names),
            Some(parts.query_string.as_str()),
            Some(parts.fragment.as_str()),
            None,
        )
    }

    /// Reads a URL in the resource form.
    pub fn from_xorurl(xorurl: &str) -> (r: Result<SafeUrl, Error>)
        ensures
            agrees(r, SafeUrlView::from_xorurl(xorurl@)),
            r matches Ok(u) ==> u@.wf(),
    {
        let parts = match SafeUrlParts::parse(xorurl) {
            Ok(p) => p,
            Err(e) => {
                return Err(e);
            },
        };
        let bytes = match multibase_decode(parts.tld.as_str()) {
            Ok(b) => b,
            Err(detail) => {
                let mut m = String::from_str("Failed to decode XOR-URL: ");
                m.append(detail.as_str());
                return Err(Error::InvalidXorUrl(m));
            },
        };
        let label = match decode_label(bytes.as_slice()) {
            Ok(l) => l,
            Err(e) => {
                return Err(e);
            },
        };
        Self::new(
            label.xorname,
            None,
            label.type_tag,
            label.data_type,
            label.content_type,
            Some(parts.path.as_str()),
            Some(parts.sub_names),
            Some(parts.query_string.as_str()),
            Some(parts.fragment.as_str()),
            None,
        )
    }

    /// The scheme: always `safe`.
    pub fn scheme(&self) -> (r: &str)
        ensures
            r@ == "safe"@,
    {
        "safe"
    }

    /// The version of the binary form.
    pub fn encoding_version(&self) -> (r: u64)
        ensures
            r == self@.encoding_version,
            r == 1,
    {
        proof {
            use_type_invariant(self);
        }
        self.encoding_version
    }

    /// How the data is stored.
    pub fn data_type(&self) -> (r: SafeDataType)
        ensures
            r == self@.data_type,
    {
        self.data_type
    }

    /// What the data holds.
    pub fn content_type(&self) -> (r: SafeContentType)
        ensures
            r@ == self@.content_type,
    {
        self.content_type.duplicate()
    }

    /// The name of the data.
    pub fn xorname(&self) -> (r: XorName)
        ensures
            r@ == self@.xorname,
    {
        self.xorname
    }

    /// The host of the resource form in the default alphabet.
    pub fn xorurl_host(&self) -> (r: String)
        ensures
            r@ == self@.xorurl_host(DEFAULT_XORURL_BASE),
    {
        match self.host_to_base(DEFAULT_XORURL_BASE) {
            Ok(h) => h,
            Err(_) => String::new(),
        }
    }

    /// The alias host; empty in the resource form.
    pub fn nrs_host(&self) -> (r: &str)
        ensures
            r@ == self@.nrs_host,
    {
        self.nrs_host.as_str()
    }

    /// The host: the alias host where there is one, else the host of the
    /// resource form.
    pub fn host(&self) -> (r: String)
        ensures
            r@ == self@.host(),
    {
        if self.is_nrs() {
            self.nrs_host.clone()
        } else {
            self.xorurl_host()
        }
    }

    /// The last label of the host.
    pub fn tld(&self) -> (r: String)
        ensures
            r@ == split(self@.host(), '.').last(),
    {
        let host = self.host();
        let mut labels = split_text(host.as_str(), '.');
        match labels.pop() {
            Some(t) => t,
            None => String::new(),
        }
    }

    /// The type tag.
    pub fn type_tag(&self) -> (r: u64)
        ensures
            r == self@.type_tag,
    {
        self.type_tag
    }

    /// The path, percent-encoded as it is stored.
    pub fn path(&self) -> (r: &str)
        ensures
            r@ == self@.path,
            is_rooted(r@),
    {
        proof {
            use_type_invariant(self);
        }
        self.path.as_str()
    }

    /// The path, percent-decoded.
    pub fn path_decoded(&self) -> (r: Result<String, Error>)
        ensures
            agrees(
                r,
                match percent_decoded(self@.path) {
                    Some(t) => Ok(t),
                    None => Err(failure_with_detail(ErrorKind::InvalidInput, Seq::empty())),
                },
            ),
    {
        Self::url_percent_decode(self.path.as_str())
    }

    /// Sets the path. `path` is not yet percent-encoded: each of its
    /// segments is encoded here. A leading `/` is added if missing.
    pub fn set_path(&mut self, path: &str)
        ensures
            final(self)@ == old(self)@.with_path(path@),
            final(self)@.wf(),
    {
        proof {
            use_type_invariant(&*self);
            lemma_normalized_path_is_rooted(path@, true);
        }
        self.path = normalize_path(path, true);
    }

    /// The labels before the last label of the host.
    pub fn sub_names(&self) -> (r: Vec<String>)
        ensures
            texts(r@) == self@.sub_names,
    {
        copy_texts(&self.sub_names)
    }

    /// The content version: what the query carries under `v`.
    pub fn content_version(&self) -> (r: Option<u64>)
        ensures
            r == self@.content_version,
            version_in(pairs_or_none(self@.query_string)) == Ok::<Option<u64>, Failure>(r),
    {
        proof {
            use_type_invariant(self);
        }
        self.query.version
    }

    /// Sets the content version, or removes it: the name `v` of the query is
    /// set to the number, or removed.
    pub fn set_content_version(&mut self, version: Option<u64>)
        ensures
            final(self)@ == old(self)@.with_content_version(version),
            final(self)@.wf(),
    {
        proof {
            use_type_invariant(&*self);
        }
        match version {
            Some(v) => {
                let text = u64_to_text(v);
                let _ = self.set_query_key("v", Some(text.as_str()));
            },
            None => {
                let _ = self.set_query_key("v", None);
            },
        }
    }

    /// Sets the name `key` of the query to `val`, or removes it where `val`
    /// is absent. After a set the name occurs once, where it first stood, or
    /// at the end if it is new. `val` is not yet percent-encoded. Where this
    /// fails the locator stays as it was.
    pub fn set_query_key(&mut self, key: &str, val: Option<&str>) -> (r: Result<(), Error>)
        ensures
            match old(self)@.with_query_key(key@, opt_chars(val)) {
                Ok(u) => r is Ok && final(self)@ == u,
                Err(f) => r matches Err(e) && e.reports(f) && final(self)@ == old(self)@,
            },
            final(self)@.wf(),
    {
        proof {
            use_type_invariant(&*self);
        }
        let pairs = match query_pairs_of(self.query.text.as_str()) {
            Some(p) => p,
            None => {
                let mut m = String::from_str("Invalid query string: ");
                m.append(self.query.text.as_str());
                return Err(Error::InvalidInput(m));
            },
        };
        if text_eq(key, "v") {
            match version_of_text(val) {
                Ok(_) => {},
                Err(e) => {
                    return Err(e);
                },
            }
        }
        let changed = set_pair(&pairs, key, val);
        let query = form_urlencode(&changed);
        let version = match version_in_query(query.as_str()) {
            Ok(v) => v,
            Err(e) => {
                return Err(e);
            },
        };
        self.query = Query { text: query, version };
        Ok(())
    }

    /// Replaces the whole query. `query` is percent-encoded already. The
    /// content version becomes the one that `query` carries under `v`.
    /// Where this fails the locator stays as it was.
    pub fn set_query_string(&mut self, query: &str) -> (r: Result<(), Error>)
        ensures
            match old(self)@.with_query_string(query@) {
                Ok(u) => r is Ok && final(self)@ == u,
                Err(f) => r matches Err(e) && e.reports(f) && final(self)@ == old(self)@,
            },
            final(self)@.wf(),
    {
        proof {
            use_type_invariant(&*self);
        }
        let version = match version_in_query(query) {
            Ok(v) => v,
            Err(e) => {
                return Err(e);
            },
        };
        self.query = Query { text: String::from_str(query), version };
        Ok(())
    }

    /// The query, percent-encoded, without `?`.
    pub fn query_string(&self) -> (r: String)
        ensures
            r@ == self@.query_string,
    {
        self.query.text.clone()
    }

    /// The query behind `?`, or nothing where it is empty.
    pub fn query_string_with_separator(&self) -> (r: String)
        ensures
            r@ == self@.query_with_separator(),
    {
        if self.query.text.as_str().is_empty() {
            String::new()
        } else {
            let mut s = String::from_str("?");
            s.append(self.query.text.as_str());
            s
        }
    }

    /// The pairs of the query, percent-decoded.
    pub fn query_pairs(&self) -> (r: Vec<(String, String)>)
        ensures
            pair_texts(r@) == pairs_or_none(self@.query_string),
    {
        Self::query_pairs_internal(self.query.text.as_str())
    }

    /// Every value of the name `key` in the query, in order.
    pub fn query_key(&self, key: &str) -> (r: Vec<String>)
        ensures
            texts(r@) == values_of(pairs_or_none(self@.query_string), key@),
    {
        Self::query_key_internal(self.query.text.as_str(), key)
    }

    /// The last value of the name `key` in the query.
    pub fn query_key_last(&self, key: &str) -> (r: Option<String>)
        ensures
            match r {
                Some(v) => last_value(pairs_or_none(self@.query_string), key@) == Some(v@),
                None => last_value(pairs_or_none(self@.query_string), key@) is None,
            },
    {
        let mut values = Self::query_key_internal(self.query.text.as_str(), key);
        match values.pop() {
            Some(v) => Some(v),
            None => None,
        }
    }

    /// The first value of the name `key` in the query.
    pub fn query_key_first(&self, key: &str) -> (r: Option<String>)
        ensures
            match r {
                Some(v) => first_value(pairs_or_none(self@.query_string), key@) == Some(v@),
                None => first_value(pairs_or_none(self@.query_string), key@) is None,
            },
    {
        let values = Self::query_key_internal(self.query.text.as_str(), key);
        if values.len() == 0 {
            None
        } else {
            Some(values[0].clone())
        }
    }

    /// Sets the fragment.
    pub fn set_fragment(&mut self, fragment: String)
        ensures
            final(self)@ == old(self)@.with_fragment(fragment@),
            final(self)@.wf(),
    {
        proof {
            use_type_invariant(&*self);
        }
        self.fragment = fragment;
    }

    /// The fragment, without `#`.
    pub fn fragment(&self) -> (r: String)
        ensures
            r@ == self@.fragment,
    {
        self.fragment.clone()
    }

    /// The fragment behind `#`, or nothing where it is empty.
    pub fn fragment_with_separator(&self) -> (r: String)
        ensures
            r@ == self@.fragment_with_separator(),
    {
        if self.fragment.as_str().is_empty() {
            String::new()
        } else {
            let mut s = String::from_str("#");
            s.append(self.fragment.as_str());
            s
        }
    }

    /// Whether this is the alias form.
    pub fn is_nrs(&self) -> (r: bool)
        ensures
            r == self@.is_nrs(),
    {
        !self.nrs_host.as_str().is_empty()
    }

    /// The URL in the resource form, in the default alphabet. An alias-form
    /// locator has one too.
    pub fn to_xorurl_string(&self) -> (r: String)
        ensures
            r@ == self@.to_base(DEFAULT_XORURL_BASE),
    {
        match self.to_base(DEFAULT_XORURL_BASE) {
            Ok(s) => s,
            Err(_) => String::new(),
        }
    }

    /// The URL in the alias form; nothing for a resource-form locator.
    pub fn to_nrsurl_string(&self) -> (r: Option<String>)
        ensures
            match r {
                Some(s) => self@.to_nrsurl() == Some(s@),
                None => self@.to_nrsurl() is None,
            },
    {
        if !self.is_nrs() {
            return None;
        }
        let mut url = String::from_str("safe://");
        url.append(self.nrs_host.as_str());
        self.append_after_host(&mut url);
        Some(url)
    }

    /// The URL in the resource form, in the alphabet `base`.
    pub fn to_base(&self, base: XorUrlBase) -> (r: Result<String, Error>)
        ensures
            r matches Ok(s) && s@ == self@.to_base(base),
    {
        let host = match self.host_to_base(base) {
            Ok(h) => h,
            Err(e) => {
                return Err(e);
            },
        };
        let mut url = String::from_str("safe://");
        url.append(host.as_str());
        self.append_after_host(&mut url);
        Ok(url)
    }

    /// The host of the resource form, in the alphabet `base`.
    pub fn host_to_base(&self, base: XorUrlBase) -> (r: Result<String, Error>)
        ensures
            r matches Ok(s) && s@ == self@.xorurl_host(base),
    {
        proof {
            use_type_invariant(self);
        }
        let content_code = match self.content_type.value() {
            Ok(c) => c,
            Err(_) => {
                let mut m = String::from_str("Failed to encode Media-type '");
                if let SafeContentType::MediaType(ref media_type) = self.content_type {
                    m.append(media_type.as_str());
                }
                m.append("'");
                return Err(Error::Unexpected(m));
            },
        };
        let bytes = encode_label(content_code, self.data_type, &self.xorname, self.type_tag);
        let label = multibase_encode(base, bytes.as_slice());
        let mut host = if self.sub_names.len() > 0 {
            let mut h = join_text(&self.sub_names, ".");
            h.append(".");
            h
        } else {
            String::new()
        };
        host.append(label.as_str());
        Ok(host)
    }

    /// Percent-decodes `s`.
    pub fn url_percent_decode(s: &str) -> (r: Result<String, Error>)
        ensures
            agrees(
                r,
                match percent_decoded(s@) {
                    Some(t) => Ok(t),
                    None => Err(failure_with_detail(ErrorKind::InvalidInput, Seq::empty())),
                },
            ),
    {
        match percent_decode(s) {
            Ok(t) => Ok(t),
            Err(e) => Err(Error::InvalidInput(percent_decode_error_text(&e))),
        }
    }

    /// Percent-encodes `s`: every byte of its UTF-8 form but ASCII letters,
    /// digits and `-`, `.`, `_`, `~`.
    pub fn url_percent_encode(s: &str) -> (r: String)
        ensures
            r@ == percent_encoded(encode_utf8(s@)),
    {
        percent_encode(s)
    }

    /// Writes the locator out and reads it back, which checks everything
    /// that reading a URL checks.
    pub fn validate(&self) -> (r: Result<(), Error>)
        ensures
            match SafeUrlView::from_url(self@.to_text()) {
                Ok(_) => r is Ok,
                Err(f) => r matches Err(e) && e.reports(f),
            },
    {
        let s = self.to_string();
        match Self::from_url(s.as_str()) {
            Ok(_) => Ok(()),
            Err(e) => Err(e),
        }
    }

    /// Builds a locator from its fields and writes its URL in the resource
    /// form, in the alphabet `base`.
    pub fn encode(
        xorname: XorName,
        nrs_host: Option<&str>,
        type_tag: u64,
        data_type: SafeDataType,
        content_type: SafeContentType,
        path: Option<&str>,
        sub_names: Option<Vec<String>>,
        query_string: Option<&str>,
        fragment: Option<&str>,
        content_version: Option<u64>,
        base: XorUrlBase,
    ) -> (r: Result<String, Error>)
        ensures
            agrees(
                r,
                match SafeUrlView::spec_new(
                    xorname@,
                    opt_chars(nrs_host),
                    type_tag,
                    data_type,
                    content_type@,
                    opt_chars(path),
                    opt_texts(sub_names),
                    opt_chars(query_string),
                    opt_chars(fragment),
                    content_version,
                ) {
                    Ok(u) => Ok(u.to_base(base)),
                    Err(f) => Err(f),
                },
            ),
    {
        let url = match SafeUrl::new(
            xorname,
            nrs_host,
            type_tag,
            data_type,
            content_type,
            path,
            sub_names,
            query_string,
            fragment,
            content_version,
        ) {
            Ok(u) => u,
            Err(e) => {
                return Err(e);
            },
        };
        url.to_base(base)
    }

    /// The URL of a key: no type tag, raw content.
    pub fn encode_safekey(xorname: XorName, base: XorUrlBase) -> (r: Result<String, Error>)
        ensures
            agrees(
                r,
                match SafeUrlView::spec_new(
                    xorname@,
                    None,
                    0,
                    SafeDataType::SafeKey,
                    ContentTypeView::Raw,
                    None,
                    None,
                    None,
                    None,
                    None,
                ) {
                    Ok(u) => Ok(u.to_base(base)),
                    Err(f) => Err(f),
                },
            ),
    {
        SafeUrl::encode(
            xorname,
            None,
            0,
            SafeDataType::SafeKey,
            SafeContentType::Raw,
            None,
            None,
            None,
            None,
            None,
            base,
        )
    }

    /// The URL of published immutable data: no type tag.
    pub fn encode_immutable_data(
        xorname: XorName,
        content_type: SafeContentType,
        base: XorUrlBase,
    ) -> (r: Result<String, Error>)
        ensures
            agrees(
                r,
                match SafeUrlView::spec_new(
                    xorname@,
                    None,
                    0,
                    SafeDataType::PublishedImmutableData,
                    content_type@,
                    None,
                    None,
                    None,
                    None,
                    None,
                ) {
                    Ok(u) => Ok(u.to_base(base)),
                    Err(f) => Err(f),
                },
            ),
    {
        SafeUrl::encode(
            xorname,
            None,
            0,
            SafeDataType::PublishedImmutableData,
            content_type,
            None,
            None,
            None,
            None,
            None,
            base,
        )
    }

    /// The URL of sequenced mutable data.
    pub fn encode_mutable_data(
        xorname: XorName,
        type_tag: u64,
        content_type: SafeContentType,
        base: XorUrlBase,
    ) -> (r: Result<String, Error>)
        ensures
            agrees(
                r,
                match SafeUrlView::spec_new(
                    xorname@,
                    None,
                    type_tag,
                    SafeDataType::SeqMutableData,
                    content_type@,
                    None,
                    None,
                    None,
                    None,
                    None,
                ) {
                    Ok(u) => Ok(u.to_base(base)),
                    Err(f) => Err(f),
                },
            ),
    {
        SafeUrl::encode(
            xorname,
            None,
            type_tag,
            SafeDataType::SeqMutableData,
            content_type,
            None,
            None,
            None,
            None,
            None,
            base,
        )
    }

    /// The URL of published sequenced append-only data.
    pub fn encode_append_only_data(
        xorname: XorName,
        type_tag: u64,
        content_type: SafeContentType,
        base: XorUrlBase,
    ) -> (r: Result<String, Error>)
        ensures
            agrees(
                r,
                match SafeUrlView::spec_new(
                    xorname@,
                    None,
                    type_tag,
                    SafeDataType::PublishedSeqAppendOnlyData,
                    content_type@,
                    None,
                    None,
                    None,
                    None,
                    None,
                ) {
                    Ok(u) => Ok(u.to_base(base)),
                    Err(f) => Err(f),
                },
            ),
    {
        SafeUrl::encode(
            xorname,
            None,
            type_tag,
            SafeDataType::PublishedSeqAppendOnlyData,
            content_type,
            None,
            None,
            None,
            None,
            None,
            base,
        )
    }

    /// The URL of the locator: the alias form where it has an alias host,
    /// else the resource form in the default alphabet.
    pub fn to_string(&self) -> (r: String)
        ensures
            r@ == self@.to_text(),
    {
        if self.is_nrs() {
            match self.to_nrsurl_string() {
                Some(s) => s,
                None => String::new(),
            }
        } else {
            self.to_xorurl_string()
        }
    }

    /// Appends what follows the host in either form: path, query, fragment.
    fn append_after_host(&self, url: &mut String)
        ensures
            final(url)@ == old(url)@ + self@.after_host(),
    {
        url.append(self.path.as_str());
        url.append(self.query_string_with_separator().as_str());
        url.append(self.fragment_with_separator().as_str());
    }

    /// The pairs of `query`, or none where the URL parser refuses it.
    fn query_pairs_internal(query: &str) -> (r: Vec<(String, String)>)
        ensures
            pair_texts(r@) == pairs_or_none(query@),
    {
        match query_pairs_of(query) {
            Some(p) => p,
            None => Vec::new(),
        }
    }

    /// The values of the name `key` in `query`, in order.
    fn query_key_internal(query: &str, key: &str) -> (r: Vec<String>)
        ensures
            texts(r@) == values_of(pairs_or_none(query@), key@),
    {
        let pairs = Self::query_pairs_internal(query);
        values_for_key(&pairs, key)
    }

    /// The name that an alias label hashes to: the SHA3-256 digest of its
    /// UTF-8 bytes.
    fn xorname_from_nrs_string(name: &str) -> (r: XorName)
        ensures
            r@ == sha3_256_digest(encode_utf8(name@)),
    {
        XorName(sha3_256(name.as_bytes()))
    }
}

} // verus!
