//! What holds of the codec as a whole: laws that relate several of its
//! functions, each proved from the contracts and definitions of the library.

use vstd::prelude::*;
use vstd::utf8::encode_utf8;
use crate::content::{
    content_type_code, content_type_of_code, data_type_of_code, ContentTypeView, SafeDataType,
    XorUrlBase, DEFAULT_XORURL_BASE,
};
use crate::error::Failure;
use crate::foreign::{multibase_bytes, multibase_text, sha3_256_digest, url_parsed};
use crate::label::{
    label_bytes, label_of_bytes, lemma_label_len, lemma_label_round_trip, tag_bytes, too_long,
    too_short, LabelView,
};
use crate::parts::{or_empty, parts_of};
use crate::path::{lemma_normalized_path_is_rooted, lemma_stored_path_is_kept};
use crate::query::{
    bad_version, lemma_set_key_values, lemma_unset_key_values, pairs_of, version_in,
    with_key_set,
};
use crate::safe_url::{
    alias_of, has_empty, hash_mismatch, labels_prefix, SafeUrlView, NRS_MAP_TYPE_TAG,
};
use crate::text::{
    decimal, free_of, has_doubled, join, lemma_join_not_doubled, lemma_parse_decimal,
    lemma_split_join, parse_u64, split,
};

verus! {

/// Bytes that number fewer than 36 are refused as too short and bytes that
/// number more than 44 as too long, whatever they hold. From 36 to 44 bytes
/// the length is no ground for refusal: the bytes are a label exactly if the
/// version, the content type code and the data type code are known.
pub proof fn lemma_length_bounds(bytes: Seq<u8>)
    ensures
        bytes.len() < 36 ==> label_of_bytes(bytes) == Err::<LabelView, Failure>(
            too_short(bytes.len()),
        ),
        bytes.len() > 44 ==> label_of_bytes(bytes) == Err::<LabelView, Failure>(
            too_long(bytes.len()),
        ),
        36 <= bytes.len() <= 44 ==> (label_of_bytes(bytes) is Ok <==> bytes[0] == 1
            && content_type_of_code((bytes[1] as int * 256 + bytes[2] as int) as u16) is Some
            && data_type_of_code(bytes[3] as int) is Some),
{
}

/// The label grows with the type tag and with nothing else: 36 bytes for the
/// tag 0, one byte more for a tag below 256, which is then the last byte,
/// and 44 bytes for a tag that fills all eight bytes.
pub proof fn lemma_tag_compaction(
    content_code: u16,
    data_type: SafeDataType,
    xorname: Seq<u8>,
    type_tag: u64,
)
    requires
        xorname.len() == 32,
    ensures
        36 <= label_bytes(content_code, data_type, xorname, type_tag).len() <= 44,
        type_tag == 0 ==> label_bytes(content_code, data_type, xorname, type_tag).len() == 36,
        0 < type_tag < 256 ==> label_bytes(content_code, data_type, xorname, type_tag).len() == 37
            && label_bytes(content_code, data_type, xorname, type_tag).last() == type_tag,
        type_tag >= 0x0100_0000_0000_0000 ==> label_bytes(
            content_code,
            data_type,
            xorname,
            type_tag,
        ).len() == 44,
{
    lemma_label_len(content_code, data_type, xorname, type_tag);
    if 0 < type_tag < 256 {
        assert(tag_bytes((type_tag as nat) / 256) == Seq::<u8>::empty());
    }
    if type_tag >= 0x0100_0000_0000_0000 {
        reveal_with_fuel(tag_bytes, 9);
    }
}

/// After the content version was set to a number, the pairs of the query
/// carry that number under `v`; after it was removed, they carry none.
pub proof fn lemma_version_follows_pairs(pairs: Seq<(Seq<char>, Seq<char>)>, n: u64)
    ensures
        version_in(with_key_set(pairs, "v"@, Some(decimal(n as nat)))) == Ok::<
            Option<u64>,
            Failure,
        >(Some(n)),
        version_in(with_key_set(pairs, "v"@, None)) == Ok::<Option<u64>, Failure>(None),
{
    lemma_set_key_values(pairs, "v"@, decimal(n as nat));
    lemma_unset_key_values(pairs, "v"@);
    lemma_parse_decimal(n);
}

/// Setting the name `v` to a value that is no number fails, whatever the
/// locator holds.
pub proof fn lemma_bad_version_is_refused(u: SafeUrlView, value: Seq<char>)
    requires
        parse_u64(value) is None,
    ensures
        u.with_query_key("v"@, Some(value)) is Err,
        pairs_of(u.query_string) is Some ==> u.with_query_key("v"@, Some(value)) == Err::<
            SafeUrlView,
            Failure,
        >(bad_version(value)),
{
}

/// An alias host whose last label does not hash to the given name is
/// refused, and the failure cites the label, the hash computed from it and
/// the name that was given.
pub proof fn lemma_alias_hash_mismatch(
    xorname: Seq<u8>,
    nrs_host: Seq<char>,
    type_tag: u64,
    data_type: SafeDataType,
    content_type: ContentTypeView,
    path: Option<Seq<char>>,
    sub_names: Option<Seq<Seq<char>>>,
    query_string: Option<Seq<char>>,
    fragment: Option<Seq<char>>,
    content_version: Option<u64>,
)
    requires
        content_type_code(content_type) is Some,
        nrs_host.len() > 0,
        parts_of("safe://"@ + nrs_host) is Ok,
        sha3_256_digest(encode_utf8(parts_of("safe://"@ + nrs_host)->Ok_0.tld)) != xorname,
    ensures
        SafeUrlView::spec_new(
            xorname,
            Some(nrs_host),
            type_tag,
            data_type,
            content_type,
            path,
            sub_names,
            query_string,
            fragment,
            content_version,
        ) == Err::<SafeUrlView, Failure>(
            hash_mismatch(
                parts_of("safe://"@ + nrs_host)->Ok_0.tld,
                sha3_256_digest(encode_utf8(parts_of("safe://"@ + nrs_host)->Ok_0.tld)),
                xorname,
            ),
        ),
{
}

/// What `new` builds is well formed.
pub proof fn lemma_new_is_well_formed(
    xorname: Seq<u8>,
    nrs_host: Option<Seq<char>>,
    type_tag: u64,
    data_type: SafeDataType,
    content_type: ContentTypeView,
    path: Option<Seq<char>>,
    sub_names: Option<Seq<Seq<char>>>,
    query_string: Option<Seq<char>>,
    fragment: Option<Seq<char>>,
    content_version: Option<u64>,
)
    requires
        xorname.len() == 32,
    ensures
        SafeUrlView::spec_new(
            xorname,
            nrs_host,
            type_tag,
            data_type,
            content_type,
            path,
            sub_names,
            query_string,
            fragment,
            content_version,
        ) matches Ok(u) ==> u.wf(),
{
    lemma_normalized_path_is_rooted(or_empty(path), false);
}

/// Every setter keeps a locator well formed, whether it succeeds or fails:
/// in particular the content version and the `v` of the query never part.
pub proof fn lemma_setters_keep_well_formed(
    u: SafeUrlView,
    text: Seq<char>,
    key: Seq<char>,
    value: Option<Seq<char>>,
    version: Option<u64>,
)
    requires
        u.wf(),
    ensures
        u.with_path(text).wf(),
        u.with_fragment(text).wf(),
        u.with_query_string(text) matches Ok(n) ==> n.wf(),
        u.with_query_key(key, value) matches Ok(n) ==> n.wf(),
        u.with_content_version(version).wf(),
{
    lemma_normalized_path_is_rooted(text, true);
}

/// The URL parser finds in `url` the scheme `safe`, the host `host`, and the
/// path, query and fragment of `u`, each as it stands in `u`.
pub open spec fn splits_back(url: Seq<char>, host: Seq<char>, u: SafeUrlView) -> bool {
    url_parsed(url) matches Some(p) && p.scheme == "safe"@ && p.host == Some(host) && p.path
        == u.path && or_empty(p.query) == u.query_string && or_empty(p.fragment) == u.fragment
}

/// What reading the resource form back rests on, beyond this library: the
/// URL parser splits the URL into the components it was written from, the
/// text of the label reads back as the bytes of the label, neither a label
/// of the host nor the text of the encoded label holds a dot, and the path
/// holds no doubled slash.
pub open spec fn resource_form_reads_back(u: SafeUrlView, base: XorUrlBase) -> bool {
    &&& splits_back(u.to_base(base), u.xorurl_host(base), u)
    &&& multibase_bytes(multibase_text(base, u.label())) == Some(u.label())
    &&& free_of(u.sub_names.push(multibase_text(base, u.label())), '.')
    &&& !has_doubled(u.path, '/')
}

/// The host of the resource form splits at its dots into the labels and the
/// encoded label, and holds no doubled dot.
pub proof fn lemma_host_splits(names: Seq<Seq<char>>, label: Seq<char>)
    requires
        !has_empty(names),
        free_of(names.push(label), '.'),
    ensures
        split(labels_prefix(names) + label, '.') == names.push(label),
        !has_doubled(labels_prefix(names) + label, '.'),
{
    reveal_strlit(".");
    assert("."@ == seq!['.']);
    let parts = names.push(label);
    assert(parts.drop_last() == names);
    assert(forall|k: int| 0 <= k < names.len() ==> parts[k] == names[k]);
    lemma_split_join(parts, '.');
    lemma_join_not_doubled(parts, '.');
}

/// Reading back what was written, resource form: where the outside parts
/// behave as `resource_form_reads_back` says, the URL that a well-formed
/// locator without an alias host writes in any alphabet reads back as that
/// locator, through `from_xorurl` and through `from_url`.
pub proof fn lemma_resource_form_round_trip(u: SafeUrlView, base: XorUrlBase)
    requires
        u.wf(),
        !u.is_nrs(),
    ensures
        resource_form_reads_back(u, base) ==> SafeUrlView::from_xorurl(u.to_base(base)) == Ok::<
            SafeUrlView,
            Failure,
        >(u),
        resource_form_reads_back(u, base) ==> SafeUrlView::from_url(u.to_base(base)) == Ok::<
            SafeUrlView,
            Failure,
        >(u),
        u.to_text() == u.to_base(DEFAULT_XORURL_BASE),
{
    if resource_form_reads_back(u, base) {
        let label = multibase_text(base, u.label());
        lemma_host_splits(u.sub_names, label);
        assert(u.sub_names.push(label).drop_last() == u.sub_names);
        lemma_label_round_trip(u.content_type, u.data_type, u.xorname, u.type_tag);
        lemma_stored_path_is_kept(u.path);
        assert(u.nrs_host == Seq::<char>::empty());
    }
}

/// What reading the alias form back rests on, beyond this library: the URL
/// parser splits the URL into the components it was written from, it finds
/// the alias host unchanged when the host stands alone behind `safe://`, and
/// the path holds no doubled slash.
pub open spec fn alias_form_reads_back(u: SafeUrlView) -> bool {
    &&& splits_back(u.to_text(), u.nrs_host, u)
    &&& url_parsed("safe://"@ + u.nrs_host) matches Some(p) && p.host == Some(u.nrs_host)
    &&& !has_doubled(u.path, '/')
}

/// Reading back what was written, alias form: where the outside parts
/// behave as `alias_form_reads_back` says, the URL of a well-formed locator
/// with an alias host reads back as that locator, if its type tag, data
/// type and content type are those of the map that aliases resolve through.
/// Read through `from_url` it is that locator unless the URL also reads as a
/// resource form.
pub proof fn lemma_alias_form_round_trip(u: SafeUrlView)
    requires
        u.wf(),
        u.is_nrs(),
        u.type_tag == NRS_MAP_TYPE_TAG,
        u.data_type == SafeDataType::PublishedSeqAppendOnlyData,
        u.content_type == ContentTypeView::NrsMapContainer,
    ensures
        alias_form_reads_back(u) ==> SafeUrlView::from_nrsurl(u.to_text()) == Ok::<
            SafeUrlView,
            Failure,
        >(u),
        alias_form_reads_back(u) && SafeUrlView::from_xorurl(u.to_text()) is Err
            ==> SafeUrlView::from_url(u.to_text()) == Ok::<SafeUrlView, Failure>(u),
{
    if alias_form_reads_back(u) {
        lemma_stored_path_is_kept(u.path);
    }
}

} // verus!
