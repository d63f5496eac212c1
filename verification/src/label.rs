//! The binary form of a locator: one byte of version, two of content type,
//! one of data type, the 32 bytes of the name, and the type tag in as few
//! bytes as hold it. 36 to 44 bytes in all.

use vstd::prelude::*;
use vstd::std_specs::bits::u64_leading_zeros;
use vstd::string::*;
use crate::content::{
    content_type_code, content_type_of_code, data_type_of_code,
    lemma_content_type_code_round_trip, ContentTypeView, SafeContentType, SafeDataType, XorName,
};
use crate::error::{agrees, failure, Error, ErrorKind, Failure};
use crate::media_types::media_type_for_code;
use crate::text::{decimal, u64_to_text};

verus! {

/// The one version of the binary form that is understood.
pub const XOR_URL_VERSION_1: u64 = 1;

/// Where the name starts in a label.
pub const XOR_NAME_BYTES_OFFSET: usize = 4;

/// Where the type tag starts in a label, and the length of the shortest
/// label.
pub const TYPE_TAG_OFFSET: usize = 36;

/// The length of the longest label.
pub const XOR_URL_STR_MAX_LENGTH: usize = 44;

/// `n` in base 256, the weightiest byte first, without leading zero bytes:
/// no byte at all for 0.
pub open spec fn tag_bytes(n: nat) -> Seq<u8>
    decreases n,
{
    if n == 0 {
        Seq::empty()
    } else {
        tag_bytes(n / 256).push((n % 256) as u8)
    }
}

/// The number that `bytes` write in base 256, the weightiest byte first.
pub open spec fn be_value(bytes: Seq<u8>) -> nat
    decreases bytes.len(),
{
    if bytes.len() == 0 {
        0
    } else {
        be_value(bytes.drop_last()) * 256 + bytes.last() as nat
    }
}

/// 256 to the power `k`.
pub open spec fn pow256(k: nat) -> nat
    decreases k,
{
    if k == 0 {
        1
    } else {
        256 * pow256((k - 1) as nat)
    }
}

/// 256 to the power 8 is 2 to the power 64.
pub proof fn lemma_pow256_8()
    ensures
        pow256(8) == 0x1_0000_0000_0000_0000,
{
    reveal_with_fuel(pow256, 9);
}

/// Powers of 256 are positive and grow with the exponent.
pub proof fn lemma_pow256_grows(j: nat, k: nat)
    requires
        j <= k,
    ensures
        1 <= pow256(j) <= pow256(k),
    decreases k,
{
    if k > 0 {
        if j < k {
            lemma_pow256_grows(j, (k - 1) as nat);
        } else {
            lemma_pow256_grows((j - 1) as nat, (k - 1) as nat);
        }
    }
}

/// The bytes of a number write that number.
pub proof fn lemma_be_value_of_tag_bytes(n: nat)
    ensures
        be_value(tag_bytes(n)) == n,
    decreases n,
{
    if n != 0 {
        lemma_be_value_of_tag_bytes(n / 256);
        assert(tag_bytes(n).drop_last() == tag_bytes(n / 256));
    }
}

/// `k` bytes write a number below 256 to the `k`.
pub proof fn lemma_be_value_bound(bytes: Seq<u8>)
    ensures
        be_value(bytes) < pow256(bytes.len()),
    decreases bytes.len(),
{
    if bytes.len() != 0 {
        lemma_be_value_bound(bytes.drop_last());
    }
}

/// The byte of weight 256 to the `k` in `n`: its `k`-th byte from the right.
pub open spec fn byte_at(n: nat, k: nat) -> u8 {
    ((n / pow256(k)) % 256) as u8
}

/// The bytes of a number are its bytes by weight, from the weightiest that is
/// needed down to the last.
pub proof fn lemma_tag_bytes_by_weight(n: nat)
    ensures
        forall|j: int|
            0 <= j < tag_bytes(n).len() ==> #[trigger] tag_bytes(n)[j] == byte_at(
                n,
                (tag_bytes(n).len() - 1 - j) as nat,
            ),
    decreases n,
{
    if n != 0 {
        lemma_tag_bytes_by_weight(n / 256);
        let front = tag_bytes(n / 256);
        let all = tag_bytes(n);
        assert forall|j: int| 0 <= j < all.len() implies #[trigger] all[j] == byte_at(
            n,
            (all.len() - 1 - j) as nat,
        ) by {
            if j < front.len() {
                let k = (front.len() - 1 - j) as nat;
                lemma_pow256_grows(0, k);
                vstd::arithmetic::div_mod::lemma_div_denominator(
                    n as int,
                    256,
                    pow256(k) as int,
                );
            } else {
                assert(pow256(0) == 1);
                assert(all[j] == byte_at(n, 0));
            }
        }
    }
}

/// The number of bytes of a 64-bit number is 8 less the number of its
/// leading zero bytes, which is the number of its leading zero bits divided
/// by 8 and rounded down.
pub proof fn lemma_tag_bytes_offset(n: u64)
    ensures
        tag_bytes(n as nat).len() == 8 - u64_leading_zeros(n) / 8,
        0 <= u64_leading_zeros(n) <= 64,
    decreases n,
{
    reveal_with_fuel(u64_leading_zeros, 10);
    if 0 < n < 256 {
        assert(tag_bytes((n as nat) / 256) == Seq::<u8>::empty());
    } else if n >= 256 {
        lemma_tag_bytes_offset(n / 256);
    }
}

/// What a label says.
pub struct Label {
    pub content_type: SafeContentType,
    pub data_type: SafeDataType,
    pub xorname: XorName,
    pub type_tag: u64,
}

/// What a label says, as contracts see it.
pub struct LabelView {
    pub content_type: ContentTypeView,
    pub data_type: SafeDataType,
    pub xorname: Seq<u8>,
    pub type_tag: u64,
}

impl View for Label {
    type V = LabelView;

    open spec fn view(&self) -> LabelView {
        LabelView {
            content_type: self.content_type@,
            data_type: self.data_type,
            xorname: self.xorname@,
            type_tag: self.type_tag,
        }
    }
}

/// The bytes of the label for these four values.
pub open spec fn label_bytes(
    content_code: u16,
    data_type: SafeDataType,
    xorname: Seq<u8>,
    type_tag: u64,
) -> Seq<u8> {
    seq![1u8, (content_code / 256) as u8, (content_code % 256) as u8, data_type.spec_code()]
        + xorname + tag_bytes(type_tag as nat)
}

/// The label has too few bytes to hold a name.
pub open spec fn too_short(len: nat) -> Failure {
    failure(
        ErrorKind::InvalidXorUrl,
        "Invalid XOR-URL, encoded string too short: "@ + decimal(len) + " bytes"@,
    )
}

/// The label has more bytes than a name and a full type tag take.
pub open spec fn too_long(len: nat) -> Failure {
    failure(
        ErrorKind::InvalidXorUrl,
        "Invalid XOR-URL, encoded string too long: "@ + decimal(len) + " bytes"@,
    )
}

/// The first byte is no version that is understood.
pub open spec fn unsupported_version(version: u8) -> Failure {
    failure(
        ErrorKind::InvalidXorUrl,
        "Invalid or unsupported XOR-URL encoding version: "@ + decimal(version as nat),
    )
}

/// The content type code is neither fixed nor in the registry.
pub open spec fn unknown_content_type(code: u16) -> Failure {
    failure(
        ErrorKind::InvalidXorUrl,
        "Invalid content type encoded in the XOR-URL string: "@ + decimal(code as nat),
    )
}

/// The data type code stands for no data type.
pub open spec fn unknown_data_type(code: u8) -> Failure {
    failure(
        ErrorKind::InvalidXorUrl,
        "Invalid SAFE data type encoded in the XOR-URL string: "@ + decimal(code as nat),
    )
}

/// What the bytes of a label say, or why they are no label. The length is
/// judged first, then the version, the content type and the data type.
pub open spec fn label_of_bytes(bytes: Seq<u8>) -> Result<LabelView, Failure> {
    if bytes.len() < TYPE_TAG_OFFSET {
        Err(too_short(bytes.len()))
    } else if bytes.len() > XOR_URL_STR_MAX_LENGTH {
        Err(too_long(bytes.len()))
    } else if bytes[0] != 1 {
        Err(unsupported_version(bytes[0]))
    } else {
        let code = (bytes[1] as int * 256 + bytes[2] as int) as u16;
        match content_type_of_code(code) {
            None => Err(unknown_content_type(code)),
            Some(content_type) => match data_type_of_code(bytes[3] as int) {
                None => Err(unknown_data_type(bytes[3])),
                Some(data_type) => Ok(
                    LabelView {
                        content_type,
                        data_type,
                        xorname: bytes.subrange(
                            XOR_NAME_BYTES_OFFSET as int,
                            TYPE_TAG_OFFSET as int,
                        ),
                        type_tag: be_value(bytes.skip(TYPE_TAG_OFFSET as int)) as u64,
                    },
                ),
            },
        }
    }
}

/// A label is 36 bytes and the bytes of its type tag long: 36 for the tag 0,
/// 44 at most.
pub proof fn lemma_label_len(
    content_code: u16,
    data_type: SafeDataType,
    xorname: Seq<u8>,
    type_tag: u64,
)
    requires
        xorname.len() == 32,
    ensures
        label_bytes(content_code, data_type, xorname, type_tag).len() == 36 + tag_bytes(
            type_tag as nat,
        ).len(),
        tag_bytes(type_tag as nat).len() <= 8,
        type_tag == 0 ==> tag_bytes(type_tag as nat).len() == 0,
{
    lemma_tag_bytes_offset(type_tag);
}

/// Reading the bytes of a label gives back the four values it was made of.
pub proof fn lemma_label_round_trip(
    content_type: ContentTypeView,
    data_type: SafeDataType,
    xorname: Seq<u8>,
    type_tag: u64,
)
    requires
        xorname.len() == 32,
        content_type_code(content_type) is Some,
    ensures
        label_of_bytes(
            label_bytes(content_type_code(content_type)->0, data_type, xorname, type_tag),
        ) == Ok::<LabelView, Failure>(LabelView { content_type, data_type, xorname, type_tag }),
{
    let code = content_type_code(content_type)->0;
    let bytes = label_bytes(code, data_type, xorname, type_tag);
    lemma_label_len(code, data_type, xorname, type_tag);
    lemma_content_type_code_round_trip(content_type);
    lemma_be_value_of_tag_bytes(type_tag as nat);
    assert(bytes.subrange(4, 36) == xorname);
    assert(bytes.skip(36) == tag_bytes(type_tag as nat));
}

/// The eight bytes of `n`, the weightiest first.
fn big_endian_bytes(n: u64) -> (r: [u8; 8])
    ensures
        forall|i: int| 0 <= i < 8 ==> #[trigger] r@[i] == byte_at(n as nat, (7 - i) as nat),
{
    let mut bytes = [0u8; 8];
    let mut rest: u64 = n;
    let mut k: usize = 0;
    assert(pow256(0) == 1);
    while k < 8
        invariant
            k <= 8,
            rest == n as nat / pow256(k as nat),
            forall|i: int| 8 - k <= i < 8 ==> #[trigger] bytes@[i] == byte_at(n as nat, (7 - i) as nat),
        decreases 8 - k,
    {
        proof {
            lemma_pow256_grows(0, k as nat);
            vstd::arithmetic::div_mod::lemma_div_denominator(
                n as int,
                pow256(k as nat) as int,
                256,
            );
        }
        bytes[7 - k] = (rest % 256) as u8;
        rest = rest / 256;
        k = k + 1;
    }
    bytes
}

/// The type tag without its leading zero bytes: its eight bytes, the
/// weightiest first, from the offset that is the number of its leading zero
/// bits divided by 8.
pub fn type_tag_to_bytes(type_tag: u64) -> (r: Vec<u8>)
    ensures
        r@ == tag_bytes(type_tag as nat),
        r.len() == 8 - u64_leading_zeros(type_tag) / 8,
        r.len() <= 8,
{
    let bytes = big_endian_bytes(type_tag);
    let start: usize = (type_tag.leading_zeros() / 8) as usize;
    proof {
        lemma_tag_bytes_offset(type_tag);
        lemma_tag_bytes_by_weight(type_tag as nat);
    }
    let mut out: Vec<u8> = Vec::new();
    let mut i: usize = start;
    while i < 8
        invariant
            start <= i <= 8,
            out@ == bytes@.subrange(start as int, i as int),
        decreases 8 - i,
    {
        out.push(bytes[i]);
        i = i + 1;
    }
    out
}

/// The type tag that the bytes from `TYPE_TAG_OFFSET` on write.
fn type_tag_of_bytes(bytes: &[u8]) -> (r: u64)
    requires
        TYPE_TAG_OFFSET <= bytes@.len() <= XOR_URL_STR_MAX_LENGTH,
    ensures
        r == be_value(bytes@.skip(TYPE_TAG_OFFSET as int)),
{
    let ghost tail = bytes@.skip(TYPE_TAG_OFFSET as int);
    let mut acc: u64 = 0;
    let mut i: usize = TYPE_TAG_OFFSET;
    while i < bytes.len()
        invariant
            TYPE_TAG_OFFSET <= i <= bytes@.len() <= XOR_URL_STR_MAX_LENGTH,
            tail == bytes@.skip(TYPE_TAG_OFFSET as int),
            acc == be_value(tail.take(i - TYPE_TAG_OFFSET)),
        decreases bytes.len() - i,
    {
        let ghost next = tail.take(i - TYPE_TAG_OFFSET + 1);
        proof {
            assert(next.drop_last() == tail.take(i - TYPE_TAG_OFFSET));
            lemma_be_value_bound(next);
            lemma_pow256_grows(next.len(), 8);
            lemma_pow256_8();
        }
        acc = acc * 256 + bytes[i] as u64;
        i = i + 1;
    }
    assert(tail.take(tail.len() as int) == tail);
    acc
}

/// Writes the label for these four values.
pub fn encode_label(
    content_code: u16,
    data_type: SafeDataType,
    xorname: &XorName,
    type_tag: u64,
) -> (r: Vec<u8>)
    ensures
        r@ == label_bytes(content_code, data_type, xorname@, type_tag),
        TYPE_TAG_OFFSET <= r.len() <= XOR_URL_STR_MAX_LENGTH,
{
    let mut out: Vec<u8> = Vec::new();
    out.push(1u8);
    out.push((content_code / 256) as u8);
    out.push((content_code % 256) as u8);
    out.push(data_type.code());
    let mut i: usize = 0;
    while i < 32
        invariant
            i <= 32,
            out@ == seq![
                1u8,
                (content_code / 256) as u8,
                (content_code % 256) as u8,
                data_type.spec_code(),
            ] + xorname@.take(i as int),
        decreases 32 - i,
    {
        out.push(xorname.0[i]);
        i = i + 1;
    }
    let mut tag = type_tag_to_bytes(type_tag);
    out.append(&mut tag);
    out
}

/// The content type that `code` stands for in a label.
fn content_type_for_code(code: u16) -> (r: Option<SafeContentType>)
    ensures
        match r {
            Some(t) => content_type_of_code(code) == Some(t@),
            None => content_type_of_code(code) is None,
        },
{
    if code == 0 {
        Some(SafeContentType::Raw)
    } else if code == 1 {
        Some(SafeContentType::Wallet)
    } else if code == 2 {
        Some(SafeContentType::FilesContainer)
    } else if code == 3 {
        Some(SafeContentType::NrsMapContainer)
    } else {
        match media_type_for_code(code) {
            Some(name) => Some(SafeContentType::MediaType(String::from_str(name))),
            None => None,
        }
    }
}

/// The data type that `code` stands for in a label.
fn data_type_for_code(code: u8) -> (r: Option<SafeDataType>)
    ensures
        r == data_type_of_code(code as int),
{
    match SafeDataType::from_u64(code as u64) {
        Ok(t) => Some(t),
        Err(_) => None,
    }
}

/// The error for a label of `len` bytes, which is too short or too long.
fn length_failure(prefix: &str, len: usize) -> (r: Error)
    ensures
        r.reports(
            failure(ErrorKind::InvalidXorUrl, prefix@ + decimal(len as nat) + " bytes"@),
        ),
{
    let mut m = String::from_str(prefix);
    m.append(u64_to_text(len as u64).as_str());
    m.append(" bytes");
    Error::InvalidXorUrl(m)
}

/// The error for a code that stands for nothing.
fn code_failure(prefix: &str, code: u64) -> (r: Error)
    ensures
        r.reports(failure(ErrorKind::InvalidXorUrl, prefix@ + decimal(code as nat))),
{
    let mut m = String::from_str(prefix);
    m.append(u64_to_text(code).as_str());
    Error::InvalidXorUrl(m)
}

/// Reads a label: what its bytes say, or why they are no label.
pub fn decode_label(bytes: &[u8]) -> (r: Result<Label, Error>)
    ensures
        agrees(r, label_of_bytes(bytes@)),
{
    if bytes.len() < TYPE_TAG_OFFSET {
        return Err(length_failure("Invalid XOR-URL, encoded string too short: ", bytes.len()));
    }
    if bytes.len() > XOR_URL_STR_MAX_LENGTH {
        return Err(length_failure("Invalid XOR-URL, encoded string too long: ", bytes.len()));
    }
    let version: u8 = bytes[0];
    if version as u64 != XOR_URL_VERSION_1 {
        return Err(
            code_failure("Invalid or unsupported XOR-URL encoding version: ", version as u64),
        );
    }
    let code: u16 = bytes[1] as u16 * 256 + bytes[2] as u16;
    let content_type = match content_type_for_code(code) {
        Some(t) => t,
        None => {
            return Err(
                code_failure("Invalid content type encoded in the XOR-URL string: ", code as u64),
            );
        },
    };
    let data_type = match data_type_for_code(bytes[3]) {
        Some(t) => t,
        None => {
            return Err(
                code_failure(
                    "Invalid SAFE data type encoded in the XOR-URL string: ",
                    bytes[3] as u64,
                ),
            );
        },
    };
    let mut name = [0u8; 32];
    let mut i: usize = 0;
    while i < 32
        invariant
            i <= 32,
            bytes@.len() >= TYPE_TAG_OFFSET,
            forall|j: int| 0 <= j < i ==> name@[j] == bytes@[j + 4],
        decreases 32 - i,
    {
        name[i] = bytes[i + XOR_NAME_BYTES_OFFSET];
        i = i + 1;
    }
    assert(name@ =~= bytes@.subrange(4, 36));
    let type_tag = type_tag_of_bytes(bytes);
    Ok(Label { content_type, data_type, xorname: XorName(name), type_tag })
}

} // verus!
