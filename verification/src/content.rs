//! What a locator says of the data behind it: the name of the data, how it
//! is stored, what it holds, and the alphabet its label is written in.

use vstd::prelude::*;
use vstd::string::*;
use crate::error::{agrees, failure, Error, ErrorKind, Failure};
use crate::media_types::{
    code_for_media_type, lemma_media_type_code, media_type_code, media_type_name,
};
use crate::text::text_eq;

verus! {

/// Number of bytes in the name of a piece of data.
pub const XOR_NAME_LEN: usize = 32;

/// The 32-byte name of a piece of data: its address on the network.
#[derive(Clone, Copy, Debug, Default, PartialEq, Eq)]
pub struct XorName(pub [u8; 32]);

impl View for XorName {
    type V = Seq<u8>;

    open spec fn view(&self) -> Seq<u8> {
        self.0@
    }
}

impl XorName {
    /// Whether two names hold the same bytes.
    pub fn same(&self, other: &XorName) -> (r: bool)
        ensures
            r == (self@ == other@),
    {
        let mut i: usize = 0;
        while i < 32
            invariant
                i <= 32,
                forall|j: int| 0 <= j < i ==> self.0@[j] == other.0@[j],
            decreases 32 - i,
        {
            if self.0[i] != other.0[i] {
                return false;
            }
            i = i + 1;
        }
        assert(self.0@ =~= other.0@);
        true
    }
}

/// The alphabets in which a label can be written.
#[derive(Copy, Clone, Debug, PartialEq, Eq, Structural)]
pub enum XorUrlBase {
    Base32z,
    Base32,
    Base64,
}

/// The alphabet used where the caller names none.
pub const DEFAULT_XORURL_BASE: XorUrlBase = XorUrlBase::Base32z;

/// The alphabet that `code` stands for.
pub open spec fn base_of_code(code: u8) -> Option<XorUrlBase> {
    if code == 0 {
        Some(XorUrlBase::Base32z)
    } else if code == 1 {
        Some(XorUrlBase::Base32)
    } else if code == 2 {
        Some(XorUrlBase::Base64)
    } else {
        None
    }
}

/// The alphabet that the word `name` stands for.
pub open spec fn base_of_name(name: Seq<char>) -> Option<XorUrlBase> {
    if name == "base32z"@ {
        Some(XorUrlBase::Base32z)
    } else if name == "base32"@ {
        Some(XorUrlBase::Base32)
    } else if name == "base64"@ {
        Some(XorUrlBase::Base64)
    } else {
        None
    }
}

impl XorUrlBase {
    /// The alphabet with the given code: 0, 1 or 2.
    pub fn from_u8(value: u8) -> (r: Result<Self, Error>)
        ensures
            match base_of_code(value) {
                Some(b) => r == Ok::<Self, Error>(b),
                None => r matches Err(e) && e.reports(
                    failure(
                        ErrorKind::InvalidInput,
                        "Invalid XOR URL base encoding code. Supported values are 0=base32z, 1=base32, and 2=base64"@,
                    ),
                ),
            },
    {
        if value == 0 {
            Ok(XorUrlBase::Base32z)
        } else if value == 1 {
            Ok(XorUrlBase::Base32)
        } else if value == 2 {
            Ok(XorUrlBase::Base64)
        } else {
            Err(
                Error::InvalidInput(
                    String::from_str(
                        "Invalid XOR URL base encoding code. Supported values are 0=base32z, 1=base32, and 2=base64",
                    ),
                ),
            )
        }
    }

    /// The alphabet with the given name: `base32z`, `base32` or `base64`.
    pub fn from_str(name: &str) -> (r: Result<Self, Error>)
        ensures
            match base_of_name(name@) {
                Some(b) => r == Ok::<Self, Error>(b),
                None => r matches Err(e) && e.reports(unknown_base_name(name@)),
            },
    {
        if text_eq(name, "base32z") {
            Ok(XorUrlBase::Base32z)
        } else if text_eq(name, "base32") {
            Ok(XorUrlBase::Base32)
        } else if text_eq(name, "base64") {
            Ok(XorUrlBase::Base64)
        } else {
            let mut m = String::from_str("Invalid XOR URL base encoding: ");
            m.append(name);
            m.append(". Supported values are base32z, base32, and base64");
            Err(Error::InvalidInput(m))
        }
    }

    /// The name of the variant.
    pub open spec fn name(&self) -> Seq<char> {
        match self {
            XorUrlBase::Base32z => "Base32z"@,
            XorUrlBase::Base32 => "Base32"@,
            XorUrlBase::Base64 => "Base64"@,
        }
    }

    /// The name of the variant, as text.
    pub fn to_string(&self) -> (r: String)
        ensures
            r@ == self.name(),
    {
        match self {
            XorUrlBase::Base32z => String::from_str("Base32z"),
            XorUrlBase::Base32 => String::from_str("Base32"),
            XorUrlBase::Base64 => String::from_str("Base64"),
        }
    }
}

impl std::str::FromStr for XorUrlBase {
    type Err = Error;

    /// The alphabet with the given name, `base32z`, `base32` or `base64`,
    /// as the inherent `from_str` reads it; any other name is refused.
    fn from_str(name: &str) -> (r: Result<Self, Error>)
        ensures
            match base_of_name(name@) {
                Some(b) => r == Ok::<Self, Error>(b),
                None => r matches Err(e) && e.reports(unknown_base_name(name@)),
            },
    {
        XorUrlBase::from_str(name)
    }
}

/// The name is that of no alphabet.
pub open spec fn unknown_base_name(name: Seq<char>) -> Failure {
    failure(
        ErrorKind::InvalidInput,
        "Invalid XOR URL base encoding: "@ + name
            + ". Supported values are base32z, base32, and base64"@,
    )
}

/// How the data behind a locator is stored on the network.
#[derive(Debug, Clone, Copy, PartialEq, Eq, Structural)]
pub enum SafeDataType {
    SafeKey,
    PublishedImmutableData,
    UnpublishedImmutableData,
    SeqMutableData,
    UnseqMutableData,
    PublishedSeqAppendOnlyData,
    PublishedUnseqAppendOnlyData,
    UnpublishedSeqAppendOnlyData,
    UnpublishedUnseqAppendOnlyData,
}

/// The data type that `code` stands for.
pub open spec fn data_type_of_code(code: int) -> Option<SafeDataType> {
    if code == 0 {
        Some(SafeDataType::SafeKey)
    } else if code == 1 {
        Some(SafeDataType::PublishedImmutableData)
    } else if code == 2 {
        Some(SafeDataType::UnpublishedImmutableData)
    } else if code == 3 {
        Some(SafeDataType::SeqMutableData)
    } else if code == 4 {
        Some(SafeDataType::UnseqMutableData)
    } else if code == 5 {
        Some(SafeDataType::PublishedSeqAppendOnlyData)
    } else if code == 6 {
        Some(SafeDataType::PublishedUnseqAppendOnlyData)
    } else if code == 7 {
        Some(SafeDataType::UnpublishedSeqAppendOnlyData)
    } else if code == 8 {
        Some(SafeDataType::UnpublishedUnseqAppendOnlyData)
    } else {
        None
    }
}

impl SafeDataType {
    /// The code of this data type in a label.
    pub open spec fn spec_code(&self) -> u8 {
        match self {
            SafeDataType::SafeKey => 0,
            SafeDataType::PublishedImmutableData => 1,
            SafeDataType::UnpublishedImmutableData => 2,
            SafeDataType::SeqMutableData => 3,
            SafeDataType::UnseqMutableData => 4,
            SafeDataType::PublishedSeqAppendOnlyData => 5,
            SafeDataType::PublishedUnseqAppendOnlyData => 6,
            SafeDataType::UnpublishedSeqAppendOnlyData => 7,
            SafeDataType::UnpublishedUnseqAppendOnlyData => 8,
        }
    }

    /// The code of this data type in a label.
    #[verifier::when_used_as_spec(spec_code)]
    pub fn code(&self) -> (r: u8)
        ensures
            r == self.spec_code(),
    {
        match self {
            SafeDataType::SafeKey => 0,
            SafeDataType::PublishedImmutableData => 1,
            SafeDataType::UnpublishedImmutableData => 2,
            SafeDataType::SeqMutableData => 3,
            SafeDataType::UnseqMutableData => 4,
            SafeDataType::PublishedSeqAppendOnlyData => 5,
            SafeDataType::PublishedUnseqAppendOnlyData => 6,
            SafeDataType::UnpublishedSeqAppendOnlyData => 7,
            SafeDataType::UnpublishedUnseqAppendOnlyData => 8,
        }
    }

    /// The data type with the given code, 0 to 8.
    pub fn from_u64(value: u64) -> (r: Result<Self, Error>)
        ensures
            match data_type_of_code(value as int) {
                Some(t) => r == Ok::<Self, Error>(t),
                None => r matches Err(e) && e.reports(
                    failure(ErrorKind::InvalidInput, "Invalid SafeDataType code"@),
                ),
            },
    {
        if value == 0 {
            Ok(SafeDataType::SafeKey)
        } else if value == 1 {
            Ok(SafeDataType::PublishedImmutableData)
        } else if value == 2 {
            Ok(SafeDataType::UnpublishedImmutableData)
        } else if value == 3 {
            Ok(SafeDataType::SeqMutableData)
        } else if value == 4 {
            Ok(SafeDataType::UnseqMutableData)
        } else if value == 5 {
            Ok(SafeDataType::PublishedSeqAppendOnlyData)
        } else if value == 6 {
            Ok(SafeDataType::PublishedUnseqAppendOnlyData)
        } else if value == 7 {
            Ok(SafeDataType::UnpublishedSeqAppendOnlyData)
        } else if value == 8 {
            Ok(SafeDataType::UnpublishedUnseqAppendOnlyData)
        } else {
            Err(Error::InvalidInput(String::from_str("Invalid SafeDataType code")))
        }
    }

    /// The name of the variant.
    pub open spec fn name(&self) -> Seq<char> {
        match self {
            SafeDataType::SafeKey => "SafeKey"@,
            SafeDataType::PublishedImmutableData => "PublishedImmutableData"@,
            SafeDataType::UnpublishedImmutableData => "UnpublishedImmutableData"@,
            SafeDataType::SeqMutableData => "SeqMutableData"@,
            SafeDataType::UnseqMutableData => "UnseqMutableData"@,
            SafeDataType::PublishedSeqAppendOnlyData => "PublishedSeqAppendOnlyData"@,
            SafeDataType::PublishedUnseqAppendOnlyData => "PublishedUnseqAppendOnlyData"@,
            SafeDataType::UnpublishedSeqAppendOnlyData => "UnpublishedSeqAppendOnlyData"@,
            SafeDataType::UnpublishedUnseqAppendOnlyData => "UnpublishedUnseqAppendOnlyData"@,
        }
    }

    /// The name of the variant, as text.
    pub fn to_string(&self) -> (r: String)
        ensures
            r@ == self.name(),
    {
        match self {
            SafeDataType::SafeKey => String::from_str("SafeKey"),
            SafeDataType::PublishedImmutableData => String::from_str("PublishedImmutableData"),
            SafeDataType::UnpublishedImmutableData => String::from_str("UnpublishedImmutableData"),
            SafeDataType::SeqMutableData => String::from_str("SeqMutableData"),
            SafeDataType::UnseqMutableData => String::from_str("UnseqMutableData"),
            SafeDataType::PublishedSeqAppendOnlyData => String::from_str(
                "PublishedSeqAppendOnlyData",
            ),
            SafeDataType::PublishedUnseqAppendOnlyData => String::from_str(
                "PublishedUnseqAppendOnlyData",
            ),
            SafeDataType::UnpublishedSeqAppendOnlyData => String::from_str(
                "UnpublishedSeqAppendOnlyData",
            ),
            SafeDataType::UnpublishedUnseqAppendOnlyData => String::from_str(
                "UnpublishedUnseqAppendOnlyData",
            ),
        }
    }
}

/// What the data behind a locator holds: one of four fixed kinds, or a
/// media type by its name.
#[derive(Debug, Clone, PartialEq)]
pub enum SafeContentType {
    Raw,
    Wallet,
    FilesContainer,
    NrsMapContainer,
    MediaType(String),
}

/// A content type as contracts see it: the media type by its characters.
pub enum ContentTypeView {
    Raw,
    Wallet,
    FilesContainer,
    NrsMapContainer,
    MediaType(Seq<char>),
}

impl View for SafeContentType {
    type V = ContentTypeView;

    open spec fn view(&self) -> ContentTypeView {
        match self {
            SafeContentType::Raw => ContentTypeView::Raw,
            SafeContentType::Wallet => ContentTypeView::Wallet,
            SafeContentType::FilesContainer => ContentTypeView::FilesContainer,
            SafeContentType::NrsMapContainer => ContentTypeView::NrsMapContainer,
            SafeContentType::MediaType(m) => ContentTypeView::MediaType(m@),
        }
    }
}

/// The fixed content type that `code` stands for.
pub open spec fn fixed_content_type(code: u16) -> Option<ContentTypeView> {
    if code == 0 {
        Some(ContentTypeView::Raw)
    } else if code == 1 {
        Some(ContentTypeView::Wallet)
    } else if code == 2 {
        Some(ContentTypeView::FilesContainer)
    } else if code == 3 {
        Some(ContentTypeView::NrsMapContainer)
    } else {
        None
    }
}

/// The content type that `code` stands for in a label: a fixed one, or the
/// media type that the registry holds under that code.
pub open spec fn content_type_of_code(code: u16) -> Option<ContentTypeView> {
    if code <= 3 {
        fixed_content_type(code)
    } else {
        match media_type_name(code) {
            Some(name) => Some(ContentTypeView::MediaType(name)),
            None => None,
        }
    }
}

/// The code of a content type in a label: none for a media type that the
/// registry does not hold.
pub open spec fn content_type_code(t: ContentTypeView) -> Option<u16> {
    match t {
        ContentTypeView::Raw => Some(0),
        ContentTypeView::Wallet => Some(1),
        ContentTypeView::FilesContainer => Some(2),
        ContentTypeView::NrsMapContainer => Some(3),
        ContentTypeView::MediaType(name) => media_type_code(name),
    }
}

/// A content type that has a code is the one that its code stands for.
pub proof fn lemma_content_type_code_round_trip(t: ContentTypeView)
    requires
        content_type_code(t) is Some,
    ensures
        content_type_of_code(content_type_code(t)->0) == Some(t),
{
    if let ContentTypeView::MediaType(name) = t {
        lemma_media_type_code(name);
    }
}

impl SafeContentType {
    /// The fixed content type with the given code, 0 to 3.
    pub fn from_u16(value: u16) -> (r: Result<Self, Error>)
        ensures
            agrees(
                r,
                match fixed_content_type(value) {
                    Some(t) => Ok(t),
                    None => Err(failure(ErrorKind::InvalidInput, "Invalid Media-type code"@)),
                },
            ),
    {
        if value == 0 {
            Ok(SafeContentType::Raw)
        } else if value == 1 {
            Ok(SafeContentType::Wallet)
        } else if value == 2 {
            Ok(SafeContentType::FilesContainer)
        } else if value == 3 {
            Ok(SafeContentType::NrsMapContainer)
        } else {
            Err(Error::InvalidInput(String::from_str("Invalid Media-type code")))
        }
    }

    /// The code of this content type in a label.
    pub fn value(&self) -> (r: Result<u16, Error>)
        ensures
            match content_type_code(self@) {
                Some(c) => r == Ok::<u16, Error>(c),
                None => r matches Err(e) && e.reports(
                    failure(ErrorKind::Unexpected, "Unsupported Media-type"@),
                ),
            },
    {
        match self {
            SafeContentType::Raw => Ok(0),
            SafeContentType::Wallet => Ok(1),
            SafeContentType::FilesContainer => Ok(2),
            SafeContentType::NrsMapContainer => Ok(3),
            SafeContentType::MediaType(media_type) => match code_for_media_type(
                media_type.as_str(),
            ) {
                Some(code) => Ok(code),
                None => Err(Error::Unexpected(String::from_str("Unsupported Media-type"))),
            },
        }
    }

    /// A copy of this content type.
    pub fn duplicate(&self) -> (r: Self)
        ensures
            r@ == self@,
    {
        match self {
            SafeContentType::Raw => SafeContentType::Raw,
            SafeContentType::Wallet => SafeContentType::Wallet,
            SafeContentType::FilesContainer => SafeContentType::FilesContainer,
            SafeContentType::NrsMapContainer => SafeContentType::NrsMapContainer,
            SafeContentType::MediaType(m) => SafeContentType::MediaType(m.clone()),
        }
    }
}

} // verus!
