//! The registry of media types: which names a locator may carry as its
//! content type, and the numeric code that stands for each in a label.

use vstd::prelude::*;
use vstd::string::*;
use crate::text::text_eq;

verus! {

/// The lowest code of a media type. The codes below it belong to the fixed
/// content types.
pub const FIRST_MEDIA_TYPE_CODE: u16 = 4;

/// The highest code of a media type.
pub const LAST_MEDIA_TYPE_CODE: u16 = 15;

/// The media type that `code` stands for, if it stands for one.
pub open spec fn media_type_name(code: u16) -> Option<Seq<char>> {
    if code == 4 {
        Some("application/json"@)
    } else if code == 5 {
        Some("application/octet-stream"@)
    } else if code == 6 {
        Some("application/pdf"@)
    } else if code == 7 {
        Some("application/xml"@)
    } else if code == 8 {
        Some("audio/mpeg"@)
    } else if code == 9 {
        Some("image/gif"@)
    } else if code == 10 {
        Some("image/jpeg"@)
    } else if code == 11 {
        Some("image/png"@)
    } else if code == 12 {
        Some("text/css"@)
    } else if code == 13 {
        Some("text/html"@)
    } else if code == 14 {
        Some("text/plain"@)
    } else if code == 15 {
        Some("video/mp4"@)
    } else {
        None
    }
}

/// The least code from `from` on that stands for `name`.
pub open spec fn media_type_code_from(name: Seq<char>, from: int) -> Option<u16>
    decreases LAST_MEDIA_TYPE_CODE + 1 - from,
{
    if from < FIRST_MEDIA_TYPE_CODE || from > LAST_MEDIA_TYPE_CODE {
        None
    } else if media_type_name(from as u16) == Some(name) {
        Some(from as u16)
    } else {
        media_type_code_from(name, from + 1)
    }
}

/// The code that stands for the media type `name`, if the registry holds it.
pub open spec fn media_type_code(name: Seq<char>) -> Option<u16> {
    media_type_code_from(name, FIRST_MEDIA_TYPE_CODE as int)
}

/// The code found for a name is a code of the registry that stands for that
/// name.
pub proof fn lemma_code_names(name: Seq<char>, from: int)
    requires
        FIRST_MEDIA_TYPE_CODE <= from,
    ensures
        media_type_code_from(name, from) matches Some(c) ==> {
            &&& from <= c
            &&& FIRST_MEDIA_TYPE_CODE <= c <= LAST_MEDIA_TYPE_CODE
            &&& media_type_name(c) == Some(name)
        },
        media_type_code_from(name, from) is None ==> forall|c: u16|
            from <= c && FIRST_MEDIA_TYPE_CODE <= c <= LAST_MEDIA_TYPE_CODE
                ==> media_type_name(c) != Some(name),
    decreases LAST_MEDIA_TYPE_CODE + 1 - from,
{
    if from <= LAST_MEDIA_TYPE_CODE {
        lemma_code_names(name, from + 1);
    }
}

/// A name has a code exactly if some code stands for it, and that code
/// stands for the name.
pub proof fn lemma_media_type_code(name: Seq<char>)
    ensures
        media_type_code(name) matches Some(c) ==> FIRST_MEDIA_TYPE_CODE <= c
            <= LAST_MEDIA_TYPE_CODE && media_type_name(c) == Some(name),
        media_type_code(name) is None ==> forall|c: u16| media_type_name(c) != Some(name),
{
    lemma_code_names(name, FIRST_MEDIA_TYPE_CODE as int);
}

/// The name of the media type with the given code.
pub fn media_type_for_code(code: u16) -> (r: Option<&'static str>)
    ensures
        match r {
            Some(name) => media_type_name(code) == Some(name@),
            None => media_type_name(code) is None,
        },
{
    if code == 4 {
        Some("application/json")
    } else if code == 5 {
        Some("application/octet-stream")
    } else if code == 6 {
        Some("application/pdf")
    } else if code == 7 {
        Some("application/xml")
    } else if code == 8 {
        Some("audio/mpeg")
    } else if code == 9 {
        Some("image/gif")
    } else if code == 10 {
        Some("image/jpeg")
    } else if code == 11 {
        Some("image/png")
    } else if code == 12 {
        Some("text/css")
    } else if code == 13 {
        Some("text/html")
    } else if code == 14 {
        Some("text/plain")
    } else if code == 15 {
        Some("video/mp4")
    } else {
        None
    }
}

/// The code of the media type `name`.
pub fn code_for_media_type(name: &str) -> (r: Option<u16>)
    ensures
        r == media_type_code(name@),
{
    let mut code: u16 = FIRST_MEDIA_TYPE_CODE;
    while code <= LAST_MEDIA_TYPE_CODE
        invariant
            FIRST_MEDIA_TYPE_CODE <= code <= LAST_MEDIA_TYPE_CODE + 1,
            media_type_code(name@) == media_type_code_from(name@, code as int),
        decreases LAST_MEDIA_TYPE_CODE + 1 - code,
    {
        match media_type_for_code(code) {
            Some(known) => {
                if text_eq(known, name) {
                    return Some(code);
                }
            },
            None => {},
        }
        code = code + 1;
    }
    None
}

} // verus!
