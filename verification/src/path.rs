//! The path of a locator: either empty, or a `/` followed by segments with
//! `/` between them.

use vstd::prelude::*;
use vstd::string::*;
use vstd::utf8::encode_utf8;
use crate::foreign::{percent_encode, percent_encoded};
use crate::text::{
    join, join_text, lemma_first_index_is, lemma_join_split, split, split_text, texts,
};

verus! {

/// The segments of `path` that are kept: the pieces between slashes,
/// without the first piece where it is empty (before a leading slash, or
/// where the path itself is empty).
pub open spec fn kept_segments(path: Seq<char>) -> Seq<Seq<char>> {
    let pieces = split(path, '/');
    if pieces[0].len() == 0 {
        pieces.skip(1)
    } else {
        pieces
    }
}

/// Each segment, percent-encoded.
pub open spec fn encoded_segments(segments: Seq<Seq<char>>) -> Seq<Seq<char>> {
    Seq::new(segments.len(), |i: int| percent_encoded(encode_utf8(segments[i])))
}

/// The path as a locator stores it: the kept segments, percent-encoded if
/// `encode` is set, joined by `/` and behind one leading `/`; empty where
/// that join is empty.
pub open spec fn normalized_path(path: Seq<char>, encode: bool) -> Seq<char> {
    let kept = kept_segments(path);
    let joined = join(
        if encode {
            encoded_segments(kept)
        } else {
            kept
        },
        "/"@,
    );
    if joined.len() == 0 {
        Seq::empty()
    } else {
        "/"@ + joined
    }
}

/// The form of a stored path: empty, or a `/` and at least one character
/// more.
pub open spec fn is_rooted(path: Seq<char>) -> bool {
    path.len() == 0 || (path.len() >= 2 && path[0] == '/')
}

/// Normalizing always gives a path in the stored form: empty, or beginning
/// with `/` and longer than that.
pub proof fn lemma_normalized_path_is_rooted(path: Seq<char>, encode: bool)
    ensures
        is_rooted(normalized_path(path, encode)),
{
    reveal_strlit("/");
}

/// A path in the stored form is left as it is when it is normalized without
/// encoding.
pub proof fn lemma_stored_path_is_kept(path: Seq<char>)
    requires
        is_rooted(path),
    ensures
        normalized_path(path, false) == path,
{
    reveal_strlit("/");
    assert("/"@ == seq!['/']);
    if path.len() == 0 {
        lemma_first_index_is(path, '/', 0);
    } else {
        lemma_first_index_is(path, '/', 0);
        let rest = path.skip(1);
        assert(kept_segments(path) == split(rest, '/'));
        lemma_join_split(rest, '/');
    }
}

/// Puts `path` into the form in which a locator stores it.
pub fn normalize_path(path: &str, encode: bool) -> (r: String)
    ensures
        r@ == normalized_path(path@, encode),
{
    let pieces = split_text(path, '/');
    let ghost kept = kept_segments(path@);
    let first: usize = if pieces[0].as_str().is_empty() {
        1
    } else {
        0
    };
    let mut segments: Vec<String> = Vec::new();
    let mut i: usize = first;
    let ghost wanted = if encode {
        encoded_segments(kept)
    } else {
        kept
    };
    while i < pieces.len()
        invariant
            first <= i <= pieces.len(),
            kept == texts(pieces@).skip(first as int),
            wanted == if encode {
                encoded_segments(kept)
            } else {
                kept
            },
            texts(segments@) == wanted.take(i - first),
        decreases pieces.len() - i,
    {
        let p = if encode {
            percent_encode(pieces[i].as_str())
        } else {
            pieces[i].clone()
        };
        proof {
            assert(texts(segments@.push(p)) == wanted.take(i - first).push(p@));
        }
        segments.push(p);
        i = i + 1;
    }
    assert(wanted.take(wanted.len() as int) == wanted);
    let joined = join_text(&segments, "/");
    if joined.as_str().is_empty() {
        String::new()
    } else {
        let mut out = String::from_str("/");
        out.append(joined.as_str());
        out
    }
}

} // verus!
