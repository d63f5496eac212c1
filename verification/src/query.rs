//! The query of a URL as a list of name and value pairs in which a name may
//! occur any number of times: reading the values of a name, setting a name
//! to one value, removing a name, and the version that the name `v` carries.

use vstd::prelude::*;
use vstd::string::*;
use crate::error::{failure, Error, ErrorKind, Failure};
use crate::foreign::{form_urldecode, form_urldecoded, pair_texts, parse_url, url_parsed};
use crate::parts::or_empty;
use crate::text::{parse_u64, text_eq, text_to_u64, texts};

verus! {

/// The values of the pairs of `pairs` whose name is `key`, in order.
pub open spec fn values_of(pairs: Seq<(Seq<char>, Seq<char>)>, key: Seq<char>) -> Seq<Seq<char>>
    decreases pairs.len(),
{
    if pairs.len() == 0 {
        Seq::empty()
    } else if pairs.last().0 == key {
        values_of(pairs.drop_last(), key).push(pairs.last().1)
    } else {
        values_of(pairs.drop_last(), key)
    }
}

/// The first value of `key`, if it has one.
pub open spec fn first_value(pairs: Seq<(Seq<char>, Seq<char>)>, key: Seq<char>) -> Option<
    Seq<char>,
> {
    if values_of(pairs, key).len() == 0 {
        None
    } else {
        Some(values_of(pairs, key).first())
    }
}

/// The last value of `key`, if it has one.
pub open spec fn last_value(pairs: Seq<(Seq<char>, Seq<char>)>, key: Seq<char>) -> Option<
    Seq<char>,
> {
    if values_of(pairs, key).len() == 0 {
        None
    } else {
        Some(values_of(pairs, key).last())
    }
}

/// The pairs of `pairs` whose name is not `key`, in order.
pub open spec fn without_key(pairs: Seq<(Seq<char>, Seq<char>)>, key: Seq<char>) -> Seq<
    (Seq<char>, Seq<char>),
>
    decreases pairs.len(),
{
    if pairs.len() == 0 {
        Seq::empty()
    } else if pairs.last().0 == key {
        without_key(pairs.drop_last(), key)
    } else {
        without_key(pairs.drop_last(), key).push(pairs.last())
    }
}

/// Whether a pair of `pairs` has the name `key`.
pub open spec fn has_key(pairs: Seq<(Seq<char>, Seq<char>)>, key: Seq<char>) -> bool {
    exists|i: int| 0 <= i < pairs.len() && (#[trigger] pairs[i]).0 == key
}

/// The index of the first pair with the name `key`; the length if none has
/// it.
pub open spec fn first_key_index(pairs: Seq<(Seq<char>, Seq<char>)>, key: Seq<char>) -> int
    decreases pairs.len(),
{
    if pairs.len() == 0 {
        0
    } else if pairs[0].0 == key {
        0
    } else {
        1 + first_key_index(pairs.skip(1), key)
    }
}

/// The list after `key` was set to `value`, or removed where `value` is
/// absent. Set: the first pair named `key` now carries `value` and stands
/// where it stood, every later pair named `key` is gone, and where none was
/// there the new pair stands at the end. Removed: every pair named `key` is
/// gone. All other pairs keep their order.
pub open spec fn with_key_set(
    pairs: Seq<(Seq<char>, Seq<char>)>,
    key: Seq<char>,
    value: Option<Seq<char>>,
) -> Seq<(Seq<char>, Seq<char>)> {
    match value {
        None => without_key(pairs, key),
        Some(v) => {
            let i = first_key_index(pairs, key);
            if 0 <= i < pairs.len() {
                pairs.take(i) + seq![(key, v)] + without_key(pairs.skip(i + 1), key)
            } else {
                pairs.push((key, v))
            }
        },
    }
}

/// The first index of a name lies within the list or at its end, no pair
/// before it has the name, and the pair at it has the name where it lies
/// within.
pub proof fn lemma_first_key_index_bounds(pairs: Seq<(Seq<char>, Seq<char>)>, key: Seq<char>)
    ensures
        0 <= first_key_index(pairs, key) <= pairs.len(),
        first_key_index(pairs, key) < pairs.len() ==> pairs[first_key_index(pairs, key)].0 == key,
        forall|j: int| 0 <= j < first_key_index(pairs, key) ==> (#[trigger] pairs[j]).0 != key,
    decreases pairs.len(),
{
    if pairs.len() != 0 && pairs[0].0 != key {
        lemma_first_key_index_bounds(pairs.skip(1), key);
        let k = first_key_index(pairs.skip(1), key);
        assert forall|j: int| 0 <= j < 1 + k implies (#[trigger] pairs[j]).0 != key by {
            if j > 0 {
                assert(pairs.skip(1)[j - 1] == pairs[j]);
            }
        }
    }
}

/// The first index of a name is the position before which no pair has the
/// name and at which one has it, or the length if none has it.
pub proof fn lemma_first_key_index_is(pairs: Seq<(Seq<char>, Seq<char>)>, key: Seq<char>, i: int)
    requires
        0 <= i <= pairs.len(),
        forall|j: int| 0 <= j < i ==> (#[trigger] pairs[j]).0 != key,
        i < pairs.len() ==> pairs[i].0 == key,
    ensures
        first_key_index(pairs, key) == i,
{
    lemma_first_key_index_bounds(pairs, key);
}

/// The values of a name in two lists, one after the other.
pub proof fn lemma_values_of_concat(
    a: Seq<(Seq<char>, Seq<char>)>,
    b: Seq<(Seq<char>, Seq<char>)>,
    key: Seq<char>,
)
    ensures
        values_of(a + b, key) == values_of(a, key) + values_of(b, key),
    decreases b.len(),
{
    if b.len() != 0 {
        lemma_values_of_concat(a, b.drop_last(), key);
        assert((a + b).drop_last() == a + b.drop_last());
    }
}

/// What is left without a name, in two lists, one after the other.
pub proof fn lemma_without_key_concat(
    a: Seq<(Seq<char>, Seq<char>)>,
    b: Seq<(Seq<char>, Seq<char>)>,
    key: Seq<char>,
)
    ensures
        without_key(a + b, key) == without_key(a, key) + without_key(b, key),
    decreases b.len(),
{
    if b.len() != 0 {
        lemma_without_key_concat(a, b.drop_last(), key);
        assert((a + b).drop_last() == a + b.drop_last());
    }
}

/// A list in which no pair has the name `key` is unchanged without that
/// name, and holds no value for it.
pub proof fn lemma_absent_key(pairs: Seq<(Seq<char>, Seq<char>)>, key: Seq<char>)
    requires
        forall|j: int| 0 <= j < pairs.len() ==> (#[trigger] pairs[j]).0 != key,
    ensures
        without_key(pairs, key) == pairs,
        values_of(pairs, key) == Seq::<Seq<char>>::empty(),
    decreases pairs.len(),
{
    if pairs.len() != 0 {
        lemma_absent_key(pairs.drop_last(), key);
    }
}

/// What is left without a name holds no value for it, and every value of
/// every other name.
pub proof fn lemma_without_key_values(
    pairs: Seq<(Seq<char>, Seq<char>)>,
    key: Seq<char>,
    other: Seq<char>,
)
    ensures
        values_of(without_key(pairs, key), key) == Seq::<Seq<char>>::empty(),
        other != key ==> values_of(without_key(pairs, key), other) == values_of(pairs, other),
        without_key(without_key(pairs, key), key) == without_key(pairs, key),
    decreases pairs.len(),
{
    if pairs.len() != 0 {
        lemma_without_key_values(pairs.drop_last(), key, other);
        if pairs.last().0 != key {
            assert(without_key(pairs, key).drop_last() == without_key(pairs.drop_last(), key));
        }
    }
}

/// After a name was set to a value, that value is the only one it has.
pub proof fn lemma_set_key_values(
    pairs: Seq<(Seq<char>, Seq<char>)>,
    key: Seq<char>,
    value: Seq<char>,
)
    ensures
        values_of(with_key_set(pairs, key, Some(value)), key) == seq![value],
        first_value(with_key_set(pairs, key, Some(value)), key) == Some(value),
        last_value(with_key_set(pairs, key, Some(value)), key) == Some(value),
{
    lemma_first_key_index_bounds(pairs, key);
    let i = first_key_index(pairs, key);
    let one = seq![(key, value)];
    assert(values_of(one.drop_last(), key) == Seq::<Seq<char>>::empty());
    lemma_absent_key(pairs.take(i), key);
    if i < pairs.len() {
        let tail = without_key(pairs.skip(i + 1), key);
        lemma_without_key_values(pairs.skip(i + 1), key, key);
        lemma_values_of_concat(pairs.take(i), one, key);
        lemma_values_of_concat(pairs.take(i) + one, tail, key);
    } else {
        assert(pairs.take(i) == pairs);
        assert(pairs.push((key, value)) == pairs + one);
        lemma_values_of_concat(pairs, one, key);
    }
}

/// After a name was removed it has no value.
pub proof fn lemma_unset_key_values(pairs: Seq<(Seq<char>, Seq<char>)>, key: Seq<char>)
    ensures
        values_of(with_key_set(pairs, key, None), key) == Seq::<Seq<char>>::empty(),
        first_value(with_key_set(pairs, key, None), key) is None,
        last_value(with_key_set(pairs, key, None), key) is None,
{
    lemma_without_key_values(pairs, key, key);
}

/// Setting or removing a name leaves the pairs of all other names as they
/// were, in their order; so every other name keeps its values.
pub proof fn lemma_set_key_keeps_others(
    pairs: Seq<(Seq<char>, Seq<char>)>,
    key: Seq<char>,
    value: Option<Seq<char>>,
    other: Seq<char>,
)
    ensures
        without_key(with_key_set(pairs, key, value), key) == without_key(pairs, key),
        other != key ==> values_of(with_key_set(pairs, key, value), other) == values_of(
            pairs,
            other,
        ),
{
    lemma_without_key_values(pairs, key, other);
    match value {
        None => {},
        Some(v) => {
            lemma_first_key_index_bounds(pairs, key);
            let i = first_key_index(pairs, key);
            let one = seq![(key, v)];
            assert(one.drop_last() == Seq::<(Seq<char>, Seq<char>)>::empty());
            assert(without_key(one.drop_last(), key) == Seq::<(Seq<char>, Seq<char>)>::empty());
            assert(values_of(one.drop_last(), other) == Seq::<Seq<char>>::empty());
            if i < pairs.len() {
                let head = pairs.take(i);
                let rest = pairs.skip(i + 1);
                let tail = without_key(rest, key);
                let old_one = seq![pairs[i]];
                assert(old_one.drop_last() == Seq::<(Seq<char>, Seq<char>)>::empty());
                assert(pairs == head + old_one + rest);
                lemma_without_key_values(rest, key, other);
                lemma_without_key_concat(head, one, key);
                lemma_without_key_concat(head + one, tail, key);
                lemma_without_key_concat(head, old_one, key);
                lemma_without_key_concat(head + old_one, rest, key);
                lemma_values_of_concat(head, one, other);
                lemma_values_of_concat(head + one, tail, other);
                lemma_values_of_concat(head, old_one, other);
                lemma_values_of_concat(head + old_one, rest, other);
            } else {
                assert(pairs.push((key, v)) == pairs + one);
                lemma_without_key_concat(pairs, one, key);
                lemma_values_of_concat(pairs, one, other);
            }
        },
    }
}

/// Setting a name that the list holds puts the value where the name first
/// stood, and leaves what stood before it untouched.
pub proof fn lemma_set_key_position(
    pairs: Seq<(Seq<char>, Seq<char>)>,
    key: Seq<char>,
    value: Seq<char>,
)
    requires
        has_key(pairs, key),
    ensures
        first_key_index(pairs, key) < pairs.len(),
        with_key_set(pairs, key, Some(value))[first_key_index(pairs, key)] == (key, value),
        with_key_set(pairs, key, Some(value)).take(first_key_index(pairs, key)) == pairs.take(
            first_key_index(pairs, key),
        ),
        first_key_index(with_key_set(pairs, key, Some(value)), key) == first_key_index(pairs, key),
{
    lemma_first_key_index_bounds(pairs, key);
    let i = first_key_index(pairs, key);
    let r = with_key_set(pairs, key, Some(value));
    assert(forall|j: int| 0 <= j < i ==> (#[trigger] r[j]) == pairs[j]);
    lemma_first_key_index_is(r, key, i);
}

/// The message for a value of `v` that is no number.
pub open spec fn bad_version(value: Seq<char>) -> Failure {
    failure(
        ErrorKind::InvalidInput,
        "v"@ + " param could not be parsed as u64. invalid: '"@ + value + "'"@,
    )
}

/// The content version that a value of the name `v` stands for: none where
/// the name is absent, a failure where the value is no `u64` in decimal.
pub open spec fn version_of(value: Option<Seq<char>>) -> Result<Option<u64>, Failure> {
    match value {
        None => Ok(None),
        Some(s) => match parse_u64(s) {
            Some(n) => Ok(Some(n)),
            None => Err(bad_version(s)),
        },
    }
}

/// The content version that a list of pairs carries: what the last value of
/// the name `v` stands for.
pub open spec fn version_in(pairs: Seq<(Seq<char>, Seq<char>)>) -> Result<Option<u64>, Failure> {
    version_of(last_value(pairs, "v"@))
}

/// The pairs of the query `query`. The URL parser is given the query behind
/// `file://dummy?`, and the pairs are read from the query of the URL it
/// returns; there are none where it refuses that URL.
pub open spec fn pairs_of(query: Seq<char>) -> Option<Seq<(Seq<char>, Seq<char>)>> {
    match url_parsed("file://dummy?"@ + query) {
        Some(p) => Some(form_urldecoded(or_empty(p.query))),
        None => None,
    }
}

/// The pairs of `query`; none where the URL parser refuses it.
pub open spec fn pairs_or_none(query: Seq<char>) -> Seq<(Seq<char>, Seq<char>)> {
    match pairs_of(query) {
        Some(pairs) => pairs,
        None => Seq::empty(),
    }
}

/// The values of the name `key` in `pairs`, in order.
pub fn values_for_key(pairs: &Vec<(String, String)>, key: &str) -> (r: Vec<String>)
    ensures
        texts(r@) == values_of(pair_texts(pairs@), key@),
{
    let mut out: Vec<String> = Vec::new();
    let mut i: usize = 0;
    let ghost all = pair_texts(pairs@);
    while i < pairs.len()
        invariant
            i <= pairs.len(),
            all == pair_texts(pairs@),
            texts(out@) == values_of(all.take(i as int), key@),
        decreases pairs.len() - i,
    {
        assert(all.take(i + 1).drop_last() == all.take(i as int));
        if text_eq(pairs[i].0.as_str(), key) {
            out.push(pairs[i].1.clone());
        }
        i = i + 1;
    }
    assert(all.take(pairs.len() as int) == all);
    out
}

/// The list after `key` was set to `value`, or removed where `value` is
/// absent.
pub fn set_pair(pairs: &Vec<(String, String)>, key: &str, value: Option<&str>) -> (r: Vec<
    (String, String),
>)
    ensures
        pair_texts(r@) == with_key_set(
            pair_texts(pairs@),
            key@,
            match value {
                Some(v) => Some(v@),
                None => None,
            },
        ),
{
    let ghost all = pair_texts(pairs@);
    let mut out: Vec<(String, String)> = Vec::new();
    let mut placed_at: Option<usize> = None;
    let mut i: usize = 0;
    while i < pairs.len()
        invariant
            i <= pairs.len(),
            all == pair_texts(pairs@),
            value is None ==> placed_at is None && pair_texts(out@) == without_key(
                all.take(i as int),
                key@,
            ),
            value is Some && placed_at is None ==> pair_texts(out@) == all.take(i as int)
                && forall|j: int| 0 <= j < i ==> (#[trigger] all[j]).0 != key@,
            placed_at matches Some(f) ==> value is Some && f < i && all[f as int].0 == key@
                && (forall|j: int| 0 <= j < f ==> (#[trigger] all[j]).0 != key@) && pair_texts(
                out@,
            ) == all.take(f as int) + seq![(key@, value->0@)] + without_key(
                all.subrange(f + 1, i as int),
                key@,
            ),
        decreases pairs.len() - i,
    {
        let ghost before = pair_texts(out@);
        proof {
            assert(all.take(i + 1).drop_last() == all.take(i as int));
            if let Some(f) = placed_at {
                assert(all.subrange(f + 1, i + 1).drop_last() == all.subrange(f + 1, i as int));
            }
        }
        if text_eq(pairs[i].0.as_str(), key) {
            match value {
                Some(v) => {
                    if placed_at.is_none() {
                        out.push((String::from_str(key), String::from_str(v)));
                        placed_at = Some(i);
                    }
                },
                None => {},
            }
        } else {
            let p = (pairs[i].0.clone(), pairs[i].1.clone());
            assert(pair_texts(out@.push(p)) == before.push(all[i as int]));
            out.push(p);
        }
        i = i + 1;
    }
    proof {
        assert(all.take(pairs.len() as int) == all);
        match placed_at {
            Some(f) => {
                lemma_first_key_index_is(all, key@, f as int);
            },
            None => {
                if value is Some {
                    lemma_first_key_index_is(all, key@, all.len() as int);
                }
            },
        }
    }
    if placed_at.is_none() {
        match value {
            Some(v) => {
                out.push((String::from_str(key), String::from_str(v)));
            },
            None => {},
        }
    }
    out
}

/// The content version that the text `value` stands for.
pub fn version_of_text(value: Option<&str>) -> (r: Result<Option<u64>, Error>)
    ensures
        match version_of(
            match value {
                Some(v) => Some(v@),
                None => None,
            },
        ) {
            Ok(v) => r == Ok::<Option<u64>, Error>(v),
            Err(f) => r matches Err(e) && e.reports(f),
        },
{
    match value {
        None => Ok(None),
        Some(s) => match text_to_u64(s) {
            Some(n) => Ok(Some(n)),
            None => {
                let mut m = String::from_str("v");
                m.append(" param could not be parsed as u64. invalid: '");
                m.append(s);
                m.append("'");
                Err(Error::InvalidInput(m))
            },
        },
    }
}

/// The pairs of the query `query`, percent-decoded; nothing where the URL
/// parser refuses the query.
pub fn query_pairs_of(query: &str) -> (r: Option<Vec<(String, String)>>)
    ensures
        match r {
            Some(pairs) => pairs_of(query@) == Some(pair_texts(pairs@)),
            None => pairs_of(query@) is None,
        },
{
    let mut dummy = String::from_str("file://dummy?");
    dummy.append(query);
    match parse_url(dummy.as_str()) {
        Ok(p) => {
            let found = match p.query {
                Some(q) => q,
                None => String::new(),
            };
            Some(form_urldecode(found.as_str()))
        },
        Err(_) => None,
    }
}

} // verus!
