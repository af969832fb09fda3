//! Choosing among competing decoding items: the rank by which the decoder
//! keeps one item per element, and the itertools grouping operations that the
//! decoder uses, with what their source shows of them.
use vstd::prelude::*;
use vstd::string::StringSliceAdditionalSpecFns;
use itertools::Itertools;

use crate::types::{item_views, DecodingItem, ItemView, Timestamp};

verus! {

/// The number of bytes of `b` other than '*'.
pub open spec fn count_unstarred(b: Seq<u8>) -> nat
    decreases b.len(),
{
    if b.len() == 0 {
        0
    } else {
        count_unstarred(b.drop_last()) + if b.last() != 0x2a {
            1nat
        } else {
            0nat
        }
    }
}

/// The byte length of the keys of an item once every '*' is removed (an
/// absent key counts as empty). Since '*' is a one-byte character, this is
/// the number of bytes of its UTF-8 encoding other than '*'.
pub open spec fn unstarred_key_len(keys: Option<Seq<char>>) -> nat {
    match keys {
        Some(k) => count_unstarred(vstd::utf8::encode_utf8(k)),
        None => 0,
    }
}

/// The tie-breaking component of the rank: the negated unstarred key length,
/// or -100 when that length does not fit an `i8`. More specific keys (longer)
/// rank lower.
pub open spec fn key_len_rank(keys: Option<Seq<char>>) -> i8 {
    let n = unstarred_key_len(keys);
    if n <= 127 {
        (-n) as i8
    } else {
        -100i8
    }
}

/// The timestamp as an ordered pair of integers.
pub open spec fn time_pair(t: Option<Timestamp>) -> Option<(i64, u32)> {
    match t {
        Some(x) => Some((x.secs, x.nanos)),
        None => None,
    }
}

/// The rank of an item among the items of its element: priority first, then
/// creation time, then the key-length component.
pub open spec fn rank_of(v: ItemView) -> (Option<i32>, Option<(i64, u32)>, i8) {
    (v.priority, time_pair(v.created_on), key_len_rank(v.keys))
}

/// `a < b` for optional integers, as `Option`'s order has it (`None` first).
pub open spec fn opt_int_lt(a: Option<i32>, b: Option<i32>) -> bool {
    match (a, b) {
        (None, Some(_)) => true,
        (Some(x), Some(y)) => x < y,
        _ => false,
    }
}

/// `a < b` for optional pairs, as the order of `Option` and of tuples has it.
pub open spec fn opt_pair_lt(a: Option<(i64, u32)>, b: Option<(i64, u32)>) -> bool {
    match (a, b) {
        (None, Some(_)) => true,
        (Some(x), Some(y)) => x.0 < y.0 || (x.0 == y.0 && x.1 < y.1),
        _ => false,
    }
}

/// `a < b` for ranks: the lexicographic order of the tuple.
pub open spec fn rank_lt(
    a: (Option<i32>, Option<(i64, u32)>, i8),
    b: (Option<i32>, Option<(i64, u32)>, i8),
) -> bool {
    ||| opt_int_lt(a.0, b.0)
    ||| (a.0 == b.0 && opt_pair_lt(a.1, b.1))
    ||| (a.0 == b.0 && a.1 == b.1 && a.2 < b.2)
}

/// Item `j` is the one that `max_by_key` keeps for its element: no item of the
/// same element ranks higher, and none after it ranks as high (ties go to the
/// last).
pub open spec fn is_kept_in_group(s: Seq<ItemView>, j: int) -> bool {
    &&& 0 <= j < s.len()
    &&& forall|i: int|
        #![trigger s[i]]
        0 <= i < s.len() && s[i].element_id == s[j].element_id ==> {
            &&& !rank_lt(rank_of(s[j]), rank_of(s[i]))
            &&& (i > j ==> rank_lt(rank_of(s[i]), rank_of(s[j])))
        }
}

/// `out` holds, in some order, exactly the kept item of each element that
/// occurs in `src`.
pub open spec fn is_best_per_element(out: Seq<ItemView>, src: Seq<ItemView>) -> bool {
    &&& forall|k: int|
        #![trigger out[k]]
        0 <= k < out.len() ==> exists|j: int| #[trigger] is_kept_in_group(src, j) && out[k] == src[j]
    &&& forall|k1: int, k2: int|
        #![trigger out[k1], out[k2]]
        0 <= k1 < out.len() && 0 <= k2 < out.len() && k1 != k2 ==> out[k1].element_id
            != out[k2].element_id
    &&& forall|i: int|
        #![trigger src[i]]
        0 <= i < src.len() ==> exists|k: int|
            0 <= k < out.len() && (#[trigger] out[k]).element_id == src[i].element_id
}

/// The rank of an item.
pub fn item_rank(d: &DecodingItem) -> (r: (Option<i32>, Option<(i64, u32)>, i8))
    ensures
        r == rank_of(d@),
{
    let t = match d.created_on {
        Some(x) => Some((x.secs, x.nanos)),
        None => None,
    };
    let n = match &d.keys {
        Some(k) => {
            let b = k.as_str().as_bytes();
            let mut c: usize = 0;
            let mut i: usize = 0;
            while i < b.len()
                invariant
                    i <= b.len(),
                    c == count_unstarred(b@.take(i as int)),
                    c <= i,
                decreases b.len() - i,
            {
                assert(b@.take(i as int + 1).drop_last() == b@.take(i as int));
                if b[i] != 0x2au8 {
                    c = c + 1;
                }
                i = i + 1;
            }
            assert(b@.take(b.len() as int) == b@);
            c
        },
        None => 0,
    };
    let k: i8 = if n <= 127 {
        -(n as i8)
    } else {
        -100
    };
    (d.priority, t, k)
}

/// Groups the items by element with itertools' `into_grouping_map_by` and
/// keeps, in each group, the item that `max_by_key` picks for the rank
/// computed by `item_rank`: per itertools' source, the maximum, and the last
/// one among equal maxima. The groups come out of a `HashMap`, so their order
/// is left open.
#[verifier::external_body]
pub(crate) fn best_per_element(items: Vec<DecodingItem>) -> (r: Vec<DecodingItem>)
    ensures
        is_best_per_element(item_views(r@), item_views(items@)),
{
    items
        .into_iter()
        .into_grouping_map_by(|d| d.element_id)
        .max_by_key(|_key, d| item_rank(d))
        .into_values()
        .collect()
}

/// Index `j` of `cands` holds the smallest rank, and no earlier entry holds
/// the same rank.
pub open spec fn is_first_least(cands: Seq<(usize, i32)>, j: int) -> bool {
    &&& 0 <= j < cands.len()
    &&& forall|i: int| 0 <= i < cands.len() ==> #[trigger] cands[i].1 >= cands[j].1
    &&& forall|i: int| 0 <= i < j ==> #[trigger] cands[i].1 > cands[j].1
}

/// Sorts the candidates by their rank with itertools' `sorted_by_key` (a
/// stable sort) and returns the index carried by the first one: the earliest
/// candidate of least rank; `None` when there is no candidate.
#[verifier::external_body]
pub(crate) fn first_least_ranked(cands: Vec<(usize, i32)>) -> (r: Option<usize>)
    ensures
        r is None <==> cands@.len() == 0,
        r matches Some(x) ==> exists|j: int| #[trigger] is_first_least(cands@, j) && x == cands@[j].0,
{
    cands.into_iter().sorted_by_key(|c| c.1).next().map(|c| c.0)
}

/// Groups the entries by their second component with itertools'
/// `into_group_map_by`: one group per distinct key, holding the entries with
/// that key in the order they came in. The groups come out of a `HashMap`, so
/// their order is left open.
#[verifier::external_body]
pub(crate) fn group_by_pattern(entries: Vec<(usize, Option<i32>)>) -> (r: Vec<
    (Option<i32>, Vec<(usize, Option<i32>)>),
>)
    ensures
        forall|g1: int, g2: int|
            0 <= g1 < r@.len() && 0 <= g2 < r@.len() && g1 != g2 ==> (#[trigger] r@[g1]).0 != (
            #[trigger] r@[g2]).0,
        forall|g: int|
            0 <= g < r@.len() ==> (#[trigger] r@[g]).1@ == entries@.filter(
                |e: (usize, Option<i32>)| e.1 == r@[g].0,
            ),
        forall|g: int| 0 <= g < r@.len() ==> (#[trigger] r@[g]).1@.len() > 0,
        forall|i: int|
            0 <= i < entries@.len() ==> exists|g: int|
                0 <= g < r@.len() && (#[trigger] r@[g]).0 == (#[trigger] entries@[i]).1,
{
    entries.into_iter().into_group_map_by(|e| e.1).into_iter().collect()
}

/// `try_len` of itertools' `dedup` over the first components of the group.
/// Per itertools' source, `dedup` reports an exact size hint only for fewer
/// than two items, so this is the length for groups of at most one entry and
/// `None` otherwise.
#[verifier::external_body]
pub(crate) fn dedup_exact_len(group: &Vec<(usize, Option<i32>)>) -> (r: Option<usize>)
    ensures
        r == if group@.len() <= 1 {
            Some(group@.len() as usize)
        } else {
            None::<usize>
        },
{
    group.iter().map(|x| x.0).dedup().try_len().ok()
}

} // verus!
