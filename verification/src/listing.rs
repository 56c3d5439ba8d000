//! The order of listings: newest first.
//!
//! Sessions, audit entries and consents are listed by a time stamp in
//! descending order; among records with equal stamps the one stored later
//! comes first.

use vstd::prelude::*;

verus! {

/// Where the record `i` goes in `order`: before the first position at or
/// after `from` whose record is not newer than it.
pub open spec fn place(order: Seq<usize>, keys: Seq<u64>, i: int, from: int) -> int
    decreases order.len() - from,
{
    if from < 0 || from >= order.len() {
        order.len() as int
    } else if keys[order[from] as int] <= keys[i] {
        from
    } else {
        place(order, keys, i, from + 1)
    }
}

/// The listing order of the first `upto` records, as positions into `keys`.
pub open spec fn listing(keys: Seq<u64>, upto: int) -> Seq<usize>
    decreases upto,
{
    if upto <= 0 {
        Seq::empty()
    } else {
        let before = listing(keys, upto - 1);
        before.insert(place(before, keys, upto - 1, 0), (upto - 1) as usize)
    }
}

/// Whether record `a` is listed before record `b`: it is newer, or as new
/// and stored later.
pub open spec fn listed_before(keys: Seq<u64>, a: int, b: int) -> bool {
    keys[a] > keys[b] || (keys[a] == keys[b] && a > b)
}

/// The place of a record lies behind every record with a later time stamp and
/// before one that is not later.
pub proof fn lemma_place_bounds(order: Seq<usize>, keys: Seq<u64>, i: int, from: int)
    requires
        0 <= from <= order.len(),
    ensures
        from <= place(order, keys, i, from) <= order.len(),
        forall|k: int| from <= k < place(order, keys, i, from) ==> keys[order[k] as int] > keys[i],
        place(order, keys, i, from) < order.len() ==> keys[order[place(order, keys, i, from)] as int]
            <= keys[i],
    decreases order.len() - from,
{
    if from < order.len() && !(keys[order[from] as int] <= keys[i]) {
        lemma_place_bounds(order, keys, i, from + 1);
    }
}

/// A listing names each of the first `upto` records once, newest first.
pub proof fn lemma_listing_is_descending(keys: Seq<u64>, upto: int)
    requires
        0 <= upto <= keys.len() <= usize::MAX,
    ensures
        listing(keys, upto).len() == upto,
        forall|k: int| 0 <= k < upto ==> 0 <= #[trigger] listing(keys, upto)[k] < upto,
        forall|j: int, k: int|
            0 <= j < k < upto ==> listed_before(
                keys,
                #[trigger] listing(keys, upto)[j] as int,
                #[trigger] listing(keys, upto)[k] as int,
            ),
    decreases upto,
{
    if upto > 0 {
        lemma_listing_is_descending(keys, upto - 1);
        lemma_place_bounds(listing(keys, upto - 1), keys, upto - 1, 0);
    }
}

/// The listing order of the records with the time stamps `keys`.
pub fn listing_order(keys: &Vec<u64>) -> (order: Vec<usize>)
    ensures
        order@ == listing(keys@, keys.len() as int),
        order.len() == keys.len(),
        forall|k: int| 0 <= k < order.len() ==> #[trigger] order@[k] < keys.len(),
{
    let mut order: Vec<usize> = Vec::new();
    let mut i: usize = 0;
    while i < keys.len()
        invariant
            i <= keys.len(),
            order@ == listing(keys@, i as int),
            order.len() == i,
            forall|k: int| 0 <= k < order.len() ==> #[trigger] order@[k] < i,
        decreases keys.len() - i,
    {
        let mut p: usize = 0;
        while p < order.len() && keys[order[p]] > keys[i]
            invariant
                p <= order.len(),
                i < keys.len(),
                forall|k: int| 0 <= k < order.len() ==> #[trigger] order@[k] < i,
                place(order@, keys@, i as int, 0) == place(order@, keys@, i as int, p as int),
            decreases order.len() - p,
        {
            p = p + 1;
        }
        order.insert(p, i);
        i = i + 1;
    }
    order
}

} // verus!
