//! Shared vocabulary for views: how optional texts, lists of texts and lists
//! of records are seen in contracts, and copies that keep those views.

use vstd::prelude::*;
use crate::text::texts;

verus! {

/// The view of an optional string.
pub open spec fn opt_text(o: Option<String>) -> Option<Seq<char>> {
    match o {
        Some(s) => Some(s@),
        None => None,
    }
}

/// The view of an optional record.
pub open spec fn opt_view<T: View>(o: Option<T>) -> Option<T::V> {
    match o {
        Some(t) => Some(t@),
        None => None,
    }
}

/// The views of a sequence of records, in order.
pub open spec fn views<T: View>(items: Seq<T>) -> Seq<T::V> {
    Seq::new(items.len(), |i: int| items[i]@)
}

/// Every copy that `T::clone` may return has the view of its source.
pub open spec fn clone_keeps_view<T: Clone + View>() -> bool {
    forall|a: T, b: T| #[trigger] cloned::<T>(a, b) ==> b@ == a@
}

/// The views of a sequence with one more item are the views of the sequence
/// with the item's view added.
pub proof fn lemma_views_push<T: View>(items: Seq<T>, last: T)
    ensures
        views(items.push(last)) == views(items).push(last@),
{
}

/// The texts of a sequence with one more string are the texts of the sequence
/// with the string's text added.
pub proof fn lemma_texts_push(items: Seq<String>, last: String)
    ensures
        texts(items.push(last)) == texts(items).push(last@),
{
}

/// A copy of an optional string.
pub fn clone_opt_text(o: &Option<String>) -> (r: Option<String>)
    ensures
        opt_text(r) == opt_text(*o),
{
    match o {
        Some(s) => Some(s.clone()),
        None => None,
    }
}

/// A copy of a list of strings.
pub fn clone_texts(v: &Vec<String>) -> (r: Vec<String>)
    ensures
        texts(r@) == texts(v@),
{
    let mut out: Vec<String> = Vec::new();
    let mut i: usize = 0;
    while i < v.len()
        invariant
            i <= v.len(),
            out@.len() == i,
            forall|k: int| 0 <= k < i ==> out@[k]@ == v@[k]@,
        decreases v.len() - i,
    {
        out.push(v[i].clone());
        i = i + 1;
    }
    out
}

/// A copy of a list of records.
pub fn clone_views<T: Clone + View>(v: &Vec<T>) -> (r: Vec<T>)
    requires
        clone_keeps_view::<T>(),
    ensures
        views(r@) == views(v@),
{
    let mut out: Vec<T> = Vec::new();
    let mut i: usize = 0;
    while i < v.len()
        invariant
            i <= v.len(),
            out@.len() == i,
            clone_keeps_view::<T>(),
            forall|k: int| 0 <= k < i ==> out@[k]@ == v@[k]@,
        decreases v.len() - i,
    {
        let item = v[i].clone();
        assert(cloned::<T>(v@[i as int], item));
        out.push(item);
        i = i + 1;
    }
    out
}

/// A copy of an optional record.
pub fn clone_opt_view<T: Clone + View>(o: &Option<T>) -> (r: Option<T>)
    requires
        clone_keeps_view::<T>(),
    ensures
        opt_view(r) == opt_view(*o),
{
    match o {
        Some(t) => {
            let c = t.clone();
            assert(cloned::<T>(*t, c));
            Some(c)
        },
        None => None,
    }
}

} // verus!
