//! The pinned-items list: membership ignoring surrounding whitespace and
//! ASCII case, pinning and unpinning.

use vstd::prelude::*;
use crate::lemmas::lemma_filter_take_step;
use crate::text::{eq_ignore_ascii_case, eq_ignore_case, string_views, trim, trim_str};

verus! {

/// `entry` names the item `id`: equal after trimming, ignoring ASCII case.
pub open spec fn names_item(entry: Seq<char>, id: Seq<char>) -> bool {
    eq_ignore_case(trim(entry), trim(id))
}

/// Some entry of `pinned` names the item `id`.
pub open spec fn pinned_contains(pinned: Seq<Seq<char>>, id: Seq<char>) -> bool {
    exists|i: int| 0 <= i < pinned.len() && names_item(#[trigger] pinned[i], id)
}

/// Whether `id` is pinned.
pub fn is_pinned(pinned: &[String], id: &str) -> (r: bool)
    ensures
        r == pinned_contains(string_views(pinned@), id@),
{
    let key = trim_str(id);
    let mut i: usize = 0;
    while i < pinned.len()
        invariant
            i <= pinned@.len(),
            key@ == trim(id@),
            forall|j: int| 0 <= j < i ==> !names_item(#[trigger] string_views(pinned@)[j], id@),
        decreases pinned.len() - i,
    {
        let entry = trim_str(pinned[i].as_str());
        assert(string_views(pinned@)[i as int] == pinned@[i as int]@);
        if eq_ignore_ascii_case(entry.as_str(), key.as_str()) {
            return true;
        }
        i += 1;
    }
    false
}

/// Pins `id` (trimmed) at the end unless it is already pinned.
pub fn pin_item(pinned: &mut Vec<String>, id: &str)
    ensures
        pinned_contains(string_views(old(pinned)@), id@) ==> final(pinned)@ == old(pinned)@,
        !pinned_contains(string_views(old(pinned)@), id@) ==> string_views(final(pinned)@)
            == string_views(old(pinned)@).push(trim(id@)),
{
    if !is_pinned(pinned.as_slice(), id) {
        let ghost before = pinned@;
        pinned.push(trim_str(id));
        assert(string_views(pinned@) =~= string_views(before).push(trim(id@)));
    }
}

/// Removes every entry naming `id`, keeping the others in order.
pub fn unpin_item(pinned: &mut Vec<String>, id: &str)
    ensures
        final(pinned)@ == old(pinned)@.filter(|p: String| !names_item(p@, id@)),
{
    let ghost pred = |p: String| !names_item(p@, id@);
    let ghost src = pinned@;
    let key = trim_str(id);
    let mut kept: Vec<String> = Vec::new();
    let mut i: usize = 0;
    proof {
        reveal(Seq::filter);
    }
    assert(src.take(0) =~= Seq::<String>::empty());
    while i < pinned.len()
        invariant
            pinned@ == src,
            i <= src.len(),
            key@ == trim(id@),
            pred == (|p: String| !names_item(p@, id@)),
            kept@ == src.take(i as int).filter(pred),
        decreases pinned.len() - i,
    {
        proof {
            lemma_filter_take_step(src, pred, i as int);
        }
        let entry = trim_str(pinned[i].as_str());
        if !eq_ignore_ascii_case(entry.as_str(), key.as_str()) {
            kept.push(pinned[i].clone());
        }
        i += 1;
    }
    assert(src.take(src.len() as int) =~= src);
    *pinned = kept;
}

} // verus!
