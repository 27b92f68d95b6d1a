//! Drag-to-reorder of pinned items: what a release does to the pinned
//! list. The pointer geometry (floating point) stays with the widgets.

use vstd::prelude::*;
use crate::text::{first_index, lemma_first_index};

verus! {

/// What releasing a drag does.
#[derive(Debug, Clone, Copy, PartialEq, Eq, Structural)]
pub enum DragOutcome {
    /// Released outside the dock: unpin the dragged item.
    Unpin { source_index: usize },
    /// Released at another position: move the item there.
    Reorder { source_index: usize, current_index: usize },
    /// Released where it started: nothing.
    Nothing,
}

/// Outside the dock unpins; a changed position reorders; otherwise
/// nothing.
pub fn finalize_outcome(outside: bool, source_index: usize, current_index: usize) -> (r: DragOutcome)
    ensures
        r == (if outside {
            DragOutcome::Unpin { source_index }
        } else if current_index != source_index {
            DragOutcome::Reorder { source_index, current_index }
        } else {
            DragOutcome::Nothing
        }),
{
    if outside {
        DragOutcome::Unpin { source_index }
    } else if current_index != source_index {
        DragOutcome::Reorder { source_index, current_index }
    } else {
        DragOutcome::Nothing
    }
}

/// Removes the pinned item at `source_index` (dragged off the dock) and
/// returns it; an index past the end changes nothing.
pub fn unpin_by_drag(pinned: &mut Vec<String>, source_index: usize) -> (r: Option<String>)
    ensures
        source_index < old(pinned)@.len() ==> r == Some(old(pinned)@[source_index as int])
            && final(pinned)@ == old(pinned)@.remove(source_index as int),
        source_index >= old(pinned)@.len() ==> r is None && final(pinned)@ == old(pinned)@,
{
    if source_index < pinned.len() {
        Some(pinned.remove(source_index))
    } else {
        None
    }
}

/// The pinned list after moving the item at `from` to position `to`
/// among the others (clamped to the end).
pub open spec fn moved<A>(s: Seq<A>, from: int, to: int) -> Seq<A> {
    let rest = s.remove(from);
    rest.insert(if to < rest.len() { to } else { rest.len() as int }, s[from])
}

/// Moves the dragged pinned item from `source_index` to `current_index`
/// (its position among the other items); returns whether anything moved
/// (nothing does for a source index past the end).
pub fn reorder_pinned(pinned: &mut Vec<String>, source_index: usize, current_index: usize) -> (r:
    bool)
    ensures
        r == (source_index < old(pinned)@.len()),
        r ==> final(pinned)@ == moved(old(pinned)@, source_index as int, current_index as int),
        !r ==> final(pinned)@ == old(pinned)@,
{
    if source_index >= pinned.len() {
        return false;
    }
    let item = pinned.remove(source_index);
    let insert_at = if current_index < pinned.len() { current_index } else { pinned.len() };
    pinned.insert(insert_at, item);
    true
}

/// The pinned indices of the shown pinned items other than the dragged one,
/// in dock order.
pub open spec fn other_shown(shown: Seq<usize>, source_index: usize) -> Seq<usize> {
    shown.filter(not_index(source_index))
}

/// The predicate "is not pinned index `source_index`".
pub open spec fn not_index(source_index: usize) -> spec_fn(usize) -> bool {
    |i: usize| i != source_index
}

/// Where pinned index `i` sits once the dragged item is taken out.
pub open spec fn index_without(i: int, source_index: int) -> int {
    if i > source_index {
        i - 1
    } else {
        i
    }
}

/// The pinned-list position a drop at on-screen slot `slot` means. `shown`
/// lists the pinned indices of the items on screen in dock order (items
/// hidden by `ignore-classes` are not on screen); `slot` counts the shown
/// items other than the dragged one. Dropping before the item at `slot`
/// puts the dragged item where that item is; dropping past the last one
/// puts it right after the last shown item; dropping at its own slot, or
/// with nothing else shown, leaves it where it is.
pub open spec fn drop_target(shown: Seq<usize>, source_index: usize, slot: usize) -> int {
    let others = other_shown(shown, source_index);
    if first_index(shown, source_index) < shown.len() && slot == first_index(shown, source_index) {
        source_index as int
    } else if slot < others.len() {
        index_without(others[slot as int] as int, source_index as int)
    } else if others.len() == 0 {
        source_index as int
    } else {
        index_without(others.last() as int, source_index as int) + 1
    }
}

/// Maps an on-screen drop slot to the pinned-list position it means, so a
/// reorder lands in the right place when some pinned items are hidden.
pub fn drop_target_index(shown: &[usize], source_index: usize, slot: usize) -> (r: usize)
    ensures
        r == drop_target(shown@, source_index, slot),
{
    let ghost keep = not_index(source_index);
    let mut others: Vec<usize> = Vec::new();
    let mut own: Option<usize> = None;
    let mut k: usize = 0;
    while k < shown.len()
        invariant
            k <= shown.len(),
            keep == not_index(source_index),
            others@ == shown@.take(k as int).filter(keep),
            own matches Some(p) ==> p < k && shown@[p as int] == source_index && forall|j: int|
                0 <= j < p ==> shown@[j] != source_index,
            own is None ==> forall|j: int| 0 <= j < k ==> shown@[j] != source_index,
        decreases shown.len() - k,
    {
        proof {
            crate::lemmas::lemma_filter_take_step(shown@, keep, k as int);
        }
        if shown[k] != source_index {
            others.push(shown[k]);
        } else if own.is_none() {
            own = Some(k);
        }
        k += 1;
    }
    assert(shown@.take(shown.len() as int) =~= shown@);
    assert(others@ == other_shown(shown@, source_index));
    proof {
        lemma_first_index(shown@, source_index);
    }
    let at_own_slot = match own {
        Some(p) => p == slot,
        None => false,
    };
    if at_own_slot {
        source_index
    } else if slot < others.len() {
        let t = others[slot];
        if t > source_index { t - 1 } else { t }
    } else if others.len() == 0 {
        source_index
    } else {
        let t = others[others.len() - 1];
        assert(others@.last() == t);
        proof {
            shown@.lemma_filter_pred(keep, (others.len() - 1) as int);
        }
        if t > source_index { t } else { t + 1 }
    }
}

/// Law: a reorder keeps every pinned item exactly once.
pub proof fn lemma_moved_is_permutation<A>(s: Seq<A>, from: int, to: int)
    requires
        0 <= from < s.len(),
        0 <= to,
    ensures
        moved(s, from, to).len() == s.len(),
        moved(s, from, to).to_multiset() == s.to_multiset(),
{
    broadcast use vstd::seq_lib::group_to_multiset_ensures;

    let rest = s.remove(from);
    let at = if to < rest.len() { to } else { rest.len() as int };
    assert(rest.to_multiset() == s.to_multiset().remove(s[from]));
    assert(rest.insert(at, s[from]).to_multiset() == rest.to_multiset().insert(s[from]));
    assert(s.to_multiset().count(s[from]) > 0) by {
        assert(s.contains(s[from]));
    }
    assert(rest.to_multiset().insert(s[from]) =~= s.to_multiset());
}

} // verus!
