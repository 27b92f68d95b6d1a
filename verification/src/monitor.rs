//! Which outputs get a dock window.

use vstd::prelude::*;
use crate::text::str_equal;

verus! {

/// The outputs that get a dock: only the configured one when it is set
/// and connected, else every connected output. The flag tells whether a
/// configured output was not found (reported, then all are used).
pub fn select_outputs<M>(outputs: Vec<(String, M)>, target: &str) -> (r: (Vec<(String, M)>, bool))
    ensures
        target@.len() == 0 ==> r.0@ == outputs@ && !r.1,
        target@.len() > 0 && (exists|i: int| 0 <= i < outputs@.len() && #[trigger] outputs@[i].0@
            == target@) ==> !r.1 && r.0@.len() == 1 && r.0@[0].0@ == target@ && exists|i: int|
            0 <= i < outputs@.len() && outputs@[i] == #[trigger] r.0@[0],
        target@.len() > 0 && !(exists|i: int| 0 <= i < outputs@.len() && #[trigger] outputs@[i].0@
            == target@) ==> r.1 && r.0@ == outputs@,
{
    if target.unicode_len() == 0 {
        return (outputs, false);
    }
    let mut i: usize = 0;
    while i < outputs.len()
        invariant
            i <= outputs@.len(),
            target@.len() > 0,
            forall|j: int| 0 <= j < i ==> #[trigger] outputs@[j].0@ != target@,
        decreases outputs.len() - i,
    {
        if str_equal(outputs[i].0.as_str(), target) {
            let mut outputs = outputs;
            let ghost all = outputs@;
            let chosen = outputs.swap_remove(i);
            assert(all[i as int] == chosen);
            return (vec![chosen], false);
        }
        i += 1;
    }
    (outputs, true)
}

} // verus!
