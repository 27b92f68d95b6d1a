//! Per-monitor dock windows: which outputs gained or lost one when the
//! monitor set changes.

use vstd::prelude::*;
use crate::text::{str_equal, string_views};
use crate::lemmas::lemma_filter_take_step;

verus! {

fn listed(names: &[String], name: &str) -> (r: bool)
    ensures
        r == string_views(names@).contains(name@),
{
    let ghost v = string_views(names@);
    let mut i: usize = 0;
    while i < names.len()
        invariant
            i <= names@.len(),
            v == string_views(names@),
            forall|j: int| 0 <= j < i ==> v[j] != name@,
        decreases names.len() - i,
    {
        assert(v[i as int] == names@[i as int]@);
        if str_equal(names[i].as_str(), name) {
            return true;
        }
        i += 1;
    }
    false
}

fn not_in(from: &[String], other: &[String]) -> (r: Vec<String>)
    ensures
        r@ == from@.filter(|n: String| !string_views(other@).contains(n@)),
{
    let ghost pred = |n: String| !string_views(other@).contains(n@);
    let mut out: Vec<String> = Vec::new();
    let mut i: usize = 0;
    proof {
        reveal(Seq::filter);
    }
    assert(from@.take(0) =~= Seq::<String>::empty());
    while i < from.len()
        invariant
            i <= from@.len(),
            pred == (|n: String| !string_views(other@).contains(n@)),
            out@ == from@.take(i as int).filter(pred),
        decreases from.len() - i,
    {
        proof {
            lemma_filter_take_step(from@, pred, i as int);
        }
        if !listed(other, from[i].as_str()) {
            out.push(from[i].clone());
        }
        i += 1;
    }
    assert(from@.take(from@.len() as int) =~= from@);
    out
}

/// Outputs to add (in `current`, not in `existing`) and to remove (in
/// `existing`, not in `current`), each in its list's order.
pub fn compute_monitor_diff(existing: &[String], current: &[String]) -> (r: (Vec<String>, Vec<String>))
    ensures
        r.0@ == current@.filter(|n: String| !string_views(existing@).contains(n@)),
        r.1@ == existing@.filter(|n: String| !string_views(current@).contains(n@)),
{
    (not_in(current, existing), not_in(existing, current))
}

} // verus!
