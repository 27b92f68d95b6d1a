//! The launch bounce: starting an animation for an app, and ending the
//! animations whose app got a new window.

use vstd::prelude::*;
use crate::compositor::WmClient;
use crate::state::{is_snapshot_of, same_except_launches, DockState};
use crate::text::{to_lowercase, unicode_lowercase};
use crate::ui::dock_box::instances_of;

verus! {

/// Longest a launch bounce runs without a new window, in seconds.
pub const LAUNCH_ANIMATION_TIMEOUT_SECS: u64 = 10;

/// Prepares a launch animation for `app_id`: returns the lowercased app
/// id, how many windows it has now, and the timer of a launch of the same
/// app still in flight (its tracking is dropped; the caller cancels the
/// timer, then starts a new one and records it with `start_launch`).
pub fn prepare_launch<H>(state: &mut DockState<H>, app_id: &str) -> (r: (String, usize, Option<H>))
    ensures
        same_except_launches(*final(state), *old(state)),
        final(state).clients == old(state).clients,
        r.0@ == unicode_lowercase(app_id@),
        r.1 == instances_of(
            old(state).clients@,
            r.0@,
            old(state).wm_class_to_desktop_id.table(),
        ).len(),
        final(state).launching.table() == old(state).launching.table().remove(r.0@),
        r.2 == (if old(state).launching.table().contains_key(r.0@) {
            Some(old(state).launching.table()[r.0@].1)
        } else {
            None
        }),
{
    let id = to_lowercase(app_id);
    let count = state.task_instances(id.as_str()).len();
    let displaced = match state.cancel_launch(id.as_str()) {
        Some((_, timer)) => Some(timer),
        None => None,
    };
    (id, count, displaced)
}

/// The app `k` of the launch table has more windows now than when its
/// launch started.
pub open spec fn launch_grown<H>(
    table: Map<Seq<char>, (usize, H)>,
    clients: Seq<WmClient>,
    wm_map: Map<Seq<char>, String>,
    k: Seq<char>,
) -> bool {
    table[k].0 < instances_of(clients, k, wm_map).len()
}

/// `h` is the timer of a launch whose app has more windows than at launch.
pub open spec fn is_grown_timer<H>(
    table: Map<Seq<char>, (usize, H)>,
    clients: Seq<WmClient>,
    wm_map: Map<Seq<char>, String>,
    h: H,
) -> bool {
    exists|k: Seq<char>|
        table.contains_key(k) && launch_grown(table, clients, wm_map, k) && table[k].1 == h
}

/// Ends the launch animations whose app has more windows than at launch.
/// Returns whether any ended, and their timers for the caller to cancel.
pub fn cancel_matched<H>(state: &mut DockState<H>) -> (r: (bool, Vec<H>))
    ensures
        same_except_launches(*final(state), *old(state)),
        final(state).launching.table() == old(state).launching.table().restrict(
            Set::new(
                |k: Seq<char>|
                    !launch_grown(
                        old(state).launching.table(),
                        old(state).clients@,
                        old(state).wm_class_to_desktop_id.table(),
                        k,
                    ),
            ),
        ),
        r.0 == exists|k: Seq<char>|
            old(state).launching.table().contains_key(k) && launch_grown(
                old(state).launching.table(),
                old(state).clients@,
                old(state).wm_class_to_desktop_id.table(),
                k,
            ),
        forall|i: int|
            0 <= i < r.1@.len() ==> is_grown_timer(
                old(state).launching.table(),
                old(state).clients@,
                old(state).wm_class_to_desktop_id.table(),
                #[trigger] r.1@[i],
            ),
{
    let ghost t0 = state.launching.table();
    let ghost clients = state.clients@;
    let ghost wm = state.wm_class_to_desktop_id.table();
    let ghost grown = |k: Seq<char>| launch_grown(t0, clients, wm, k);
    let mut timers: Vec<H> = Vec::new();
    if state.launching_is_empty() {
        assert(t0.restrict(Set::new(|k: Seq<char>| !grown(k))) =~= t0);
        return (false, timers);
    }
    let snapshot = state.launching_snapshot();
    let mut cancelled = false;
    let mut j: usize = 0;
    while j < snapshot.len()
        invariant
            j <= snapshot@.len(),
            is_snapshot_of(snapshot@, t0),
            grown == (|k: Seq<char>| launch_grown(t0, clients, wm, k)),
            same_except_launches(*state, *old(state)),
            clients == state.clients@,
            clients == old(state).clients@,
            wm == state.wm_class_to_desktop_id.table(),
            t0 == old(state).launching.table(),
            forall|k: Seq<char>|
                #[trigger] state.launching.table().contains_key(k) <==> (t0.contains_key(k) && !(
                exists|i: int| 0 <= i < j && snapshot@[i].0@ == k && grown(k))),
            forall|k: Seq<char>|
                #[trigger] state.launching.table().contains_key(k) ==> state.launching.table()[k]
                    == t0[k],
            cancelled == exists|i: int| 0 <= i < j && #[trigger] grown(snapshot@[i].0@),
            forall|i: int| 0 <= i < timers@.len() ==> is_grown_timer(t0, clients, wm, #[trigger] timers@[i]),
        decreases snapshot.len() - j,
    {
        let id = &snapshot[j].0;
        let launch_count = snapshot[j].1;
        let current = state.task_instances(id.as_str()).len();
        let ghost k = id@;
        assert(snapshot@[j as int].0@ == k);
        assert(t0.contains_key(snapshot@[j as int].0@));
        assert(t0.contains_key(k) && t0[k].0 == launch_count);
        let ghost before = state.launching.table();
        if current > launch_count {
            assert(grown(k));
            let ghost no_earlier = !exists|i: int| 0 <= i < j && snapshot@[i].0@ == k;
            match state.cancel_launch(id.as_str()) {
                Some((_, timer)) => {
                    proof {
                        assert(before.contains_key(k));
                        assert(t0[k].1 == timer);
                    }
                    let ghost tb = timers@;
                    timers.push(timer);
                    assert forall|i: int| 0 <= i < timers@.len() implies is_grown_timer(
                        t0,
                        clients,
                        wm,
                        #[trigger] timers@[i],
                    ) by {
                        if i < tb.len() {
                            assert(timers@[i] == tb[i]);
                        } else {
                            assert(t0.contains_key(k) && launch_grown(t0, clients, wm, k) && t0[k].1
                                == timers@[i]);
                        }
                    }
                },
                None => {},
            }
            cancelled = true;
            assert(grown(snapshot@[j as int].0@));
        } else {
            assert(!grown(k));
        }
        proof {
            assert forall|kk: Seq<char>|
                #[trigger] state.launching.table().contains_key(kk) <==> (t0.contains_key(kk) && !(
                exists|i: int| 0 <= i < j + 1 && snapshot@[i].0@ == kk && grown(kk))) by {
                if exists|i: int| 0 <= i < j + 1 && snapshot@[i].0@ == kk && grown(kk) {
                    let i = choose|i: int| 0 <= i < j + 1 && snapshot@[i].0@ == kk && grown(kk);
                    if i == j {
                        assert(kk == k);
                    }
                }
                if kk == k && grown(k) {
                    assert(snapshot@[j as int].0@ == kk);
                }
            }
        }
        j += 1;
    }
    proof {
        let kept = Set::new(|k: Seq<char>| !grown(k));
        assert forall|k: Seq<char>|
            #[trigger] state.launching.table().contains_key(k) <==> t0.restrict(kept).contains_key(k) by {
            if t0.contains_key(k) {
                let i = choose|i: int| 0 <= i < snapshot@.len() && snapshot@[i].0@ == k;
                assert(snapshot@[i].0@ == k);
            }
        }
        assert(state.launching.table() =~= t0.restrict(kept));
        if exists|k: Seq<char>| t0.contains_key(k) && grown(k) {
            let k = choose|k: Seq<char>| t0.contains_key(k) && grown(k);
            let i = choose|i: int| 0 <= i < snapshot@.len() && snapshot@[i].0@ == k;
            assert(grown(snapshot@[i].0@));
        }
        if cancelled {
            let i = choose|i: int| 0 <= i < snapshot@.len() && #[trigger] grown(snapshot@[i].0@);
            assert(t0.contains_key(snapshot@[i].0@));
        }
    }
    (cancelled, timers)
}

} // verus!
