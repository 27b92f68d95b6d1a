//! Compositor events to smart rebuilds: draining the two event channels,
//! deciding whether the client list really changed, and deferring rebuilds
//! while a drag is in progress.

use vstd::prelude::*;
use std::sync::mpsc::{Receiver, TryRecvError};
use crate::text::{contains_str, has_substring};

verus! {

#[verifier::external_type_specification]
#[verifier::external_body]
#[verifier::reject_recursive_types(T)]
pub struct ExReceiver<T>(Receiver<T>);

/// What one non-blocking receive gave.
pub enum RecvOutcome<T> {
    Received(T),
    Empty,
    Disconnected,
}

/// One non-blocking receive: `Receiver::try_recv`, its two errors told
/// apart. Nothing is claimed of the outcome, which depends on the sending
/// thread.
#[verifier::external_body]
fn try_recv<T>(receiver: &Receiver<T>) -> RecvOutcome<T> {
    match receiver.try_recv() {
        Ok(v) => RecvOutcome::Received(v),
        Err(TryRecvError::Empty) => RecvOutcome::Empty,
        Err(TryRecvError::Disconnected) => RecvOutcome::Disconnected,
    }
}

/// Progress of a drain after one receive.
#[derive(Debug, PartialEq, Eq, Structural)]
pub enum DrainStep {
    /// An item arrived; keep draining.
    Continue { changed: bool },
    /// The channel is empty or disconnected; stop.
    Finished { changed: bool, disconnected: bool },
}

/// A window-event line is a real window change unless it holds `>>`
/// (compositor-internal layer and redirect lines).
pub open spec fn is_window_event(line: Seq<char>) -> bool {
    !has_substring(line, ">>"@)
}

/// One receive of a window-event drain: a real window event sets
/// `changed`; an empty or disconnected channel ends the drain.
pub fn window_drain_step(changed: bool, outcome: RecvOutcome<String>) -> (r: DrainStep)
    ensures
        r == (match outcome {
            RecvOutcome::Received(line) => DrainStep::Continue {
                changed: changed || is_window_event(line@),
            },
            RecvOutcome::Empty => DrainStep::Finished { changed, disconnected: false },
            RecvOutcome::Disconnected => DrainStep::Finished { changed, disconnected: true },
        }),
{
    match outcome {
        RecvOutcome::Received(line) => DrainStep::Continue {
            changed: changed || !contains_str(line.as_str(), ">>"),
        },
        RecvOutcome::Empty => DrainStep::Finished { changed, disconnected: false },
        RecvOutcome::Disconnected => DrainStep::Finished { changed, disconnected: true },
    }
}

/// One receive of a workspace-event drain: any event sets `changed`.
pub fn workspace_drain_step(changed: bool, outcome: RecvOutcome<()>) -> (r: DrainStep)
    ensures
        r == (match outcome {
            RecvOutcome::Received(_) => DrainStep::Continue { changed: true },
            RecvOutcome::Empty => DrainStep::Finished { changed, disconnected: false },
            RecvOutcome::Disconnected => DrainStep::Finished { changed, disconnected: true },
        }),
{
    match outcome {
        RecvOutcome::Received(_) => DrainStep::Continue { changed: true },
        RecvOutcome::Empty => DrainStep::Finished { changed, disconnected: false },
        RecvOutcome::Disconnected => DrainStep::Finished { changed, disconnected: true },
    }
}

/// `trace` is what one drain received: every receive but the last brought
/// an item, and the last found the channel empty or disconnected (or the
/// iteration bound was reached).
pub open spec fn is_drain_trace<T>(trace: Seq<RecvOutcome<T>>) -> bool {
    &&& trace.len() >= 1
    &&& forall|i: int| 0 <= i < trace.len() - 1 ==> #[trigger] trace[i] is Received
    &&& trace.last() is Received ==> trace.len() == u64::MAX
}

/// Some receive of `trace` brought an item.
pub open spec fn any_received<T>(trace: Seq<RecvOutcome<T>>) -> bool
    decreases trace.len(),
{
    if trace.len() == 0 {
        false
    } else {
        any_received(trace.drop_last()) || trace.last() is Received
    }
}

/// Some receive of `trace` brought a real window event.
pub open spec fn any_window_event(trace: Seq<RecvOutcome<String>>) -> bool
    decreases trace.len(),
{
    if trace.len() == 0 {
        false
    } else {
        any_window_event(trace.drop_last()) || (trace.last() matches RecvOutcome::Received(line)
            && is_window_event(line@))
    }
}

/// Drains the workspace-changed channel. Returns (at least one event
/// arrived, the channel is disconnected) and, as a ghost value, what the
/// receives brought. The drain stops at the first empty or disconnected
/// receive; the iteration bound is far beyond any number of events a poll
/// interval can hold. What the channel holds is up to the sending thread;
/// the result is stated over what was received.
pub fn drain_workspace_events(receiver: &Receiver<()>) -> (r: (bool, bool, Ghost<Seq<RecvOutcome<()>>>))
    ensures
        is_drain_trace(r.2@),
        r.0 == any_received(r.2@),
        r.1 == (r.2@.last() is Disconnected),
{
    let mut changed = false;
    let mut n: u64 = 0;
    let ghost mut trace: Seq<RecvOutcome<()>> = Seq::empty();
    while n < u64::MAX
        invariant
            trace.len() == n,
            forall|i: int| 0 <= i < trace.len() ==> #[trigger] trace[i] is Received,
            changed == any_received(trace),
        decreases u64::MAX - n,
    {
        let o = try_recv(receiver);
        let ghost og = o;
        proof {
            assert(trace.push(og).drop_last() =~= trace);
            trace = trace.push(og);
        }
        match workspace_drain_step(changed, o) {
            DrainStep::Continue { changed: c } => {
                changed = c;
            },
            DrainStep::Finished { changed: c, disconnected } => {
                return (c, disconnected, Ghost(trace));
            },
        }
        n += 1;
    }
    (changed, false, Ghost(trace))
}

/// Drains the window-event channel. Returns (at least one real window
/// event arrived, the channel is disconnected) and, as a ghost value, what
/// the receives brought. Events are not deduplicated by window id: a close
/// that follows a focus of the same window must still count. The
/// iteration bound is far beyond any number of events a poll interval can
/// hold. What the channel holds is up to the sending thread; the result is
/// stated over what was received.
pub fn drain_new_events(receiver: &Receiver<String>) -> (r: (bool, bool, Ghost<Seq<RecvOutcome<String>>>))
    ensures
        is_drain_trace(r.2@),
        r.0 == any_window_event(r.2@),
        r.1 == (r.2@.last() is Disconnected),
{
    let mut changed = false;
    let mut n: u64 = 0;
    let ghost mut trace: Seq<RecvOutcome<String>> = Seq::empty();
    while n < u64::MAX
        invariant
            trace.len() == n,
            forall|i: int| 0 <= i < trace.len() ==> #[trigger] trace[i] is Received,
            changed == any_window_event(trace),
        decreases u64::MAX - n,
    {
        let o = try_recv(receiver);
        let ghost og = o;
        proof {
            assert(trace.push(og).drop_last() =~= trace);
            trace = trace.push(og);
        }
        match window_drain_step(changed, o) {
            DrainStep::Continue { changed: c } => {
                changed = c;
            },
            DrainStep::Finished { changed: c, disconnected } => {
                return (c, disconnected, Ghost(trace));
            },
        }
        n += 1;
    }
    (changed, false, Ghost(trace))
}

/// Contents of a client snapshot: (id, class) pairs and the active id.
pub open spec fn snapshot_view(s: (Vec<(String, String)>, Option<String>)) -> (
    Seq<(Seq<char>, Seq<char>)>,
    Option<Seq<char>>,
) {
    (
        s.0@.map_values(|p: (String, String)| (p.0@, p.1@)),
        match s.1 {
            Some(a) => Some(a@),
            None => None,
        },
    )
}

fn strings_equal(a: &String, b: &String) -> (r: bool)
    ensures
        r == (a@ == b@),
{
    crate::text::str_equal(a.as_str(), b.as_str())
}

/// The client list or the active window changed between two snapshots:
/// (id, class) pairs are compared, not classes alone, so a window of the
/// same class closed and reopened within one poll still counts.
pub fn clients_changed(
    old: &(Vec<(String, String)>, Option<String>),
    new: &(Vec<(String, String)>, Option<String>),
) -> (r: bool)
    ensures
        r == (snapshot_view(*old) != snapshot_view(*new)),
{
    let ghost ov = snapshot_view(*old);
    let ghost nv = snapshot_view(*new);
    let active_same = match (&old.1, &new.1) {
        (Some(a), Some(b)) => strings_equal(a, b),
        (None, None) => true,
        _ => false,
    };
    if !active_same {
        assert(ov.1 != nv.1);
        return true;
    }
    if old.0.len() != new.0.len() {
        assert(ov.0.len() != nv.0.len());
        return true;
    }
    let mut i: usize = 0;
    while i < old.0.len()
        invariant
            i <= old.0@.len(),
            old.0@.len() == new.0@.len(),
            ov == snapshot_view(*old),
            nv == snapshot_view(*new),
            forall|j: int| 0 <= j < i ==> #[trigger] ov.0[j] == nv.0[j],
        decreases old.0.len() - i,
    {
        let same = strings_equal(&old.0[i].0, &new.0[i].0) && strings_equal(
            &old.0[i].1,
            &new.0[i].1,
        );
        assert(ov.0[i as int] == (old.0@[i as int].0@, old.0@[i as int].1@));
        assert(nv.0[i as int] == (new.0@[i as int].0@, new.0@[i as int].1@));
        if !same {
            return true;
        }
        i += 1;
    }
    assert(ov.0 =~= nv.0);
    false
}

/// Whether a poll rebuilds now, and the deferred-rebuild flag after it.
/// A change (client list or workspace) rebuilds at once unless a drag is
/// in progress, in which case it is deferred; with no change, a deferred
/// rebuild fires once the drag is over.
pub open spec fn poll_outcome(
    dragging: bool,
    client_changed: bool,
    workspace_changed: bool,
    pending: bool,
) -> (bool, bool) {
    if client_changed || workspace_changed {
        if dragging {
            (false, true)
        } else {
            (true, pending)
        }
    } else if !dragging && pending {
        (true, false)
    } else {
        (false, pending)
    }
}

/// Decides one poll: returns whether to rebuild now and updates the
/// deferred-rebuild flag.
pub fn poll_decision(
    dragging: bool,
    client_changed: bool,
    workspace_changed: bool,
    rebuild_pending: &mut bool,
) -> (r: bool)
    ensures
        (r, *final(rebuild_pending)) == poll_outcome(
            dragging,
            client_changed,
            workspace_changed,
            *old(rebuild_pending),
        ),
{
    if client_changed || workspace_changed {
        if dragging {
            *rebuild_pending = true;
            false
        } else {
            true
        }
    } else if !dragging && *rebuild_pending {
        *rebuild_pending = false;
        true
    } else {
        false
    }
}

/// Poll ticks between two reconnect attempts once the event thread died
/// (about three seconds at the poll cadence).
pub const RECONNECT_INTERVAL_TICKS: u32 = 30;

/// One poll tick of the reconnect back-off: with the event thread dead,
/// attempt a reconnect when the countdown is at zero (restarting it),
/// otherwise count down; with the thread alive, nothing happens.
pub fn reconnect_tick(thread_dead: bool, ticks_until_reconnect: &mut u32) -> (attempt: bool)
    ensures
        !thread_dead ==> !attempt && *final(ticks_until_reconnect) == *old(ticks_until_reconnect),
        thread_dead && *old(ticks_until_reconnect) == 0 ==> attempt && *final(ticks_until_reconnect)
            == RECONNECT_INTERVAL_TICKS,
        thread_dead && *old(ticks_until_reconnect) > 0 ==> !attempt && *final(ticks_until_reconnect)
            == *old(ticks_until_reconnect) - 1,
{
    if !thread_dead {
        return false;
    }
    if *ticks_until_reconnect == 0 {
        *ticks_until_reconnect = RECONNECT_INTERVAL_TICKS;
        true
    } else {
        *ticks_until_reconnect = *ticks_until_reconnect - 1;
        false
    }
}

/// Law: a change seen during a drag is never lost: it is deferred, and the
/// first poll after the drag (with no new change) rebuilds and clears the
/// flag.
pub proof fn lemma_deferred_rebuild_fires_after_drag(
    client_changed: bool,
    workspace_changed: bool,
    pending: bool,
)
    requires
        client_changed || workspace_changed,
    ensures
        poll_outcome(true, client_changed, workspace_changed, pending) == (false, true),
        poll_outcome(false, false, false, true) == (true, false),
{
}

/// Law: with no drag in progress, any change (client list or workspace)
/// rebuilds at once and leaves no rebuild deferred; during a drag nothing
/// rebuilds, and a change is kept for later; with no change and no drag a
/// deferred rebuild fires, and otherwise nothing happens.
pub proof fn lemma_poll_rebuilds_on_change(
    dragging: bool,
    client_changed: bool,
    workspace_changed: bool,
    pending: bool,
)
    ensures
        !dragging && (client_changed || workspace_changed) ==> poll_outcome(
            dragging,
            client_changed,
            workspace_changed,
            pending,
        ) == (true, pending),
        dragging ==> !poll_outcome(dragging, client_changed, workspace_changed, pending).0,
        dragging && (client_changed || workspace_changed) ==> poll_outcome(
            dragging,
            client_changed,
            workspace_changed,
            pending,
        ).1,
        dragging ==> (pending ==> poll_outcome(dragging, client_changed, workspace_changed, pending).1),
        !dragging && !client_changed && !workspace_changed ==> poll_outcome(
            dragging,
            client_changed,
            workspace_changed,
            pending,
        ) == (pending, false),
{
}

} // verus!
