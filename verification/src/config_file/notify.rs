//! Routing of desktop notifications: an installed recording stub takes
//! them; otherwise they go to the desktop notification service.

use vstd::prelude::*;

verus! {

/// Where notifications go: the installed stub, if any.
pub struct NotifierSlot<F> {
    pub stub: Option<F>,
}

impl<F> NotifierSlot<F> {
    /// A slot with no stub installed.
    pub fn new() -> (r: Self)
        ensures
            r.stub is None,
    {
        NotifierSlot { stub: None }
    }
}

/// Installs a notifier that receives (summary, body) pairs in place of
/// the desktop service, replacing any stub installed before.
pub fn install_test_notifier<F: Fn(&str, &str)>(slot: &mut NotifierSlot<F>, f: F)
    ensures
        final(slot).stub == Some(f),
{
    slot.stub = Some(f);
}

/// Removes any installed stub; later notifications go to the desktop
/// service.
pub fn clear_test_notifier<F>(slot: &mut NotifierSlot<F>)
    ensures
        final(slot).stub is None,
{
    slot.stub = None;
}

/// Hands a notification to the installed stub. Returns whether a stub took
/// it; when it returns `false` the caller sends it to the desktop service.
pub fn notify_user<F: Fn(&str, &str)>(slot: &NotifierSlot<F>, summary: &str, body: &str) -> (r:
    bool)
    requires
        slot.stub matches Some(f) ==> f.requires((summary, body)),
    ensures
        r == slot.stub is Some,
        slot.stub matches Some(f) ==> f.ensures((summary, body), ()),
{
    match &slot.stub {
        Some(f) => {
            f(summary, body);
            true
        },
        None => false,
    }
}

} // verus!
