//! The dock's shared mutable state: configuration, windows, pinned items,
//! the drag lifecycle and the launch animations in flight.
//!
//! The drag fields and the launch table are private; every change goes
//! through methods that keep their invariants (see `DockState::wf`).

use vstd::prelude::*;
use crate::compositor::WmClient;
use crate::config::DockConfig;
use crate::keyed::{KeyedTable, keys_distinct};
use crate::lemmas::lemma_filter_take_step;
use crate::text::{eq_ignore_ascii_case, eq_ignore_case, hyphen_space_swap, hyphen_space_variant, str_equal};

verus! {

/// Names the dock matches a client against for the app `class`: the class
/// itself, its hyphen/space variant, and every window class that the
/// desktop-id map sends to `class`, all compared ignoring ASCII case.
pub open spec fn matches_query(name: Seq<char>, class: Seq<char>, wm_map: Map<Seq<char>, String>) -> bool {
    ||| eq_ignore_case(name, class)
    ||| (hyphen_space_swap(class) != class && eq_ignore_case(name, hyphen_space_swap(class)))
    ||| exists|k: Seq<char>|
        #[trigger] wm_map.contains_key(k) && eq_ignore_case(wm_map[k]@, class) && eq_ignore_case(
            name,
            k,
        )
}

/// The window belongs to the app `class`: by its class, or by its initial
/// class when it has one (child windows grouped under their parent app).
pub open spec fn is_instance_of(c: WmClient, class: Seq<char>, wm_map: Map<Seq<char>, String>) -> bool {
    matches_query(c.class@, class, wm_map) || (c.initial_class@.len() > 0 && matches_query(
        c.initial_class@,
        class,
        wm_map,
    ))
}

/// The client list's (id, class) pairs and the active window's id.
pub open spec fn snapshot_of(clients: Seq<WmClient>, active: Option<WmClient>) -> (
    Seq<(Seq<char>, Seq<char>)>,
    Option<Seq<char>>,
) {
    (
        clients.map_values(|c: WmClient| (c.id@, c.class@)),
        match active {
            Some(c) => Some(c.id@),
            None => None,
        },
    )
}

/// The drag lifecycle: press-down, movement threshold crossed (index
/// claimed), cursor outside the dock, release.
#[derive(Debug)]
pub struct DragState {
    pending: bool,
    source_index: Option<usize>,
    outside: bool,
}

impl DragState {
    /// A claimed index or an outside flag only during a press.
    #[verifier::type_invariant]
    spec fn coupled(self) -> bool {
        &&& (self.source_index is Some ==> self.pending)
        &&& (!self.pending ==> self.source_index is None && !self.outside)
    }

    /// A press is in progress (from press-down to release).
    pub closed spec fn pending_view(self) -> bool {
        self.pending
    }

    /// Index of the pinned item being dragged, once the movement threshold
    /// was crossed.
    pub closed spec fn index_view(self) -> Option<usize> {
        self.source_index
    }

    /// The cursor is outside the dock during a drag.
    pub closed spec fn outside_view(self) -> bool {
        self.outside
    }

    /// No press in progress.
    pub fn new() -> (r: Self)
        ensures
            !r.pending_view(),
            r.index_view() is None,
            !r.outside_view(),
    {
        DragState { pending: false, source_index: None, outside: false }
    }
}

/// Window, monitor, pinning, drag and launch state shared by the dock's
/// handlers. `H` is the handle type of the timers that end launch
/// animations.
#[derive(Debug)]
pub struct DockState<H> {
    /// Currently applied configuration.
    pub config: DockConfig,
    pub clients: Vec<WmClient>,
    pub active_client: Option<WmClient>,
    pub pinned: Vec<String>,
    /// Icon size after scaling down for many items.
    pub img_size_scaled: i32,
    /// A popover menu is open (prevents autohide).
    pub popover_open: bool,
    /// Drag-to-reorder is disabled.
    pub locked: bool,
    pub drag: DragState,
    /// A rebuild was needed during a drag and is deferred until it ends.
    pub rebuild_pending: bool,
    /// Window class to desktop id, for apps whose class differs from the
    /// desktop file stem.
    /// Keys are stored lowercased.
    pub wm_class_to_desktop_id: KeyedTable<String>,
    /// Launch animations in flight: app id to (instance count at launch,
    /// timer handle).
    pub launching: KeyedTable<(usize, H)>,
}

/// The fields of `a` and `b` other than the drag state agree, and so do
/// their launch tables.
pub open spec fn same_data<H>(a: DockState<H>, b: DockState<H>) -> bool {
    &&& a.config == b.config
    &&& a.clients == b.clients
    &&& a.active_client == b.active_client
    &&& a.pinned == b.pinned
    &&& a.img_size_scaled == b.img_size_scaled
    &&& a.popover_open == b.popover_open
    &&& a.locked == b.locked
    &&& a.rebuild_pending == b.rebuild_pending
    &&& a.wm_class_to_desktop_id.table() == b.wm_class_to_desktop_id.table()
    &&& a.launching.table() == b.launching.table()
}

/// The fields of `a` and `b` other than the launch table agree.
pub open spec fn same_except_launches<H>(a: DockState<H>, b: DockState<H>) -> bool {
    &&& a.config == b.config
    &&& a.clients == b.clients
    &&& a.active_client == b.active_client
    &&& a.pinned == b.pinned
    &&& a.img_size_scaled == b.img_size_scaled
    &&& a.popover_open == b.popover_open
    &&& a.locked == b.locked
    &&& a.rebuild_pending == b.rebuild_pending
    &&& a.wm_class_to_desktop_id.table() == b.wm_class_to_desktop_id.table()
    &&& a.drag == b.drag
}

fn name_matches(name: &str, class: &str, alt: &str, map: &KeyedTable<String>) -> (r: bool)
    requires
        alt@ == hyphen_space_swap(class@),
    ensures
        r == matches_query(name@, class@, map.table()),
{
    if eq_ignore_ascii_case(name, class) {
        return true;
    }
    if !str_equal(alt, class) && eq_ignore_ascii_case(name, alt) {
        return true;
    }
    let n = map.len();
    proof {
        map.lemma_entries();
    }
    let ghost es = map.entries_view();
    let mut j: usize = 0;
    while j < n
        invariant
            j <= n,
            n == es.len(),
            es == map.entries_view(),
            keys_distinct(es),
            forall|i: int|
                0 <= i < j ==> !(eq_ignore_case(#[trigger] es[i].1@, class@) && eq_ignore_case(
                    name@,
                    es[i].0@,
                )),
        decreases n - j,
    {
        let e = map.entry(j);
        if eq_ignore_ascii_case(e.1.as_str(), class) && eq_ignore_ascii_case(name, e.0.as_str()) {
            proof {
                map.lemma_entries();
                assert(map.table().contains_key(es[j as int].0@));
            }
            return true;
        }
        j += 1;
    }
    proof {
        map.lemma_entries();
        assert forall|k: Seq<char>|
            #[trigger] map.table().contains_key(k) implies !(eq_ignore_case(map.table()[k]@, class@)
            && eq_ignore_case(name@, k)) by {
            let i = choose|i: int| 0 <= i < es.len() && es[i].0@ == k;
            assert(map.table()[es[i].0@] == es[i].1);
        }
    }
    false
}

/// `snap` lists every entry of `table` as (app id, count), each once.
pub open spec fn is_snapshot_of<H>(snap: Seq<(String, usize)>, table: Map<Seq<char>, (usize, H)>) -> bool {
    &&& forall|i: int|
        0 <= i < snap.len() ==> #[trigger] table.contains_key(snap[i].0@) && table[snap[i].0@].0
            == snap[i].1
    &&& forall|k: Seq<char>|
        #[trigger] table.contains_key(k) ==> exists|i: int| 0 <= i < snap.len() && snap[i].0@ == k
    &&& forall|i: int, j: int|
        0 <= i < snap.len() && 0 <= j < snap.len() && i != j ==> #[trigger] snap[i].0@
            != #[trigger] snap[j].0@
}

impl<H> DockState<H> {
    /// A fresh state for `config`: no windows, nothing pinned, no drag, no
    /// launch animation, icons at their default scaled size.
    pub fn new(config: DockConfig) -> (r: Self)
        ensures
            r.config == config,
            r.clients@.len() == 0,
            r.active_client is None,
            r.pinned@.len() == 0,
            r.img_size_scaled == 48,
            !r.popover_open,
            !r.locked,
            !r.rebuild_pending,
            r.wm_class_to_desktop_id.table() == Map::<Seq<char>, String>::empty(),
            !r.drag.pending_view(),
            r.drag.index_view() is None,
            !r.drag.outside_view(),
            r.launching.table() == Map::<Seq<char>, (usize, H)>::empty(),
    {
        DockState {
            config,
            clients: Vec::new(),
            active_client: None,
            pinned: Vec::new(),
            img_size_scaled: 48,
            popover_open: false,
            locked: false,
            drag: DragState::new(),
            rebuild_pending: false,
            wm_class_to_desktop_id: KeyedTable::new(),
            launching: KeyedTable::new(),
        }
    }

    /// Press-down: a press is in progress, with no claimed index and no
    /// outside flag (stale ones from an abnormal end are cleared).
    pub fn set_drag_pending(&mut self)
        ensures
            same_data(*final(self), *old(self)),
            final(self).drag.pending_view(),
            final(self).drag.index_view() is None,
            !final(self).drag.outside_view(),
    {
        self.drag = DragState { pending: true, source_index: None, outside: false };
    }

    /// Movement threshold crossed: records the dragged item's index. Does
    /// nothing when no press is in progress (a late callback after the
    /// drag ended).
    pub fn claim_drag(&mut self, idx: usize)
        ensures
            same_data(*final(self), *old(self)),
            final(self).drag.pending_view() == old(self).drag.pending_view(),
            final(self).drag.outside_view() == old(self).drag.outside_view(),
            final(self).drag.index_view() == (if old(self).drag.pending_view() {
                Some(idx)
            } else {
                old(self).drag.index_view()
            }),
    {
        if !self.drag.pending {
            return;
        }
        self.drag = DragState { pending: true, source_index: Some(idx), outside: self.drag.outside };
    }

    /// Release or cancel: all three drag fields back to rest.
    pub fn end_drag(&mut self)
        ensures
            same_data(*final(self), *old(self)),
            !final(self).drag.pending_view(),
            final(self).drag.index_view() is None,
            !final(self).drag.outside_view(),
    {
        self.drag = DragState { pending: false, source_index: None, outside: false };
    }

    /// Records whether the cursor is outside the dock during a press. Does
    /// nothing when no press is in progress.
    pub fn set_drag_outside(&mut self, outside: bool)
        ensures
            same_data(*final(self), *old(self)),
            final(self).drag.pending_view() == old(self).drag.pending_view(),
            final(self).drag.index_view() == old(self).drag.index_view(),
            final(self).drag.outside_view() == (if old(self).drag.pending_view() {
                outside
            } else {
                old(self).drag.outside_view()
            }),
    {
        if !self.drag.pending {
            return;
        }
        self.drag = DragState { pending: true, source_index: self.drag.source_index, outside };
    }

    /// Index of the pinned item being dragged, if claimed.
    pub fn drag_source_index(&self) -> (r: Option<usize>)
        ensures
            r == self.drag.index_view(),
            r is Some ==> self.drag.pending_view(),
    {
        proof {
            use_type_invariant(&self.drag);
        }
        self.drag.source_index
    }

    /// A press is in progress.
    pub fn is_drag_pending(&self) -> (r: bool)
        ensures
            r == self.drag.pending_view(),
            !r ==> self.drag.index_view() is None && !self.drag.outside_view(),
    {
        proof {
            use_type_invariant(&self.drag);
        }
        self.drag.pending
    }

    /// The cursor is outside the dock during a drag.
    pub fn is_drag_outside_dock(&self) -> (r: bool)
        ensures
            r == self.drag.outside_view(),
            r ==> self.drag.pending_view(),
    {
        proof {
            use_type_invariant(&self.drag);
        }
        self.drag.outside
    }

    /// Starts tracking a launch animation for `app_id` with the instance
    /// count at launch and the timer that ends it. Returns the timer of a
    /// launch of the same app still in flight, which the caller must cancel.
    pub fn start_launch(&mut self, app_id: String, instance_count: usize, timer: H) -> (r: Option<H>)
        ensures
            same_except_launches(*final(self), *old(self)),
            final(self).launching.table() == old(self).launching.table().insert(
                app_id@,
                (instance_count, timer),
            ),
            r == (if old(self).launching.table().contains_key(app_id@) {
                Some(old(self).launching.table()[app_id@].1)
            } else {
                None
            }),
    {
        match self.launching.insert(app_id, (instance_count, timer)) {
            Some((_, t)) => Some(t),
            None => None,
        }
    }

    /// Stops tracking the launch animation of `app_id` and hands back its
    /// instance count and timer, or `None` when none was tracked.
    pub fn cancel_launch(&mut self, app_id: &str) -> (r: Option<(usize, H)>)
        ensures
            same_except_launches(*final(self), *old(self)),
            final(self).launching.table() == old(self).launching.table().remove(app_id@),
            r == (if old(self).launching.table().contains_key(app_id@) {
                Some(old(self).launching.table()[app_id@])
            } else {
                None
            }),
    {
        self.launching.remove(app_id)
    }

    /// Stops tracking the launch animation of `app_id` after its timer has
    /// fired (the timer is gone, so it is dropped). Returns whether it was
    /// tracked.
    pub fn finish_launch_timeout_fired(&mut self, app_id: &str) -> (r: bool)
        ensures
            same_except_launches(*final(self), *old(self)),
            final(self).launching.table() == old(self).launching.table().remove(app_id@),
            r == old(self).launching.table().contains_key(app_id@),
    {
        self.launching.remove(app_id).is_some()
    }

    /// `app_id` has a launch animation in flight.
    pub fn is_launching(&self, app_id: &str) -> (r: bool)
        ensures
            r == self.launching.table().contains_key(app_id@),
    {
        self.launching.contains(app_id)
    }

    /// No launch animation is in flight.
    pub fn launching_is_empty(&self) -> (r: bool)
        ensures
            r == (self.launching.table() == Map::<Seq<char>, (usize, H)>::empty()),
    {
        self.launching.is_empty()
    }

    /// Every launch in flight as (app id, instance count at launch), each
    /// app once.
    pub fn launching_snapshot(&self) -> (r: Vec<(String, usize)>)
        ensures
            is_snapshot_of(r@, self.launching.table()),
    {
        let n = self.launching.len();
        proof {
            self.launching.lemma_entries();
        }
        let ghost es = self.launching.entries_view();
        let mut out: Vec<(String, usize)> = Vec::new();
        let mut i: usize = 0;
        while i < n
            invariant
                n == es.len(),
                es == self.launching.entries_view(),
                keys_distinct(es),
                i <= n,
                out@.len() == i,
                forall|j: int|
                    0 <= j < i ==> #[trigger] out@[j].0@ == es[j].0@ && out@[j].1 == es[j].1.0,
            decreases n - i,
        {
            let e = self.launching.entry(i);
            out.push((e.0.clone(), e.1.0));
            i += 1;
        }
        proof {
            self.launching.lemma_entries();
        }
        assert forall|a: int|
            0 <= a < out@.len() implies #[trigger] self.launching.table().contains_key(out@[a].0@)
            && self.launching.table()[out@[a].0@].0 == out@[a].1 by {
            assert(out@[a].0@ == es[a].0@);
            assert(self.launching.table()[es[a].0@] == es[a].1);
        }
        assert forall|k: Seq<char>| #[trigger] self.launching.table().contains_key(k) implies exists|
            a: int,
        | 0 <= a < out@.len() && out@[a].0@ == k by {
            let a = choose|a: int| 0 <= a < es.len() && es[a].0@ == k;
            assert(out@[a].0@ == k);
        }
        assert forall|a: int, b: int|
            0 <= a < out@.len() && 0 <= b < out@.len() && a != b implies #[trigger] out@[a].0@
            != #[trigger] out@[b].0@ by {
            assert(out@[a].0@ == es[a].0@);
            assert(out@[b].0@ == es[b].0@);
        }
        out
    }

    /// Every window of the app `class`, in client-list order: matched by
    /// class or, when set, initial class, against the class itself, its
    /// hyphen/space variant and the window classes the desktop-id map sends
    /// to it, ignoring ASCII case.
    pub fn task_instances(&self, class: &str) -> (r: Vec<WmClient>)
        ensures
            r@ == self.clients@.filter(
                |c: WmClient| is_instance_of(c, class@, self.wm_class_to_desktop_id.table()),
            ),
    {
        let alt = hyphen_space_variant(class);
        let ghost m = self.wm_class_to_desktop_id.table();
        let ghost pred = |c: WmClient| is_instance_of(c, class@, m);
        let mut out: Vec<WmClient> = Vec::new();
        let mut i: usize = 0;
        assert(self.clients@.take(0) =~= Seq::<WmClient>::empty());
        proof {
            reveal(Seq::filter);
        }
        while i < self.clients.len()
            invariant
                i <= self.clients@.len(),
                alt@ == hyphen_space_swap(class@),
                m == self.wm_class_to_desktop_id.table(),
                pred == (|c: WmClient| is_instance_of(c, class@, m)),
                out@ == self.clients@.take(i as int).filter(pred),
            decreases self.clients.len() - i,
        {
            let c = &self.clients[i];
            proof {
                lemma_filter_take_step(self.clients@, pred, i as int);
            }
            let by_class = name_matches(c.class.as_str(), class, alt.as_str(), &self.wm_class_to_desktop_id);
            let hit = by_class || (c.initial_class.unicode_len() > 0 && name_matches(
                c.initial_class.as_str(),
                class,
                alt.as_str(),
                &self.wm_class_to_desktop_id,
            ));
            if hit {
                out.push(c.clone());
            }
            i += 1;
        }
        assert(self.clients@.take(self.clients@.len() as int) =~= self.clients@);
        out
    }

    /// The (id, class) pair of every window and the active window's id.
    pub fn client_snapshot(&self) -> (r: (Vec<(String, String)>, Option<String>))
        ensures
            (r.0@.map_values(|p: (String, String)| (p.0@, p.1@)), match r.1 {
                Some(s) => Some(s@),
                None => None,
            }) == snapshot_of(self.clients@, self.active_client),
    {
        let mut pairs: Vec<(String, String)> = Vec::new();
        let mut i: usize = 0;
        while i < self.clients.len()
            invariant
                i <= self.clients@.len(),
                pairs@.len() == i,
                forall|j: int|
                    0 <= j < i ==> #[trigger] pairs@[j].0@ == self.clients@[j].id@ && pairs@[j].1@
                        == self.clients@[j].class@,
            decreases self.clients.len() - i,
        {
            let c = &self.clients[i];
            let ghost before = pairs@;
            let id = c.id.clone();
            let cl = c.class.clone();
            pairs.push((id, cl));
            assert forall|j: int|
                0 <= j < i + 1 implies #[trigger] pairs@[j].0@ == self.clients@[j].id@
                && pairs@[j].1@ == self.clients@[j].class@ by {
                if j < i {
                    assert(pairs@[j] == before[j]);
                } else {
                    assert(pairs@[j] == (id, cl));
                    assert(self.clients@[j] == *c);
                }
            }
            i += 1;
        }
        let active = match &self.active_client {
            Some(c) => Some(c.id.clone()),
            None => None,
        };
        assert(pairs@.map_values(|p: (String, String)| (p.0@, p.1@)) =~= self.clients@.map_values(
            |c: WmClient| (c.id@, c.class@),
        ));
        (pairs, active)
    }
}

} // verus!
