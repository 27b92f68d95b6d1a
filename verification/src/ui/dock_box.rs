//! Which items the dock shows, in which order, and at what icon size.

use vstd::prelude::*;
use crate::compositor::WmClient;
use crate::config::{delimited_list, DockConfig};
use crate::state::{is_instance_of, DockState};
use crate::keyed::KeyedTable;
use crate::text::{
    contains_str, eq_ignore_ascii_case, eq_ignore_case, first_index, has_substring,
    hyphen_space_swap, hyphen_space_variant, i32_text, index_of_char, int_text, lemma_first_index,
    str_equal, string_views, to_lowercase, unicode_lowercase,
};
use crate::ui::pinning::{is_pinned, pinned_contains};

verus! {

/// Item count up to which icons keep their full size.
pub const SCALE_THRESHOLD_ITEMS: i32 = 6;

/// Items beyond the threshold per shrinking step.
pub const SCALE_STEP_ITEMS: i32 = 3;

/// Rust's integer division (rounding toward zero) by a positive divisor.
pub open spec fn div_toward_zero(a: int, b: int) -> int {
    if a >= 0 {
        a / b
    } else {
        -((-a) / b)
    }
}

/// Icon size for `item_count` items: full size while it fits, else
/// `icon * 6 / (6 + (count - 6) / 3)` (so seven and eight items still get
/// full size; the first step is at nine).
pub open spec fn scaled_icon_size(item_count: int, icon: int) -> int {
    let count = if item_count < 1 { 1 } else { item_count };
    if div_toward_zero(icon * SCALE_THRESHOLD_ITEMS, count) < icon {
        div_toward_zero(
            icon * SCALE_THRESHOLD_ITEMS,
            SCALE_THRESHOLD_ITEMS + div_toward_zero(item_count - SCALE_THRESHOLD_ITEMS, SCALE_STEP_ITEMS as int),
        )
    } else {
        icon
    }
}

/// Scales the icon size down when many items would overflow the dock.
pub fn scale_icon_size(item_count: usize, config: &DockConfig) -> (r: i32)
    requires
        item_count <= i32::MAX,
        i32::MIN <= config.icon_size * SCALE_THRESHOLD_ITEMS <= i32::MAX,
    ensures
        r == scaled_icon_size(item_count as int, config.icon_size as int),
{
    let icon = config.icon_size;
    let n = item_count as i32;
    let count: i32 = if n < 1 { 1 } else { n };
    let full = icon * SCALE_THRESHOLD_ITEMS;
    let per_item = if full >= 0 { full / count } else { -((-full) / count) };
    if per_item < icon {
        let diff = n - SCALE_THRESHOLD_ITEMS;
        let overflow = if diff >= 0 { diff / SCALE_STEP_ITEMS } else { -((-diff) / SCALE_STEP_ITEMS) };
        let divisor = SCALE_THRESHOLD_ITEMS + overflow;
        if full >= 0 {
            full / divisor
        } else {
            -((-full) / divisor)
        }
    } else {
        icon
    }
}

/// Law: for a non-negative icon size, scaling never grows the icons and
/// never makes them negative.
pub proof fn lemma_scaled_icon_size_bounds(item_count: int, icon: int)
    requires
        item_count >= 0,
        icon >= 0,
    ensures
        0 <= scaled_icon_size(item_count, icon) <= icon,
{
    let count = if item_count < 1 { 1 } else { item_count };
    let full = icon * SCALE_THRESHOLD_ITEMS;
    assert(full >= 0) by (nonlinear_arith)
        requires
            icon >= 0,
            full == icon * 6,
    ;
    if count <= 6 {
        assert(full / count >= icon) by (nonlinear_arith)
            requires
                1 <= count <= 6,
                icon >= 0,
                full == icon * 6,
        ;
    } else {
        let overflow = (item_count - 6) / 3;
        assert(overflow >= 0);
        let d = 6 + overflow;
        assert(0 <= full / d <= icon) by (nonlinear_arith)
            requires
                d >= 6,
                icon >= 0,
                full == icon * 6,
        ;
    }
}

/// For a non-negative icon size the scaled size is the full size up to six
/// items, and `icon * 6 / (6 + (count - 6) / 3)` beyond.
proof fn lemma_scaled_icon_size_shape(item_count: int, icon: int)
    requires
        item_count >= 0,
        icon >= 0,
    ensures
        item_count <= 6 ==> scaled_icon_size(item_count, icon) == icon,
        item_count > 6 ==> scaled_icon_size(item_count, icon) == (icon * 6) / (6 + (item_count - 6)
            / 3),
{
    let count = if item_count < 1 { 1 } else { item_count };
    let full = icon * 6;
    assert(full >= 0) by (nonlinear_arith)
        requires
            icon >= 0,
            full == icon * 6,
    ;
    if count <= 6 {
        assert(full / count >= icon) by (nonlinear_arith)
            requires
                1 <= count <= 6,
                icon >= 0,
                full == icon * 6,
        ;
    } else {
        let d = 6 + (item_count - 6) / 3;
        assert(d >= 6);
        if full / count >= icon {
            assert(full / d <= icon) by (nonlinear_arith)
                requires
                    d >= 6,
                    icon >= 0,
                    full == icon * 6,
            ;
            assert(icon == 0) by (nonlinear_arith)
                requires
                    count > 6,
                    icon >= 0,
                    full == icon * 6,
                    full / count >= icon,
            ;
            assert(full / d == 0) by (nonlinear_arith)
                requires
                    d >= 6,
                    full == 0,
            ;
        }
    }
}

/// Law: with a non-negative icon size, up to eight items keep the full
/// size, and more items never give larger icons: the scaled size does not
/// grow with the item count.
pub proof fn lemma_scaled_icon_size_monotone(fewer: int, more: int, icon: int)
    requires
        0 <= fewer <= more,
        icon >= 0,
    ensures
        more <= 8 ==> scaled_icon_size(more, icon) == icon,
        scaled_icon_size(more, icon) <= scaled_icon_size(fewer, icon),
{
    lemma_scaled_icon_size_shape(fewer, icon);
    lemma_scaled_icon_size_shape(more, icon);
    lemma_scaled_icon_size_bounds(more, icon);
    let full = icon * 6;
    assert(full >= 0) by (nonlinear_arith)
        requires
            icon >= 0,
            full == icon * 6,
    ;
    if more > 6 && more <= 8 {
        assert((more - 6) / 3 == 0);
        assert(full / 6 == icon);
    }
    if fewer > 6 {
        let a = 6 + (fewer - 6) / 3;
        let b = 6 + (more - 6) / 3;
        assert(a <= b) by (nonlinear_arith)
            requires
                6 < fewer <= more,
                a == 6 + (fewer - 6) / 3,
                b == 6 + (more - 6) / 3,
        ;
        vstd::arithmetic::div_mod::lemma_div_is_ordered_by_denominator(full, a, b);
    }
}

/// Some item equals `name` ignoring ASCII case.
pub open spec fn listed_ignoring_case(items: Seq<Seq<char>>, name: Seq<char>) -> bool {
    exists|i: int| 0 <= i < items.len() && eq_ignore_case(#[trigger] items[i], name)
}

fn find_ignoring_case(items: &[String], name: &str) -> (r: bool)
    ensures
        r == listed_ignoring_case(string_views(items@), name@),
{
    let ghost v = string_views(items@);
    let mut i: usize = 0;
    while i < items.len()
        invariant
            i <= items@.len(),
            v == string_views(items@),
            forall|j: int| 0 <= j < i ==> !eq_ignore_case(#[trigger] v[j], name@),
        decreases items.len() - i,
    {
        assert(v[i as int] == items@[i as int]@);
        if eq_ignore_ascii_case(items[i].as_str(), name) {
            return true;
        }
        i += 1;
    }
    false
}

/// The compositor class is already represented among `items`: directly,
/// by its hyphen/space variant, or by the desktop id the window-class map
/// gives for its lowercased form (all ignoring ASCII case).
pub open spec fn class_represented(
    class: Seq<char>,
    items: Seq<Seq<char>>,
    wm_map: Map<Seq<char>, String>,
) -> bool {
    ||| listed_ignoring_case(items, class)
    ||| (hyphen_space_swap(class) != class && listed_ignoring_case(items, hyphen_space_swap(class)))
    ||| (wm_map.contains_key(unicode_lowercase(class)) && listed_ignoring_case(
        items,
        wm_map[unicode_lowercase(class)]@,
    ))
}

/// Whether the class is already represented among the items.
pub fn is_class_represented(class: &str, items: &[String], wm_map: &KeyedTable<String>) -> (r: bool)
    ensures
        r == class_represented(class@, string_views(items@), wm_map.table()),
{
    if find_ignoring_case(items, class) {
        return true;
    }
    let alt = hyphen_space_variant(class);
    if !str_equal(alt.as_str(), class) && find_ignoring_case(items, alt.as_str()) {
        return true;
    }
    let key = to_lowercase(class);
    match wm_map.get(key.as_str()) {
        Some(desktop_id) => find_ignoring_case(items, desktop_id.as_str()),
        None => false,
    }
}

/// A child window (initial class set and different from its class) whose
/// initial class is already among the items.
pub open spec fn child_grouped(task: WmClient, items: Seq<Seq<char>>) -> bool {
    task.initial_class@.len() > 0 && task.initial_class@ != task.class@ && listed_ignoring_case(
        items,
        task.initial_class@,
    )
}

/// Whether the window is a child grouped under an item already listed.
pub fn is_child_window_grouped(task: &WmClient, all_items: &[String]) -> (r: bool)
    ensures
        r == child_grouped(*task, string_views(all_items@)),
{
    task.initial_class.unicode_len() > 0 && !str_equal(
        task.initial_class.as_str(),
        task.class.as_str(),
    ) && find_ignoring_case(all_items, task.initial_class.as_str())
}

/// A child window whose initial class is pinned or already added.
pub open spec fn child_already_shown(
    task: WmClient,
    pinned: Seq<Seq<char>>,
    already_added: Seq<Seq<char>>,
) -> bool {
    task.initial_class@.len() > 0 && task.initial_class@ != task.class@ && (pinned_contains(
        pinned,
        task.initial_class@,
    ) || listed_ignoring_case(already_added, task.initial_class@))
}

/// Whether a child window's parent app is already shown.
pub fn is_child_already_shown(task: &WmClient, pinned: &[String], already_added: &[String]) -> (r:
    bool)
    ensures
        r == child_already_shown(*task, string_views(pinned@), string_views(already_added@)),
{
    task.initial_class.unicode_len() > 0 && !str_equal(
        task.initial_class.as_str(),
        task.class.as_str(),
    ) && (is_pinned(pinned, task.initial_class.as_str()) || find_ignoring_case(
        already_added,
        task.initial_class.as_str(),
    ))
}

fn find_exact(items: &[String], name: &str) -> (r: bool)
    ensures
        r == string_views(items@).contains(name@),
{
    let ghost v = string_views(items@);
    let mut i: usize = 0;
    while i < items.len()
        invariant
            i <= items@.len(),
            v == string_views(items@),
            forall|j: int| 0 <= j < i ==> v[j] != name@,
        decreases items.len() - i,
    {
        assert(v[i as int] == items@[i as int]@);
        if str_equal(items[i].as_str(), name) {
            assert(v[i as int] == name@);
            return true;
        }
        i += 1;
    }
    false
}

/// A running window gets no button of its own: no class, an ignored
/// class, a pinned class (or one the pinned list represents), or a child
/// of an app already shown.
pub open spec fn skips_running(
    task: WmClient,
    pinned: Seq<Seq<char>>,
    ignored_classes: Seq<Seq<char>>,
    already_added: Seq<Seq<char>>,
    wm_map: Map<Seq<char>, String>,
) -> bool {
    ||| task.class@.len() == 0
    ||| ignored_classes.contains(task.class@)
    ||| pinned_contains(pinned, task.class@)
    ||| class_represented(task.class@, pinned, wm_map)
    ||| child_already_shown(task, pinned, already_added)
}

/// Whether a running window is left out of the running items.
pub fn should_skip_running(
    task: &WmClient,
    pinned: &[String],
    ignored_classes: &[String],
    already_added: &[String],
    wm_map: &KeyedTable<String>,
) -> (r: bool)
    ensures
        r == skips_running(
            *task,
            string_views(pinned@),
            string_views(ignored_classes@),
            string_views(already_added@),
            wm_map.table(),
        ),
{
    task.class.unicode_len() == 0 || find_exact(ignored_classes, task.class.as_str()) || is_pinned(
        pinned,
        task.class.as_str(),
    ) || is_class_represented(task.class.as_str(), pinned, wm_map) || is_child_already_shown(
        task,
        pinned,
        already_added,
    )
}

/// Lexicographic order of strings by code point (the order of their UTF-8
/// bytes).
pub open spec fn lex_le(a: Seq<char>, b: Seq<char>) -> bool
    decreases a.len(),
{
    if a.len() == 0 {
        true
    } else if b.len() == 0 {
        false
    } else if a[0] != b[0] {
        (a[0] as int) < (b[0] as int)
    } else {
        lex_le(a.drop_first(), b.drop_first())
    }
}

proof fn lemma_lex_le_step(a: Seq<char>, b: Seq<char>, i: int)
    requires
        0 <= i < a.len(),
        i < b.len(),
        a[i] == b[i],
    ensures
        lex_le(a.skip(i), b.skip(i)) == lex_le(a.skip(i + 1), b.skip(i + 1)),
{
    assert(a.skip(i).drop_first() =~= a.skip(i + 1));
    assert(b.skip(i).drop_first() =~= b.skip(i + 1));
}

fn lex_le_str(a: &str, b: &str) -> (r: bool)
    ensures
        r == lex_le(a@, b@),
{
    let n = a.unicode_len();
    let m = b.unicode_len();
    let mut i: usize = 0;
    assert(a@.skip(0) =~= a@);
    assert(b@.skip(0) =~= b@);
    while i < n && i < m
        invariant
            n == a@.len(),
            m == b@.len(),
            i <= n,
            i <= m,
            lex_le(a@, b@) == lex_le(a@.skip(i as int), b@.skip(i as int)),
        decreases n - i,
    {
        let x = a.get_char(i);
        let y = b.get_char(i);
        if x != y {
            assert(a@.skip(i as int)[0] == x && b@.skip(i as int)[0] == y);
            return (x as u32) < (y as u32);
        }
        proof {
            lemma_lex_le_step(a@, b@, i as int);
        }
        i += 1;
    }
    if i == n {
        assert(a@.skip(i as int).len() == 0);
        true
    } else {
        assert(b@.skip(i as int).len() == 0);
        false
    }
}

/// Windows are ordered by workspace id, then by class.
pub open spec fn client_le(a: WmClient, b: WmClient) -> bool {
    a.workspace.id < b.workspace.id || (a.workspace.id == b.workspace.id && lex_le(
        a.class@,
        b.class@,
    ))
}

fn client_le_exec(a: &WmClient, b: &WmClient) -> (r: bool)
    ensures
        r == client_le(*a, *b),
{
    a.workspace.id < b.workspace.id || (a.workspace.id == b.workspace.id && lex_le_str(
        a.class.as_str(),
        b.class.as_str(),
    ))
}

/// `x` placed into `s` after every trailing element that orders after it.
pub open spec fn insert_sorted(s: Seq<WmClient>, x: WmClient) -> Seq<WmClient>
    decreases s.len(),
{
    if s.len() == 0 {
        seq![x]
    } else if client_le(s.last(), x) {
        s.push(x)
    } else {
        insert_sorted(s.drop_last(), x).push(s.last())
    }
}

/// The windows stably sorted by (workspace id, class): equal keys keep
/// their relative order.
pub open spec fn sort_clients(s: Seq<WmClient>) -> Seq<WmClient>
    decreases s.len(),
{
    if s.len() == 0 {
        s
    } else {
        insert_sorted(sort_clients(s.drop_last()), s.last())
    }
}

fn insert_client(out: &mut Vec<WmClient>, x: WmClient)
    ensures
        final(out)@ == insert_sorted(old(out)@, x),
{
    let ghost s = out@;
    let mut j: usize = out.len();
    assert(s.take(j as int) =~= s);
    assert(s.skip(j as int) =~= Seq::<WmClient>::empty());
    loop
        invariant
            out@ == s,
            j <= s.len(),
            insert_sorted(s, x) == insert_sorted(s.take(j as int), x) + s.skip(j as int),
        ensures
            out@ == s,
            j <= s.len(),
            insert_sorted(s, x) == insert_sorted(s.take(j as int), x) + s.skip(j as int),
            j == 0 || client_le(s[j - 1], x),
        decreases j,
    {
        if j == 0 {
            break;
        }
        if client_le_exec(&out[j - 1], &x) {
            break;
        }
        proof {
            let t = s.take(j as int);
            assert(t.drop_last() =~= s.take(j - 1));
            assert(t.last() == s[j - 1]);
            assert(insert_sorted(t, x) == insert_sorted(s.take(j - 1), x).push(s[j - 1]));
            assert(s.skip(j - 1) =~= seq![s[j - 1]] + s.skip(j as int));
            assert(insert_sorted(s.take(j - 1), x).push(s[j - 1]) + s.skip(j as int)
                =~= insert_sorted(s.take(j - 1), x) + s.skip(j - 1));
        }
        j -= 1;
    }
    proof {
        let t = s.take(j as int);
        if j == 0 {
            assert(t =~= Seq::<WmClient>::empty());
        } else {
            assert(t.last() == s[j - 1]);
        }
        assert(insert_sorted(t, x) == t.push(x));
        assert(t.push(x) + s.skip(j as int) =~= s.insert(j as int, x));
    }
    out.insert(j, x);
}

fn sorted_clients(clients: &Vec<WmClient>) -> (r: Vec<WmClient>)
    ensures
        r@ == sort_clients(clients@),
{
    let mut out: Vec<WmClient> = Vec::new();
    let mut i: usize = 0;
    assert(clients@.take(0) =~= Seq::<WmClient>::empty());
    while i < clients.len()
        invariant
            i <= clients@.len(),
            out@ == sort_clients(clients@.take(i as int)),
        decreases clients.len() - i,
    {
        let x = clients[i].clone();
        proof {
            let t = clients@.take(i + 1);
            assert(t.drop_last() =~= clients@.take(i as int));
            assert(t.last() == clients@[i as int]);
        }
        insert_client(&mut out, x);
        i += 1;
    }
    assert(clients@.take(clients@.len() as int) =~= clients@);
    out
}

/// The part of a workspace name before its first `:`.
pub open spec fn workspace_base(name: Seq<char>) -> Seq<char> {
    name.take(first_index(name, ':'))
}

/// The window's workspace is not ignored, by id or by base name.
pub open spec fn workspace_kept(c: WmClient, ignored: Seq<Seq<char>>) -> bool {
    !ignored.contains(int_text(c.workspace.id as int)) && !ignored.contains(
        workspace_base(c.workspace.name@),
    )
}

fn workspace_kept_exec(c: &WmClient, ignored: &Vec<String>) -> (r: bool)
    ensures
        r == workspace_kept(*c, string_views(ignored@)),
{
    let id = i32_text(c.workspace.id);
    proof {
        lemma_first_index(c.workspace.name@, ':');
    }
    let k = index_of_char(c.workspace.name.as_str(), ':');
    let base = c.workspace.name.as_str().substring_char(0, k);
    assert(base@ =~= workspace_base(c.workspace.name@));
    !find_exact(ignored.as_slice(), id.as_str()) && !find_exact(ignored.as_slice(), base)
}

/// The pinned items in order, each exact duplicate after the first left
/// out.
pub open spec fn dedup_items(p: Seq<Seq<char>>) -> Seq<Seq<char>>
    decreases p.len(),
{
    if p.len() == 0 {
        Seq::empty()
    } else {
        let prev = dedup_items(p.drop_last());
        if prev.contains(p.last()) {
            prev
        } else {
            prev.push(p.last())
        }
    }
}

/// `items` extended by the classes of the running windows, in order: a
/// window adds its class unless it has none, its class occurs in the
/// launcher command, its class is already represented, or it is a child
/// of an item already listed.
pub open spec fn add_running(
    items: Seq<Seq<char>>,
    tasks: Seq<WmClient>,
    launcher_cmd: Seq<char>,
    wm_map: Map<Seq<char>, String>,
) -> Seq<Seq<char>>
    decreases tasks.len(),
{
    if tasks.len() == 0 {
        items
    } else {
        let prev = add_running(items, tasks.drop_last(), launcher_cmd, wm_map);
        let t = tasks.last();
        if t.class@.len() == 0 || has_substring(launcher_cmd, t.class@) || class_represented(
            t.class@,
            prev,
            wm_map,
        ) || child_grouped(t, prev) {
            prev
        } else {
            prev.push(t.class@)
        }
    }
}

/// The state's fields other than the client list agree.
pub open spec fn same_except_clients<H>(a: DockState<H>, b: DockState<H>) -> bool {
    &&& a.config == b.config
    &&& a.active_client == b.active_client
    &&& a.pinned == b.pinned
    &&& a.img_size_scaled == b.img_size_scaled
    &&& a.popover_open == b.popover_open
    &&& a.locked == b.locked
    &&& a.drag == b.drag
    &&& a.rebuild_pending == b.rebuild_pending
    &&& a.wm_class_to_desktop_id == b.wm_class_to_desktop_id
    &&& a.launching == b.launching
}

/// Collects the dock's items: the pinned items (duplicates dropped), then
/// the class of each running window worth a button of its own. The state's
/// client list is left sorted by (workspace id, class) with the windows of
/// ignored workspaces removed.
pub fn collect_all_items<H>(s: &mut DockState<H>, config: &DockConfig) -> (r: Vec<String>)
    ensures
        same_except_clients(*final(s), *old(s)),
        final(s).clients@ == sort_clients(old(s).clients@).filter(
            |c: WmClient| workspace_kept(c, delimited_list(config.ignore_workspaces@, ',')),
        ),
        string_views(r@) == add_running(
            dedup_items(string_views(old(s).pinned@)),
            final(s).clients@,
            config.launcher_cmd@,
            old(s).wm_class_to_desktop_id.table(),
        ),
{
    let ghost pins = string_views(s.pinned@);
    let mut items: Vec<String> = Vec::new();
    let mut i: usize = 0;
    assert(pins.take(0) =~= Seq::<Seq<char>>::empty());
    while i < s.pinned.len()
        invariant
            i <= s.pinned@.len(),
            pins == string_views(s.pinned@),
            string_views(items@) == dedup_items(pins.take(i as int)),
        decreases s.pinned.len() - i,
    {
        let pin = &s.pinned[i];
        proof {
            let t = pins.take(i + 1);
            assert(t.drop_last() =~= pins.take(i as int));
            assert(t.last() == pin@);
        }
        if !find_exact(items.as_slice(), pin.as_str()) {
            let ghost before = string_views(items@);
            items.push(pin.clone());
            assert(string_views(items@) =~= before.push(pin@));
        }
        i += 1;
    }
    assert(pins.take(pins.len() as int) =~= pins);
    let ghost pinned_items = string_views(items@);

    let sorted = sorted_clients(&s.clients);
    let ignored = config.ignored_workspaces();
    let ghost ig = string_views(ignored@);
    let ghost keep = |c: WmClient| workspace_kept(c, ig);
    let mut kept: Vec<WmClient> = Vec::new();
    let mut k: usize = 0;
    proof {
        reveal(Seq::filter);
    }
    assert(sorted@.take(0) =~= Seq::<WmClient>::empty());
    while k < sorted.len()
        invariant
            k <= sorted@.len(),
            ig == string_views(ignored@),
            keep == (|c: WmClient| workspace_kept(c, ig)),
            kept@ == sorted@.take(k as int).filter(keep),
        decreases sorted.len() - k,
    {
        proof {
            crate::lemmas::lemma_filter_take_step(sorted@, keep, k as int);
        }
        if workspace_kept_exec(&sorted[k], &ignored) {
            kept.push(sorted[k].clone());
        }
        k += 1;
    }
    assert(sorted@.take(sorted@.len() as int) =~= sorted@);
    s.clients = kept;

    let ghost tasks = s.clients@;
    let ghost wm = s.wm_class_to_desktop_id.table();
    let mut t: usize = 0;
    assert(tasks.take(0) =~= Seq::<WmClient>::empty());
    while t < s.clients.len()
        invariant
            t <= s.clients@.len(),
            tasks == s.clients@,
            wm == s.wm_class_to_desktop_id.table(),
            string_views(items@) == add_running(pinned_items, tasks.take(t as int), config.launcher_cmd@, wm),
        decreases s.clients.len() - t,
    {
        let task = &s.clients[t];
        proof {
            let tt = tasks.take(t + 1);
            assert(tt.drop_last() =~= tasks.take(t as int));
            assert(tt.last() == *task);
        }
        let skip = task.class.unicode_len() == 0 || contains_str(
            config.launcher_cmd.as_str(),
            task.class.as_str(),
        ) || is_class_represented(task.class.as_str(), items.as_slice(), &s.wm_class_to_desktop_id)
            || is_child_window_grouped(task, items.as_slice());
        if !skip {
            let ghost before = string_views(items@);
            items.push(task.class.clone());
            assert(string_views(items@) =~= before.push(task.class@));
        }
        t += 1;
    }
    assert(tasks.take(tasks.len() as int) =~= tasks);
    items
}

proof fn lemma_lex_le_total(a: Seq<char>, b: Seq<char>)
    ensures
        lex_le(a, b) || lex_le(b, a),
    decreases a.len(),
{
    if a.len() > 0 && b.len() > 0 {
        if a[0] == b[0] {
            lemma_lex_le_total(a.drop_first(), b.drop_first());
        } else {
            assert((a[0] as int) != (b[0] as int));
        }
    }
}

proof fn lemma_lex_le_trans(a: Seq<char>, b: Seq<char>, c: Seq<char>)
    requires
        lex_le(a, b),
        lex_le(b, c),
    ensures
        lex_le(a, c),
    decreases a.len(),
{
    if a.len() > 0 && b.len() > 0 && c.len() > 0 && a[0] == b[0] && b[0] == c[0] {
        lemma_lex_le_trans(a.drop_first(), b.drop_first(), c.drop_first());
    }
}

/// Every window orders no later than every window after it.
pub open spec fn clients_sorted(s: Seq<WmClient>) -> bool {
    forall|i: int, j: int| 0 <= i < j < s.len() ==> client_le(#[trigger] s[i], #[trigger] s[j])
}

proof fn lemma_client_le_total(a: WmClient, b: WmClient)
    ensures
        client_le(a, b) || client_le(b, a),
{
    lemma_lex_le_total(a.class@, b.class@);
}

proof fn lemma_client_le_trans(a: WmClient, b: WmClient, c: WmClient)
    requires
        client_le(a, b),
        client_le(b, c),
    ensures
        client_le(a, c),
{
    if a.workspace.id == b.workspace.id && b.workspace.id == c.workspace.id {
        lemma_lex_le_trans(a.class@, b.class@, c.class@);
    }
}

proof fn lemma_insert_sorted(s: Seq<WmClient>, x: WmClient)
    ensures
        insert_sorted(s, x).to_multiset() == s.to_multiset().insert(x),
        clients_sorted(s) ==> clients_sorted(insert_sorted(s, x)),
    decreases s.len(),
{
    broadcast use vstd::seq_lib::group_to_multiset_ensures;

    let r = insert_sorted(s, x);
    if s.len() == 0 {
        assert(Seq::<WmClient>::empty().push(x) =~= seq![x]);
    } else if client_le(s.last(), x) {
        if clients_sorted(s) {
            assert forall|i: int, j: int| 0 <= i < j < r.len() implies client_le(
                #[trigger] r[i],
                #[trigger] r[j],
            ) by {
                if j == s.len() {
                    if i < s.len() - 1 {
                        assert(client_le(s[i], s[s.len() - 1]));
                        lemma_client_le_trans(s[i], s.last(), x);
                    }
                } else {
                    assert(r[i] == s[i] && r[j] == s[j]);
                }
            }
        }
    } else {
        let t = s.drop_last();
        let rt = insert_sorted(t, x);
        lemma_insert_sorted(t, x);
        assert(t.push(s.last()) =~= s);
        assert(s.to_multiset() == t.to_multiset().insert(s.last()));
        assert(r.to_multiset() =~= s.to_multiset().insert(x));
        if clients_sorted(s) {
            assert(clients_sorted(t)) by {
                assert forall|i: int, j: int| 0 <= i < j < t.len() implies client_le(
                    #[trigger] t[i],
                    #[trigger] t[j],
                ) by {
                    assert(t[i] == s[i] && t[j] == s[j]);
                }
            }
            lemma_client_le_total(s.last(), x);
            assert forall|i: int, j: int| 0 <= i < j < r.len() implies client_le(
                #[trigger] r[i],
                #[trigger] r[j],
            ) by {
                if j == r.len() - 1 {
                    let y = rt[i];
                    assert(r[i] == y);
                    assert(rt.to_multiset().count(y) > 0);
                    if y != x {
                        assert(t.to_multiset().count(y) > 0);
                        assert(t.contains(y));
                        let k = choose|k: int| 0 <= k < t.len() && t[k] == y;
                        assert(client_le(s[k], s[s.len() - 1]));
                    }
                } else {
                    assert(r[i] == rt[i] && r[j] == rt[j]);
                }
            }
        }
    }
}

/// Law: the stable sort orders the windows by (workspace id, class) and
/// keeps every window exactly once.
pub proof fn lemma_sort_clients(s: Seq<WmClient>)
    ensures
        clients_sorted(sort_clients(s)),
        sort_clients(s).to_multiset() == s.to_multiset(),
    decreases s.len(),
{
    broadcast use vstd::seq_lib::group_to_multiset_ensures;

    if s.len() > 0 {
        let t = s.drop_last();
        lemma_sort_clients(t);
        lemma_insert_sorted(sort_clients(t), s.last());
        assert(t.push(s.last()) =~= s);
    }
}

/// How one pinned item appears in the dock.
#[derive(Debug)]
pub enum PinnedButton {
    /// No window of the app is open: a plain pinned button.
    Launcher { index: usize, pin: String },
    /// The app runs: a task button over its windows, marked active when the
    /// first window has the active class and the dock does not autohide.
    Task { index: usize, pin: String, instances: Vec<WmClient>, active: bool },
}

/// What a pinned button stands for: position, pin, and for a running app
/// its windows and active mark.
pub open spec fn pinned_button_view(b: PinnedButton) -> (int, Seq<char>, Option<(Seq<WmClient>, bool)>) {
    match b {
        PinnedButton::Launcher { index, pin } => (index as int, pin@, None),
        PinnedButton::Task { index, pin, instances, active } => (
            index as int,
            pin@,
            Some((instances@, active)),
        ),
    }
}

/// The windows of the app `class`.
pub open spec fn instances_of(
    clients: Seq<WmClient>,
    class: Seq<char>,
    wm_map: Map<Seq<char>, String>,
) -> Seq<WmClient> {
    clients.filter(|c: WmClient| is_instance_of(c, class, wm_map))
}

/// The pinned buttons for the first `pins.len()` pins, and the pins given a
/// task button so far. An ignored pin gets nothing; a pin with no window a
/// plain button; a running pin a task button, unless it already got one
/// and has several windows.
pub open spec fn pinned_plan(
    pins: Seq<Seq<char>>,
    clients: Seq<WmClient>,
    wm_map: Map<Seq<char>, String>,
    active_class: Seq<char>,
    ignored: Seq<Seq<char>>,
    autohide: bool,
) -> (Seq<(int, Seq<char>, Option<(Seq<WmClient>, bool)>)>, Seq<Seq<char>>)
    decreases pins.len(),
{
    if pins.len() == 0 {
        (Seq::empty(), Seq::empty())
    } else {
        let (plan, added) = pinned_plan(
            pins.drop_last(),
            clients,
            wm_map,
            active_class,
            ignored,
            autohide,
        );
        let idx = pins.len() - 1;
        let pin = pins.last();
        let inst = instances_of(clients, pin, wm_map);
        if ignored.contains(pin) {
            (plan, added)
        } else if inst.len() == 0 {
            (plan.push((idx, pin, None)), added)
        } else if inst.len() == 1 || !added.contains(pin) {
            (
                plan.push(
                    (idx, pin, Some((inst, inst[0].class@ == active_class && !autohide))),
                ),
                added.push(pin),
            )
        } else {
            (plan, added)
        }
    }
}

/// Planning more pins only adds buttons after the ones already planned.
proof fn lemma_pinned_plan_prefix(
    pins: Seq<Seq<char>>,
    clients: Seq<WmClient>,
    wm_map: Map<Seq<char>, String>,
    active_class: Seq<char>,
    ignored: Seq<Seq<char>>,
    autohide: bool,
    n: int,
)
    requires
        0 <= n <= pins.len(),
    ensures
        ({
            let short = pinned_plan(pins.take(n), clients, wm_map, active_class, ignored, autohide).0;
            let long = pinned_plan(pins, clients, wm_map, active_class, ignored, autohide).0;
            short.len() <= long.len() && long.take(short.len() as int) == short
        }),
    decreases pins.len(),
{
    if n == pins.len() {
        assert(pins.take(n) =~= pins);
        let long = pinned_plan(pins, clients, wm_map, active_class, ignored, autohide).0;
        assert(long.take(long.len() as int) =~= long);
    } else {
        let t = pins.drop_last();
        assert(t.take(n) =~= pins.take(n));
        lemma_pinned_plan_prefix(t, clients, wm_map, active_class, ignored, autohide, n);
        let short = pinned_plan(pins.take(n), clients, wm_map, active_class, ignored, autohide).0;
        let mid = pinned_plan(t, clients, wm_map, active_class, ignored, autohide).0;
        let long = pinned_plan(pins, clients, wm_map, active_class, ignored, autohide).0;
        assert(long.take(mid.len() as int) =~= mid);
        assert(long.take(short.len() as int) =~= mid.take(short.len() as int));
    }
}

/// The pins given a task button are among the planned pins.
proof fn lemma_pinned_plan_added(
    pins: Seq<Seq<char>>,
    clients: Seq<WmClient>,
    wm_map: Map<Seq<char>, String>,
    active_class: Seq<char>,
    ignored: Seq<Seq<char>>,
    autohide: bool,
    x: Seq<char>,
)
    ensures
        pinned_plan(pins, clients, wm_map, active_class, ignored, autohide).1.contains(x)
            ==> pins.contains(x),
    decreases pins.len(),
{
    if pins.len() > 0 {
        let t = pins.drop_last();
        lemma_pinned_plan_added(t, clients, wm_map, active_class, ignored, autohide, x);
        if t.contains(x) {
            let k = choose|k: int| 0 <= k < t.len() && t[k] == x;
            assert(pins[k] == x);
        }
        if pins.last() == x {
            assert(pins[pins.len() - 1] == x);
        }
    }
}

/// Law: the pinned buttons follow the pinned order, at most one per
/// pinned position: their positions are valid and strictly increasing.
pub proof fn lemma_pinned_plan_one_button_per_pin(
    pins: Seq<Seq<char>>,
    clients: Seq<WmClient>,
    wm_map: Map<Seq<char>, String>,
    active_class: Seq<char>,
    ignored: Seq<Seq<char>>,
    autohide: bool,
)
    ensures
        forall|k: int|
            0 <= k < pinned_plan(pins, clients, wm_map, active_class, ignored, autohide).0.len()
                ==> 0 <= (#[trigger] pinned_plan(pins, clients, wm_map, active_class, ignored, autohide).0[k]).0
                < pins.len(),
        forall|k1: int, k2: int|
            0 <= k1 < k2 < pinned_plan(pins, clients, wm_map, active_class, ignored, autohide).0.len()
                ==> (#[trigger] pinned_plan(pins, clients, wm_map, active_class, ignored, autohide).0[k1]).0
                < (#[trigger] pinned_plan(pins, clients, wm_map, active_class, ignored, autohide).0[k2]).0,
    decreases pins.len(),
{
    if pins.len() > 0 {
        let t = pins.drop_last();
        lemma_pinned_plan_one_button_per_pin(t, clients, wm_map, active_class, ignored, autohide);
        let mid = pinned_plan(t, clients, wm_map, active_class, ignored, autohide).0;
        let plan = pinned_plan(pins, clients, wm_map, active_class, ignored, autohide).0;
        assert forall|k: int| 0 <= k < mid.len() implies plan[k] == mid[k] by {}
    }
}

/// `b` is the button of pin `pin` at position `i` with open windows
/// `windows`: a launcher when there are none, else a task button over
/// exactly those windows.
pub open spec fn pin_button_is(
    b: (int, Seq<char>, Option<(Seq<WmClient>, bool)>),
    i: int,
    pin: Seq<char>,
    windows: Seq<WmClient>,
) -> bool {
    &&& b.0 == i
    &&& b.1 == pin
    &&& windows.len() == 0 ==> b.2 is None
    &&& windows.len() > 0 ==> (b.2 matches Some(w) && w.0 == windows)
}

/// Law: every pinned item that is not ignored gets a button for its first
/// occurrence in the pinned list: a plain launcher when none of its windows
/// is open, otherwise a task button over all of its windows.
pub proof fn lemma_every_pin_gets_a_button(
    pins: Seq<Seq<char>>,
    clients: Seq<WmClient>,
    wm_map: Map<Seq<char>, String>,
    active_class: Seq<char>,
    ignored: Seq<Seq<char>>,
    autohide: bool,
    i: int,
)
    requires
        0 <= i < pins.len(),
        !ignored.contains(pins[i]),
        forall|j: int| 0 <= j < i ==> pins[j] != pins[i],
    ensures
        exists|k: int|
            0 <= k < pinned_plan(pins, clients, wm_map, active_class, ignored, autohide).0.len()
                && pin_button_is(
                #[trigger] pinned_plan(pins, clients, wm_map, active_class, ignored, autohide).0[k],
                i,
                pins[i],
                instances_of(clients, pins[i], wm_map),
            ),
{
    let p = pins.take(i + 1);
    let before = pins.take(i);
    assert(p.drop_last() =~= before);
    assert(p.last() == pins[i]);
    let (bplan, badded) = pinned_plan(before, clients, wm_map, active_class, ignored, autohide);
    lemma_pinned_plan_added(before, clients, wm_map, active_class, ignored, autohide, pins[i]);
    if before.contains(pins[i]) {
        let j = choose|j: int| 0 <= j < before.len() && before[j] == pins[i];
        assert(pins[j] == pins[i]);
    }
    assert(!badded.contains(pins[i]));
    let pplan = pinned_plan(p, clients, wm_map, active_class, ignored, autohide).0;
    assert(pplan.len() == bplan.len() + 1);
    let k = bplan.len() as int;
    lemma_pinned_plan_prefix(pins, clients, wm_map, active_class, ignored, autohide, i + 1);
    let plan = pinned_plan(pins, clients, wm_map, active_class, ignored, autohide).0;
    assert(plan[k] == plan.take(pplan.len() as int)[k]);
    assert(plan[k] == pplan[k]);
    assert(pin_button_is(plan[k], i, pins[i], instances_of(clients, pins[i], wm_map)));
}

/// Plans the pinned buttons, in pinned order.
pub fn plan_pinned_items<H>(
    state: &DockState<H>,
    pinned: &[String],
    active_class: &str,
    ignored_classes: &[String],
) -> (r: Vec<PinnedButton>)
    ensures
        r@.map_values(|b: PinnedButton| pinned_button_view(b)) == pinned_plan(
            string_views(pinned@),
            state.clients@,
            state.wm_class_to_desktop_id.table(),
            active_class@,
            string_views(ignored_classes@),
            state.config.autohide,
        ).0,
{
    let ghost pins = string_views(pinned@);
    let ghost wm = state.wm_class_to_desktop_id.table();
    let ghost ig = string_views(ignored_classes@);
    let mut out: Vec<PinnedButton> = Vec::new();
    let mut added: Vec<String> = Vec::new();
    let mut i: usize = 0;
    assert(pins.take(0) =~= Seq::<Seq<char>>::empty());
    while i < pinned.len()
        invariant
            i <= pinned@.len(),
            pins == string_views(pinned@),
            wm == state.wm_class_to_desktop_id.table(),
            ig == string_views(ignored_classes@),
            (out@.map_values(|b: PinnedButton| pinned_button_view(b)), string_views(added@))
                == pinned_plan(pins.take(i as int), state.clients@, wm, active_class@, ig, state.config.autohide),
        decreases pinned.len() - i,
    {
        let pin = &pinned[i];
        proof {
            let t = pins.take(i + 1);
            assert(t.drop_last() =~= pins.take(i as int));
            assert(t.last() == pin@);
            assert(t.len() - 1 == i);
        }
        let ghost before_out = out@.map_values(|b: PinnedButton| pinned_button_view(b));
        let ghost before_added = string_views(added@);
        if !find_exact(ignored_classes, pin.as_str()) {
            let instances = state.task_instances(pin.as_str());
            if instances.len() == 0 {
                out.push(PinnedButton::Launcher { index: i, pin: pin.clone() });
                assert(out@.map_values(|b: PinnedButton| pinned_button_view(b)) =~= before_out.push(
                    (i as int, pin@, None),
                ));
            } else if instances.len() == 1 || !find_exact(added.as_slice(), pin.as_str()) {
                let active = str_equal(instances[0].class.as_str(), active_class)
                    && !state.config.autohide;
                let ghost inst = instances@;
                out.push(PinnedButton::Task { index: i, pin: pin.clone(), instances, active });
                assert(out@.map_values(|b: PinnedButton| pinned_button_view(b)) =~= before_out.push(
                    (i as int, pin@, Some((inst, active))),
                ));
                added.push(pin.clone());
                assert(string_views(added@) =~= before_added.push(pin@));
            }
        }
        i += 1;
    }
    assert(pins.take(pins.len() as int) =~= pins);
    out
}

/// How one running (not pinned) app appears: its first window, all its
/// windows, and whether it is marked active.
#[derive(Debug)]
pub struct RunningButton {
    pub task: WmClient,
    pub instances: Vec<WmClient>,
    pub active: bool,
}

/// What a running button stands for.
pub open spec fn running_button_view(b: RunningButton) -> (WmClient, Seq<WmClient>, bool) {
    (b.task, b.instances@, b.active)
}

/// The running buttons for the first `tasks.len()` windows, and the
/// classes given a button so far.
pub open spec fn running_plan(
    tasks: Seq<WmClient>,
    clients: Seq<WmClient>,
    pinned: Seq<Seq<char>>,
    wm_map: Map<Seq<char>, String>,
    active_class: Seq<char>,
    ignored: Seq<Seq<char>>,
    autohide: bool,
) -> (Seq<(WmClient, Seq<WmClient>, bool)>, Seq<Seq<char>>)
    decreases tasks.len(),
{
    if tasks.len() == 0 {
        (Seq::empty(), Seq::empty())
    } else {
        let (plan, added) = running_plan(
            tasks.drop_last(),
            clients,
            pinned,
            wm_map,
            active_class,
            ignored,
            autohide,
        );
        let t = tasks.last();
        let inst = instances_of(clients, t.class@, wm_map);
        if skips_running(t, pinned, ignored, added, wm_map) {
            (plan, added)
        } else if inst.len() == 1 || !added.contains(t.class@) {
            (
                plan.push((t, inst, t.class@ == active_class && !autohide)),
                added.push(t.class@),
            )
        } else {
            (plan, added)
        }
    }
}

/// Plans the buttons of running apps that are not pinned, one per class,
/// in window order.
pub fn plan_running_items<H>(
    state: &DockState<H>,
    clients: &[WmClient],
    pinned: &[String],
    active_class: &str,
    ignored_classes: &[String],
) -> (r: Vec<RunningButton>)
    ensures
        r@.map_values(|b: RunningButton| running_button_view(b)) == running_plan(
            clients@,
            state.clients@,
            string_views(pinned@),
            state.wm_class_to_desktop_id.table(),
            active_class@,
            string_views(ignored_classes@),
            state.config.autohide,
        ).0,
{
    let ghost tasks = clients@;
    let ghost wm = state.wm_class_to_desktop_id.table();
    let ghost pins = string_views(pinned@);
    let ghost ig = string_views(ignored_classes@);
    let mut out: Vec<RunningButton> = Vec::new();
    let mut added: Vec<String> = Vec::new();
    let mut i: usize = 0;
    assert(tasks.take(0) =~= Seq::<WmClient>::empty());
    while i < clients.len()
        invariant
            i <= clients@.len(),
            tasks == clients@,
            wm == state.wm_class_to_desktop_id.table(),
            pins == string_views(pinned@),
            ig == string_views(ignored_classes@),
            (out@.map_values(|b: RunningButton| running_button_view(b)), string_views(added@))
                == running_plan(
                tasks.take(i as int),
                state.clients@,
                pins,
                wm,
                active_class@,
                ig,
                state.config.autohide,
            ),
        decreases clients.len() - i,
    {
        let task = &clients[i];
        proof {
            let t = tasks.take(i + 1);
            assert(t.drop_last() =~= tasks.take(i as int));
            assert(t.last() == *task);
        }
        let ghost before_out = out@.map_values(|b: RunningButton| running_button_view(b));
        let ghost before_added = string_views(added@);
        if !should_skip_running(
            task,
            pinned,
            ignored_classes,
            added.as_slice(),
            &state.wm_class_to_desktop_id,
        ) {
            let instances = state.task_instances(task.class.as_str());
            if instances.len() == 1 || !find_exact(added.as_slice(), task.class.as_str()) {
                let active = str_equal(task.class.as_str(), active_class) && !state.config.autohide;
                let ghost inst = instances@;
                out.push(RunningButton { task: task.clone(), instances, active });
                assert(out@.map_values(|b: RunningButton| running_button_view(b)) =~= before_out.push(
                    (*task, inst, active),
                ));
                added.push(task.class.clone());
                assert(string_views(added@) =~= before_added.push(task.class@));
            }
        }
        i += 1;
    }
    assert(tasks.take(tasks.len() as int) =~= tasks);
    out
}

/// CSS classes that make an item bounce while its app launches: none
/// unless launch animation is on and the lowercased app id has a launch in
/// flight; the vertical variant is added on a vertical dock.
pub fn launching_classes<H>(state: &DockState<H>, app_id: &str) -> (r: Vec<&'static str>)
    ensures
        r@.len() == 0 <==> !(state.config.launch_animation
            && state.launching.table().contains_key(unicode_lowercase(app_id@))),
        r@.len() > 0 ==> r@[0] == "dock-launching" && (r@.len() == 2 <==> (state.config.position
            == crate::config::Position::Left || state.config.position
            == crate::config::Position::Right)) && (r@.len() == 2 ==> r@[1]
            == "dock-launching-vertical") && r@.len() <= 2,
{
    let mut classes: Vec<&'static str> = Vec::new();
    if state.config.launch_animation && state.is_launching(to_lowercase(app_id).as_str()) {
        classes.push("dock-launching");
        if state.config.is_vertical() {
            classes.push("dock-launching-vertical");
        }
    }
    classes
}

} // verus!
