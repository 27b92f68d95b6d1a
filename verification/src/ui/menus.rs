//! Menu contents: window titles, per-window actions, focusing a window or
//! its special workspace, pinning from the context menu, and the dock
//! background's lock toggle.

use vstd::prelude::*;
use crate::compositor::WmClient;
use crate::text::{has_prefix, int_text, i32_text, starts_with_str, strip_prefix_str, string_views};
use crate::ui::pinning::{is_pinned, names_item, pin_item, pinned_contains, unpin_item};

verus! {

/// Characters of a window title shown in menus.
pub const MENU_TITLE_MAX: usize = 25;

/// At most `max` characters of `title`, with `...` appended when it was
/// cut.
pub open spec fn truncated(title: Seq<char>, max: nat) -> Seq<char> {
    if title.len() > max {
        title.take(max as int) + seq!['.', '.', '.']
    } else {
        title
    }
}

/// Shortens a title to `max` characters plus `...`.
pub fn truncate_title(title: &str, max: usize) -> (r: String)
    ensures
        r@ == truncated(title@, max as nat),
{
    let n = title.unicode_len();
    if n > max {
        let mut s = String::from_str(title.substring_char(0, max));
        s.append("...");
        proof {
            reveal_strlit("...");
        }
        assert(s@ =~= title@.take(max as int) + seq!['.', '.', '.']);
        s
    } else {
        String::from_str(title)
    }
}

/// Menu label of a window: its shortened title and its workspace name in
/// parentheses.
pub open spec fn instance_label_text(c: WmClient) -> Seq<char> {
    truncated(c.title@, MENU_TITLE_MAX as nat) + seq![' ', '('] + c.workspace.name@ + seq![')']
}

/// The menu label of a window.
pub fn instance_label(c: &WmClient) -> (r: String)
    ensures
        r@ == instance_label_text(*c),
{
    let mut s = truncate_title(c.title.as_str(), MENU_TITLE_MAX);
    s.append(" (");
    s.append(c.workspace.name.as_str());
    s.append(")");
    proof {
        reveal_strlit(" (");
        reveal_strlit(")");
    }
    assert(s@ =~= instance_label_text(*c));
    s
}

/// How to bring a window forward.
#[derive(Debug, PartialEq, Eq)]
pub enum FocusAction {
    /// Toggle the named special (scratchpad) workspace.
    ToggleSpecial(String),
    /// Focus the window by id.
    FocusWindow(String),
}

/// A window on a `special...` workspace is reached by toggling that
/// special workspace (the name after `special:`, empty when absent); any
/// other window is focused by id. The active window is raised afterwards
/// in both cases.
pub fn focus_plan(id: &str, workspace_name: &str) -> (r: FocusAction)
    ensures
        has_prefix(workspace_name@, "special"@) ==> (r matches FocusAction::ToggleSpecial(n) && n@ == (
        if has_prefix(workspace_name@, "special:"@) {
            workspace_name@.skip(8)
        } else {
            Seq::<char>::empty()
        })),
        !has_prefix(workspace_name@, "special"@) ==> (r matches FocusAction::FocusWindow(w) && w@
            == id@),
{
    if starts_with_str(workspace_name, "special") {
        proof {
            reveal_strlit("special:");
        }
        match strip_prefix_str(workspace_name, "special:") {
            Some(rest) => FocusAction::ToggleSpecial(rest),
            None => FocusAction::ToggleSpecial(String::new()),
        }
    } else {
        FocusAction::FocusWindow(String::from_str(id))
    }
}

/// The move-to-workspace action labels `-> WS 1` .. `-> WS num_ws`.
pub fn workspace_action_labels(num_ws: i32) -> (r: Vec<String>)
    ensures
        r@.len() == (if num_ws <= 0 { 0 } else { num_ws as int }),
        forall|i: int|
            0 <= i < r@.len() ==> #[trigger] r@[i]@ == seq!['-', '>', ' ', 'W', 'S', ' '] + int_text(
                i + 1,
            ),
{
    let mut out: Vec<String> = Vec::new();
    if num_ws <= 0 {
        return out;
    }
    let mut n: i64 = 1;
    while n <= num_ws as i64
        invariant
            1 <= n <= num_ws + 1,
            num_ws > 0,
            out@.len() == n - 1,
            forall|i: int|
                0 <= i < out@.len() ==> #[trigger] out@[i]@ == seq!['-', '>', ' ', 'W', 'S', ' ']
                    + int_text(i + 1),
        decreases num_ws + 1 - n,
    {
        let mut label = String::from_str("-> WS ");
        label.append(i32_text(n as i32).as_str());
        proof {
            reveal_strlit("-> WS ");
        }
        let ghost before = out@;
        out.push(label);
        assert forall|i: int|
            0 <= i < out@.len() implies #[trigger] out@[i]@ == seq!['-', '>', ' ', 'W', 'S', ' ']
            + int_text(i + 1) by {
            if i < before.len() {
                assert(out@[i] == before[i]);
            }
        }
        n += 1;
    }
    out
}

/// Label of the context menu's pin toggle.
pub fn pin_toggle_label(pinned: &[String], class: &str) -> (r: &'static str)
    ensures
        r@ == (if pinned_contains(string_views(pinned@), class@) {
            "Unpin"@
        } else {
            "Pin"@
        }),
{
    if is_pinned(pinned, class) {
        "Unpin"
    } else {
        "Pin"
    }
}

/// The context menu's pin toggle: unpins `class` when it was pinned when
/// the menu opened, pins it otherwise.
pub fn toggle_pin(pinned: &mut Vec<String>, class: &str, was_pinned: bool)
    ensures
        was_pinned ==> final(pinned)@ == old(pinned)@.filter(|p: String| !names_item(p@, class@)),
        !was_pinned && pinned_contains(string_views(old(pinned)@), class@) ==> final(pinned)@ == old(
            pinned,
        )@,
        !was_pinned && !pinned_contains(string_views(old(pinned)@), class@) ==> string_views(
            final(pinned)@,
        ) == string_views(old(pinned)@).push(crate::text::trim(class@)),
{
    if was_pinned {
        unpin_item(pinned, class);
    } else {
        pin_item(pinned, class);
    }
}

/// Label of the dock background menu's lock toggle.
pub fn lock_menu_label(locked: bool) -> (r: &'static str)
    ensures
        r@ == (if locked {
            "Unlock arrangement"@
        } else {
            "Lock arrangement"@
        }),
{
    if locked {
        "Unlock arrangement"
    } else {
        "Lock arrangement"
    }
}

/// The saved lock state's file contents: `true` or `false`.
pub fn lock_state_text(locked: bool) -> (r: &'static str)
    ensures
        r@ == (if locked {
            "true"@
        } else {
            "false"@
        }),
{
    if locked {
        "true"
    } else {
        "false"
    }
}

/// Reads saved lock-state contents: `true` or `false` after trimming;
/// anything else is `None` (reported, and treated as unlocked).
pub fn parse_lock_state(contents: &str) -> (r: Option<bool>)
    ensures
        r == (if crate::text::trim(contents@) == "true"@ {
            Some(true)
        } else if crate::text::trim(contents@) == "false"@ {
            Some(false)
        } else {
            None
        }),
{
    let t = crate::text::trim_str(contents);
    if crate::text::str_equal(t.as_str(), "true") {
        Some(true)
    } else if crate::text::str_equal(t.as_str(), "false") {
        Some(false)
    } else {
        None
    }
}

} // verus!
