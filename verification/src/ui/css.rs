//! Generated stylesheets: the GTK4 compatibility rules, the background
//! opacity override and the launch-bounce animation.

use vstd::prelude::*;
use crate::text::{append_digit, append_nat, digit_char, nat_digits};

verus! {

/// Default dock background colour, red component.
pub const DEFAULT_BG_R: u8 = 54;
/// Default dock background colour, green component.
pub const DEFAULT_BG_G: u8 = 54;
/// Default dock background colour, blue component.
pub const DEFAULT_BG_B: u8 = 79;
/// Default background opacity, in percent, of the embedded stylesheet.
pub const DEFAULT_BG_ALPHA_PERCENT: u8 = 75;
/// Opacity settings are percentages up to this value.
pub const OPACITY_PERCENT_MAX: u8 = 100;

/// Peak bounce height in pixels of the launch animation.
pub const LAUNCH_BOUNCE_HEIGHT_PX: u32 = 12;
/// Downward dip in pixels at the bottom of a bounce.
pub const LAUNCH_BOUNCE_DIP_PX: u32 = 4;
/// Duration of one bounce cycle in milliseconds.
pub const LAUNCH_BOUNCE_DURATION_MS: u32 = 600;

/// Stylesheet text before the default background colour.
pub const COMPAT_CSS_HEAD: &'static str = "\nwindow {\n    background-color: rgba(";

/// Stylesheet text after the default background colour.
pub const COMPAT_CSS_TAIL: &'static str = ");\n}\n.dock-button {\n    min-height: 0;\n    min-width: 0;\n}\n.dock-button image {\n    margin: 0;\n    padding: 0;\n}\n.dock-indicator {\n    margin: 0;\n    padding: 0;\n    min-height: 0;\n    min-width: 0;\n}\n\n/* Drag-to-reorder */\n.dock-item {\n    transition: margin 150ms ease-in-out;\n}\n\n/* Suppress GTK4 default button highlight during drag */\n.dock-button:active {\n    background: none;\n    box-shadow: none;\n}\n\n/* Removal icon shown when dragging outside dock */\n.drag-remove-icon {\n    color: #e06c75;\n}\n\n/* Workspace switcher row + buttons (--ws flag).\n   Pill-shaped, subtle inactive state, brighter active.\n   Sized to feel proportional next to dock icons without competing\n   with them. Override via style.css if you want a different look. */\n.dock-workspace-row {\n    margin: 0 4px;\n    padding: 0;\n}\n.dock-workspace-button {\n    min-width: 28px;\n    min-height: 28px;\n    margin: 4px 2px;\n    padding: 0 8px;\n    border-radius: 14px;\n    background-color: rgba(255, 255, 255, 0.08);\n    color: rgba(255, 255, 255, 0.65);\n    font-weight: 500;\n    font-size: 12px;\n    border: none;\n    box-shadow: none;\n}\n.dock-workspace-button:hover {\n    background-color: rgba(255, 255, 255, 0.18);\n    color: rgba(255, 255, 255, 0.95);\n}\n.dock-workspace-active {\n    background-color: rgba(255, 255, 255, 0.3);\n    color: rgba(255, 255, 255, 1.0);\n}\n";

/// An opacity percentage (capped at 100) as a two-decimal fraction:
/// `1.00` for 100 and more, else `0.` and two digits.
pub open spec fn alpha_text(percent: nat) -> Seq<char> {
    if percent >= 100 {
        seq!['1', '.', '0', '0']
    } else {
        seq!['0', '.', digit_char(percent / 10), digit_char(percent % 10)]
    }
}

/// `r, g, b, alpha` as they appear inside `rgba(...)`.
pub open spec fn rgba_args(r: nat, g: nat, b: nat, percent: nat) -> Seq<char> {
    nat_digits(r) + seq![',', ' '] + nat_digits(g) + seq![',', ' '] + nat_digits(b) + seq![',', ' ']
        + alpha_text(percent)
}

fn append_alpha(out: &mut String, percent: u8)
    ensures
        final(out)@ == old(out)@ + alpha_text(percent as nat),
{
    let p = if percent > OPACITY_PERCENT_MAX { OPACITY_PERCENT_MAX } else { percent };
    if p >= 100 {
        append_digit(out, 1);
        out.append(".");
        append_digit(out, 0);
        append_digit(out, 0);
        proof {
            reveal_strlit(".");
        }
    } else {
        append_digit(out, 0);
        out.append(".");
        append_digit(out, (p / 10) as u64);
        append_digit(out, (p % 10) as u64);
        proof {
            reveal_strlit(".");
        }
    }
    assert(final_view_is(out@, old(out)@, percent as nat));
}

/// `now` is `before` followed by the alpha text of `percent`.
spec fn final_view_is(now: Seq<char>, before: Seq<char>, percent: nat) -> bool {
    now =~= before + alpha_text(percent)
}

fn append_rgba_args(out: &mut String, r: u8, g: u8, b: u8, percent: u8)
    ensures
        final(out)@ == old(out)@ + rgba_args(r as nat, g as nat, b as nat, percent as nat),
{
    let ghost start = out@;
    proof {
        reveal_strlit(", ");
    }
    append_nat(out, r as u64);
    out.append(", ");
    append_nat(out, g as u64);
    out.append(", ");
    append_nat(out, b as u64);
    out.append(", ");
    append_alpha(out, percent);
    assert(out@ =~= start + rgba_args(r as nat, g as nat, b as nat, percent as nat));
}

/// The embedded GTK4 compatibility stylesheet: compact buttons,
/// transparent background, tight indicators, drag and workspace-switcher
/// rules, with the default background colour and opacity.
pub fn gtk4_compat_css() -> (r: String)
    ensures
        r@ == COMPAT_CSS_HEAD@ + rgba_args(
            DEFAULT_BG_R as nat,
            DEFAULT_BG_G as nat,
            DEFAULT_BG_B as nat,
            DEFAULT_BG_ALPHA_PERCENT as nat,
        ) + COMPAT_CSS_TAIL@,
{
    let mut s = String::from_str(COMPAT_CSS_HEAD);
    append_rgba_args(&mut s, DEFAULT_BG_R, DEFAULT_BG_G, DEFAULT_BG_B, DEFAULT_BG_ALPHA_PERCENT);
    s.append(COMPAT_CSS_TAIL);
    s
}

/// The override rule that sets the window background to the default
/// colour at `opacity` percent (capped at 100).
pub fn opacity_css(opacity: u8) -> (r: String)
    ensures
        r@ == "window { background-color: rgba("@ + rgba_args(
            DEFAULT_BG_R as nat,
            DEFAULT_BG_G as nat,
            DEFAULT_BG_B as nat,
            opacity as nat,
        ) + "); }"@,
{
    let mut s = String::from_str("window { background-color: rgba(");
    append_rgba_args(&mut s, DEFAULT_BG_R, DEFAULT_BG_G, DEFAULT_BG_B, opacity);
    s.append("); }");
    s
}

/// The launch-bounce keyframes (horizontal and vertical) and the two
/// classes that run them, with the bounce height, dip and duration.
pub fn bounce_css() -> (r: String)
    ensures
        r@ == "@keyframes dock-bounce {0%   { transform: translateY(0px); }30%  { transform: translateY(-"@
            + nat_digits(LAUNCH_BOUNCE_HEIGHT_PX as nat)
            + "px); }60%  { transform: translateY(0px); }78%  { transform: translateY("@
            + nat_digits(LAUNCH_BOUNCE_DIP_PX as nat)
            + "px); }100% { transform: translateY(0px); }}@keyframes dock-bounce-vertical {0%   { transform: translateX(0px); }30%  { transform: translateX(-"@
            + nat_digits(LAUNCH_BOUNCE_HEIGHT_PX as nat)
            + "px); }60%  { transform: translateX(0px); }78%  { transform: translateX("@
            + nat_digits(LAUNCH_BOUNCE_DIP_PX as nat)
            + "px); }100% { transform: translateX(0px); }}.dock-launching { animation: dock-bounce "@
            + nat_digits(LAUNCH_BOUNCE_DURATION_MS as nat)
            + "ms linear infinite; }.dock-launching-vertical { animation: dock-bounce-vertical "@
            + nat_digits(LAUNCH_BOUNCE_DURATION_MS as nat) + "ms linear infinite; }"@,
{
    let mut s = String::from_str(
        "@keyframes dock-bounce {0%   { transform: translateY(0px); }30%  { transform: translateY(-",
    );
    append_nat(&mut s, LAUNCH_BOUNCE_HEIGHT_PX as u64);
    s.append("px); }60%  { transform: translateY(0px); }78%  { transform: translateY(");
    append_nat(&mut s, LAUNCH_BOUNCE_DIP_PX as u64);
    s.append(
        "px); }100% { transform: translateY(0px); }}@keyframes dock-bounce-vertical {0%   { transform: translateX(0px); }30%  { transform: translateX(-",
    );
    append_nat(&mut s, LAUNCH_BOUNCE_HEIGHT_PX as u64);
    s.append("px); }60%  { transform: translateX(0px); }78%  { transform: translateX(");
    append_nat(&mut s, LAUNCH_BOUNCE_DIP_PX as u64);
    s.append(
        "px); }100% { transform: translateX(0px); }}.dock-launching { animation: dock-bounce ",
    );
    append_nat(&mut s, LAUNCH_BOUNCE_DURATION_MS as u64);
    s.append("ms linear infinite; }.dock-launching-vertical { animation: dock-bounce-vertical ");
    append_nat(&mut s, LAUNCH_BOUNCE_DURATION_MS as u64);
    s.append("ms linear infinite; }");
    s
}

} // verus!
