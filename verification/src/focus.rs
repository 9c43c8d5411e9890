//! Focus scopes: trapped tab order for overlays and composites.
use vstd::prelude::*;
use vstd::string::*;

use crate::dom::opt_str_view;
use crate::text::{
    ascii_lowercase_spec, parse_i32, parse_i32_spec, str_eq, to_ascii_lowercase, trim_spec, trim_str,
};

verus! {

/// The selector that finds focusable descendants of a focus scope.
pub open spec fn focus_selector_spec() -> Seq<char> {
    "a[href],button,textarea,input,select,[tabindex]:not([tabindex='-1'])"@
}

/// Returns the selector used to find focusable descendants in a focus scope.
pub fn focus_scope_selector() -> (s: &'static str)
    ensures
        s@ == focus_selector_spec(),
{
    "a[href],button,textarea,input,select,[tabindex]:not([tabindex='-1'])"
}

/// The element that a tab press moves to among `count` tabbable elements,
/// from the focused one (`current`, when focus is inside the sequence):
/// backward with `shift`, forward otherwise, wrapping at both ends; from
/// outside the sequence, the last element backward and the first forward.
pub open spec fn focus_target_spec(current: Option<usize>, count: usize, shift: bool) -> int {
    if count == 0 {
        0
    } else {
        match current {
            Some(c) => if shift {
                if c == 0 {
                    count - 1
                } else {
                    c - 1
                }
            } else if c + 1 >= count {
                0
            } else {
                c + 1
            },
            None => if shift {
                count - 1
            } else {
                0
            },
        }
    }
}

/// Returns the index that focus moves to in a trapped tab sequence.
pub fn focus_scope_target_index(current: Option<usize>, count: usize, shift: bool) -> (index: usize)
    ensures
        index == focus_target_spec(current, count, shift),
        current is Some && !shift && current->0 + 1 < count ==> index == current->0 + 1,
        current is Some && shift && 0 < current->0 < count ==> index == current->0 - 1,
{
    proof {
        if let Some(c) = current {
            lemma_focus_steps_by_one(c, count);
        }
    }
    if count == 0 {
        return 0;
    }
    match current {
        Some(current) => {
            if shift {
                if current == 0 {
                    count - 1
                } else {
                    current - 1
                }
            } else if current >= count - 1 {
                0
            } else {
                current + 1
            }
        },
        None => if shift {
            count - 1
        } else {
            0
        },
    }
}

/// Returns the next focus index for a trapped tab sequence.
///
/// `shift = true` moves backward; otherwise it moves forward.
pub fn focus_scope_next_index(current: usize, count: usize, shift: bool) -> (index: usize)
    ensures
        index == focus_target_spec(Some(current), count, shift),
        !shift && current + 1 < count ==> index == current + 1,
        shift && 0 < current < count ==> index == current - 1,
{
    proof {
        lemma_focus_steps_by_one(current, count);
    }
    focus_scope_target_index(Some(current), count, shift)
}

/// Tab and Shift+Tab move one element at a time: forward from any element
/// but the last to the next one, backward from any element but the first to
/// the previous one.
pub proof fn lemma_focus_steps_by_one(current: usize, count: usize)
    ensures
        current + 1 < count ==> focus_target_spec(Some(current), count, false) == current + 1,
        0 < current < count ==> focus_target_spec(Some(current), count, true) == current - 1,
        current + 1 >= count ==> focus_target_spec(Some(current), count, false) == 0,
        0 < current && 0 < count ==> focus_target_spec(Some(current), count, true) == current - 1,
        current == 0 && 0 < count ==> focus_target_spec(Some(current), count, true) == count - 1,
        count == 0 ==> focus_target_spec(Some(current), count, true) == 0,
{
}

/// Tabbing never leaves a non-empty sequence, and a tab followed by a
/// shift-tab returns to where focus was (and the other way round).
pub proof fn lemma_focus_cycle(current: usize, count: usize, shift: bool)
    requires
        current < count,
    ensures
        0 <= focus_target_spec(Some(current), count, shift) < count,
        focus_target_spec(
            Some(focus_target_spec(Some(current), count, shift) as usize),
            count,
            !shift,
        ) == current,
{
}

/// Entering a non-empty sequence from outside lands on its first element
/// going forward and on its last going backward; tabbing forward from the
/// last element wraps to the first, and backward from the first to the last.
pub proof fn lemma_focus_entry_and_wrap(count: usize)
    requires
        count > 0,
    ensures
        focus_target_spec(None, count, false) == 0,
        focus_target_spec(None, count, true) == count - 1,
        focus_target_spec(Some((count - 1) as usize), count, false) == 0,
        focus_target_spec(Some(0), count, true) == count - 1,
{
}

/// Computed `display` and `visibility` values that keep an element from
/// being seen: `display: none`, or `visibility` `hidden` or `collapse`.
pub open spec fn style_hides_spec(display: Seq<char>, visibility: Seq<char>) -> bool {
    display == "none"@ || visibility == "hidden"@ || visibility == "collapse"@
}

/// Returns whether computed `display` and `visibility` values hide an
/// element.
pub fn focus_style_hides(display: &str, visibility: &str) -> (r: bool)
    ensures
        r == style_hides_spec(display@, visibility@),
{
    str_eq(display, "none") || str_eq(visibility, "hidden") || str_eq(visibility, "collapse")
}

/// An element keeps its subtree out of the tab order when it has the
/// `hidden` or `inert` attribute, an `aria-hidden` of `true` in any ASCII
/// case, or a hiding computed style.
pub open spec fn hides_subtree_spec(
    hidden: bool,
    inert: bool,
    aria_hidden: Option<Seq<char>>,
    style_hides: bool,
) -> bool {
    hidden || inert || (aria_hidden is Some && ascii_lowercase_spec(aria_hidden->0)
        == "true"@) || style_hides
}

/// Returns whether an element keeps its subtree out of the tab order.
pub fn focus_element_hides_subtree(
    hidden: bool,
    inert: bool,
    aria_hidden: Option<&str>,
    style_hides: bool,
) -> (r: bool)
    ensures
        r == hides_subtree_spec(hidden, inert, opt_str_view(aria_hidden), style_hides),
{
    if hidden || inert || style_hides {
        return true;
    }
    match aria_hidden {
        Some(value) => {
            let lower = to_ascii_lowercase(value);
            str_eq(lower.as_str(), "true")
        },
        None => false,
    }
}

/// A `tabindex` attribute takes an element out of the tab order when its
/// value, trimmed, parses as a negative `i32`; a missing or unparsable value
/// does not.
pub open spec fn negative_tabindex_spec(tabindex: Option<Seq<char>>) -> bool {
    match tabindex {
        Some(v) => match parse_i32_spec(trim_spec(v)) {
            Some(x) => x < 0,
            None => false,
        },
        None => false,
    }
}

/// Returns whether a `tabindex` attribute value takes an element out of the
/// tab order.
pub fn focus_tabindex_is_negative(tabindex: Option<&str>) -> (r: bool)
    ensures
        r == negative_tabindex_spec(opt_str_view(tabindex)),
{
    match tabindex {
        Some(value) => {
            let trimmed = trim_str(value);
            match parse_i32(trimmed.as_str()) {
                Some(x) => x < 0,
                None => false,
            }
        },
        None => false,
    }
}

/// Whether a trapped scope takes over a key press: the key is `Tab`, and
/// the event target lies inside the scope and belongs to it rather than to
/// a nested scope.
pub fn focus_trap_handles(key: &str, target_inside: bool, owned_by_scope: bool) -> (r: bool)
    ensures
        r == (key@ == "Tab"@ && target_inside && owned_by_scope),
{
    str_eq(key, "Tab") && target_inside && owned_by_scope
}

/// Returns whether a candidate joins the trapped tab sequence: it belongs
/// to this scope (not a nested one), is not disabled, has no negative
/// `tabindex`, has no hiding ancestor within the scope, and has a layout box.
pub fn focus_candidate_is_tabbable(
    belongs_to_scope: bool,
    disabled: bool,
    negative_tabindex: bool,
    hidden_ancestor: bool,
    has_layout_box: bool,
) -> (r: bool)
    ensures
        r == (belongs_to_scope && !disabled && !negative_tabindex && !hidden_ancestor
            && has_layout_box),
{
    belongs_to_scope && !disabled && !negative_tabindex && !hidden_ancestor && has_layout_box
}

} // verus!
