//! Reading the comma-separated timing lists of computed styles
//! (`transition-property`, `animation-name`, durations, delays, ...), and
//! choosing which exit tracks a presence close cycle waits for.
use vstd::prelude::*;
use vstd::string::*;

use crate::text::{
    ascii_lowercase_spec, chars_of, str_eq, to_ascii_lowercase, trim_bounds, trim_spec, trim_str,
};

verus! {

/// Where the list reader stands before a character: inside a quoted string
/// (and which quote closes it), right after a backslash, and how deeply
/// nested in parentheses.
pub struct CssScan {
    pub quote: Option<char>,
    pub escaped: bool,
    pub depth: u32,
}

/// The reader's state at the start of a value.
pub open spec fn css_scan_start() -> CssScan {
    CssScan { quote: None, escaped: false, depth: 0 }
}

/// A comma outside quotes and parentheses, not escaped, separates items.
pub open spec fn css_is_separator(st: CssScan, c: char) -> bool {
    !st.escaped && c != '\\' && st.quote is None && c == ',' && st.depth == 0
}

/// The reader's state after character `c`.
pub open spec fn css_scan_step(st: CssScan, c: char) -> CssScan {
    if st.escaped {
        CssScan { escaped: false, ..st }
    } else if c == '\\' {
        CssScan { escaped: true, ..st }
    } else if st.quote is Some {
        if Some(c) == st.quote {
            CssScan { quote: None, ..st }
        } else {
            st
        }
    } else if c == '\'' || c == '"' {
        CssScan { quote: Some(c), ..st }
    } else if c == '(' {
        CssScan { depth: if st.depth == u32::MAX { st.depth } else { (st.depth + 1) as u32 }, ..st }
    } else if c == ')' {
        CssScan { depth: if st.depth == 0 { 0 } else { (st.depth - 1) as u32 }, ..st }
    } else {
        st
    }
}

/// The reader's state before character `i` of `s`.
pub open spec fn css_scan_before(s: Seq<char>, i: int) -> CssScan
    decreases i,
{
    if i <= 0 {
        css_scan_start()
    } else {
        css_scan_step(css_scan_before(s, i - 1), s[i - 1])
    }
}

/// The positions, below `n`, of the commas that separate items of `s`.
pub open spec fn css_separators_upto(s: Seq<char>, n: int) -> Seq<int>
    decreases n,
{
    if n <= 0 {
        Seq::empty()
    } else if css_is_separator(css_scan_before(s, n - 1), s[n - 1]) {
        css_separators_upto(s, n - 1).push(n - 1)
    } else {
        css_separators_upto(s, n - 1)
    }
}

/// Where item `k` starts, given the separator positions.
pub open spec fn css_piece_start(seps: Seq<int>, k: int) -> int {
    if k == 0 {
        0
    } else {
        seps[k - 1] + 1
    }
}

/// Where item `k` ends, given the separator positions.
pub open spec fn css_piece_end(seps: Seq<int>, len: int, k: int) -> int {
    if k < seps.len() {
        seps[k]
    } else {
        len
    }
}

/// Item `k` of `s`, trimmed.
pub open spec fn css_piece(s: Seq<char>, seps: Seq<int>, k: int) -> Seq<char> {
    trim_spec(s.subrange(css_piece_start(seps, k), css_piece_end(seps, s.len() as int, k)))
}

/// The items of the comma-separated list `s`, each trimmed: one more than
/// there are separating commas.
pub open spec fn css_list_spec(s: Seq<char>) -> Seq<Seq<char>> {
    let seps = css_separators_upto(s, s.len() as int);
    Seq::new(seps.len() + 1, |k: int| css_piece(s, seps, k))
}

/// The characters of each string.
pub open spec fn strings_view(v: Seq<String>) -> Seq<Seq<char>> {
    v.map_values(|x: String| x@)
}

proof fn lemma_separators_bounded(s: Seq<char>, n: int)
    requires
        0 <= n,
    ensures
        forall|k: int|
            0 <= k < css_separators_upto(s, n).len() ==> 0 <= #[trigger] css_separators_upto(
                s,
                n,
            )[k] < n,
    decreases n,
{
    if n > 0 {
        lemma_separators_bounded(s, n - 1);
        let prev = css_separators_upto(s, n - 1);
        let cur = css_separators_upto(s, n);
        assert forall|k: int| 0 <= k < cur.len() implies 0 <= #[trigger] cur[k] < n by {
            if k < prev.len() {
                assert(cur[k] == prev[k]);
            }
        }
    }
}

/// Splits a computed-style list on the commas that stand outside quotes,
/// parentheses and escapes, and trims each item. An empty value gives one
/// empty item.
pub fn presence_split_css_list(value: &str) -> (values: Vec<String>)
    ensures
        strings_view(values@) == css_list_spec(value@),
{
    let chars = chars_of(value);
    let n = chars.len();
    let ghost s = value@;
    let mut values: Vec<String> = Vec::new();
    let mut start: usize = 0;
    let mut quote: Option<char> = None;
    let mut escaped = false;
    let mut depth: u32 = 0;
    let mut i: usize = 0;
    while i < n
        invariant
            chars@ == s,
            value@ == s,
            n == s.len(),
            0 <= i <= n,
            (CssScan { quote, escaped, depth }) == css_scan_before(s, i as int),
            values@.len() == css_separators_upto(s, i as int).len(),
            start == css_piece_start(css_separators_upto(s, i as int), values@.len() as int),
            start <= i,
            forall|k: int|
                0 <= k < values@.len() ==> #[trigger] values@[k]@ == css_piece(
                    s,
                    css_separators_upto(s, i as int),
                    k,
                ),
        decreases n - i,
    {
        let c = chars[i];
        let ghost seps = css_separators_upto(s, i as int);
        let ghost before = values@;
        proof {
            lemma_separators_bounded(s, i as int);
        }
        if escaped {
            escaped = false;
        } else if c == '\\' {
            escaped = true;
        } else if quote.is_some() {
            if quote == Some(c) {
                quote = None;
            }
        } else if c == '\'' || c == '"' {
            quote = Some(c);
        } else if c == '(' {
            depth = depth.saturating_add(1);
        } else if c == ')' {
            depth = depth.saturating_sub(1);
        } else if c == ',' && depth == 0 {
            let (lo, hi) = trim_bounds(&chars, start, i);
            let piece = value.substring_char(lo, hi).to_owned();
            let ghost old_len = values@.len() as int;
            proof {
                let seps2 = seps.push(i as int);
                assert(css_piece_end(seps2, s.len() as int, old_len) == i);
                if old_len > 0 {
                    assert(seps2[old_len - 1] == seps[old_len - 1]);
                }
                assert(css_piece_start(seps2, old_len) == start);
                assert(piece@ == css_piece(s, seps2, old_len));
            }
            values.push(piece);
            assert(values@[old_len]@ == css_piece(s, seps.push(i as int), old_len));
            start = i + 1;
        }
        proof {
            let seps2 = css_separators_upto(s, i + 1);
            assert(css_scan_before(s, i + 1) == css_scan_step(css_scan_before(s, i as int), c));
            if css_is_separator(css_scan_before(s, i as int), c) {
                assert(seps2 == seps.push(i as int));
                assert forall|k: int| 0 <= k < values@.len() implies #[trigger] values@[k]@
                    == css_piece(s, seps2, k) by {
                    if k < seps.len() {
                        assert(values@[k] == before[k]);
                        assert(seps2[k] == seps[k]);
                        if k > 0 {
                            assert(seps2[k - 1] == seps[k - 1]);
                        }
                    }
                }
            } else {
                assert(seps2 == seps);
            }
        }
        i = i + 1;
    }
    let ghost seps = css_separators_upto(s, n as int);
    proof {
        lemma_separators_bounded(s, n as int);
    }
    let (lo, hi) = trim_bounds(&chars, start, n);
    values.push(value.substring_char(lo, hi).to_owned());
    assert(strings_view(values@) =~= css_list_spec(s));
    values
}

/// Item `index` of a list that repeats cyclically, or nothing for an empty
/// list.
pub fn presence_cyclic_value(values: &[String], index: usize) -> (r: Option<&str>)
    ensures
        values@.len() == 0 ==> r is None,
        values@.len() > 0 ==> r is Some && r->0@ == values@[index as int % values@.len() as int]@,
{
    if values.len() == 0 {
        None
    } else {
        Some(values[index % values.len()].as_str())
    }
}

/// Whether an animation runs or is paused.
#[derive(Debug, Clone, Copy, PartialEq, Eq)]
pub enum PresencePlayState {
    Running,
    Paused,
}

/// Reads an `animation-play-state` item: `running` or `paused`, ignoring
/// ASCII case and surrounding white space.
pub fn presence_parse_play_state(value: &str) -> (r: Result<PresencePlayState, &'static str>)
    ensures
        ascii_lowercase_spec(trim_spec(value@)) == "running"@ ==> r == Ok::<
            PresencePlayState,
            &'static str,
        >(PresencePlayState::Running),
        ascii_lowercase_spec(trim_spec(value@)) == "paused"@ ==> r == Ok::<
            PresencePlayState,
            &'static str,
        >(PresencePlayState::Paused),
        ascii_lowercase_spec(trim_spec(value@)) != "running"@ && ascii_lowercase_spec(
            trim_spec(value@),
        ) != "paused"@ ==> r is Err && r->Err_0@ == "invalid-play-state"@,
{
    let trimmed = trim_str(value);
    let lower = to_ascii_lowercase(trimmed.as_str());
    proof {
        reveal_strlit("running");
        reveal_strlit("paused");
        assert("running"@.len() != "paused"@.len());
    }
    if lower == String::from_str("running") {
        Ok(PresencePlayState::Running)
    } else if lower == String::from_str("paused") {
        Ok(PresencePlayState::Paused)
    } else {
        Err("invalid-play-state")
    }
}

/// A transition slot that an exit waits for: its position in the
/// `transition-property` list and its property, in ASCII lower case
/// (`all` stands for every property).
#[derive(Debug, Clone, PartialEq, Eq)]
pub struct TransitionSlot {
    pub slot: usize,
    pub property: String,
}

/// The property of a `transition-property` item: trimmed, in lower case.
pub open spec fn transition_property(item: Seq<char>) -> Seq<char> {
    ascii_lowercase_spec(trim_spec(item))
}

/// Slot `slot` governs its property: it is not `none`, no later slot names
/// the same property, and no later slot is `all`.
pub open spec fn transition_retained(items: Seq<Seq<char>>, slot: int) -> bool {
    let p = transition_property(items[slot]);
    &&& p != "none"@
    &&& forall|j: int|
        slot < j < items.len() ==> transition_property(#[trigger] items[j]) != p
            && transition_property(items[j]) != "all"@
}

/// The governing slots among the first `n`, in order, with their properties.
pub open spec fn transition_slots_upto(items: Seq<Seq<char>>, n: int) -> Seq<(int, Seq<char>)>
    decreases n,
{
    if n <= 0 {
        Seq::empty()
    } else if transition_retained(items, n - 1) {
        transition_slots_upto(items, n - 1).push((n - 1, transition_property(items[n - 1])))
    } else {
        transition_slots_upto(items, n - 1)
    }
}

/// The slots and properties of a list of transition slots.
pub open spec fn transition_slots_view(v: Seq<TransitionSlot>) -> Seq<(int, Seq<char>)> {
    v.map_values(|t: TransitionSlot| (t.slot as int, t.property@))
}

fn trimmed_lower(items: &[String]) -> (r: Vec<String>)
    ensures
        r@.len() == items@.len(),
        forall|k: int|
            0 <= k < items@.len() ==> #[trigger] r@[k]@ == transition_property(items@[k]@),
{
    let mut r: Vec<String> = Vec::new();
    let mut i: usize = 0;
    while i < items.len()
        invariant
            i <= items@.len(),
            r@.len() == i,
            forall|k: int| 0 <= k < i ==> #[trigger] r@[k]@ == transition_property(items@[k]@),
        decreases items@.len() - i,
    {
        let t = trim_str(items[i].as_str());
        r.push(to_ascii_lowercase(t.as_str()));
        i = i + 1;
    }
    r
}

/// Chooses the transition slots that an exit waits for: for each property
/// the last slot that names it, dropped when a later slot is `all`; for
/// `all`, its last slot; never a `none` slot. The slots come in list order.
pub fn presence_transition_slots(items: &[String]) -> (slots: Vec<TransitionSlot>)
    ensures
        transition_slots_view(slots@) == transition_slots_upto(
            items@.map_values(|x: String| x@),
            items@.len() as int,
        ),
{
    let ghost view = items@.map_values(|x: String| x@);
    let props = trimmed_lower(items);
    let n = props.len();
    let none = String::from_str("none");
    let all = String::from_str("all");
    let mut slots: Vec<TransitionSlot> = Vec::new();
    let mut slot: usize = 0;
    while slot < n
        invariant
            n == props@.len(),
            n == items@.len(),
            view == items@.map_values(|x: String| x@),
            forall|k: int| 0 <= k < n ==> #[trigger] props@[k]@ == transition_property(view[k]),
            none@ == "none"@,
            all@ == "all"@,
            slot <= n,
            transition_slots_view(slots@) == transition_slots_upto(view, slot as int),
        decreases n - slot,
    {
        assert(props@[slot as int]@ == transition_property(view[slot as int]));
        let mut keep = !(props[slot] == none);
        let mut j = slot + 1;
        while keep && j < n
            invariant
                n == props@.len(),
                n == view.len(),
                forall|k: int| 0 <= k < n ==> #[trigger] props@[k]@ == transition_property(view[k]),
                all@ == "all"@,
                slot < j <= n,
                keep ==> transition_property(view[slot as int]) != "none"@,
                keep ==> forall|k: int|
                    slot < k < j ==> transition_property(#[trigger] view[k]) != transition_property(
                        view[slot as int],
                    ) && transition_property(view[k]) != "all"@,
                !keep ==> !transition_retained(view, slot as int),
            decreases n - j,
        {
            assert(props@[j as int]@ == transition_property(view[j as int]));
            if props[j] == props[slot] || props[j] == all {
                keep = false;
            }
            j = j + 1;
        }
        let ghost before = slots@;
        if keep {
            slots.push(TransitionSlot { slot, property: props[slot].clone() });
        }
        proof {
            if keep {
                assert(transition_retained(view, slot as int));
                assert(transition_slots_view(slots@) =~= transition_slots_view(before).push(
                    (slot as int, transition_property(view[slot as int])),
                ));
            } else {
                assert(slots@ == before);
            }
        }
        slot = slot + 1;
    }
    slots
}

/// An animation slot that an exit waits for: its position in the
/// `animation-name` list, its trimmed name, and how many earlier slots have
/// the same name.
#[derive(Debug, Clone, PartialEq, Eq)]
pub struct AnimationSlot {
    pub slot: usize,
    pub name: String,
    pub occurrence: usize,
}

/// How many of the first `n` names equal `name`.
pub open spec fn name_count(names: Seq<Seq<char>>, name: Seq<char>, n: int) -> nat
    decreases n,
{
    if n <= 0 {
        0
    } else {
        name_count(names, name, n - 1) + if names[n - 1] == name {
            1nat
        } else {
            0nat
        }
    }
}

/// An `animation-name` item that names no animation.
pub open spec fn animation_is_none(item: Seq<char>) -> bool {
    ascii_lowercase_spec(trim_spec(item)) == "none"@
}

/// The animation slots among the first `n`, in order: each slot that names
/// an animation, with its trimmed name and the number of earlier slots with
/// that name.
pub open spec fn animation_slots_upto(items: Seq<Seq<char>>, n: int) -> Seq<(int, Seq<char>, nat)>
    decreases n,
{
    if n <= 0 {
        Seq::empty()
    } else if !animation_is_none(items[n - 1]) {
        animation_slots_upto(items, n - 1).push(
            (
                n - 1,
                trim_spec(items[n - 1]),
                name_count(items.map_values(|x: Seq<char>| trim_spec(x)), trim_spec(items[n - 1]), n - 1),
            ),
        )
    } else {
        animation_slots_upto(items, n - 1)
    }
}

/// The slots, names and occurrences of a list of animation slots.
pub open spec fn animation_slots_view(v: Seq<AnimationSlot>) -> Seq<(int, Seq<char>, nat)> {
    v.map_values(|a: AnimationSlot| (a.slot as int, a.name@, a.occurrence as nat))
}

/// Chooses the animation slots that an exit waits for: every slot whose
/// name is not `none` (in any ASCII case), numbered by occurrence so that
/// repeated names stay distinct. The slots come in list order.
pub fn presence_animation_slots(items: &[String]) -> (slots: Vec<AnimationSlot>)
    ensures
        animation_slots_view(slots@) == animation_slots_upto(
            items@.map_values(|x: String| x@),
            items@.len() as int,
        ),
{
    let ghost view = items@.map_values(|x: String| x@);
    let ghost tview = view.map_values(|x: Seq<char>| trim_spec(x));
    let n = items.len();
    let mut names: Vec<String> = Vec::new();
    let mut i: usize = 0;
    while i < n
        invariant
            n == items@.len(),
            view == items@.map_values(|x: String| x@),
            i <= n,
            names@.len() == i,
            forall|k: int| 0 <= k < i ==> #[trigger] names@[k]@ == trim_spec(view[k]),
        decreases n - i,
    {
        names.push(trim_str(items[i].as_str()));
        i = i + 1;
    }
    let none = String::from_str("none");
    let mut slots: Vec<AnimationSlot> = Vec::new();
    let mut slot: usize = 0;
    while slot < n
        invariant
            n == items@.len(),
            n == names@.len(),
            view == items@.map_values(|x: String| x@),
            tview == view.map_values(|x: Seq<char>| trim_spec(x)),
            forall|k: int| 0 <= k < n ==> #[trigger] names@[k]@ == trim_spec(view[k]),
            none@ == "none"@,
            slot <= n,
            animation_slots_view(slots@) == animation_slots_upto(view, slot as int),
        decreases n - slot,
    {
        let lower = to_ascii_lowercase(names[slot].as_str());
        let ghost before = slots@;
        if !(lower == none) {
            let mut count: usize = 0;
            let mut j: usize = 0;
            while j < slot
                invariant
                    slot < n,
                    n == names@.len(),
                    n == view.len(),
                    tview == view.map_values(|x: Seq<char>| trim_spec(x)),
                    forall|k: int| 0 <= k < n ==> #[trigger] names@[k]@ == trim_spec(view[k]),
                    j <= slot,
                    count == name_count(tview, trim_spec(view[slot as int]), j as int),
                    count <= j,
                decreases slot - j,
            {
                assert(names@[j as int]@ == trim_spec(view[j as int]));
                assert(names@[slot as int]@ == trim_spec(view[slot as int]));
                assert(tview[j as int] == trim_spec(view[j as int]));
                if names[j] == names[slot] {
                    count = count + 1;
                }
                j = j + 1;
            }
            slots.push(AnimationSlot { slot, name: names[slot].clone(), occurrence: count });
            proof {
                assert(names@[slot as int]@ == trim_spec(view[slot as int]));
                assert(animation_slots_view(slots@) =~= animation_slots_view(before).push(
                    (
                        slot as int,
                        trim_spec(view[slot as int]),
                        name_count(tview, trim_spec(view[slot as int]), slot as int),
                    ),
                ));
            }
        }
        slot = slot + 1;
    }
    slots
}

/// The unit of a CSS time.
#[derive(Debug, Clone, Copy, PartialEq, Eq)]
pub enum PresenceTimeUnit {
    Milliseconds,
    Seconds,
}

/// How a CSS time splits into its number and unit: the value is trimmed;
/// a trailing `ms` gives milliseconds, otherwise a trailing `s` gives
/// seconds, and the number is what precedes the unit, trimmed again; any
/// other value has no unit.
pub open spec fn time_unit_spec(value: Seq<char>) -> Option<(Seq<char>, PresenceTimeUnit)> {
    let t = trim_spec(value);
    if t.len() >= 2 && t[t.len() - 2] == 'm' && t[t.len() - 1] == 's' {
        Some((trim_spec(t.subrange(0, t.len() - 2)), PresenceTimeUnit::Milliseconds))
    } else if t.len() >= 1 && t[t.len() - 1] == 's' {
        Some((trim_spec(t.subrange(0, t.len() - 1)), PresenceTimeUnit::Seconds))
    } else {
        None
    }
}

/// Splits a CSS time into its number and unit, or fails with
/// `invalid-time-unit` when it ends in neither `ms` nor `s`. The number is
/// left for the caller to read.
pub fn presence_time_unit(value: &str) -> (r: Result<(String, PresenceTimeUnit), &'static str>)
    ensures
        match time_unit_spec(value@) {
            Some((number, unit)) => r is Ok && r->Ok_0.0@ == number && r->Ok_0.1 == unit,
            None => r is Err && r->Err_0@ == "invalid-time-unit"@,
        },
{
    let trimmed = trim_str(value);
    let chars = chars_of(trimmed.as_str());
    let n = chars.len();
    let ghost t = trim_spec(value@);
    assert(chars@ == t);
    if n >= 2 && chars[n - 2] == 'm' && chars[n - 1] == 's' {
        let (lo, hi) = trim_bounds(&chars, 0, n - 2);
        assert(chars@.subrange(0, n - 2) == t.subrange(0, t.len() - 2));
        let number = trimmed.as_str().substring_char(lo, hi).to_owned();
        Ok((number, PresenceTimeUnit::Milliseconds))
    } else if n >= 1 && chars[n - 1] == 's' {
        let (lo, hi) = trim_bounds(&chars, 0, n - 1);
        assert(chars@.subrange(0, n - 1) == t.subrange(0, t.len() - 1));
        let number = trimmed.as_str().substring_char(lo, hi).to_owned();
        Ok((number, PresenceTimeUnit::Seconds))
    } else {
        Err("invalid-time-unit")
    }
}

/// How the end of an exit track is awaited.
#[derive(Debug, Clone, Copy, PartialEq, Eq)]
pub enum PresenceDeadlineClass {
    /// A transition with known times: it has a deadline.
    FiniteTransition,
    /// An animation: only its end or cancel event ends it.
    EventOnlyAnimation,
    /// Timing that could not be read: only the hard cap ends it.
    ConservativeUnknown,
}

/// Whether a close cycle sets a finite timeout: something is pending, and
/// every pending track is a finite transition.
pub open spec fn only_finite_transitions_spec(classes: Seq<PresenceDeadlineClass>) -> bool {
    classes.len() > 0 && forall|i: int|
        0 <= i < classes.len() ==> #[trigger] classes[i] == PresenceDeadlineClass::FiniteTransition
}

/// Returns whether the pending tracks, by deadline class, call for a finite
/// timeout.
pub fn presence_only_finite_transitions(classes: &[PresenceDeadlineClass]) -> (r: bool)
    ensures
        r == only_finite_transitions_spec(classes@),
{
    if classes.len() == 0 {
        return false;
    }
    let mut i: usize = 0;
    while i < classes.len()
        invariant
            i <= classes@.len(),
            forall|k: int|
                0 <= k < i ==> #[trigger] classes@[k] == PresenceDeadlineClass::FiniteTransition,
        decreases classes@.len() - i,
    {
        match classes[i] {
            PresenceDeadlineClass::FiniteTransition => {},
            _ => {
                return false;
            },
        }
        i = i + 1;
    }
    true
}

/// What identifies an exit track of a close cycle.
#[derive(Debug, Clone, PartialEq, Eq)]
pub enum PresenceTrackKey {
    /// The transition of one property (trimmed, in ASCII lower case).
    Transition(String),
    /// A transition of `all` properties.
    TransitionAll,
    /// An animation, by name and by how many earlier slots share the name.
    Animation { name: String, occurrence: usize },
    /// A transition slot whose timing could not be read.
    UnknownTransition(usize),
    /// An animation slot whose timing could not be read.
    UnknownAnimation(usize),
}

/// A `transitionend`/`transitioncancel` (with its property name) or
/// `animationend`/`animationcancel` (with its animation name) event.
#[derive(Debug, Clone, Copy, PartialEq, Eq)]
pub enum PresenceTrackEvent<'a> {
    Transition(&'a str),
    Animation(&'a str),
}

/// An event ends a track: a transition event the transition of its
/// property, trimmed and in ASCII lower case; an animation event any
/// occurrence of an animation of exactly its name. `all` and unreadable
/// tracks are not ended by events.
pub open spec fn track_ended_by(key: PresenceTrackKey, event: PresenceTrackEvent) -> bool {
    match (key, event) {
        (PresenceTrackKey::Transition(p), PresenceTrackEvent::Transition(e)) => p@
            == ascii_lowercase_spec(trim_spec(e@)),
        (PresenceTrackKey::Animation { name, .. }, PresenceTrackEvent::Animation(e)) => name@
            == e@,
        _ => false,
    }
}

/// Returns the position of the first pending track that `event` ends, if
/// any: that track, and only that one, leaves the pending list.
pub fn presence_event_track(pending: &[PresenceTrackKey], event: PresenceTrackEvent<'_>) -> (r:
    Option<usize>)
    ensures
        match r {
            Some(i) => i < pending@.len() && track_ended_by(pending@[i as int], event) && forall|
                j: int,
            |
                0 <= j < i ==> !track_ended_by(#[trigger] pending@[j], event),
            None => forall|j: int|
                0 <= j < pending@.len() ==> !track_ended_by(#[trigger] pending@[j], event),
        },
{
    let wanted = match event {
        PresenceTrackEvent::Transition(property) => {
            let trimmed = trim_str(property);
            to_ascii_lowercase(trimmed.as_str())
        },
        PresenceTrackEvent::Animation(name) => String::from_str(name),
    };
    let mut i: usize = 0;
    while i < pending.len()
        invariant
            i <= pending@.len(),
            wanted@ == match event {
                PresenceTrackEvent::Transition(e) => ascii_lowercase_spec(trim_spec(e@)),
                PresenceTrackEvent::Animation(e) => e@,
            },
            forall|j: int| 0 <= j < i ==> !track_ended_by(#[trigger] pending@[j], event),
        decreases pending@.len() - i,
    {
        let ends = match (&pending[i], event) {
            (PresenceTrackKey::Transition(p), PresenceTrackEvent::Transition(_)) => str_eq(
                p.as_str(),
                wanted.as_str(),
            ),
            (PresenceTrackKey::Animation { name, .. }, PresenceTrackEvent::Animation(_)) => str_eq(
                name.as_str(),
                wanted.as_str(),
            ),
            _ => false,
        };
        if ends {
            return Some(i);
        }
        i = i + 1;
    }
    None
}

proof fn lemma_transition_slots_shape(items: Seq<Seq<char>>, n: int)
    requires
        0 <= n <= items.len(),
    ensures
        forall|k: int|
            0 <= k < transition_slots_upto(items, n).len() ==> {
                let e = #[trigger] transition_slots_upto(items, n)[k];
                &&& 0 <= e.0 < n
                &&& e.1 == transition_property(items[e.0])
                &&& transition_retained(items, e.0)
            },
        forall|j: int, k: int|
            0 <= j < k < transition_slots_upto(items, n).len() ==> transition_slots_upto(
                items,
                n,
            )[j].0 < transition_slots_upto(items, n)[k].0,
    decreases n,
{
    if n > 0 {
        lemma_transition_slots_shape(items, n - 1);
        let prev = transition_slots_upto(items, n - 1);
        let cur = transition_slots_upto(items, n);
        assert forall|k: int| 0 <= k < cur.len() implies {
            let e = #[trigger] cur[k];
            &&& 0 <= e.0 < n
            &&& e.1 == transition_property(items[e.0])
            &&& transition_retained(items, e.0)
        } by {
            if k < prev.len() {
                assert(cur[k] == prev[k]);
            }
        }
        assert forall|j: int, k: int| 0 <= j < k < cur.len() implies cur[j].0 < cur[k].0 by {
            if k < prev.len() {
                assert(cur[j] == prev[j] && cur[k] == prev[k]);
            } else {
                assert(cur[j] == prev[j]);
            }
        }
    }
}

/// Each property is waited for once: the chosen transition slots come in
/// list order and name pairwise different properties, so at most one of
/// them is `all`, and none is `none`.
pub proof fn lemma_transition_slots_distinct(items: Seq<Seq<char>>)
    ensures
        ({
            let slots = transition_slots_upto(items, items.len() as int);
            &&& forall|j: int, k: int|
                0 <= j < k < slots.len() ==> slots[j].0 < slots[k].0 && slots[j].1 != slots[k].1
            &&& forall|k: int| 0 <= k < slots.len() ==> #[trigger] slots[k].1 != "none"@
        }),
{
    let slots = transition_slots_upto(items, items.len() as int);
    lemma_transition_slots_shape(items, items.len() as int);
    assert forall|j: int, k: int| 0 <= j < k < slots.len() implies slots[j].0 < slots[k].0
        && slots[j].1 != slots[k].1 by {
        let a = slots[j];
        let b = slots[k];
        assert(transition_retained(items, a.0));
        assert(a.0 < b.0 < items.len());
        assert(transition_property(items[b.0]) != transition_property(items[a.0]));
    }
    assert forall|k: int| 0 <= k < slots.len() implies #[trigger] slots[k].1 != "none"@ by {
        assert(transition_retained(items, slots[k].0));
    }
}

proof fn lemma_name_count_step(names: Seq<Seq<char>>, name: Seq<char>, i: int, j: int)
    requires
        0 <= i < j <= names.len(),
        names[i] == name,
    ensures
        name_count(names, name, j) >= name_count(names, name, i) + 1,
    decreases j - i,
{
    if j > i + 1 {
        lemma_name_count_step(names, name, i, j - 1);
    }
}

proof fn lemma_animation_slots_shape(items: Seq<Seq<char>>, n: int)
    requires
        0 <= n <= items.len(),
    ensures
        forall|k: int|
            0 <= k < animation_slots_upto(items, n).len() ==> {
                let e = #[trigger] animation_slots_upto(items, n)[k];
                &&& 0 <= e.0 < n
                &&& e.1 == trim_spec(items[e.0])
                &&& e.2 == name_count(
                    items.map_values(|x: Seq<char>| trim_spec(x)),
                    trim_spec(items[e.0]),
                    e.0,
                )
            },
        forall|j: int, k: int|
            0 <= j < k < animation_slots_upto(items, n).len() ==> animation_slots_upto(
                items,
                n,
            )[j].0 < animation_slots_upto(items, n)[k].0,
    decreases n,
{
    if n > 0 {
        lemma_animation_slots_shape(items, n - 1);
        let prev = animation_slots_upto(items, n - 1);
        let cur = animation_slots_upto(items, n);
        assert forall|k: int| 0 <= k < cur.len() implies {
            let e = #[trigger] cur[k];
            &&& 0 <= e.0 < n
            &&& e.1 == trim_spec(items[e.0])
            &&& e.2 == name_count(
                items.map_values(|x: Seq<char>| trim_spec(x)),
                trim_spec(items[e.0]),
                e.0,
            )
        } by {
            if k < prev.len() {
                assert(cur[k] == prev[k]);
            }
        }
        assert forall|j: int, k: int| 0 <= j < k < cur.len() implies cur[j].0 < cur[k].0 by {
            if k < prev.len() {
                assert(cur[j] == prev[j] && cur[k] == prev[k]);
            } else {
                assert(cur[j] == prev[j]);
            }
        }
    }
}

/// Repeated animation names stay distinct tracks: two chosen slots with the
/// same name carry different occurrences, the later one the larger.
pub proof fn lemma_animation_occurrences_distinct(items: Seq<Seq<char>>)
    ensures
        ({
            let slots = animation_slots_upto(items, items.len() as int);
            forall|j: int, k: int|
                0 <= j < k < slots.len() && slots[j].1 == slots[k].1 ==> slots[j].2 < slots[k].2
        }),
{
    let slots = animation_slots_upto(items, items.len() as int);
    let t = items.map_values(|x: Seq<char>| trim_spec(x));
    lemma_animation_slots_shape(items, items.len() as int);
    assert forall|j: int, k: int| 0 <= j < k < slots.len() && slots[j].1 == slots[k].1 implies
        slots[j].2 < slots[k].2 by {
        let a = slots[j];
        let b = slots[k];
        assert(a.0 < b.0);
        assert(t[a.0] == trim_spec(items[a.0]));
        lemma_name_count_step(t, b.1, a.0, b.0);
    }
}

proof fn lemma_no_separator_without_comma(s: Seq<char>, n: int)
    requires
        0 <= n <= s.len(),
        !s.contains(','),
    ensures
        css_separators_upto(s, n) == Seq::<int>::empty(),
    decreases n,
{
    if n > 0 {
        lemma_no_separator_without_comma(s, n - 1);
        if s[n - 1] == ',' {
            assert(s.contains(','));
        }
    }
}

/// A value without commas is a one-item list: the value itself, trimmed.
pub proof fn lemma_css_list_single_item(s: Seq<char>)
    requires
        !s.contains(','),
    ensures
        css_list_spec(s) == seq![trim_spec(s)],
{
    lemma_no_separator_without_comma(s, s.len() as int);
    assert(s.subrange(0, s.len() as int) =~= s);
    assert(css_list_spec(s) =~= seq![trim_spec(s)]);
}

} // verus!
