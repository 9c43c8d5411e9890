//! Presence: exit-aware mounting and unmounting.
//!
//! An element stays rendered while it exits, and leaves only when every
//! exit track has finished. This module holds the lifecycle decisions; the
//! browser bindings sample computed styles, schedule frames and timeouts,
//! and hand the outcomes back.
use vstd::prelude::*;

verus! {

/// The browser lifecycle contract implemented by this crate.
pub const PRESENCE_ABI_VERSION: u32 = 2;

/// Lifecycle states of a presence-managed element.
#[derive(Debug, Clone, Copy, PartialEq, Eq)]
pub enum PresenceState {
    Mounted,
    Exiting,
    Unmounted,
}

/// The state that follows `current` given visibility and exit completion.
pub open spec fn presence_next_spec(current: PresenceState, present: bool, exit_complete: bool) -> PresenceState {
    if present {
        PresenceState::Mounted
    } else {
        match current {
            PresenceState::Mounted => if exit_complete {
                PresenceState::Unmounted
            } else {
                PresenceState::Exiting
            },
            PresenceState::Exiting => if exit_complete {
                PresenceState::Unmounted
            } else {
                PresenceState::Exiting
            },
            PresenceState::Unmounted => PresenceState::Unmounted,
        }
    }
}

/// Computes the next presence state from visibility and exit-completion inputs.
pub fn presence_state_next(current: PresenceState, present: bool, exit_complete: bool) -> (next:
    PresenceState)
    ensures
        next == presence_next_spec(current, present, exit_complete),
{
    if present {
        return PresenceState::Mounted;
    }
    match current {
        PresenceState::Mounted => if exit_complete {
            PresenceState::Unmounted
        } else {
            PresenceState::Exiting
        },
        PresenceState::Exiting => if exit_complete {
            PresenceState::Unmounted
        } else {
            PresenceState::Exiting
        },
        PresenceState::Unmounted => PresenceState::Unmounted,
    }
}

/// Whether an element in `state` is rendered.
pub open spec fn presence_rendered_spec(state: PresenceState) -> bool {
    state != PresenceState::Unmounted
}

/// Returns `true` while an element in `state` should be rendered.
pub fn presence_is_rendered(state: PresenceState) -> (r: bool)
    ensures
        r == presence_rendered_spec(state),
{
    match state {
        PresenceState::Unmounted => false,
        _ => true,
    }
}

/// The canonical `data-state` value for visibility `present`.
pub open spec fn presence_data_state_spec(present: bool) -> Seq<char> {
    if present {
        "open"@
    } else {
        "closed"@
    }
}

/// Returns the canonical `data-state` value for the attached element.
pub fn presence_data_state(present: bool) -> (s: &'static str)
    ensures
        s@ == presence_data_state_spec(present),
{
    if present {
        "open"
    } else {
        "closed"
    }
}

/// The initial state of a binding: mounted when visible, unmounted otherwise.
pub fn presence_initial_state(present: bool) -> (s: PresenceState)
    ensures
        s == (if present {
            PresenceState::Mounted
        } else {
            PresenceState::Unmounted
        }),
{
    if present {
        PresenceState::Mounted
    } else {
        PresenceState::Unmounted
    }
}

/// The result of one lifecycle step: the new state and whether the
/// exit-complete callback runs.
#[derive(Debug, Clone, Copy, PartialEq, Eq)]
pub struct PresenceStep {
    pub state: PresenceState,
    pub exit_completed: bool,
}

/// An exit track ended (or, without a browser, the exit completed at once):
/// the state advances with `exit_complete`, and the callback runs when the
/// element has just been unmounted.
pub fn presence_complete(current: PresenceState, present: bool) -> (step: PresenceStep)
    ensures
        step.state == presence_next_spec(current, present, true),
        step.exit_completed == (step.state != current && step.state == PresenceState::Unmounted),
{
    let next = presence_state_next(current, present, true);
    let changed = match (next, current) {
        (PresenceState::Mounted, PresenceState::Mounted) => false,
        (PresenceState::Exiting, PresenceState::Exiting) => false,
        (PresenceState::Unmounted, PresenceState::Unmounted) => false,
        _ => true,
    };
    let unmounted = match next {
        PresenceState::Unmounted => true,
        _ => false,
    };
    PresenceStep { state: next, exit_completed: changed && unmounted }
}

/// What the rendering effect does without a browser: a visible element is
/// mounted, and a hidden mounted element completes its exit at once.
pub fn presence_immediate_effect(current: PresenceState, present: bool) -> (step: PresenceStep)
    ensures
        present ==> step == (PresenceStep { state: PresenceState::Mounted, exit_completed: false }),
        !present && current == PresenceState::Mounted ==> step == (PresenceStep {
            state: PresenceState::Unmounted,
            exit_completed: true,
        }),
        !present && current != PresenceState::Mounted ==> step == (PresenceStep {
            state: current,
            exit_completed: false,
        }),
{
    if present {
        PresenceStep { state: PresenceState::Mounted, exit_completed: false }
    } else {
        match current {
            PresenceState::Mounted => presence_complete(current, present),
            _ => PresenceStep { state: current, exit_completed: false },
        }
    }
}

/// What the browser rendering effect asks of the runtime.
#[derive(Debug, Clone, Copy, PartialEq, Eq)]
pub enum PresenceEffect {
    /// Visible again: cancel any close cycle and mount.
    Reopen,
    /// Hidden while mounted: start a close cycle.
    BeginClose,
    /// Nothing to do.
    Idle,
}

/// Decides the browser rendering effect for visibility `present` and the
/// current state.
pub fn presence_browser_effect(current: PresenceState, present: bool) -> (e: PresenceEffect)
    ensures
        e == (if present && current != PresenceState::Mounted {
            PresenceEffect::Reopen
        } else if !present && current == PresenceState::Mounted {
            PresenceEffect::BeginClose
        } else {
            PresenceEffect::Idle
        }),
{
    match (present, current) {
        (true, PresenceState::Mounted) => PresenceEffect::Idle,
        (true, _) => PresenceEffect::Reopen,
        (false, PresenceState::Mounted) => PresenceEffect::BeginClose,
        (false, _) => PresenceEffect::Idle,
    }
}

/// The state a finished close cycle leaves: an exiting element that is
/// still hidden unmounts, and the exit-complete callback runs; anything else
/// stays as it is.
pub fn presence_finish_state(current: PresenceState, present: bool) -> (step: PresenceStep)
    ensures
        !present && current == PresenceState::Exiting ==> step == (PresenceStep {
            state: PresenceState::Unmounted,
            exit_completed: true,
        }),
        !(!present && current == PresenceState::Exiting) ==> step == (PresenceStep {
            state: current,
            exit_completed: false,
        }),
{
    match (present, current) {
        (false, PresenceState::Exiting) => PresenceStep {
            state: PresenceState::Unmounted,
            exit_completed: true,
        },
        _ => PresenceStep { state: current, exit_completed: false },
    }
}

/// The generation that follows `g`, wrapping around at the top of `u64`.
pub open spec fn next_generation(g: u64) -> u64 {
    if g == u64::MAX {
        0
    } else {
        (g + 1) as u64
    }
}

fn bump_generation(g: u64) -> (r: u64)
    ensures
        r == next_generation(g),
{
    g.wrapping_add(1)
}

/// Close-cycle bookkeeping of a browser presence runtime.
///
/// Every close, reopen, finish and cleanup moves to a new generation; the
/// frames, timeouts and microtasks that a close cycle schedules carry the
/// generation they were scheduled in, and only the current one may finish
/// the exit.
#[derive(Debug, Clone, Copy, PartialEq, Eq)]
pub struct PresenceCycles {
    generation: u64,
    cycle: Option<u64>,
}

impl PresenceCycles {
    /// The current generation.
    pub closed spec fn generation_spec(self) -> u64 {
        self.generation
    }

    /// The generation of the close cycle in flight, if any.
    pub closed spec fn cycle_spec(self) -> Option<u64> {
        self.cycle
    }

    /// A cycle in flight belongs to the current generation.
    pub open spec fn wf(self) -> bool {
        self.cycle_spec() is Some ==> self.cycle_spec()->0 == self.generation_spec()
    }

    /// The bookkeeping after a close begins, and the new cycle's generation.
    pub closed spec fn begin_close_spec(self) -> (Self, u64) {
        let g = next_generation(self.generation);
        (PresenceCycles { generation: g, cycle: Some(g) }, g)
    }

    /// The bookkeeping after a reopen (or a cleanup).
    pub closed spec fn reopen_spec(self) -> Self {
        PresenceCycles { generation: next_generation(self.generation), cycle: None }
    }

    /// The bookkeeping after a finish request for `generation`, and whether
    /// it ended the cycle in flight.
    pub closed spec fn finish_spec(self, generation: u64) -> (Self, bool) {
        if self.cycle == Some(generation) {
            (PresenceCycles { generation: next_generation(self.generation), cycle: None }, true)
        } else {
            (self, false)
        }
    }

    /// No close cycle, generation zero.
    pub fn new() -> (r: Self)
        ensures
            r.wf(),
            r.generation_spec() == 0,
            r.cycle_spec() == None::<u64>,
    {
        PresenceCycles { generation: 0, cycle: None }
    }

    /// Returns whether `generation` is the close cycle in flight.
    pub fn is_current(&self, generation: u64) -> (r: bool)
        ensures
            r == (self.cycle_spec() == Some(generation)),
    {
        match self.cycle {
            Some(g) => g == generation,
            None => false,
        }
    }

    /// Returns the generation of the close cycle in flight, if any.
    pub fn current_cycle(&self) -> (r: Option<u64>)
        ensures
            r == self.cycle_spec(),
    {
        self.cycle
    }

    /// Starts a close cycle in a new generation, replacing any cycle in
    /// flight, and returns its generation.
    pub fn begin_close(&mut self) -> (g: u64)
        ensures
            (*final(self), g) == old(self).begin_close_spec(),
            g == next_generation(old(self).generation_spec()),
            final(self).generation_spec() == g,
            final(self).cycle_spec() == Some(g),
            final(self).wf(),
    {
        self.generation = bump_generation(self.generation);
        self.cycle = Some(self.generation);
        self.generation
    }

    /// Visible again: the cycle in flight, if any, is abandoned.
    pub fn reopen(&mut self)
        ensures
            *final(self) == old(self).reopen_spec(),
            final(self).generation_spec() == next_generation(old(self).generation_spec()),
            final(self).cycle_spec() == None::<u64>,
            final(self).wf(),
    {
        self.generation = bump_generation(self.generation);
        self.cycle = None;
    }

    /// The binding is dropped: the cycle in flight, if any, is abandoned.
    pub fn cleanup(&mut self)
        ensures
            *final(self) == old(self).reopen_spec(),
            final(self).cycle_spec() == None::<u64>,
            final(self).wf(),
    {
        self.reopen();
    }

    /// Ends the close cycle of `generation`. Returns `true`, and moves to a
    /// new generation with no cycle, exactly when that cycle is the one in
    /// flight; otherwise nothing changes.
    pub fn finish(&mut self, generation: u64) -> (done: bool)
        ensures
            (*final(self), done) == old(self).finish_spec(generation),
            done == (old(self).cycle_spec() == Some(generation)),
            done ==> final(self).generation_spec() == next_generation(old(self).generation_spec())
                && final(self).cycle_spec() == None::<u64>,
            !done ==> *final(self) == *old(self),
            old(self).wf() ==> final(self).wf(),
    {
        if self.is_current(generation) {
            self.generation = bump_generation(self.generation);
            self.cycle = None;
            true
        } else {
            false
        }
    }
}

/// Once the element is visible again, no frame, timeout or microtask of an
/// earlier close cycle can finish an exit: every finish request is ignored
/// and changes nothing.
pub proof fn lemma_reopen_ignores_stale_finish(s: PresenceCycles, generation: u64)
    ensures
        s.reopen_spec().finish_spec(generation) == (s.reopen_spec(), false),
{
}

/// A close cycle that was abandoned by a reopen cannot finish the close
/// cycle that follows: the two cycles have different generations, and a
/// finish request of the first is ignored by the second.
pub proof fn lemma_close_reopen_close_isolates_cycles(s: PresenceCycles)
    ensures
        ({
            let (closing, first) = s.begin_close_spec();
            let (closing_again, second) = closing.reopen_spec().begin_close_spec();
            &&& first != second
            &&& closing_again.finish_spec(first) == (closing_again, false)
            &&& closing_again.finish_spec(second).1
        }),
{
}

/// A close cycle finishes exactly once: the first finish request of its
/// generation ends it, and a repeated one is ignored.
pub proof fn lemma_close_finishes_once(s: PresenceCycles)
    ensures
        ({
            let (closing, g) = s.begin_close_spec();
            let (done, finished) = closing.finish_spec(g);
            &&& finished
            &&& done.cycle_spec() == None::<u64>
            &&& done.finish_spec(g) == (done, false)
        }),
{
}

/// Starting a new close cycle abandons the one in flight: the earlier
/// cycle's generation can no longer finish.
pub proof fn lemma_close_replaces_cycle(s: PresenceCycles)
    ensures
        ({
            let (first_state, first) = s.begin_close_spec();
            let (second_state, second) = first_state.begin_close_spec();
            &&& first != second
            &&& second_state.finish_spec(first) == (second_state, false)
        }),
{
}

/// When a style sample of a close cycle is taken.
#[derive(Debug, Clone, Copy, PartialEq, Eq)]
pub enum PresenceSamplePhase {
    InitialMicrotask,
    Frame,
    FiniteTimeout,
    FinalMicrotask,
}

/// How a sample updates the pending exit tracks.
#[derive(Debug, Clone, Copy, PartialEq, Eq)]
pub enum PresencePendingUpdate {
    /// The timing signature changed: pending tracks are recomputed from it.
    Recompute,
    /// Drop the finite transitions whose deadline and grace have passed.
    Prune,
    /// Leave the pending tracks as they are.
    Keep,
}

/// What a sample does next.
#[derive(Debug, Clone, Copy, PartialEq, Eq)]
pub enum PresenceSampleAction {
    /// End the close cycle.
    Finish,
    /// Confirm in a final microtask that nothing is pending.
    QueueFinalMicrotask,
    /// Sample again on the next frame, first rescheduling the finite
    /// timeout when asked.
    ScheduleFrame { finite_timeout: bool },
}

/// How a sample updates the pending tracks: a changed signature recomputes
/// them; otherwise frames and finite timeouts prune expired transitions.
pub fn presence_sample_update(changed: bool, phase: PresenceSamplePhase) -> (u:
    PresencePendingUpdate)
    ensures
        changed ==> u == PresencePendingUpdate::Recompute,
        !changed && (phase == PresenceSamplePhase::Frame || phase
            == PresenceSamplePhase::FiniteTimeout) ==> u == PresencePendingUpdate::Prune,
        !changed && (phase == PresenceSamplePhase::InitialMicrotask || phase
            == PresenceSamplePhase::FinalMicrotask) ==> u == PresencePendingUpdate::Keep,
{
    if changed {
        return PresencePendingUpdate::Recompute;
    }
    match phase {
        PresenceSamplePhase::Frame => PresencePendingUpdate::Prune,
        PresenceSamplePhase::FiniteTimeout => PresencePendingUpdate::Prune,
        _ => PresencePendingUpdate::Keep,
    }
}

/// The action after a sample of a close cycle.
pub open spec fn presence_sample_action_spec(
    hard_cap_reached: bool,
    changed: bool,
    phase: PresenceSamplePhase,
    pending_empty: bool,
) -> PresenceSampleAction {
    if hard_cap_reached {
        PresenceSampleAction::Finish
    } else if phase == PresenceSamplePhase::FinalMicrotask && !changed && pending_empty {
        PresenceSampleAction::Finish
    } else if phase == PresenceSamplePhase::Frame && !changed && pending_empty {
        PresenceSampleAction::QueueFinalMicrotask
    } else {
        PresenceSampleAction::ScheduleFrame { finite_timeout: changed }
    }
}

/// Decides what follows a sample: `hard_cap_reached` when the close began
/// at least the hard cap ago, `changed` when the timing signature differs
/// from the last one, and `pending_empty` when no exit track is pending
/// after the update that [`presence_sample_update`] chose.
pub fn presence_sample_action(
    hard_cap_reached: bool,
    changed: bool,
    phase: PresenceSamplePhase,
    pending_empty: bool,
) -> (a: PresenceSampleAction)
    ensures
        a == presence_sample_action_spec(hard_cap_reached, changed, phase, pending_empty),
{
    if hard_cap_reached {
        return PresenceSampleAction::Finish;
    }
    let final_phase = match phase {
        PresenceSamplePhase::FinalMicrotask => true,
        _ => false,
    };
    let frame_phase = match phase {
        PresenceSamplePhase::Frame => true,
        _ => false,
    };
    if final_phase && !changed && pending_empty {
        PresenceSampleAction::Finish
    } else if frame_phase && !changed && pending_empty {
        PresenceSampleAction::QueueFinalMicrotask
    } else {
        PresenceSampleAction::ScheduleFrame { finite_timeout: changed }
    }
}

/// A visible element is always mounted, whatever its state and whether an
/// exit was completing: a reopen wins every race with an exit.
pub proof fn lemma_visible_is_mounted(current: PresenceState, exit_complete: bool)
    ensures
        presence_next_spec(current, true, exit_complete) == PresenceState::Mounted,
        presence_rendered_spec(presence_next_spec(current, true, exit_complete)),
{
}

/// A hidden element never becomes mounted again by itself, and once
/// unmounted it stays unmounted until it is visible again.
pub proof fn lemma_hidden_never_remounts(current: PresenceState, exit_complete: bool)
    ensures
        presence_next_spec(current, false, exit_complete) != PresenceState::Mounted,
        current == PresenceState::Unmounted ==> presence_next_spec(current, false, exit_complete)
            == PresenceState::Unmounted,
        !exit_complete && current != PresenceState::Unmounted ==> presence_next_spec(
            current,
            false,
            exit_complete,
        ) == PresenceState::Exiting,
{
}

/// A completed exit of a hidden element unmounts it, from whatever state;
/// and an element is rendered exactly while it is mounted or exiting, with
/// `data-state` `"open"` while visible and `"closed"` otherwise.
pub proof fn lemma_exit_completion_unmounts(current: PresenceState)
    ensures
        presence_next_spec(current, false, true) == PresenceState::Unmounted,
        presence_rendered_spec(current) <==> (current == PresenceState::Mounted || current
            == PresenceState::Exiting),
        presence_data_state_spec(true) == "open"@,
        presence_data_state_spec(false) == "closed"@,
{
}

/// Exits complete asynchronously: before the hard cap, the first sample of a
/// close cycle never finishes it, even with no motion at all; and a cycle
/// only finishes, short of the hard cap, in a final microtask that saw an
/// unchanged signature with nothing pending.
pub proof fn lemma_exit_completes_asynchronously(
    changed: bool,
    phase: PresenceSamplePhase,
    pending_empty: bool,
)
    ensures
        presence_sample_action_spec(false, changed, PresenceSamplePhase::InitialMicrotask, pending_empty)
            != PresenceSampleAction::Finish,
        presence_sample_action_spec(false, changed, phase, pending_empty)
            == PresenceSampleAction::Finish <==> (phase == PresenceSamplePhase::FinalMicrotask
            && !changed && pending_empty),
        presence_sample_action_spec(true, changed, phase, pending_empty)
            == PresenceSampleAction::Finish,
{
}

/// A changed computed style during an exit always reschedules the finite
/// timeout and samples again on the next frame.
pub proof fn lemma_style_change_resamples(phase: PresenceSamplePhase, pending_empty: bool)
    ensures
        presence_sample_action_spec(false, true, phase, pending_empty)
            == (PresenceSampleAction::ScheduleFrame { finite_timeout: true }),
{
}

} // verus!
