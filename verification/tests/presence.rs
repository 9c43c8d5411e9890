use web_ui_primitives_leptos::presence::{
    presence_browser_effect, presence_complete, presence_data_state, presence_finish_state,
    presence_immediate_effect, presence_initial_state, presence_is_rendered,
    presence_sample_action, presence_sample_update, PresenceCycles, PresenceEffect,
    PresencePendingUpdate, PresenceSampleAction, PresenceSamplePhase, PresenceStep,
};
use web_ui_primitives_leptos::timing::{
    presence_animation_slots, presence_cyclic_value, presence_event_track,
    presence_only_finite_transitions, presence_parse_play_state, presence_split_css_list,
    presence_time_unit, presence_transition_slots, PresenceDeadlineClass, PresencePlayState,
    PresenceTimeUnit, PresenceTrackEvent, PresenceTrackKey,
};
use web_ui_primitives_leptos::{presence_state_next, PresenceState, PRESENCE_ABI_VERSION};

fn list(value: &str) -> Vec<String> {
    presence_split_css_list(value)
}

#[test]
fn presence_exports_abi_v2() {
    assert_eq!(PRESENCE_ABI_VERSION, 2);
}

#[test]
fn presence_state_handles_close_completion_and_reopen() {
    assert_eq!(
        presence_state_next(PresenceState::Mounted, false, false),
        PresenceState::Exiting
    );
    assert_eq!(
        presence_state_next(PresenceState::Exiting, false, true),
        PresenceState::Unmounted
    );
    assert_eq!(
        presence_state_next(PresenceState::Unmounted, true, false),
        PresenceState::Mounted
    );
}

#[test]
fn presence_state_remaining_transitions() {
    assert_eq!(
        presence_state_next(PresenceState::Mounted, false, true),
        PresenceState::Unmounted
    );
    assert_eq!(
        presence_state_next(PresenceState::Exiting, false, false),
        PresenceState::Exiting
    );
    assert_eq!(
        presence_state_next(PresenceState::Unmounted, false, true),
        PresenceState::Unmounted
    );
    assert_eq!(
        presence_state_next(PresenceState::Exiting, true, true),
        PresenceState::Mounted
    );
    assert!(presence_is_rendered(PresenceState::Exiting));
    assert!(!presence_is_rendered(PresenceState::Unmounted));
    assert_eq!(presence_data_state(true), "open");
    assert_eq!(presence_data_state(false), "closed");
    assert_eq!(presence_initial_state(false), PresenceState::Unmounted);
}

#[test]
fn presence_immediate_exit_runs_callback_once() {
    let step = presence_immediate_effect(PresenceState::Mounted, false);
    assert_eq!(
        step,
        PresenceStep { state: PresenceState::Unmounted, exit_completed: true }
    );
    let again = presence_complete(step.state, false);
    assert_eq!(
        again,
        PresenceStep { state: PresenceState::Unmounted, exit_completed: false }
    );
    assert_eq!(
        presence_immediate_effect(PresenceState::Unmounted, true),
        PresenceStep { state: PresenceState::Mounted, exit_completed: false }
    );
}

#[test]
fn presence_browser_lifecycle_ignores_stale_cycles() {
    assert_eq!(
        presence_browser_effect(PresenceState::Mounted, false),
        PresenceEffect::BeginClose
    );
    assert_eq!(
        presence_browser_effect(PresenceState::Exiting, true),
        PresenceEffect::Reopen
    );
    assert_eq!(
        presence_browser_effect(PresenceState::Exiting, false),
        PresenceEffect::Idle
    );
    let mut cycles = PresenceCycles::new();
    let first = cycles.begin_close();
    cycles.reopen();
    assert!(!cycles.finish(first));
    let second = cycles.begin_close();
    assert_ne!(first, second);
    assert!(!cycles.finish(first));
    assert!(cycles.is_current(second));
    assert_eq!(cycles.current_cycle(), Some(second));
    assert!(cycles.finish(second));
    assert!(!cycles.finish(second));
    assert_eq!(cycles.current_cycle(), None);
    assert_eq!(
        presence_finish_state(PresenceState::Exiting, false),
        PresenceStep { state: PresenceState::Unmounted, exit_completed: true }
    );
    assert_eq!(
        presence_finish_state(PresenceState::Mounted, true),
        PresenceStep { state: PresenceState::Mounted, exit_completed: false }
    );
}

#[test]
fn presence_samples_finish_only_after_a_quiet_final_microtask() {
    assert_eq!(
        presence_sample_action(false, false, PresenceSamplePhase::InitialMicrotask, true),
        PresenceSampleAction::ScheduleFrame { finite_timeout: false }
    );
    assert_eq!(
        presence_sample_action(false, false, PresenceSamplePhase::Frame, true),
        PresenceSampleAction::QueueFinalMicrotask
    );
    assert_eq!(
        presence_sample_action(false, false, PresenceSamplePhase::FinalMicrotask, true),
        PresenceSampleAction::Finish
    );
    assert_eq!(
        presence_sample_action(false, true, PresenceSamplePhase::FinalMicrotask, true),
        PresenceSampleAction::ScheduleFrame { finite_timeout: true }
    );
    assert_eq!(
        presence_sample_action(true, true, PresenceSamplePhase::Frame, false),
        PresenceSampleAction::Finish
    );
    assert_eq!(
        presence_sample_update(true, PresenceSamplePhase::Frame),
        PresencePendingUpdate::Recompute
    );
    assert_eq!(
        presence_sample_update(false, PresenceSamplePhase::FiniteTimeout),
        PresencePendingUpdate::Prune
    );
    assert_eq!(
        presence_sample_update(false, PresenceSamplePhase::InitialMicrotask),
        PresencePendingUpdate::Keep
    );
}

#[test]
fn transition_lists_expand_cyclically_and_keep_last_explicit_slot() {
    let properties = list("opacity, transform, opacity");
    let durations = list("100ms, 200ms");
    let delays = list("10ms");
    let slots = presence_transition_slots(&properties);
    assert_eq!(slots.len(), 2);
    assert_eq!(slots[0].slot, 1);
    assert_eq!(presence_cyclic_value(&durations, slots[0].slot), Some("200ms"));
    assert_eq!(slots[1].slot, 2);
    assert_eq!(presence_cyclic_value(&durations, slots[1].slot), Some("100ms"));
    assert_eq!(presence_cyclic_value(&delays, slots[1].slot), Some("10ms"));
}

#[test]
fn transition_all_overlap_order_is_normalized() {
    let all_then_opacity = presence_transition_slots(&list("all, opacity"));
    assert_eq!(all_then_opacity.len(), 2);
    assert_eq!(all_then_opacity[0].property, "all");
    assert_eq!(all_then_opacity[1].property, "opacity");

    let opacity_then_all = presence_transition_slots(&list("opacity, all"));
    assert_eq!(opacity_then_all.len(), 1);
    assert_eq!(opacity_then_all[0].property, "all");
}

#[test]
fn transition_properties_are_lower_case_and_none_is_skipped() {
    let slots = presence_transition_slots(&list(" Opacity ,none, OPACITY"));
    assert_eq!(slots.len(), 1);
    assert_eq!(slots[0].slot, 2);
    assert_eq!(slots[0].property, "opacity");
    assert!(presence_transition_slots(&list("none")).is_empty());
}

#[test]
fn animation_lists_expand_and_duplicate_names_keep_occurrences() {
    let names = list("fade, fade, slide");
    let durations = list("100ms, 200ms");
    let iterations = list("1, 2");
    let play_states = list("running, paused");
    let slots = presence_animation_slots(&names);
    assert_eq!(slots.len(), 3);
    assert_eq!((slots[0].name.as_str(), slots[0].occurrence), ("fade", 0));
    assert_eq!((slots[1].name.as_str(), slots[1].occurrence), ("fade", 1));
    assert_eq!((slots[2].name.as_str(), slots[2].occurrence), ("slide", 0));
    assert_eq!(presence_cyclic_value(&durations, slots[1].slot), Some("200ms"));
    assert_eq!(presence_cyclic_value(&iterations, slots[1].slot), Some("2"));
    let state = presence_cyclic_value(&play_states, slots[1].slot).expect("play state");
    assert_eq!(presence_parse_play_state(state), Ok(PresencePlayState::Paused));
}

#[test]
fn animation_none_in_any_case_is_skipped() {
    let slots = presence_animation_slots(&list("NONE, fade, None"));
    assert_eq!(slots.len(), 1);
    assert_eq!(slots[0].slot, 1);
    assert!(presence_animation_slots(&list("none")).is_empty());
}

#[test]
fn play_states_parse_case_insensitively() {
    assert_eq!(presence_parse_play_state(" Running "), Ok(PresencePlayState::Running));
    assert_eq!(presence_parse_play_state("PAUSED"), Ok(PresencePlayState::Paused));
    assert_eq!(presence_parse_play_state("wat"), Err("invalid-play-state"));
}

#[test]
fn css_lists_respect_quotes_parentheses_and_escapes() {
    assert_eq!(list(""), vec![String::new()]);
    assert_eq!(list(" a ,b"), vec!["a".to_string(), "b".to_string()]);
    assert_eq!(
        list("cubic-bezier(0.1, 0.7, 1, 0.1), ease"),
        vec!["cubic-bezier(0.1, 0.7, 1, 0.1)".to_string(), "ease".to_string()]
    );
    assert_eq!(
        list("\"a,b\", 'c,d', e\\,f"),
        vec!["\"a,b\"".to_string(), "'c,d'".to_string(), "e\\,f".to_string()]
    );
    assert_eq!(list("a,,b"), vec!["a".to_string(), String::new(), "b".to_string()]);
    assert_eq!(list("a)),b"), vec!["a))".to_string(), "b".to_string()]);
    assert_eq!(presence_cyclic_value(&[], 3), None);
}

#[test]
fn end_events_retire_the_first_matching_pending_track() {
    let pending = vec![
        PresenceTrackKey::UnknownTransition(0),
        PresenceTrackKey::TransitionAll,
        PresenceTrackKey::Transition("opacity".to_string()),
        PresenceTrackKey::Animation { name: "fade".to_string(), occurrence: 0 },
        PresenceTrackKey::Transition("transform".to_string()),
        PresenceTrackKey::Animation { name: "fade".to_string(), occurrence: 1 },
        PresenceTrackKey::UnknownAnimation(2),
    ];
    assert_eq!(presence_event_track(&pending, PresenceTrackEvent::Transition("opacity")), Some(2));
    assert_eq!(
        presence_event_track(&pending, PresenceTrackEvent::Transition(" Transform ")),
        Some(4)
    );
    assert_eq!(presence_event_track(&pending, PresenceTrackEvent::Transition("all")), None);
    assert_eq!(presence_event_track(&pending, PresenceTrackEvent::Transition("color")), None);
    assert_eq!(presence_event_track(&pending, PresenceTrackEvent::Animation("fade")), Some(3));
    assert_eq!(presence_event_track(&pending, PresenceTrackEvent::Animation("Fade")), None);
    assert_eq!(presence_event_track(&pending, PresenceTrackEvent::Animation("opacity")), None);
    assert_eq!(presence_event_track(&pending[4..], PresenceTrackEvent::Animation("fade")), Some(1));
    assert_eq!(presence_event_track(&[], PresenceTrackEvent::Transition("opacity")), None);
}

#[test]
fn css_times_split_into_number_and_unit() {
    assert_eq!(
        presence_time_unit(" 150ms "),
        Ok(("150".to_string(), PresenceTimeUnit::Milliseconds))
    );
    assert_eq!(presence_time_unit("0.3s"), Ok(("0.3".to_string(), PresenceTimeUnit::Seconds)));
    assert_eq!(presence_time_unit("1 s"), Ok(("1".to_string(), PresenceTimeUnit::Seconds)));
    assert_eq!(presence_time_unit("-50 ms"), Ok(("-50".to_string(), PresenceTimeUnit::Milliseconds)));
    assert_eq!(presence_time_unit("ms"), Ok(("".to_string(), PresenceTimeUnit::Milliseconds)));
    assert_eq!(presence_time_unit("s"), Ok(("".to_string(), PresenceTimeUnit::Seconds)));
    assert_eq!(presence_time_unit("wat"), Err("invalid-time-unit"));
    assert_eq!(presence_time_unit("1MS"), Err("invalid-time-unit"));
    assert_eq!(presence_time_unit(""), Err("invalid-time-unit"));
}

#[test]
fn finite_timeout_needs_only_finite_transitions() {
    let finite = PresenceDeadlineClass::FiniteTransition;
    let animation = PresenceDeadlineClass::EventOnlyAnimation;
    let unknown = PresenceDeadlineClass::ConservativeUnknown;
    assert!(!presence_only_finite_transitions(&[]));
    assert!(presence_only_finite_transitions(&[finite]));
    assert!(presence_only_finite_transitions(&[finite, finite]));
    assert!(!presence_only_finite_transitions(&[finite, animation]));
    assert!(!presence_only_finite_transitions(&[unknown, finite]));
}
