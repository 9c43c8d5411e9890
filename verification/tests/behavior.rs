use web_ui_primitives_leptos::dialog::{
    layer_forwards_dismiss, dialog_modal_layer_holds, dialog_modal_layer_step, DialogModalStep,
};
use web_ui_primitives_leptos::dismissible::{
    dismissible_dismisses, dismissible_escape_reaches, dismissible_layer_is_topmost_for_stack,
    dismissible_layer_remove_from_stack, dismissible_outside_reaches,
    dismissible_registration_step, pointer_down_outside_dismiss_disabled, DismissibleRegistration,
    DismissibleStack,
};
use web_ui_primitives_leptos::focus::{
    focus_candidate_is_tabbable, focus_element_hides_subtree, focus_scope_target_index,
    focus_style_hides, focus_tabindex_is_negative, focus_trap_handles,
};
use web_ui_primitives_leptos::portal::{portal_moves_container, PORTAL_CONTAINER_ATTRIBUTE};
use web_ui_primitives_leptos::text::parse_i32;
use web_ui_primitives_leptos::menu::{
    menu_placement_update_action, strict_placement_nonce, strict_placement_stylesheet_step,
    MenuPlacementUpdateAction, StrictStylesheetStep,
};
use web_ui_primitives_leptos::{
    dismissible_is_escape, dismissible_is_outside, focus_scope_next_index, focus_scope_selector,
    placement_align_data_value, placement_side_data_value, PlacementAlign, PlacementSide,
    PlacementSink, PlacementSinkError, PlacementStyleId, PlacementStyleNonce,
    StrictPlacementSink,
};

#[test]
fn dismissible_escape_match() {
    assert!(dismissible_is_escape("Escape"));
    assert!(!dismissible_is_escape("Enter"));
}

#[test]
fn dismissible_outside_check() {
    assert!(dismissible_is_outside(false));
    assert!(!dismissible_is_outside(true));
}

#[test]
fn canonical_pointer_down_outside_dismiss_flag_disables_behavior() {
    assert!(pointer_down_outside_dismiss_disabled(true));
}

#[test]
fn outside_pointer_dismiss_stays_enabled_when_both_flags_are_false() {
    assert!(!pointer_down_outside_dismiss_disabled(false));
}

#[test]
fn dismissible_layer_topmost_check_uses_last_registered_layer() {
    assert!(!dismissible_layer_is_topmost_for_stack(&[], 0));
    assert!(!dismissible_layer_is_topmost_for_stack(&[1, 2], 1));
    assert!(dismissible_layer_is_topmost_for_stack(&[1, 2], 2));
}

#[test]
fn dismissible_layer_remove_from_stack_reveals_the_previous_topmost_layer() {
    let mut layers = vec![1, 2, 3];

    dismissible_layer_remove_from_stack(&mut layers, 2);
    assert_eq!(layers, vec![1, 3]);
    assert!(dismissible_layer_is_topmost_for_stack(&layers, 3));

    dismissible_layer_remove_from_stack(&mut layers, 3);
    assert_eq!(layers, vec![1]);
    assert!(dismissible_layer_is_topmost_for_stack(&layers, 1));
}

#[test]
fn dismissible_remove_takes_first_occurrence_and_ignores_absent() {
    let mut layers = vec![4, 7, 4];
    dismissible_layer_remove_from_stack(&mut layers, 4);
    assert_eq!(layers, vec![7, 4]);
    dismissible_layer_remove_from_stack(&mut layers, 9);
    assert_eq!(layers, vec![7, 4]);
}

#[test]
fn dismissible_stack_registration_follows_activity() {
    let mut stack = DismissibleStack::new();
    let first = stack.register();
    let second = stack.register();
    assert_eq!((first, second), (0, 1));
    assert!(stack.is_topmost(second));
    stack.unregister(second);
    assert!(stack.is_topmost(first));
    stack.reactivate(second);
    assert!(stack.is_topmost(second));
    stack.reactivate(first);
    assert_eq!(stack.layers(), &[0, 1]);
    assert_eq!(
        dismissible_registration_step(true, false),
        DismissibleRegistration::Register
    );
    assert_eq!(
        dismissible_registration_step(false, true),
        DismissibleRegistration::Unregister
    );
    assert_eq!(
        dismissible_registration_step(true, true),
        DismissibleRegistration::Keep
    );
}

#[test]
fn dismissible_events_reach_only_the_topmost_active_layer() {
    assert!(dismissible_outside_reaches(true, true, false));
    assert!(!dismissible_outside_reaches(true, false, false));
    assert!(!dismissible_outside_reaches(false, true, false));
    assert!(!dismissible_outside_reaches(true, true, true));
    assert!(dismissible_escape_reaches(true, true, true, "Escape"));
    assert!(!dismissible_escape_reaches(true, true, false, "Escape"));
    assert!(!dismissible_escape_reaches(true, true, true, "Esc"));
    assert!(dismissible_dismisses(false, false));
    assert!(!dismissible_dismisses(true, false));
    assert!(!dismissible_dismisses(false, true));
}

#[test]
fn focus_scope_selector_is_non_empty() {
    assert!(!focus_scope_selector().is_empty());
}

#[test]
fn focus_scope_next_index_wraps() {
    assert_eq!(focus_scope_next_index(0, 3, true), 2);
    assert_eq!(focus_scope_next_index(2, 3, false), 0);
}

#[test]
fn focus_scope_target_index_starts_from_scope_root() {
    assert_eq!(focus_scope_target_index(None, 3, false), 0);
    assert_eq!(focus_scope_target_index(None, 3, true), 2);
}

#[test]
fn focus_scope_moves_one_step_and_handles_empty_scopes() {
    assert_eq!(focus_scope_next_index(1, 3, false), 2);
    assert_eq!(focus_scope_next_index(1, 3, true), 0);
    assert_eq!(focus_scope_target_index(None, 0, true), 0);
    assert_eq!(focus_scope_next_index(usize::MAX, 3, false), 0);
    assert_eq!(
        focus_scope_selector(),
        "a[href],button,textarea,input,select,[tabindex]:not([tabindex='-1'])"
    );
}

#[test]
fn menu_placement_update_action_tracks_open_and_loaded_refs() {
    assert_eq!(
        menu_placement_update_action(false, false, false),
        MenuPlacementUpdateAction::Clear
    );
    assert_eq!(
        menu_placement_update_action(false, false, true),
        MenuPlacementUpdateAction::Retain
    );
    assert_eq!(
        menu_placement_update_action(false, true, true),
        MenuPlacementUpdateAction::Retain
    );
    assert_eq!(
        menu_placement_update_action(true, false, false),
        MenuPlacementUpdateAction::Clear
    );
    assert_eq!(
        menu_placement_update_action(true, true, false),
        MenuPlacementUpdateAction::Clear
    );
    assert_eq!(
        menu_placement_update_action(true, false, true),
        MenuPlacementUpdateAction::Retain
    );
    assert_eq!(
        menu_placement_update_action(true, true, true),
        MenuPlacementUpdateAction::AnimationFrame
    );
}

#[test]
fn strict_placement_identifiers_reject_selector_fragments() {
    assert_eq!(
        PlacementStyleId::new("menu-account_1")
            .expect("stable ID")
            .as_str(),
        "menu-account_1"
    );
    for invalid in [
        "",
        "-leading",
        "menu account",
        "menu\"]{display:none}",
        "menu/account",
    ] {
        assert_eq!(
            PlacementStyleId::new(invalid),
            Err(PlacementSinkError::InvalidId)
        );
    }
}

#[test]
fn strict_placement_identifier_length_limit() {
    let longest = "a".repeat(128);
    assert!(PlacementStyleId::new(&longest).is_ok());
    let too_long = "a".repeat(129);
    assert_eq!(
        PlacementStyleId::new(&too_long),
        Err(PlacementSinkError::InvalidId)
    );
    assert_eq!(
        PlacementStyleId::new("menü"),
        Err(PlacementSinkError::InvalidId)
    );
}

#[test]
fn strict_placement_nonces_reject_csp_fragments() {
    assert_eq!(
        PlacementStyleNonce::new("abcDEF012-_+/=")
            .expect("nonce")
            .as_str(),
        "abcDEF012-_+/="
    );
    for invalid in ["", "nonce value", "'unsafe-inline'", "nonce;style-src"] {
        assert_eq!(
            PlacementStyleNonce::new(invalid),
            Err(PlacementSinkError::InvalidNonce)
        );
    }
    assert!(PlacementStyleNonce::new(&"n".repeat(512)).is_ok());
    assert_eq!(
        PlacementStyleNonce::new(&"n".repeat(513)),
        Err(PlacementSinkError::InvalidNonce)
    );
}

#[test]
fn strict_placement_requires_explicit_authorization() {
    let id = PlacementStyleId::new("menu-account").expect("stable ID");
    let unauthorized = StrictPlacementSink::new(id.clone());
    assert_eq!(unauthorized.id(), &id);
    assert!(unauthorized.nonce().is_none());

    let nonce = PlacementStyleNonce::new("nonce123").expect("nonce");
    let authorized = unauthorized.authorized(nonce.clone());
    assert_eq!(authorized.nonce(), Some(&nonce));
}

#[test]
fn placement_sink_strict_id_and_data_values() {
    let id = PlacementStyleId::new("menu").expect("stable ID");
    assert_eq!(PlacementSink::default().strict_id(), None);
    let sink = PlacementSink::StrictStylesheet(StrictPlacementSink::new(id.clone()));
    assert_eq!(sink.strict_id(), Some(&id));
    assert_eq!(placement_side_data_value(PlacementSide::Top), "top");
    assert_eq!(placement_side_data_value(PlacementSide::Right), "right");
    assert_eq!(placement_side_data_value(PlacementSide::Bottom), "bottom");
    assert_eq!(placement_side_data_value(PlacementSide::Left), "left");
    assert_eq!(placement_align_data_value(PlacementAlign::Start), "start");
    assert_eq!(placement_align_data_value(PlacementAlign::Center), "center");
    assert_eq!(placement_align_data_value(PlacementAlign::End), "end");
}

#[test]
fn dialog_modal_layer_acquires_once_while_open_and_modal() {
    assert_eq!(
        dialog_modal_layer_step(true, true, false, true),
        DialogModalStep::Acquire
    );
    assert_eq!(
        dialog_modal_layer_step(true, true, true, true),
        DialogModalStep::Hold
    );
    assert_eq!(
        dialog_modal_layer_step(true, true, false, false),
        DialogModalStep::Wait
    );
    assert_eq!(
        dialog_modal_layer_step(true, false, true, true),
        DialogModalStep::Release
    );
    assert_eq!(
        dialog_modal_layer_step(false, true, false, true),
        DialogModalStep::Release
    );
    assert!(dialog_modal_layer_holds(true, false));
    assert!(dialog_modal_layer_holds(false, true));
    assert!(!dialog_modal_layer_holds(false, false));
    assert!(layer_forwards_dismiss(true));
    assert!(!layer_forwards_dismiss(false));
}

#[test]
fn focus_hiding_styles_and_attributes_remove_subtrees() {
    assert!(focus_style_hides("none", "visible"));
    assert!(focus_style_hides("block", "hidden"));
    assert!(focus_style_hides("block", "collapse"));
    assert!(!focus_style_hides("block", "visible"));
    assert!(!focus_style_hides("None", "Hidden"));

    assert!(focus_element_hides_subtree(true, false, None, false));
    assert!(focus_element_hides_subtree(false, true, None, false));
    assert!(focus_element_hides_subtree(false, false, Some("TRUE"), false));
    assert!(focus_element_hides_subtree(false, false, Some("true"), false));
    assert!(!focus_element_hides_subtree(false, false, Some("false"), false));
    assert!(!focus_element_hides_subtree(false, false, Some(" true"), false));
    assert!(focus_element_hides_subtree(false, false, None, true));
    assert!(!focus_element_hides_subtree(false, false, None, false));
}

#[test]
fn focus_candidates_need_every_condition() {
    assert!(focus_candidate_is_tabbable(true, false, false, false, true));
    assert!(!focus_candidate_is_tabbable(false, false, false, false, true));
    assert!(!focus_candidate_is_tabbable(true, true, false, false, true));
    assert!(!focus_candidate_is_tabbable(true, false, true, false, true));
    assert!(!focus_candidate_is_tabbable(true, false, false, true, true));
    assert!(!focus_candidate_is_tabbable(true, false, false, false, false));
}

#[test]
fn negative_tabindex_parses_like_i32() {
    assert_eq!(parse_i32("42"), Some(42));
    assert_eq!(parse_i32("+7"), Some(7));
    assert_eq!(parse_i32("-1"), Some(-1));
    assert_eq!(parse_i32("-0"), Some(0));
    assert_eq!(parse_i32("007"), Some(7));
    assert_eq!(parse_i32("2147483647"), Some(i32::MAX));
    assert_eq!(parse_i32("-2147483648"), Some(i32::MIN));
    assert_eq!(parse_i32("2147483648"), None);
    assert_eq!(parse_i32("-2147483649"), None);
    assert_eq!(parse_i32("99999999999x"), None);
    assert_eq!(parse_i32(""), None);
    assert_eq!(parse_i32("-"), None);
    assert_eq!(parse_i32("+"), None);
    assert_eq!(parse_i32("+-1"), None);
    assert_eq!(parse_i32(" 1"), None);
    assert_eq!(parse_i32("1.5"), None);
    for value in ["0", "-5", "123", "-2147483648", "x", "", "-", "+3", "2147483648"] {
        assert_eq!(parse_i32(value), value.parse::<i32>().ok(), "{value}");
    }

    assert!(focus_tabindex_is_negative(Some("-1")));
    assert!(focus_tabindex_is_negative(Some(" -1\t")));
    assert!(focus_tabindex_is_negative(Some("-2147483648")));
    assert!(!focus_tabindex_is_negative(Some("-0")));
    assert!(!focus_tabindex_is_negative(Some("0")));
    assert!(!focus_tabindex_is_negative(Some("3")));
    assert!(!focus_tabindex_is_negative(Some("-2147483649")));
    assert!(!focus_tabindex_is_negative(Some("-one")));
    assert!(!focus_tabindex_is_negative(None));
}

#[test]
fn portal_container_moves_only_into_an_outside_target() {
    assert_eq!(PORTAL_CONTAINER_ATTRIBUTE, "data-web-ui-portal");
    assert!(portal_moves_container(true, false, false));
    assert!(!portal_moves_container(false, false, false));
    assert!(!portal_moves_container(true, true, false));
    assert!(!portal_moves_container(true, false, true));
}

#[test]
fn strict_publication_checks_authorization_and_ownership() {
    let id = PlacementStyleId::new("menu-1").expect("id");
    let other = PlacementStyleId::new("menu-2").expect("id");
    let nonce = PlacementStyleNonce::new("abc123").expect("nonce");
    let unauthorized = StrictPlacementSink::new(id.clone());
    assert_eq!(
        strict_placement_nonce(&unauthorized),
        Err(PlacementSinkError::MissingAuthorization)
    );
    let authorized = unauthorized.authorized(nonce.clone());
    assert_eq!(strict_placement_nonce(&authorized), Ok(&nonce));

    assert_eq!(
        strict_placement_stylesheet_step(&id, None, false),
        Ok(StrictStylesheetStep::Create)
    );
    assert_eq!(
        strict_placement_stylesheet_step(&id, None, true),
        Err(PlacementSinkError::DuplicateId)
    );
    assert_eq!(
        strict_placement_stylesheet_step(&id, Some(&id), true),
        Ok(StrictStylesheetStep::Reuse)
    );
    assert_eq!(
        strict_placement_stylesheet_step(&id, Some(&other), false),
        Err(PlacementSinkError::DuplicateId)
    );
}

#[test]
fn focus_trap_takes_tab_presses_of_its_own_targets() {
    assert!(focus_trap_handles("Tab", true, true));
    assert!(!focus_trap_handles("Enter", true, true));
    assert!(!focus_trap_handles("tab", true, true));
    assert!(!focus_trap_handles("Tab", false, true));
    assert!(!focus_trap_handles("Tab", true, false));
}
