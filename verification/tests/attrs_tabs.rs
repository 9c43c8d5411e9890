use web_ui_primitives_leptos::{
    tabs_list_attrs, tabs_panel_attrs, tabs_trigger_attrs, DomAttribute, DomAttributeValue,
    Orientation, TabsModel, TabsTriggerAttrs, TabsTriggerDisabledPolicy, TabsTriggerElement,
};

fn model(tabs: usize) -> TabsModel {
    TabsModel {
        selected: Some(0),
        focused: Some(0),
        disabled: vec![false; tabs],
    }
}

fn pairs(attrs: &[DomAttribute]) -> Vec<(String, DomAttributeValue)> {
    attrs
        .iter()
        .map(|attr| (attr.name().to_string(), attr.value().clone()))
        .collect()
}

fn text(value: &str) -> DomAttributeValue {
    DomAttributeValue::String(value.to_string())
}

#[test]
fn list_attrs_include_orientation_for_vertical() {
    let attrs = tabs_list_attrs(Orientation::Vertical);
    assert!(attrs.iter().any(|attr| attr.name() == "aria-orientation"));
}

#[test]
fn list_attrs_omit_orientation_for_horizontal() {
    assert_eq!(
        pairs(&tabs_list_attrs(Orientation::Horizontal)),
        vec![("role".to_string(), text("tablist"))]
    );
    assert_eq!(
        pairs(&tabs_list_attrs(Orientation::Vertical)),
        vec![
            ("role".to_string(), text("tablist")),
            ("aria-orientation".to_string(), text("vertical")),
        ]
    );
    assert_eq!(Orientation::Horizontal.as_aria_value(), "horizontal");
}

#[test]
fn trigger_attrs_selected_state() {
    let model = model(2);
    let attrs = tabs_trigger_attrs(&model, 0, TabsTriggerAttrs::new());
    let state = attrs
        .iter()
        .find(|attr| attr.name() == "data-state")
        .expect("data-state");
    assert_eq!(state.value(), &DomAttributeValue::String("active".to_string()));
}

#[test]
fn trigger_attrs_reflect_model_disabled_state() {
    let mut model = model(2);
    model.disabled[1] = true;
    let attrs = tabs_trigger_attrs(&model, 1, TabsTriggerAttrs::new());
    let disabled = attrs
        .iter()
        .find(|attr| attr.name() == "disabled")
        .expect("disabled");
    let tabindex = attrs
        .iter()
        .find(|attr| attr.name() == "tabindex")
        .expect("tabindex");
    assert_eq!(disabled.value(), &DomAttributeValue::Bool(true));
    assert_eq!(tabindex.value(), &DomAttributeValue::String("-1".to_string()));
    assert!(attrs.iter().any(|attr| attr.name() == "aria-disabled"));
}

#[test]
fn trigger_attrs_include_native_button_contract_by_default() {
    let model = model(2);
    let attrs = tabs_trigger_attrs(
        &model,
        0,
        TabsTriggerAttrs::new().trigger_id("tab-a").controls_id("panel-a"),
    );
    assert!(attrs.iter().any(|attr| {
        attr.name() == "type" && attr.value() == &DomAttributeValue::String("button".to_string())
    }));
    assert!(attrs.iter().any(|attr| {
        attr.name() == "id" && attr.value() == &DomAttributeValue::String("tab-a".to_string())
    }));
    assert!(attrs.iter().any(|attr| {
        attr.name() == "aria-controls"
            && attr.value() == &DomAttributeValue::String("panel-a".to_string())
    }));
}

#[test]
fn trigger_attrs_can_use_aria_disabled_policy_for_buttons() {
    let mut model = model(2);
    model.disabled[1] = true;
    let attrs = tabs_trigger_attrs(
        &model,
        1,
        TabsTriggerAttrs::new().disabled_policy(TabsTriggerDisabledPolicy::Aria),
    );
    assert!(!attrs.iter().any(|attr| attr.name() == "disabled"));
    assert!(attrs.iter().any(|attr| attr.name() == "aria-disabled"));
}

#[test]
fn trigger_attrs_can_target_generic_elements() {
    let mut model = model(2);
    model.disabled[1] = true;
    let attrs = tabs_trigger_attrs(
        &model,
        1,
        TabsTriggerAttrs::new().element(TabsTriggerElement::Generic),
    );
    assert!(!attrs.iter().any(|attr| attr.name() == "type"));
    assert!(!attrs.iter().any(|attr| attr.name() == "disabled"));
    assert!(attrs.iter().any(|attr| attr.name() == "aria-disabled"));
}

#[test]
fn panel_attrs_hidden_when_unselected() {
    let model = model(2);
    let attrs = tabs_panel_attrs(&model, 1, None, None);
    let hidden = attrs
        .iter()
        .find(|attr| attr.name() == "hidden")
        .expect("hidden");
    assert_eq!(hidden.value(), &DomAttributeValue::Bool(true));
}

#[test]
fn trigger_and_panel_exact_lists() {
    let model = model(2);
    assert_eq!(
        pairs(&tabs_trigger_attrs(&model, 0, TabsTriggerAttrs::default())),
        vec![
            ("role".to_string(), text("tab")),
            ("type".to_string(), text("button")),
            ("aria-selected".to_string(), text("true")),
            ("data-state".to_string(), text("active")),
            ("tabindex".to_string(), text("0")),
            ("disabled".to_string(), DomAttributeValue::Bool(false)),
        ]
    );
    assert_eq!(
        pairs(&tabs_panel_attrs(&model, 0, Some("panel"), Some("tab"))),
        vec![
            ("role".to_string(), text("tabpanel")),
            ("hidden".to_string(), DomAttributeValue::Bool(false)),
            ("tabindex".to_string(), text("0")),
            ("id".to_string(), text("panel")),
            ("aria-labelledby".to_string(), text("tab")),
        ]
    );
}
