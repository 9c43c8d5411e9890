use web_ui_primitives_leptos::{
    menu_content_attrs, menu_item_attrs, menu_item_indicator_attrs, menu_trigger_attrs,
    DomAttribute, DomAttributeValue, MenuContentAttrs, MenuItemAttrs, MenuItemDisabledPolicy,
    MenuItemElement, MenuItemKind, MenuModel, MenuTriggerAttrs, MenuTriggerElement,
};

fn model(items: usize) -> MenuModel {
    MenuModel {
        open: false,
        checked: None,
        focused: None,
        disabled: vec![false; items],
    }
}

fn pairs(attrs: &[DomAttribute]) -> Vec<(String, DomAttributeValue)> {
    attrs
        .iter()
        .map(|attr| (attr.name().to_string(), attr.value().clone()))
        .collect()
}

fn text(value: &str) -> DomAttributeValue {
    DomAttributeValue::String(value.to_string())
}

#[test]
fn trigger_attrs_include_menu_button_contract() {
    let mut model = model(2);
    model.open = true;
    let attrs = menu_trigger_attrs(&model, MenuTriggerAttrs::new().controls_id("locale-menu"));
    assert!(attrs.iter().any(|attr| {
        attr.name() == "aria-haspopup"
            && attr.value() == &DomAttributeValue::String("menu".to_string())
    }));
    assert!(attrs.iter().any(|attr| {
        attr.name() == "aria-expanded"
            && attr.value() == &DomAttributeValue::String("true".to_string())
    }));
    assert!(attrs.iter().any(|attr| {
        attr.name() == "type" && attr.value() == &DomAttributeValue::String("button".to_string())
    }));
    assert!(attrs.iter().any(|attr| {
        attr.name() == "aria-controls"
            && attr.value() == &DomAttributeValue::String("locale-menu".to_string())
    }));
}

#[test]
fn trigger_attrs_can_target_generic_element() {
    let model = model(1);
    let attrs = menu_trigger_attrs(
        &model,
        MenuTriggerAttrs::new().element(MenuTriggerElement::Generic),
    );
    assert!(!attrs.iter().any(|attr| attr.name() == "type"));
}

#[test]
fn content_attrs_include_menu_contract() {
    let model = model(1);
    let attrs = menu_content_attrs(
        &model,
        MenuContentAttrs::new().content_id("menu").labelled_by("trigger"),
    );
    assert!(attrs.iter().any(|attr| {
        attr.name() == "role" && attr.value() == &DomAttributeValue::String("menu".to_string())
    }));
    assert!(attrs
        .iter()
        .any(|attr| { attr.name() == "hidden" && attr.value() == &DomAttributeValue::Bool(true) }));
    assert!(attrs.iter().any(|attr| {
        attr.name() == "id" && attr.value() == &DomAttributeValue::String("menu".to_string())
    }));
    assert!(attrs.iter().any(|attr| {
        attr.name() == "aria-labelledby"
            && attr.value() == &DomAttributeValue::String("trigger".to_string())
    }));
}

#[test]
fn item_attrs_include_radio_checked_state() {
    let mut model = model(2);
    model.checked = Some(1);
    model.open = true;
    let attrs = menu_item_attrs(
        &model,
        1,
        MenuItemAttrs::new().item_id("item").kind(MenuItemKind::Radio),
    );
    assert!(attrs.iter().any(|attr| {
        attr.name() == "role"
            && attr.value() == &DomAttributeValue::String("menuitemradio".to_string())
    }));
    assert!(attrs.iter().any(|attr| {
        attr.name() == "aria-checked"
            && attr.value() == &DomAttributeValue::String("true".to_string())
    }));
    assert!(attrs.iter().any(|attr| {
        attr.name() == "data-state"
            && attr.value() == &DomAttributeValue::String("checked".to_string())
    }));
    assert!(attrs.iter().any(|attr| {
        attr.name() == "id" && attr.value() == &DomAttributeValue::String("item".to_string())
    }));
}

#[test]
fn item_attrs_reflect_disabled_state() {
    let mut model = model(2);
    model.disabled[1] = true;
    model.open = true;
    let attrs = menu_item_attrs(&model, 1, MenuItemAttrs::new());
    assert!(attrs.iter().any(|attr| {
        attr.name() == "disabled" && attr.value() == &DomAttributeValue::Bool(true)
    }));
    assert!(attrs.iter().any(|attr| attr.name() == "aria-disabled"));
    assert!(attrs.iter().any(|attr| attr.name() == "data-disabled"));
}

#[test]
fn item_attrs_can_use_aria_disabled_policy_for_buttons() {
    let mut model = model(2);
    model.disabled[1] = true;
    let attrs = menu_item_attrs(
        &model,
        1,
        MenuItemAttrs::new().disabled_policy(MenuItemDisabledPolicy::Aria),
    );
    assert!(!attrs.iter().any(|attr| attr.name() == "disabled"));
    assert!(attrs.iter().any(|attr| attr.name() == "aria-disabled"));
}

#[test]
fn item_attrs_can_target_generic_element() {
    let mut model = model(2);
    model.disabled[1] = true;
    let attrs = menu_item_attrs(
        &model,
        1,
        MenuItemAttrs::new().element(MenuItemElement::Generic),
    );
    assert!(!attrs.iter().any(|attr| attr.name() == "type"));
    assert!(!attrs.iter().any(|attr| attr.name() == "disabled"));
    assert!(attrs.iter().any(|attr| attr.name() == "aria-disabled"));
}

#[test]
fn item_indicator_attrs_hide_when_unchecked() {
    let mut model = model(2);
    model.checked = Some(1);
    let attrs = menu_item_indicator_attrs(&model, 0);
    assert!(attrs
        .iter()
        .any(|attr| { attr.name() == "hidden" && attr.value() == &DomAttributeValue::Bool(true) }));
}

#[test]
fn focused_enabled_item_is_highlighted_exact_list() {
    let mut model = model(3);
    model.focused = Some(2);
    let attrs = menu_item_attrs(&model, 2, MenuItemAttrs::new());
    assert_eq!(
        pairs(&attrs),
        vec![
            ("role".to_string(), text("menuitem")),
            ("type".to_string(), text("button")),
            ("tabindex".to_string(), text("0")),
            ("data-highlighted".to_string(), DomAttributeValue::Bool(true)),
            ("disabled".to_string(), DomAttributeValue::Bool(false)),
        ]
    );
}

#[test]
fn focused_disabled_item_is_not_tabbable() {
    let mut model = model(2);
    model.focused = Some(0);
    model.disabled[0] = true;
    let attrs = menu_item_attrs(&model, 0, MenuItemAttrs::new().kind(MenuItemKind::Radio));
    assert_eq!(
        pairs(&attrs),
        vec![
            ("role".to_string(), text("menuitemradio")),
            ("type".to_string(), text("button")),
            ("tabindex".to_string(), text("-1")),
            ("data-state".to_string(), text("unchecked")),
            ("aria-checked".to_string(), text("false")),
            ("disabled".to_string(), DomAttributeValue::Bool(true)),
            ("aria-disabled".to_string(), text("true")),
            ("data-disabled".to_string(), DomAttributeValue::Bool(true)),
        ]
    );
}

#[test]
fn items_past_the_end_are_enabled() {
    let model = model(1);
    assert!(!model.is_disabled(5));
    let attrs = menu_item_attrs(&model, 5, MenuItemAttrs::new().element(MenuItemElement::Generic));
    assert_eq!(
        pairs(&attrs),
        vec![
            ("role".to_string(), text("menuitem")),
            ("tabindex".to_string(), text("-1")),
        ]
    );
}

#[test]
fn trigger_and_content_exact_lists() {
    let trigger = menu_trigger_attrs(&model(1), MenuTriggerAttrs::default());
    assert_eq!(
        pairs(&trigger),
        vec![
            ("data-state".to_string(), text("closed")),
            ("aria-haspopup".to_string(), text("menu")),
            ("aria-expanded".to_string(), text("false")),
            ("type".to_string(), text("button")),
        ]
    );
    let mut open = model(1);
    open.open = true;
    let content = menu_content_attrs(&open, MenuContentAttrs::default());
    assert_eq!(
        pairs(&content),
        vec![
            ("data-state".to_string(), text("open")),
            ("role".to_string(), text("menu")),
            ("hidden".to_string(), DomAttributeValue::Bool(false)),
            ("tabindex".to_string(), text("-1")),
        ]
    );
    let indicator = menu_item_indicator_attrs(&open, 0);
    assert_eq!(
        pairs(&indicator),
        vec![
            ("hidden".to_string(), DomAttributeValue::Bool(true)),
            ("data-state".to_string(), text("unchecked")),
        ]
    );
}
