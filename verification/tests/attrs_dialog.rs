use web_ui_primitives_leptos::{
    dialog_content_attrs, dialog_trigger_attrs, DialogContentAttrs, DialogModel, DialogName,
    DialogNameError, DialogRole, DomAttribute, DomAttributeValue,
};

fn text(value: &str) -> DomAttributeValue {
    DomAttributeValue::String(value.to_string())
}

fn pairs(attrs: &[DomAttribute]) -> Vec<(String, DomAttributeValue)> {
    attrs
        .iter()
        .map(|attr| (attr.name().to_string(), attr.value().clone()))
        .collect()
}

#[test]
fn trigger_attrs_reflect_open() {
    let model = DialogModel { open: true, modal: true };
    let attrs = dialog_trigger_attrs(&model, Some("dialog"));
    let expanded = attrs
        .iter()
        .find(|attr| attr.name() == "aria-expanded")
        .expect("aria-expanded");
    assert_eq!(expanded.value(), &DomAttributeValue::String("true".to_string()));
}

#[test]
fn content_attrs_include_role_and_modal() {
    let model = DialogModel { open: true, modal: true };
    let attrs = dialog_content_attrs(
        &model,
        DialogContentAttrs::new(DialogName::labelled_by("dialog-title").expect("name")),
    );
    assert!(attrs.iter().any(|attr| {
        attr.name() == "role" && attr.value() == &DomAttributeValue::String("dialog".to_string())
    }));
    assert!(attrs.iter().any(|attr| attr.name() == "aria-modal"));
    assert!(attrs.iter().any(|attr| {
        attr.name() == "aria-labelledby"
            && attr.value() == &DomAttributeValue::String("dialog-title".to_string())
    }));
}

#[test]
fn content_attrs_support_alertdialog_label_and_description() {
    let model = DialogModel { open: true, modal: true };
    let attrs = dialog_content_attrs(
        &model,
        DialogContentAttrs::new(DialogName::label("Delete item").expect("name"))
            .role(DialogRole::AlertDialog)
            .described_by("dialog-description")
            .expect("description"),
    );
    assert!(attrs.iter().any(|attr| {
        attr.name() == "role"
            && attr.value() == &DomAttributeValue::String("alertdialog".to_string())
    }));
    assert!(attrs.iter().any(|attr| {
        attr.name() == "aria-label"
            && attr.value() == &DomAttributeValue::String("Delete item".to_string())
    }));
    assert!(attrs.iter().any(|attr| {
        attr.name() == "aria-describedby"
            && attr.value() == &DomAttributeValue::String("dialog-description".to_string())
    }));
}

#[test]
fn content_name_rejects_empty_values() {
    assert_eq!(
        DialogName::label(" ").expect_err("empty label"),
        DialogNameError::EmptyLabel
    );
    assert_eq!(
        DialogName::labelled_by("").expect_err("empty labelledby"),
        DialogNameError::EmptyLabelledBy
    );
    assert_eq!(
        DialogContentAttrs::new(DialogName::label("Dialog").expect("name"))
            .described_by(" ")
            .expect_err("empty describedby"),
        DialogNameError::EmptyDescribedBy
    );
}

#[test]
fn dialog_role_values() {
    assert_eq!(DialogRole::Dialog.as_str(), "dialog");
    assert_eq!(DialogRole::AlertDialog.as_str(), "alertdialog");
}

#[test]
fn dialog_names_reject_unicode_white_space_and_keep_padding() {
    assert_eq!(
        DialogName::label("\u{a0}\t\u{3000}\n").expect_err("blank"),
        DialogNameError::EmptyLabel
    );
    let name = DialogName::label("  Title ").expect("name");
    let attrs = dialog_content_attrs(
        &DialogModel { open: false, modal: false },
        DialogContentAttrs::new(name),
    );
    assert!(attrs
        .iter()
        .any(|attr| attr.name() == "aria-label" && attr.value() == &text("  Title ")));
}

#[test]
fn trigger_attrs_exact_list() {
    let closed = dialog_trigger_attrs(&DialogModel { open: false, modal: true }, None);
    assert_eq!(
        pairs(&closed),
        vec![
            ("data-state".to_string(), text("closed")),
            ("aria-haspopup".to_string(), text("dialog")),
            ("aria-expanded".to_string(), text("false")),
        ]
    );
    let open = dialog_trigger_attrs(&DialogModel { open: true, modal: true }, Some("panel"));
    assert_eq!(
        pairs(&open),
        vec![
            ("data-state".to_string(), text("open")),
            ("aria-haspopup".to_string(), text("dialog")),
            ("aria-expanded".to_string(), text("true")),
            ("aria-controls".to_string(), text("panel")),
        ]
    );
}

#[test]
fn content_attrs_exact_list_for_non_modal_dialog() {
    let attrs = dialog_content_attrs(
        &DialogModel { open: false, modal: false },
        DialogContentAttrs::new(DialogName::labelled_by("title").expect("name")),
    );
    assert_eq!(
        pairs(&attrs),
        vec![
            ("data-state".to_string(), text("closed")),
            ("role".to_string(), text("dialog")),
            ("tabindex".to_string(), text("-1")),
            ("aria-labelledby".to_string(), text("title")),
        ]
    );
}
