//! Attribute helpers for dialog state.
use vstd::prelude::*;

use crate::dom::{
    attrs_view, lemma_values_named_append, lemma_values_named_none, lemma_values_named_one,
    opt_str_view, text_attr, values_named, AttrSpec,
    AttrValueSpec, DomAttribute,
};
use crate::text::{blank, is_blank};

verus! {

/// The dialog state that the attribute helpers read.
#[derive(Debug, Clone, Copy, PartialEq, Eq)]
pub struct DialogModel {
    /// Whether the dialog is open.
    pub open: bool,
    /// Whether the dialog is modal.
    pub modal: bool,
}

/// ARIA role for a dialog surface.
#[derive(Debug, Clone, Copy, PartialEq, Eq)]
pub enum DialogRole {
    Dialog,
    AlertDialog,
}

/// The `role` value of a dialog role.
pub open spec fn dialog_role_value(role: DialogRole) -> Seq<char> {
    match role {
        DialogRole::Dialog => "dialog"@,
        DialogRole::AlertDialog => "alertdialog"@,
    }
}

impl DialogRole {
    /// Returns the role attribute value.
    pub fn as_str(self) -> (s: &'static str)
        ensures
            s@ == dialog_role_value(self),
    {
        match self {
            DialogRole::Dialog => "dialog",
            DialogRole::AlertDialog => "alertdialog",
        }
    }
}

/// Error returned when a dialog accessible-name value is empty.
#[derive(Debug, Clone, Copy, PartialEq, Eq)]
pub enum DialogNameError {
    EmptyLabel,
    EmptyLabelledBy,
    EmptyDescribedBy,
}

/// How a dialog's accessible name is given.
#[derive(Debug, Clone, Copy, PartialEq, Eq)]
pub enum DialogNameKind {
    Label,
    LabelledBy,
}

/// Required accessible name for a dialog surface: never blank.
#[derive(Debug, Clone, Copy, PartialEq, Eq)]
pub struct DialogName<'a> {
    kind: DialogNameKind,
    value: &'a str,
}

impl<'a> DialogName<'a> {
    /// How the name is given.
    pub closed spec fn kind(self) -> DialogNameKind {
        self.kind
    }

    /// The name, or the id of the element that holds it.
    pub closed spec fn text(self) -> Seq<char> {
        self.value@
    }

    /// Every name that the constructors hand out is non-blank.
    pub closed spec fn wf(self) -> bool {
        !is_blank(self.value@)
    }

    /// Creates an `aria-label` accessible name.
    pub fn label(value: &'a str) -> (r: Result<Self, DialogNameError>)
        ensures
            is_blank(value@) ==> r == Err::<Self, DialogNameError>(DialogNameError::EmptyLabel),
            !is_blank(value@) ==> r is Ok && r->Ok_0.kind() == DialogNameKind::Label
                && r->Ok_0.text() == value@ && r->Ok_0.wf(),
    {
        if blank(value) {
            return Err(DialogNameError::EmptyLabel);
        }
        Ok(DialogName { kind: DialogNameKind::Label, value })
    }

    /// Creates an `aria-labelledby` accessible name.
    pub fn labelled_by(value: &'a str) -> (r: Result<Self, DialogNameError>)
        ensures
            is_blank(value@) ==> r == Err::<Self, DialogNameError>(
                DialogNameError::EmptyLabelledBy,
            ),
            !is_blank(value@) ==> r is Ok && r->Ok_0.kind() == DialogNameKind::LabelledBy
                && r->Ok_0.text() == value@ && r->Ok_0.wf(),
    {
        if blank(value) {
            return Err(DialogNameError::EmptyLabelledBy);
        }
        Ok(DialogName { kind: DialogNameKind::LabelledBy, value })
    }
}

/// Attribute options for a dialog surface.
#[derive(Debug, Clone, Copy, PartialEq, Eq)]
pub struct DialogContentAttrs<'a> {
    role: DialogRole,
    name: DialogName<'a>,
    described_by: Option<&'a str>,
}

impl<'a> DialogContentAttrs<'a> {
    /// The ARIA role.
    pub closed spec fn role_spec(self) -> DialogRole {
        self.role
    }

    /// The accessible name.
    pub closed spec fn name_spec(self) -> DialogName<'a> {
        self.name
    }

    /// The `aria-describedby` value, if any.
    pub closed spec fn described_by_spec(self) -> Option<Seq<char>> {
        opt_str_view(self.described_by)
    }

    /// Creates dialog content attributes with a required accessible name.
    pub fn new(name: DialogName<'a>) -> (r: Self)
        ensures
            r.role_spec() == DialogRole::Dialog,
            r.name_spec() == name,
            r.described_by_spec() == None::<Seq<char>>,
    {
        DialogContentAttrs { role: DialogRole::Dialog, name, described_by: None }
    }

    /// Sets the ARIA role for the dialog surface.
    pub fn role(self, role: DialogRole) -> (r: Self)
        ensures
            r.role_spec() == role,
            r.name_spec() == self.name_spec(),
            r.described_by_spec() == self.described_by_spec(),
    {
        let mut s = self;
        s.role = role;
        s
    }

    /// Sets `aria-describedby` for the dialog surface.
    pub fn described_by(self, value: &'a str) -> (r: Result<Self, DialogNameError>)
        ensures
            is_blank(value@) ==> r == Err::<Self, DialogNameError>(
                DialogNameError::EmptyDescribedBy,
            ),
            !is_blank(value@) ==> r is Ok && r->Ok_0.role_spec() == self.role_spec()
                && r->Ok_0.name_spec() == self.name_spec() && r->Ok_0.described_by_spec()
                == Some(value@),
    {
        if blank(value) {
            return Err(DialogNameError::EmptyDescribedBy);
        }
        let mut s = self;
        s.described_by = Some(value);
        Ok(s)
    }
}

/// `data-state` value for an open or closed dialog.
pub open spec fn dialog_state_text(open: bool) -> Seq<char> {
    if open {
        "open"@
    } else {
        "closed"@
    }
}

/// `"true"` or `"false"`.
pub open spec fn bool_text(b: bool) -> Seq<char> {
    if b {
        "true"@
    } else {
        "false"@
    }
}

/// One attribute when `value` is present, none otherwise.
pub open spec fn optional_text_attr(name: Seq<char>, value: Option<Seq<char>>) -> Seq<AttrSpec> {
    match value {
        Some(v) => seq![text_attr(name, v)],
        None => Seq::empty(),
    }
}

/// An optional attribute contributes a value under its own name only.
pub proof fn lemma_optional_attr_values(name: Seq<char>, value: Option<Seq<char>>, n: Seq<char>)
    ensures
        values_named(optional_text_attr(name, value), n) == (if value is Some && name == n {
            seq![AttrValueSpec::Text(value->0)]
        } else {
            Seq::empty()
        }),
{
    reveal_with_fuel(values_named, 2);
    match value {
        Some(v) => {
            assert(seq![text_attr(name, v)].drop_last() =~= Seq::<AttrSpec>::empty());
            assert(values_named(optional_text_attr(name, value), n) =~= (if name == n {
                seq![AttrValueSpec::Text(v)]
            } else {
                Seq::empty()
            }));
        },
        None => {},
    }
}

/// The attributes of a dialog trigger.
pub open spec fn dialog_trigger_spec(model: DialogModel, controls: Option<Seq<char>>) -> Seq<
    AttrSpec,
> {
    seq![
        text_attr("data-state"@, dialog_state_text(model.open)),
        text_attr("aria-haspopup"@, "dialog"@),
        text_attr("aria-expanded"@, bool_text(model.open)),
    ] + optional_text_attr("aria-controls"@, controls)
}

/// The attributes of a dialog surface.
pub open spec fn dialog_content_spec(model: DialogModel, options: DialogContentAttrs) -> Seq<
    AttrSpec,
> {
    seq![
        text_attr("data-state"@, dialog_state_text(model.open)),
        text_attr("role"@, dialog_role_value(options.role_spec())),
        text_attr("tabindex"@, "-1"@),
    ] + (if model.modal {
        seq![text_attr("aria-modal"@, "true"@)]
    } else {
        Seq::empty()
    }) + seq![
        text_attr(
            match options.name_spec().kind() {
                DialogNameKind::Label => "aria-label"@,
                DialogNameKind::LabelledBy => "aria-labelledby"@,
            },
            options.name_spec().text(),
        ),
    ] + optional_text_attr("aria-describedby"@, options.described_by_spec())
}

fn dialog_state_value(open: bool) -> (s: &'static str)
    ensures
        s@ == dialog_state_text(open),
{
    if open {
        "open"
    } else {
        "closed"
    }
}

/// Returns trigger attributes for a dialog toggle element.
///
/// The optional `controls_id` is written to `aria-controls` when provided.
pub fn dialog_trigger_attrs(model: &DialogModel, controls_id: Option<&str>) -> (attrs: Vec<
    DomAttribute,
>)
    ensures
        attrs_view(attrs@) == dialog_trigger_spec(*model, opt_str_view(controls_id)),
        values_named(attrs_view(attrs@), "data-state"@) == seq![
            AttrValueSpec::Text(
                if model.open {
                    "open"@
                } else {
                    "closed"@
                },
            ),
        ],
        values_named(attrs_view(attrs@), "aria-expanded"@) == seq![
            AttrValueSpec::Text(
                if model.open {
                    "true"@
                } else {
                    "false"@
                },
            ),
        ],
{
    proof {
        lemma_dialog_trigger_state(*model, opt_str_view(controls_id));
    }
    let mut attrs = Vec::new();
    let state = dialog_state_value(model.open);
    attrs.push(DomAttribute::string("data-state", state));
    attrs.push(DomAttribute::string("aria-haspopup", "dialog"));
    attrs.push(
        DomAttribute::string(
            "aria-expanded",
            if model.open {
                "true"
            } else {
                "false"
            },
        ),
    );
    if let Some(controls) = controls_id {
        attrs.push(DomAttribute::string("aria-controls", controls));
    }
    assert(attrs_view(attrs@) =~= dialog_trigger_spec(*model, opt_str_view(controls_id)));
    attrs
}

/// Returns content attributes for a dialog surface element.
pub fn dialog_content_attrs(model: &DialogModel, options: DialogContentAttrs<'_>) -> (attrs: Vec<
    DomAttribute,
>)
    ensures
        attrs_view(attrs@) == dialog_content_spec(*model, options),
        values_named(attrs_view(attrs@), "data-state"@) == seq![
            AttrValueSpec::Text(
                if model.open {
                    "open"@
                } else {
                    "closed"@
                },
            ),
        ],
        values_named(attrs_view(attrs@), "aria-modal"@) == (if model.modal {
            seq![AttrValueSpec::Text("true"@)]
        } else {
            Seq::<AttrValueSpec>::empty()
        }),
{
    proof {
        lemma_dialog_content_state(*model, options);
    }
    let mut attrs = Vec::new();
    let state = dialog_state_value(model.open);
    attrs.push(DomAttribute::string("data-state", state));
    attrs.push(DomAttribute::string("role", options.role.as_str()));
    attrs.push(DomAttribute::string("tabindex", "-1"));
    if model.modal {
        attrs.push(DomAttribute::string("aria-modal", "true"));
    }
    match options.name.kind {
        DialogNameKind::Label => {
            attrs.push(DomAttribute::string("aria-label", options.name.value));
        },
        DialogNameKind::LabelledBy => {
            attrs.push(DomAttribute::string("aria-labelledby", options.name.value));
        },
    }
    if let Some(description) = options.described_by {
        attrs.push(DomAttribute::string("aria-describedby", description));
    }
    assert(attrs_view(attrs@) =~= dialog_content_spec(*model, options));
    attrs
}

/// A dialog trigger carries one `data-state`, `"open"` exactly when the
/// dialog is open and `"closed"` otherwise, and one `aria-expanded`,
/// `"true"` exactly when it is open.
pub proof fn lemma_dialog_trigger_state(model: DialogModel, controls: Option<Seq<char>>)
    ensures
        values_named(dialog_trigger_spec(model, controls), "data-state"@) == seq![
            AttrValueSpec::Text(
                if model.open {
                    "open"@
                } else {
                    "closed"@
                },
            ),
        ],
        values_named(dialog_trigger_spec(model, controls), "aria-expanded"@) == seq![
            AttrValueSpec::Text(
                if model.open {
                    "true"@
                } else {
                    "false"@
                },
            ),
        ],
{
    reveal_strlit("data-state");
    reveal_strlit("aria-expanded");
    reveal_strlit("aria-modal");
    reveal_strlit("aria-haspopup");
    reveal_strlit("aria-controls");
    reveal_strlit("role");
    reveal_strlit("tabindex");
    reveal_strlit("aria-label");
    reveal_strlit("aria-labelledby");
    reveal_strlit("aria-describedby");
    let ds = "data-state"@;
    let ex = "aria-expanded"@;
    let md = "aria-modal"@;
    assert(ds != ex && ds != md && ds != "aria-haspopup"@ && ds != "aria-controls"@ && ds
        != "role"@ && ds != "tabindex"@ && ds != "aria-label"@ && ds != "aria-labelledby"@ && ds
        != "aria-describedby"@) by {
        assert(ds[0] != ex[0] && ds[0] != md[0] && ds[0] != "aria-haspopup"@[0]);
        assert(ds[0] != "aria-controls"@[0] && ds[0] != "aria-label"@[0]);
        assert(ds.len() != "role"@.len() && ds.len() != "tabindex"@.len());
        assert(ds.len() != "aria-labelledby"@.len() && ds.len() != "aria-describedby"@.len());
    }
    assert(ex != "aria-haspopup"@ && ex != "aria-controls"@) by {
        assert(ex[5] != "aria-haspopup"@[5] && ex[5] != "aria-controls"@[5]);
    }
    assert(md != "role"@ && md != "tabindex"@ && md != "aria-label"@ && md != "aria-labelledby"@
        && md != "aria-describedby"@) by {
        assert(md.len() != "role"@.len() && md.len() != "tabindex"@.len());
        assert(md[5] != "aria-label"@[5]);
        assert(md.len() != "aria-labelledby"@.len() && md.len() != "aria-describedby"@.len());
    }
    let state = text_attr("data-state"@, dialog_state_text(model.open));
    let popup = text_attr("aria-haspopup"@, "dialog"@);
    let expanded = text_attr("aria-expanded"@, bool_text(model.open));
    let tcontrols = optional_text_attr("aria-controls"@, controls);
    assert(dialog_trigger_spec(model, controls) =~= seq![state] + seq![popup, expanded]
        + tcontrols);
    lemma_values_named_append(seq![state] + seq![popup, expanded], tcontrols, ds);
    lemma_values_named_append(seq![state], seq![popup, expanded], ds);
    lemma_values_named_one(state, ds);
    lemma_values_named_none(seq![popup, expanded], ds);
    lemma_optional_attr_values("aria-controls"@, controls, ds);
    assert(values_named(dialog_trigger_spec(model, controls), ds) =~= seq![state.value]);
    lemma_values_named_append(seq![state, popup], seq![expanded] + tcontrols, ex);
    assert(dialog_trigger_spec(model, controls) =~= seq![state, popup] + (seq![expanded]
        + tcontrols));
    lemma_values_named_append(seq![expanded], tcontrols, ex);
    lemma_values_named_none(seq![state, popup], ex);
    lemma_values_named_one(expanded, ex);
    lemma_optional_attr_values("aria-controls"@, controls, ex);
    assert(values_named(dialog_trigger_spec(model, controls), ex) =~= seq![expanded.value]);
}

/// A dialog surface carries one `data-state`, `"open"` exactly when the
/// dialog is open and `"closed"` otherwise, whether or not it is modal; and
/// it carries `aria-modal="true"` exactly when the dialog is modal.
pub proof fn lemma_dialog_content_state(model: DialogModel, options: DialogContentAttrs)
    ensures
        values_named(dialog_content_spec(model, options), "data-state"@) == seq![
            AttrValueSpec::Text(
                if model.open {
                    "open"@
                } else {
                    "closed"@
                },
            ),
        ],
        values_named(dialog_content_spec(model, options), "aria-modal"@) == (if model.modal {
            seq![AttrValueSpec::Text("true"@)]
        } else {
            Seq::<AttrValueSpec>::empty()
        }),
{
    reveal_strlit("data-state");
    reveal_strlit("aria-expanded");
    reveal_strlit("aria-modal");
    reveal_strlit("aria-haspopup");
    reveal_strlit("aria-controls");
    reveal_strlit("role");
    reveal_strlit("tabindex");
    reveal_strlit("aria-label");
    reveal_strlit("aria-labelledby");
    reveal_strlit("aria-describedby");
    let ds = "data-state"@;
    let ex = "aria-expanded"@;
    let md = "aria-modal"@;
    assert(ds != ex && ds != md && ds != "aria-haspopup"@ && ds != "aria-controls"@ && ds
        != "role"@ && ds != "tabindex"@ && ds != "aria-label"@ && ds != "aria-labelledby"@ && ds
        != "aria-describedby"@) by {
        assert(ds[0] != ex[0] && ds[0] != md[0] && ds[0] != "aria-haspopup"@[0]);
        assert(ds[0] != "aria-controls"@[0] && ds[0] != "aria-label"@[0]);
        assert(ds.len() != "role"@.len() && ds.len() != "tabindex"@.len());
        assert(ds.len() != "aria-labelledby"@.len() && ds.len() != "aria-describedby"@.len());
    }
    assert(ex != "aria-haspopup"@ && ex != "aria-controls"@) by {
        assert(ex[5] != "aria-haspopup"@[5] && ex[5] != "aria-controls"@[5]);
    }
    assert(md != "role"@ && md != "tabindex"@ && md != "aria-label"@ && md != "aria-labelledby"@
        && md != "aria-describedby"@) by {
        assert(md.len() != "role"@.len() && md.len() != "tabindex"@.len());
        assert(md[5] != "aria-label"@[5]);
        assert(md.len() != "aria-labelledby"@.len() && md.len() != "aria-describedby"@.len());
    }
    let state = text_attr("data-state"@, dialog_state_text(model.open));
    // The surface.
    let rest = seq![
        text_attr("role"@, dialog_role_value(options.role_spec())),
        text_attr("tabindex"@, "-1"@),
    ];
    let modal = if model.modal {
        seq![text_attr("aria-modal"@, "true"@)]
    } else {
        Seq::<AttrSpec>::empty()
    };
    let name = seq![
        text_attr(
            match options.name_spec().kind() {
                DialogNameKind::Label => "aria-label"@,
                DialogNameKind::LabelledBy => "aria-labelledby"@,
            },
            options.name_spec().text(),
        ),
    ];
    let described = optional_text_attr("aria-describedby"@, options.described_by_spec());
    let content = dialog_content_spec(model, options);
    assert(content =~= seq![state] + rest + modal + name + described);
    lemma_values_named_append(seq![state] + rest + modal + name, described, ds);
    lemma_values_named_append(seq![state] + rest + modal, name, ds);
    lemma_values_named_append(seq![state] + rest, modal, ds);
    lemma_values_named_append(seq![state], rest, ds);
    lemma_values_named_one(state, ds);
    lemma_values_named_none(rest, ds);
    lemma_values_named_none(modal, ds);
    lemma_values_named_none(name, ds);
    lemma_optional_attr_values("aria-describedby"@, options.described_by_spec(), ds);
    assert(values_named(content, ds) =~= seq![state.value]);
    lemma_values_named_append(seq![state] + rest + modal + name, described, md);
    lemma_values_named_append(seq![state] + rest + modal, name, md);
    lemma_values_named_append(seq![state] + rest, modal, md);
    lemma_values_named_none(seq![state] + rest, md);
    lemma_values_named_none(name, md);
    lemma_optional_attr_values("aria-describedby"@, options.described_by_spec(), md);
    if model.modal {
        lemma_values_named_one(text_attr("aria-modal"@, "true"@), md);
    } else {
        lemma_values_named_none(modal, md);
    }
    assert(values_named(content, md) =~= values_named(modal, md));
}

/// A dialog's trigger and surface agree on its state: their `data-state`
/// values are the same, for every model.
pub proof fn lemma_dialog_state_follows_open(
    model: DialogModel,
    controls: Option<Seq<char>>,
    options: DialogContentAttrs,
)
    ensures
        values_named(dialog_trigger_spec(model, controls), "data-state"@) == values_named(
            dialog_content_spec(model, options),
            "data-state"@,
        ),
{
    lemma_dialog_trigger_state(model, controls);
    lemma_dialog_content_state(model, options);
}

} // verus!
