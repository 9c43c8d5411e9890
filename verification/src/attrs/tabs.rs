//! Attribute helpers for tabs state.
use vstd::prelude::*;

use crate::attrs::dialog::{bool_text, lemma_optional_attr_values, optional_text_attr};
use crate::dom::{
    attrs_view, flag_attr, lemma_values_named_append, lemma_values_named_none,
    lemma_values_named_one, opt_str_view, push_attr, text_attr, values_named,
    AttrSpec, AttrValueSpec, DomAttribute,
};

verus! {

/// Layout direction of a tab list.
#[derive(Debug, Clone, Copy, PartialEq, Eq)]
pub enum Orientation {
    Horizontal,
    Vertical,
}

/// The `aria-orientation` value of an orientation.
pub open spec fn orientation_text(orientation: Orientation) -> Seq<char> {
    match orientation {
        Orientation::Horizontal => "horizontal"@,
        Orientation::Vertical => "vertical"@,
    }
}

impl Orientation {
    /// Returns the `aria-orientation` value.
    pub fn as_aria_value(self) -> (s: &'static str)
        ensures
            s@ == orientation_text(self),
    {
        match self {
            Orientation::Horizontal => "horizontal",
            Orientation::Vertical => "vertical",
        }
    }
}

/// The tabs state that the attribute helpers read.
#[derive(Debug, Clone, PartialEq, Eq)]
pub struct TabsModel {
    /// The selected tab, if any.
    pub selected: Option<usize>,
    /// The focused tab, if any.
    pub focused: Option<usize>,
    /// `disabled[i]` tells whether tab `i` is disabled; tabs past the end
    /// are enabled.
    pub disabled: Vec<bool>,
}

/// Whether tab `index` is disabled.
pub open spec fn tab_disabled(model: TabsModel, index: usize) -> bool {
    index < model.disabled@.len() && model.disabled@[index as int]
}

impl TabsModel {
    /// Returns whether tab `index` is disabled.
    pub fn is_disabled(&self, index: usize) -> (r: bool)
        ensures
            r == tab_disabled(*self, index),
    {
        index < self.disabled.len() && self.disabled[index]
    }
}

fn option_is(value: Option<usize>, index: usize) -> (r: bool)
    ensures
        r == (value == Some(index)),
{
    match value {
        Some(v) => v == index,
        None => false,
    }
}

/// Element contract for tab trigger attributes.
#[derive(Debug, Clone, Copy, PartialEq, Eq)]
pub enum TabsTriggerElement {
    Button,
    Generic,
}

/// Disabled-state policy for tab trigger attributes.
#[derive(Debug, Clone, Copy, PartialEq, Eq)]
pub enum TabsTriggerDisabledPolicy {
    Native,
    Aria,
}

/// Attribute options for a tab trigger.
#[derive(Debug, Clone, Copy, PartialEq, Eq)]
pub struct TabsTriggerAttrs<'a> {
    trigger_id: Option<&'a str>,
    controls_id: Option<&'a str>,
    element: TabsTriggerElement,
    disabled_policy: TabsTriggerDisabledPolicy,
}

impl<'a> TabsTriggerAttrs<'a> {
    /// The trigger id, if any.
    pub closed spec fn trigger_id_spec(self) -> Option<Seq<char>> {
        opt_str_view(self.trigger_id)
    }

    /// The controlled panel id, if any.
    pub closed spec fn controls_id_spec(self) -> Option<Seq<char>> {
        opt_str_view(self.controls_id)
    }

    /// The trigger element contract.
    pub closed spec fn element_spec(self) -> TabsTriggerElement {
        self.element
    }

    /// The disabled-state policy.
    pub closed spec fn disabled_policy_spec(self) -> TabsTriggerDisabledPolicy {
        self.disabled_policy
    }

    /// Creates tab trigger attribute options: no ids, a native button.
    pub fn new() -> (r: Self)
        ensures
            r.trigger_id_spec() == None::<Seq<char>>,
            r.controls_id_spec() == None::<Seq<char>>,
            r.element_spec() == TabsTriggerElement::Button,
            r.disabled_policy_spec() == TabsTriggerDisabledPolicy::Native,
    {
        TabsTriggerAttrs {
            trigger_id: None,
            controls_id: None,
            element: TabsTriggerElement::Button,
            disabled_policy: TabsTriggerDisabledPolicy::Native,
        }
    }

    /// Sets the tab trigger `id`.
    pub fn trigger_id(self, trigger_id: &'a str) -> (r: Self)
        ensures
            r.trigger_id_spec() == Some(trigger_id@),
            r.controls_id_spec() == self.controls_id_spec(),
            r.element_spec() == self.element_spec(),
            r.disabled_policy_spec() == self.disabled_policy_spec(),
    {
        let mut s = self;
        s.trigger_id = Some(trigger_id);
        s
    }

    /// Sets the controlled panel id.
    pub fn controls_id(self, controls_id: &'a str) -> (r: Self)
        ensures
            r.trigger_id_spec() == self.trigger_id_spec(),
            r.controls_id_spec() == Some(controls_id@),
            r.element_spec() == self.element_spec(),
            r.disabled_policy_spec() == self.disabled_policy_spec(),
    {
        let mut s = self;
        s.controls_id = Some(controls_id);
        s
    }

    /// Sets the trigger element contract.
    pub fn element(self, element: TabsTriggerElement) -> (r: Self)
        ensures
            r.trigger_id_spec() == self.trigger_id_spec(),
            r.controls_id_spec() == self.controls_id_spec(),
            r.element_spec() == element,
            r.disabled_policy_spec() == self.disabled_policy_spec(),
    {
        let mut s = self;
        s.element = element;
        s
    }

    /// Sets the disabled-state policy.
    pub fn disabled_policy(self, disabled_policy: TabsTriggerDisabledPolicy) -> (r: Self)
        ensures
            r.trigger_id_spec() == self.trigger_id_spec(),
            r.controls_id_spec() == self.controls_id_spec(),
            r.element_spec() == self.element_spec(),
            r.disabled_policy_spec() == disabled_policy,
    {
        let mut s = self;
        s.disabled_policy = disabled_policy;
        s
    }
}

impl<'a> Default for TabsTriggerAttrs<'a> {
    fn default() -> (r: Self)
        ensures
            r.trigger_id_spec() == None::<Seq<char>>,
            r.controls_id_spec() == None::<Seq<char>>,
            r.element_spec() == TabsTriggerElement::Button,
            r.disabled_policy_spec() == TabsTriggerDisabledPolicy::Native,
    {
        TabsTriggerAttrs::new()
    }
}

/// The attributes of a tab list.
pub open spec fn tabs_list_spec(orientation: Orientation) -> Seq<AttrSpec> {
    seq![text_attr("role"@, "tablist"@)] + (if orientation == Orientation::Vertical {
        seq![text_attr("aria-orientation"@, orientation_text(orientation))]
    } else {
        Seq::empty()
    })
}

/// The `role`, `type`, selection and `tabindex` attributes of tab `index`.
pub open spec fn tabs_trigger_head_spec(model: TabsModel, index: usize, options: TabsTriggerAttrs) -> Seq<
    AttrSpec,
> {
    let selected = model.selected == Some(index);
    let active = model.focused == Some(index) && !tab_disabled(model, index);
    seq![text_attr("role"@, "tab"@)] + (if options.element_spec() == TabsTriggerElement::Button {
        seq![text_attr("type"@, "button"@)]
    } else {
        Seq::empty()
    }) + seq![
        text_attr("aria-selected"@, bool_text(selected)),
        text_attr("data-state"@, if selected { "active"@ } else { "inactive"@ }),
        text_attr("tabindex"@, if active { "0"@ } else { "-1"@ }),
    ]
}

/// The disabled-state attributes of tab `index`.
pub open spec fn tabs_trigger_disabled_spec(
    model: TabsModel,
    index: usize,
    options: TabsTriggerAttrs,
) -> Seq<AttrSpec> {
    let disabled = tab_disabled(model, index);
    (if options.element_spec() == TabsTriggerElement::Button && options.disabled_policy_spec()
        == TabsTriggerDisabledPolicy::Native {
        seq![flag_attr("disabled"@, disabled)]
    } else {
        Seq::empty()
    }) + (if disabled {
        seq![text_attr("aria-disabled"@, "true"@), flag_attr("data-disabled"@, true)]
    } else {
        Seq::empty()
    })
}

/// The attributes of tab `index`.
pub open spec fn tabs_trigger_spec(model: TabsModel, index: usize, options: TabsTriggerAttrs) -> Seq<
    AttrSpec,
> {
    tabs_trigger_head_spec(model, index, options) + tabs_trigger_disabled_spec(
        model,
        index,
        options,
    ) + optional_text_attr("id"@, options.trigger_id_spec()) + optional_text_attr(
        "aria-controls"@,
        options.controls_id_spec(),
    )
}

/// The attributes of tab panel `index`.
pub open spec fn tabs_panel_spec(
    model: TabsModel,
    index: usize,
    panel_id: Option<Seq<char>>,
    labelled_by: Option<Seq<char>>,
) -> Seq<AttrSpec> {
    seq![
        text_attr("role"@, "tabpanel"@),
        flag_attr("hidden"@, !(model.selected == Some(index))),
        text_attr("tabindex"@, "0"@),
    ] + optional_text_attr("id"@, panel_id) + optional_text_attr("aria-labelledby"@, labelled_by)
}

/// Returns container attributes for a tabs list element.
pub fn tabs_list_attrs(orientation: Orientation) -> (attrs: Vec<DomAttribute>)
    ensures
        attrs_view(attrs@) == tabs_list_spec(orientation),
{
    let mut attrs = Vec::new();
    push_attr(&mut attrs, DomAttribute::string("role", "tablist"));
    match orientation {
        Orientation::Vertical => {
            push_attr(
                &mut attrs,
                DomAttribute::string("aria-orientation", orientation.as_aria_value()),
            );
        },
        Orientation::Horizontal => {},
    }
    assert(attrs_view(attrs@) =~= tabs_list_spec(orientation));
    attrs
}

/// Returns trigger attributes for a single tab button.
///
/// Disabled state is derived from `model`, so callers should not layer a
/// separate disabled flag on top of these attributes.
pub fn tabs_trigger_attrs(model: &TabsModel, index: usize, options: TabsTriggerAttrs<'_>) -> (attrs:
    Vec<DomAttribute>)
    ensures
        attrs_view(attrs@) == tabs_trigger_spec(*model, index, options),
        values_named(attrs_view(attrs@), "tabindex"@) == seq![
            AttrValueSpec::Text(
                if model.focused == Some(index) && !(index < model.disabled@.len()
                    && model.disabled@[index as int]) {
                    "0"@
                } else {
                    "-1"@
                },
            ),
        ],
        values_named(attrs_view(attrs@), "aria-selected"@) == seq![
            AttrValueSpec::Text(
                if model.selected == Some(index) {
                    "true"@
                } else {
                    "false"@
                },
            ),
        ],
        values_named(attrs_view(attrs@), "data-state"@) == seq![
            AttrValueSpec::Text(
                if model.selected == Some(index) {
                    "active"@
                } else {
                    "inactive"@
                },
            ),
        ],
{
    proof {
        lemma_tabs_roving_tab_stop(*model, index, options);
        lemma_tabs_selection_state(*model, index, options);
    }
    let mut attrs = Vec::new();
    let selected = option_is(model.selected, index);
    let focused = option_is(model.focused, index);
    let disabled = model.is_disabled(index);
    let button = match options.element {
        TabsTriggerElement::Button => true,
        TabsTriggerElement::Generic => false,
    };
    let native = match options.disabled_policy {
        TabsTriggerDisabledPolicy::Native => true,
        TabsTriggerDisabledPolicy::Aria => false,
    };
    push_attr(&mut attrs, DomAttribute::string("role", "tab"));
    if button {
        push_attr(&mut attrs, DomAttribute::string("type", "button"));
    }
    push_attr(
        &mut attrs,
        DomAttribute::string(
            "aria-selected",
            if selected {
                "true"
            } else {
                "false"
            },
        ),
    );
    push_attr(
        &mut attrs,
        DomAttribute::string(
            "data-state",
            if selected {
                "active"
            } else {
                "inactive"
            },
        ),
    );
    push_attr(
        &mut attrs,
        DomAttribute::string(
            "tabindex",
            if focused && !disabled {
                "0"
            } else {
                "-1"
            },
        ),
    );
    let ghost head = attrs_view(attrs@);
    assert(head =~= tabs_trigger_head_spec(*model, index, options));
    if button && native {
        push_attr(&mut attrs, DomAttribute::bool("disabled", disabled));
    }
    if disabled {
        push_attr(&mut attrs, DomAttribute::string("aria-disabled", "true"));
        push_attr(&mut attrs, DomAttribute::bool("data-disabled", true));
    }
    let ghost with_disabled = attrs_view(attrs@);
    assert(with_disabled =~= head + tabs_trigger_disabled_spec(*model, index, options));
    if let Some(id) = options.trigger_id {
        push_attr(&mut attrs, DomAttribute::string("id", id));
    }
    let ghost with_id = attrs_view(attrs@);
    assert(with_id =~= with_disabled + optional_text_attr("id"@, options.trigger_id_spec()));
    if let Some(controls) = options.controls_id {
        push_attr(&mut attrs, DomAttribute::string("aria-controls", controls));
    }
    assert(attrs_view(attrs@) =~= with_id + optional_text_attr(
        "aria-controls"@,
        options.controls_id_spec(),
    ));
    attrs
}

/// Returns panel attributes for a single tab panel.
pub fn tabs_panel_attrs(
    model: &TabsModel,
    index: usize,
    panel_id: Option<&str>,
    labelled_by: Option<&str>,
) -> (attrs: Vec<DomAttribute>)
    ensures
        attrs_view(attrs@) == tabs_panel_spec(
            *model,
            index,
            opt_str_view(panel_id),
            opt_str_view(labelled_by),
        ),
        values_named(attrs_view(attrs@), "hidden"@) == seq![
            AttrValueSpec::Flag(model.selected != Some(index)),
        ],
{
    proof {
        lemma_tabs_panel_hidden(*model, index, opt_str_view(panel_id), opt_str_view(labelled_by));
    }
    let mut attrs = Vec::new();
    let selected = option_is(model.selected, index);
    push_attr(&mut attrs, DomAttribute::string("role", "tabpanel"));
    push_attr(&mut attrs, DomAttribute::bool("hidden", !selected));
    push_attr(&mut attrs, DomAttribute::string("tabindex", "0"));
    if let Some(id) = panel_id {
        push_attr(&mut attrs, DomAttribute::string("id", id));
    }
    if let Some(labelled_by) = labelled_by {
        push_attr(&mut attrs, DomAttribute::string("aria-labelledby", labelled_by));
    }
    assert(attrs_view(attrs@) =~= tabs_panel_spec(
        *model,
        index,
        opt_str_view(panel_id),
        opt_str_view(labelled_by),
    ));
    attrs
}

/// The roving tab stop: a tab trigger carries exactly one `tabindex`,
/// `"0"` when the tab is the focused one and is enabled, `"-1"` otherwise,
/// whichever tab is selected.
pub proof fn lemma_tabs_roving_tab_stop(model: TabsModel, index: usize, options: TabsTriggerAttrs)
    ensures
        values_named(tabs_trigger_spec(model, index, options), "tabindex"@) == seq![
            AttrValueSpec::Text(
                if model.focused == Some(index) && !(index < model.disabled@.len()
                    && model.disabled@[index as int]) {
                    "0"@
                } else {
                    "-1"@
                },
            ),
        ],
{
    reveal_strlit("tabindex");
    reveal_strlit("role");
    reveal_strlit("type");
    reveal_strlit("aria-selected");
    reveal_strlit("data-state");
    reveal_strlit("disabled");
    reveal_strlit("aria-disabled");
    reveal_strlit("data-disabled");
    reveal_strlit("id");
    reveal_strlit("aria-controls");
    let n = "tabindex"@;
    assert(n != "disabled"@) by {
        assert(n[0] != "disabled"@[0]);
    }
    assert(n != "role"@ && n != "type"@ && n != "aria-selected"@ && n != "data-state"@) by {
        assert(n.len() != "role"@.len() && n.len() != "type"@.len());
        assert(n.len() != "aria-selected"@.len() && n.len() != "data-state"@.len());
    }
    assert(n != "aria-disabled"@ && n != "data-disabled"@) by {
        assert(n.len() != "aria-disabled"@.len() && n.len() != "data-disabled"@.len());
    }
    assert(n != "id"@ && n != "aria-controls"@) by {
        assert(n.len() != "id"@.len() && n.len() != "aria-controls"@.len());
    }
    let selected = model.selected == Some(index);
    let front = seq![text_attr("role"@, "tab"@)] + (if options.element_spec()
        == TabsTriggerElement::Button {
        seq![text_attr("type"@, "button"@)]
    } else {
        Seq::empty()
    });
    let middle = seq![
        text_attr("aria-selected"@, bool_text(selected)),
        text_attr("data-state"@, if selected { "active"@ } else { "inactive"@ }),
    ];
    let stop = text_attr(
        "tabindex"@,
        if model.focused == Some(index) && !tab_disabled(model, index) {
            "0"@
        } else {
            "-1"@
        },
    );
    let head = tabs_trigger_head_spec(model, index, options);
    assert(head =~= front + middle + seq![stop]);
    let dis = tabs_trigger_disabled_spec(model, index, options);
    let id = optional_text_attr("id"@, options.trigger_id_spec());
    let controls = optional_text_attr("aria-controls"@, options.controls_id_spec());
    lemma_values_named_append(head + dis + id, controls, n);
    lemma_values_named_append(head + dis, id, n);
    lemma_values_named_append(head, dis, n);
    lemma_values_named_append(front + middle, seq![stop], n);
    lemma_values_named_append(front, middle, n);
    lemma_values_named_none(front, n);
    lemma_values_named_none(middle, n);
    lemma_values_named_none(dis, n);
    lemma_values_named_one(stop, n);
    lemma_optional_attr_values("id"@, options.trigger_id_spec(), n);
    lemma_optional_attr_values("aria-controls"@, options.controls_id_spec(), n);
    assert(values_named(tabs_trigger_spec(model, index, options), n) =~= seq![stop.value]);
}

/// A tab trigger reports its selection once: one `aria-selected`, `"true"`
/// exactly for the selected tab, and one `data-state`, `"active"` exactly
/// for the selected tab, whichever tab has focus.
pub proof fn lemma_tabs_selection_state(model: TabsModel, index: usize, options: TabsTriggerAttrs)
    ensures
        values_named(tabs_trigger_spec(model, index, options), "aria-selected"@) == seq![
            AttrValueSpec::Text(
                if model.selected == Some(index) {
                    "true"@
                } else {
                    "false"@
                },
            ),
        ],
        values_named(tabs_trigger_spec(model, index, options), "data-state"@) == seq![
            AttrValueSpec::Text(
                if model.selected == Some(index) {
                    "active"@
                } else {
                    "inactive"@
                },
            ),
        ],
{
    reveal_strlit("tabindex");
    reveal_strlit("role");
    reveal_strlit("type");
    reveal_strlit("aria-selected");
    reveal_strlit("data-state");
    reveal_strlit("disabled");
    reveal_strlit("aria-disabled");
    reveal_strlit("data-disabled");
    reveal_strlit("id");
    reveal_strlit("aria-controls");
    let sel = "aria-selected"@;
    let st = "data-state"@;
    assert(sel != st && sel != "role"@ && sel != "type"@ && sel != "tabindex"@ && sel
        != "disabled"@ && sel != "id"@) by {
        assert(sel.len() != st.len() && sel.len() != "role"@.len() && sel.len() != "type"@.len());
        assert(sel.len() != "tabindex"@.len() && sel.len() != "disabled"@.len() && sel.len()
            != "id"@.len());
    }
    assert(sel != "aria-disabled"@ && sel != "data-disabled"@ && sel != "aria-controls"@) by {
        assert(sel[5] != "aria-disabled"@[5] && sel[0] != "data-disabled"@[0] && sel[5]
            != "aria-controls"@[5]);
    }
    assert(st != "role"@ && st != "type"@ && st != "tabindex"@ && st != "disabled"@ && st
        != "id"@ && st != "aria-disabled"@ && st != "data-disabled"@ && st != "aria-controls"@) by {
        assert(st.len() != "role"@.len() && st.len() != "type"@.len() && st.len()
            != "tabindex"@.len());
        assert(st.len() != "disabled"@.len() && st.len() != "id"@.len() && st.len()
            != "aria-disabled"@.len());
        assert(st.len() != "data-disabled"@.len() && st.len() != "aria-controls"@.len());
    }
    let selected = model.selected == Some(index);
    let front = seq![text_attr("role"@, "tab"@)] + (if options.element_spec()
        == TabsTriggerElement::Button {
        seq![text_attr("type"@, "button"@)]
    } else {
        Seq::empty()
    });
    let a = text_attr("aria-selected"@, bool_text(selected));
    let b = text_attr("data-state"@, if selected { "active"@ } else { "inactive"@ });
    let stop = text_attr(
        "tabindex"@,
        if model.focused == Some(index) && !tab_disabled(model, index) {
            "0"@
        } else {
            "-1"@
        },
    );
    let head = tabs_trigger_head_spec(model, index, options);
    assert(head =~= front + seq![a] + seq![b] + seq![stop]);
    let dis = tabs_trigger_disabled_spec(model, index, options);
    let id = optional_text_attr("id"@, options.trigger_id_spec());
    let controls = optional_text_attr("aria-controls"@, options.controls_id_spec());
    let all = tabs_trigger_spec(model, index, options);
    assert(all =~= front + seq![a] + seq![b] + (seq![stop] + dis + id + controls));
    let rest = seq![stop] + dis + id + controls;
    lemma_optional_attr_values("id"@, options.trigger_id_spec(), sel);
    lemma_optional_attr_values("aria-controls"@, options.controls_id_spec(), sel);
    lemma_optional_attr_values("id"@, options.trigger_id_spec(), st);
    lemma_optional_attr_values("aria-controls"@, options.controls_id_spec(), st);
    lemma_values_named_append(seq![stop] + dis + id, controls, sel);
    lemma_values_named_append(seq![stop] + dis, id, sel);
    lemma_values_named_append(seq![stop], dis, sel);
    lemma_values_named_append(seq![stop] + dis + id, controls, st);
    lemma_values_named_append(seq![stop] + dis, id, st);
    lemma_values_named_append(seq![stop], dis, st);
    lemma_values_named_none(seq![stop], sel);
    lemma_values_named_none(dis, sel);
    lemma_values_named_none(seq![stop], st);
    lemma_values_named_none(dis, st);
    lemma_values_named_none(front, sel);
    lemma_values_named_none(front, st);
    lemma_values_named_one(a, sel);
    lemma_values_named_one(b, sel);
    lemma_values_named_one(a, st);
    lemma_values_named_one(b, st);
    lemma_values_named_append(front + seq![a] + seq![b], rest, sel);
    lemma_values_named_append(front + seq![a], seq![b], sel);
    lemma_values_named_append(front, seq![a], sel);
    lemma_values_named_append(front + seq![a] + seq![b], rest, st);
    lemma_values_named_append(front + seq![a], seq![b], st);
    lemma_values_named_append(front, seq![a], st);
    assert(values_named(all, sel) =~= seq![a.value]);
    assert(values_named(all, st) =~= seq![b.value]);
}

/// A tab panel is hidden exactly when its tab is not the selected one: it
/// carries one `hidden` flag with that value.
pub proof fn lemma_tabs_panel_hidden(
    model: TabsModel,
    index: usize,
    panel_id: Option<Seq<char>>,
    labelled_by: Option<Seq<char>>,
)
    ensures
        values_named(tabs_panel_spec(model, index, panel_id, labelled_by), "hidden"@) == seq![
            AttrValueSpec::Flag(model.selected != Some(index)),
        ],
{
    reveal_strlit("hidden");
    reveal_strlit("role");
    reveal_strlit("tabindex");
    reveal_strlit("id");
    reveal_strlit("aria-labelledby");
    let h = "hidden"@;
    assert(h != "role"@ && h != "tabindex"@ && h != "id"@ && h != "aria-labelledby"@) by {
        assert(h.len() != "role"@.len() && h.len() != "tabindex"@.len() && h.len() != "id"@.len()
            && h.len() != "aria-labelledby"@.len());
    }
    let r = text_attr("role"@, "tabpanel"@);
    let hid = flag_attr("hidden"@, !(model.selected == Some(index)));
    let t = text_attr("tabindex"@, "0"@);
    let id = optional_text_attr("id"@, panel_id);
    let lb = optional_text_attr("aria-labelledby"@, labelled_by);
    let all = tabs_panel_spec(model, index, panel_id, labelled_by);
    assert(all =~= seq![r] + seq![hid] + seq![t] + id + lb);
    lemma_values_named_append(seq![r] + seq![hid] + seq![t] + id, lb, h);
    lemma_values_named_append(seq![r] + seq![hid] + seq![t], id, h);
    lemma_values_named_append(seq![r] + seq![hid], seq![t], h);
    lemma_values_named_append(seq![r], seq![hid], h);
    lemma_values_named_one(r, h);
    lemma_values_named_one(hid, h);
    lemma_values_named_one(t, h);
    lemma_optional_attr_values("id"@, panel_id, h);
    lemma_optional_attr_values("aria-labelledby"@, labelled_by, h);
    assert(values_named(all, h) =~= seq![hid.value]);
}

} // verus!
