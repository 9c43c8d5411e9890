//! Attribute helpers for menu state.
use vstd::prelude::*;

use crate::attrs::dialog::{bool_text, lemma_optional_attr_values, optional_text_attr};
use crate::dom::{
    attrs_view, flag_attr, lemma_values_named_append, lemma_values_named_none,
    lemma_values_named_one, opt_str_view,
    push_attr, text_attr, values_named, AttrSpec, AttrValueSpec, DomAttribute,
};

verus! {

/// The menu state that the attribute helpers read.
#[derive(Debug, Clone, PartialEq, Eq)]
pub struct MenuModel {
    /// Whether the menu is open.
    pub open: bool,
    /// The checked radio item, if any.
    pub checked: Option<usize>,
    /// The focused item, if any.
    pub focused: Option<usize>,
    /// `disabled[i]` tells whether item `i` is disabled; items past the end
    /// are enabled.
    pub disabled: Vec<bool>,
}

/// Whether item `index` is disabled.
pub open spec fn menu_item_disabled(model: MenuModel, index: usize) -> bool {
    index < model.disabled@.len() && model.disabled@[index as int]
}

impl MenuModel {
    /// Returns whether item `index` is checked.
    pub fn item_checked(&self, index: usize) -> (r: bool)
        ensures
            r == (self.checked == Some(index)),
    {
        match self.checked {
            Some(c) => c == index,
            None => false,
        }
    }

    /// Returns whether item `index` is disabled.
    pub fn is_disabled(&self, index: usize) -> (r: bool)
        ensures
            r == menu_item_disabled(*self, index),
    {
        index < self.disabled.len() && self.disabled[index]
    }

    /// Returns whether item `index` has focus.
    pub fn is_focused(&self, index: usize) -> (r: bool)
        ensures
            r == (self.focused == Some(index)),
    {
        match self.focused {
            Some(f) => f == index,
            None => false,
        }
    }
}

/// Element contract for menu trigger attributes.
#[derive(Debug, Clone, Copy, PartialEq, Eq)]
pub enum MenuTriggerElement {
    Button,
    Generic,
}

/// Element contract for menu item attributes.
#[derive(Debug, Clone, Copy, PartialEq, Eq)]
pub enum MenuItemElement {
    Button,
    Generic,
}

/// Menu item ARIA contract.
#[derive(Debug, Clone, Copy, PartialEq, Eq)]
pub enum MenuItemKind {
    Item,
    Radio,
}

/// Disabled-state policy for menu button attributes.
#[derive(Debug, Clone, Copy, PartialEq, Eq)]
pub enum MenuItemDisabledPolicy {
    Native,
    Aria,
}

/// Attribute options for a menu trigger.
#[derive(Debug, Clone, Copy, PartialEq, Eq)]
pub struct MenuTriggerAttrs<'a> {
    controls_id: Option<&'a str>,
    element: MenuTriggerElement,
}

impl<'a> MenuTriggerAttrs<'a> {
    /// The controlled menu id, if any.
    pub closed spec fn controls_id_spec(self) -> Option<Seq<char>> {
        opt_str_view(self.controls_id)
    }

    /// The trigger element contract.
    pub closed spec fn element_spec(self) -> MenuTriggerElement {
        self.element
    }

    /// Creates menu trigger attribute options: no controlled id, a button.
    pub fn new() -> (r: Self)
        ensures
            r.controls_id_spec() == None::<Seq<char>>,
            r.element_spec() == MenuTriggerElement::Button,
    {
        MenuTriggerAttrs { controls_id: None, element: MenuTriggerElement::Button }
    }

    /// Sets the controlled menu id.
    pub fn controls_id(self, controls_id: &'a str) -> (r: Self)
        ensures
            r.controls_id_spec() == Some(controls_id@),
            r.element_spec() == self.element_spec(),
    {
        let mut s = self;
        s.controls_id = Some(controls_id);
        s
    }

    /// Sets the trigger element contract.
    pub fn element(self, element: MenuTriggerElement) -> (r: Self)
        ensures
            r.controls_id_spec() == self.controls_id_spec(),
            r.element_spec() == element,
    {
        let mut s = self;
        s.element = element;
        s
    }
}

impl<'a> Default for MenuTriggerAttrs<'a> {
    fn default() -> (r: Self)
        ensures
            r.controls_id_spec() == None::<Seq<char>>,
            r.element_spec() == MenuTriggerElement::Button,
    {
        MenuTriggerAttrs::new()
    }
}

/// Attribute options for menu content.
#[derive(Debug, Clone, Copy, PartialEq, Eq)]
pub struct MenuContentAttrs<'a> {
    content_id: Option<&'a str>,
    labelled_by: Option<&'a str>,
}

impl<'a> MenuContentAttrs<'a> {
    /// The content id, if any.
    pub closed spec fn content_id_spec(self) -> Option<Seq<char>> {
        opt_str_view(self.content_id)
    }

    /// The `aria-labelledby` value, if any.
    pub closed spec fn labelled_by_spec(self) -> Option<Seq<char>> {
        opt_str_view(self.labelled_by)
    }

    /// Creates menu content attribute options with neither value set.
    pub fn new() -> (r: Self)
        ensures
            r.content_id_spec() == None::<Seq<char>>,
            r.labelled_by_spec() == None::<Seq<char>>,
    {
        MenuContentAttrs { content_id: None, labelled_by: None }
    }

    /// Sets the menu content id.
    pub fn content_id(self, content_id: &'a str) -> (r: Self)
        ensures
            r.content_id_spec() == Some(content_id@),
            r.labelled_by_spec() == self.labelled_by_spec(),
    {
        let mut s = self;
        s.content_id = Some(content_id);
        s
    }

    /// Sets `aria-labelledby`.
    pub fn labelled_by(self, labelled_by: &'a str) -> (r: Self)
        ensures
            r.content_id_spec() == self.content_id_spec(),
            r.labelled_by_spec() == Some(labelled_by@),
    {
        let mut s = self;
        s.labelled_by = Some(labelled_by);
        s
    }
}

impl<'a> Default for MenuContentAttrs<'a> {
    fn default() -> (r: Self)
        ensures
            r.content_id_spec() == None::<Seq<char>>,
            r.labelled_by_spec() == None::<Seq<char>>,
    {
        MenuContentAttrs::new()
    }
}

/// Attribute options for a menu item.
#[derive(Debug, Clone, Copy, PartialEq, Eq)]
pub struct MenuItemAttrs<'a> {
    item_id: Option<&'a str>,
    element: MenuItemElement,
    kind: MenuItemKind,
    disabled_policy: MenuItemDisabledPolicy,
}

impl<'a> MenuItemAttrs<'a> {
    /// The item id, if any.
    pub closed spec fn item_id_spec(self) -> Option<Seq<char>> {
        opt_str_view(self.item_id)
    }

    /// The item element contract.
    pub closed spec fn element_spec(self) -> MenuItemElement {
        self.element
    }

    /// The item ARIA contract.
    pub closed spec fn kind_spec(self) -> MenuItemKind {
        self.kind
    }

    /// The disabled-state policy.
    pub closed spec fn disabled_policy_spec(self) -> MenuItemDisabledPolicy {
        self.disabled_policy
    }

    /// Creates menu item attribute options: no id, a plain item rendered as
    /// a native button.
    pub fn new() -> (r: Self)
        ensures
            r.item_id_spec() == None::<Seq<char>>,
            r.element_spec() == MenuItemElement::Button,
            r.kind_spec() == MenuItemKind::Item,
            r.disabled_policy_spec() == MenuItemDisabledPolicy::Native,
    {
        MenuItemAttrs {
            item_id: None,
            element: MenuItemElement::Button,
            kind: MenuItemKind::Item,
            disabled_policy: MenuItemDisabledPolicy::Native,
        }
    }

    /// Sets the menu item id.
    pub fn item_id(self, item_id: &'a str) -> (r: Self)
        ensures
            r.item_id_spec() == Some(item_id@),
            r.element_spec() == self.element_spec(),
            r.kind_spec() == self.kind_spec(),
            r.disabled_policy_spec() == self.disabled_policy_spec(),
    {
        let mut s = self;
        s.item_id = Some(item_id);
        s
    }

    /// Sets the item element contract.
    pub fn element(self, element: MenuItemElement) -> (r: Self)
        ensures
            r.item_id_spec() == self.item_id_spec(),
            r.element_spec() == element,
            r.kind_spec() == self.kind_spec(),
            r.disabled_policy_spec() == self.disabled_policy_spec(),
    {
        let mut s = self;
        s.element = element;
        s
    }

    /// Sets the item ARIA contract.
    pub fn kind(self, kind: MenuItemKind) -> (r: Self)
        ensures
            r.item_id_spec() == self.item_id_spec(),
            r.element_spec() == self.element_spec(),
            r.kind_spec() == kind,
            r.disabled_policy_spec() == self.disabled_policy_spec(),
    {
        let mut s = self;
        s.kind = kind;
        s
    }

    /// Sets the disabled-state policy.
    pub fn disabled_policy(self, disabled_policy: MenuItemDisabledPolicy) -> (r: Self)
        ensures
            r.item_id_spec() == self.item_id_spec(),
            r.element_spec() == self.element_spec(),
            r.kind_spec() == self.kind_spec(),
            r.disabled_policy_spec() == disabled_policy,
    {
        let mut s = self;
        s.disabled_policy = disabled_policy;
        s
    }
}

impl<'a> Default for MenuItemAttrs<'a> {
    fn default() -> (r: Self)
        ensures
            r.item_id_spec() == None::<Seq<char>>,
            r.element_spec() == MenuItemElement::Button,
            r.kind_spec() == MenuItemKind::Item,
            r.disabled_policy_spec() == MenuItemDisabledPolicy::Native,
    {
        MenuItemAttrs::new()
    }
}

/// `data-state` value for an open or closed menu.
pub open spec fn menu_state_text(open: bool) -> Seq<char> {
    if open {
        "open"@
    } else {
        "closed"@
    }
}

/// `data-state` value for a checked or unchecked item.
pub open spec fn checked_state_text(checked: bool) -> Seq<char> {
    if checked {
        "checked"@
    } else {
        "unchecked"@
    }
}

/// The attributes of a menu trigger.
pub open spec fn menu_trigger_spec(model: MenuModel, options: MenuTriggerAttrs) -> Seq<AttrSpec> {
    seq![
        text_attr("data-state"@, menu_state_text(model.open)),
        text_attr("aria-haspopup"@, "menu"@),
        text_attr("aria-expanded"@, bool_text(model.open)),
    ] + (if options.element_spec() == MenuTriggerElement::Button {
        seq![text_attr("type"@, "button"@)]
    } else {
        Seq::empty()
    }) + optional_text_attr("aria-controls"@, options.controls_id_spec())
}

/// The attributes of a menu surface.
pub open spec fn menu_content_spec(model: MenuModel, options: MenuContentAttrs) -> Seq<AttrSpec> {
    seq![
        text_attr("data-state"@, menu_state_text(model.open)),
        text_attr("role"@, "menu"@),
        flag_attr("hidden"@, !model.open),
        text_attr("tabindex"@, "-1"@),
    ] + optional_text_attr("id"@, options.content_id_spec()) + optional_text_attr(
        "aria-labelledby"@,
        options.labelled_by_spec(),
    )
}

/// Whether item `index` is the highlighted (focused and enabled) item.
pub open spec fn menu_item_active(model: MenuModel, index: usize) -> bool {
    model.focused == Some(index) && !menu_item_disabled(model, index)
}

/// The `role`, `type`, `tabindex` and `data-highlighted` attributes of an item.
pub open spec fn menu_item_head_spec(model: MenuModel, index: usize, options: MenuItemAttrs) -> Seq<
    AttrSpec,
> {
    let active = menu_item_active(model, index);
    seq![
        text_attr(
            "role"@,
            if options.kind_spec() == MenuItemKind::Radio {
                "menuitemradio"@
            } else {
                "menuitem"@
            },
        ),
    ] + (if options.element_spec() == MenuItemElement::Button {
        seq![text_attr("type"@, "button"@)]
    } else {
        Seq::empty()
    }) + seq![text_attr("tabindex"@, if active { "0"@ } else { "-1"@ })] + (if active {
        seq![flag_attr("data-highlighted"@, true)]
    } else {
        Seq::empty()
    })
}

/// The checked-state attributes of a radio item.
pub open spec fn menu_item_checked_spec(model: MenuModel, index: usize, options: MenuItemAttrs) -> Seq<
    AttrSpec,
> {
    let checked = model.checked == Some(index);
    if options.kind_spec() == MenuItemKind::Radio {
        seq![
            text_attr("data-state"@, checked_state_text(checked)),
            text_attr("aria-checked"@, bool_text(checked)),
        ]
    } else {
        Seq::empty()
    }
}

/// The disabled-state attributes of an item.
pub open spec fn menu_item_disabled_spec(model: MenuModel, index: usize, options: MenuItemAttrs) -> Seq<
    AttrSpec,
> {
    let disabled = menu_item_disabled(model, index);
    (if options.element_spec() == MenuItemElement::Button && options.disabled_policy_spec()
        == MenuItemDisabledPolicy::Native {
        seq![flag_attr("disabled"@, disabled)]
    } else {
        Seq::empty()
    }) + (if disabled {
        seq![text_attr("aria-disabled"@, "true"@), flag_attr("data-disabled"@, true)]
    } else {
        Seq::empty()
    })
}

/// The attributes of menu item `index`.
pub open spec fn menu_item_spec(model: MenuModel, index: usize, options: MenuItemAttrs) -> Seq<
    AttrSpec,
> {
    menu_item_head_spec(model, index, options) + menu_item_checked_spec(model, index, options)
        + menu_item_disabled_spec(model, index, options) + optional_text_attr(
        "id"@,
        options.item_id_spec(),
    )
}

/// The attributes of the checked indicator of item `index`.
pub open spec fn menu_item_indicator_spec(model: MenuModel, index: usize) -> Seq<AttrSpec> {
    let checked = model.checked == Some(index);
    seq![
        flag_attr("hidden"@, !checked),
        text_attr("data-state"@, checked_state_text(checked)),
    ]
}

fn menu_state_value(open: bool) -> (s: &'static str)
    ensures
        s@ == menu_state_text(open),
{
    if open {
        "open"
    } else {
        "closed"
    }
}

fn true_false(b: bool) -> (s: &'static str)
    ensures
        s@ == bool_text(b),
{
    if b {
        "true"
    } else {
        "false"
    }
}

fn checked_value(checked: bool) -> (s: &'static str)
    ensures
        s@ == checked_state_text(checked),
{
    if checked {
        "checked"
    } else {
        "unchecked"
    }
}

/// Returns trigger attributes for a menu toggle element.
pub fn menu_trigger_attrs(model: &MenuModel, options: MenuTriggerAttrs<'_>) -> (attrs: Vec<
    DomAttribute,
>)
    ensures
        attrs_view(attrs@) == menu_trigger_spec(*model, options),
        values_named(attrs_view(attrs@), "aria-expanded"@) == seq![
            AttrValueSpec::Text(
                if model.open {
                    "true"@
                } else {
                    "false"@
                },
            ),
        ],
{
    proof {
        lemma_menu_trigger_expanded(*model, options);
    }
    let mut attrs = Vec::new();
    let state = menu_state_value(model.open);
    attrs.push(DomAttribute::string("data-state", state));
    attrs.push(DomAttribute::string("aria-haspopup", "menu"));
    attrs.push(DomAttribute::string("aria-expanded", true_false(model.open)));
    match options.element {
        MenuTriggerElement::Button => {
            attrs.push(DomAttribute::string("type", "button"));
        },
        MenuTriggerElement::Generic => {},
    }
    if let Some(controls) = options.controls_id {
        attrs.push(DomAttribute::string("aria-controls", controls));
    }
    assert(attrs_view(attrs@) =~= menu_trigger_spec(*model, options));
    attrs
}

/// Returns content attributes for a menu surface element.
pub fn menu_content_attrs(model: &MenuModel, options: MenuContentAttrs<'_>) -> (attrs: Vec<
    DomAttribute,
>)
    ensures
        attrs_view(attrs@) == menu_content_spec(*model, options),
        values_named(attrs_view(attrs@), "hidden"@) == seq![AttrValueSpec::Flag(!model.open)],
{
    proof {
        lemma_menu_content_hidden(*model, options);
    }
    let mut attrs = Vec::new();
    let state = menu_state_value(model.open);
    attrs.push(DomAttribute::string("data-state", state));
    attrs.push(DomAttribute::string("role", "menu"));
    attrs.push(DomAttribute::bool("hidden", !model.open));
    attrs.push(DomAttribute::string("tabindex", "-1"));
    if let Some(id) = options.content_id {
        attrs.push(DomAttribute::string("id", id));
    }
    if let Some(labelled_by) = options.labelled_by {
        attrs.push(DomAttribute::string("aria-labelledby", labelled_by));
    }
    assert(attrs_view(attrs@) =~= menu_content_spec(*model, options));
    attrs
}

/// Returns attributes for a single menu item.
pub fn menu_item_attrs(model: &MenuModel, index: usize, options: MenuItemAttrs<'_>) -> (attrs: Vec<
    DomAttribute,
>)
    ensures
        attrs_view(attrs@) == menu_item_spec(*model, index, options),
        values_named(attrs_view(attrs@), "tabindex"@) == seq![
            AttrValueSpec::Text(
                if model.focused == Some(index) && !(index < model.disabled@.len()
                    && model.disabled@[index as int]) {
                    "0"@
                } else {
                    "-1"@
                },
            ),
        ],
        values_named(attrs_view(attrs@), "aria-checked"@) == (if options.kind_spec()
            == MenuItemKind::Radio {
            seq![
                AttrValueSpec::Text(
                    if model.checked == Some(index) {
                        "true"@
                    } else {
                        "false"@
                    },
                ),
            ]
        } else {
            Seq::<AttrValueSpec>::empty()
        }),
{
    proof {
        lemma_menu_item_focus_and_check(*model, index, options);
    }
    let mut attrs = Vec::new();
    let checked = model.item_checked(index);
    let disabled = model.is_disabled(index);
    let focused = model.is_focused(index);
    let button = match options.element {
        MenuItemElement::Button => true,
        MenuItemElement::Generic => false,
    };
    let radio = match options.kind {
        MenuItemKind::Item => false,
        MenuItemKind::Radio => true,
    };
    let native = match options.disabled_policy {
        MenuItemDisabledPolicy::Native => true,
        MenuItemDisabledPolicy::Aria => false,
    };
    push_attr(
        &mut attrs,
        DomAttribute::string(
            "role",
            if radio {
                "menuitemradio"
            } else {
                "menuitem"
            },
        ),
    );
    if button {
        push_attr(&mut attrs, DomAttribute::string("type", "button"));
    }
    push_attr(
        &mut attrs,
        DomAttribute::string(
            "tabindex",
            if focused && !disabled {
                "0"
            } else {
                "-1"
            },
        ),
    );
    if focused && !disabled {
        push_attr(&mut attrs, DomAttribute::bool("data-highlighted", true));
    }
    let ghost head = attrs_view(attrs@);
    assert(head =~= menu_item_head_spec(*model, index, options));
    if radio {
        push_attr(&mut attrs, DomAttribute::string("data-state", checked_value(checked)));
        push_attr(&mut attrs, DomAttribute::string("aria-checked", true_false(checked)));
    }
    let ghost with_checked = attrs_view(attrs@);
    assert(with_checked =~= head + menu_item_checked_spec(*model, index, options));
    if button && native {
        push_attr(&mut attrs, DomAttribute::bool("disabled", disabled));
    }
    if disabled {
        push_attr(&mut attrs, DomAttribute::string("aria-disabled", "true"));
        push_attr(&mut attrs, DomAttribute::bool("data-disabled", true));
    }
    let ghost with_disabled = attrs_view(attrs@);
    assert(with_disabled =~= with_checked + menu_item_disabled_spec(*model, index, options));
    if let Some(id) = options.item_id {
        push_attr(&mut attrs, DomAttribute::string("id", id));
    }
    assert(attrs_view(attrs@) =~= with_disabled + optional_text_attr("id"@, options.item_id_spec()));
    attrs
}

/// Returns attributes for a menu item checked indicator.
pub fn menu_item_indicator_attrs(model: &MenuModel, index: usize) -> (attrs: Vec<DomAttribute>)
    ensures
        attrs_view(attrs@) == menu_item_indicator_spec(*model, index),
        values_named(attrs_view(attrs@), "hidden"@) == seq![
            AttrValueSpec::Flag(model.checked != Some(index)),
        ],
        values_named(attrs_view(attrs@), "data-state"@) == seq![
            AttrValueSpec::Text(
                if model.checked == Some(index) {
                    "checked"@
                } else {
                    "unchecked"@
                },
            ),
        ],
{
    proof {
        lemma_menu_indicator_shows_checked(*model, index);
    }
    let mut attrs = Vec::new();
    let checked = model.item_checked(index);
    attrs.push(DomAttribute::bool("hidden", !checked));
    attrs.push(DomAttribute::string("data-state", checked_value(checked)));
    assert(attrs_view(attrs@) =~= menu_item_indicator_spec(*model, index));
    attrs
}

/// The checked indicator is shown exactly for the checked item: it carries
/// one `hidden` flag, set exactly when the item is not the checked one, and
/// one `data-state`, `"checked"` exactly for the checked item.
pub proof fn lemma_menu_indicator_shows_checked(model: MenuModel, index: usize)
    ensures
        values_named(menu_item_indicator_spec(model, index), "hidden"@) == seq![
            AttrValueSpec::Flag(model.checked != Some(index)),
        ],
        values_named(menu_item_indicator_spec(model, index), "data-state"@) == seq![
            AttrValueSpec::Text(
                if model.checked == Some(index) {
                    "checked"@
                } else {
                    "unchecked"@
                },
            ),
        ],
{
    reveal_strlit("hidden");
    reveal_strlit("data-state");
    assert("hidden"@ != "data-state"@) by {
        assert("hidden"@.len() != "data-state"@.len());
    }
    let checked = model.checked == Some(index);
    let a = flag_attr("hidden"@, !checked);
    let b = text_attr("data-state"@, checked_state_text(checked));
    assert(menu_item_indicator_spec(model, index) =~= seq![a] + seq![b]);
    lemma_values_named_append(seq![a], seq![b], "hidden"@);
    lemma_values_named_append(seq![a], seq![b], "data-state"@);
    lemma_values_named_one(a, "hidden"@);
    lemma_values_named_one(b, "hidden"@);
    lemma_values_named_one(a, "data-state"@);
    lemma_values_named_one(b, "data-state"@);
    assert(values_named(menu_item_indicator_spec(model, index), "hidden"@) =~= seq![a.value]);
    assert(values_named(menu_item_indicator_spec(model, index), "data-state"@) =~= seq![b.value]);
}

/// A menu item is the roving tab stop exactly when it is focused and
/// enabled: it carries one `tabindex`, `"0"` then and `"-1"` otherwise. A
/// radio item carries one `aria-checked`, `"true"` exactly for the checked
/// item; other items carry none.
pub proof fn lemma_menu_item_focus_and_check(model: MenuModel, index: usize, options: MenuItemAttrs)
    ensures
        values_named(menu_item_spec(model, index, options), "tabindex"@) == seq![
            AttrValueSpec::Text(
                if model.focused == Some(index) && !(index < model.disabled@.len()
                    && model.disabled@[index as int]) {
                    "0"@
                } else {
                    "-1"@
                },
            ),
        ],
        values_named(menu_item_spec(model, index, options), "aria-checked"@) == (if options.kind_spec()
            == MenuItemKind::Radio {
            seq![
                AttrValueSpec::Text(
                    if model.checked == Some(index) {
                        "true"@
                    } else {
                        "false"@
                    },
                ),
            ]
        } else {
            Seq::<AttrValueSpec>::empty()
        }),
{
    reveal_strlit("tabindex");
    reveal_strlit("aria-checked");
    reveal_strlit("role");
    reveal_strlit("type");
    reveal_strlit("data-highlighted");
    reveal_strlit("data-state");
    reveal_strlit("disabled");
    reveal_strlit("aria-disabled");
    reveal_strlit("data-disabled");
    reveal_strlit("id");
    let ti = "tabindex"@;
    let ac = "aria-checked"@;
    assert(ti != ac && ti != "role"@ && ti != "type"@ && ti != "data-highlighted"@ && ti
        != "data-state"@ && ti != "aria-disabled"@ && ti != "data-disabled"@ && ti != "id"@) by {
        assert(ti.len() != ac.len() && ti.len() != "role"@.len() && ti.len() != "type"@.len());
        assert(ti.len() != "data-highlighted"@.len() && ti.len() != "data-state"@.len());
        assert(ti.len() != "aria-disabled"@.len() && ti.len() != "data-disabled"@.len()
            && ti.len() != "id"@.len());
    }
    assert(ti != "disabled"@) by {
        assert(ti[0] != "disabled"@[0]);
    }
    assert(ac != "role"@ && ac != "type"@ && ac != "data-highlighted"@ && ac != "data-state"@ && ac
        != "disabled"@ && ac != "aria-disabled"@ && ac != "data-disabled"@ && ac != "id"@) by {
        assert(ac.len() != "role"@.len() && ac.len() != "type"@.len());
        assert(ac.len() != "data-highlighted"@.len() && ac.len() != "data-state"@.len());
        assert(ac.len() != "disabled"@.len() && ac.len() != "aria-disabled"@.len());
        assert(ac.len() != "data-disabled"@.len() && ac.len() != "id"@.len());
    }
    let active = menu_item_active(model, index);
    let front = seq![
        text_attr(
            "role"@,
            if options.kind_spec() == MenuItemKind::Radio {
                "menuitemradio"@
            } else {
                "menuitem"@
            },
        ),
    ] + (if options.element_spec() == MenuItemElement::Button {
        seq![text_attr("type"@, "button"@)]
    } else {
        Seq::empty()
    });
    let stop = text_attr("tabindex"@, if active { "0"@ } else { "-1"@ });
    let hl = if active {
        seq![flag_attr("data-highlighted"@, true)]
    } else {
        Seq::<AttrSpec>::empty()
    };
    let head = menu_item_head_spec(model, index, options);
    assert(head =~= front + seq![stop] + hl);
    let checked = menu_item_checked_spec(model, index, options);
    let dis = menu_item_disabled_spec(model, index, options);
    let id = optional_text_attr("id"@, options.item_id_spec());
    let all = menu_item_spec(model, index, options);
    assert(all =~= front + seq![stop] + hl + checked + dis + id);
    lemma_optional_attr_values("id"@, options.item_id_spec(), ti);
    lemma_optional_attr_values("id"@, options.item_id_spec(), ac);
    lemma_values_named_append(front + seq![stop] + hl + checked + dis, id, ti);
    lemma_values_named_append(front + seq![stop] + hl + checked, dis, ti);
    lemma_values_named_append(front + seq![stop] + hl, checked, ti);
    lemma_values_named_append(front + seq![stop], hl, ti);
    lemma_values_named_append(front, seq![stop], ti);
    lemma_values_named_none(front, ti);
    lemma_values_named_one(stop, ti);
    lemma_values_named_none(hl, ti);
    lemma_values_named_none(checked, ti);
    lemma_values_named_none(dis, ti);
    assert(values_named(all, ti) =~= seq![stop.value]);
    lemma_values_named_append(front + seq![stop] + hl + checked + dis, id, ac);
    lemma_values_named_append(front + seq![stop] + hl + checked, dis, ac);
    lemma_values_named_append(front + seq![stop] + hl, checked, ac);
    lemma_values_named_none(front + seq![stop] + hl, ac);
    lemma_values_named_none(dis, ac);
    let c = model.checked == Some(index);
    if options.kind_spec() == MenuItemKind::Radio {
        let x = text_attr("data-state"@, checked_state_text(c));
        let y = text_attr("aria-checked"@, bool_text(c));
        assert(checked =~= seq![x] + seq![y]);
        lemma_values_named_append(seq![x], seq![y], ac);
        lemma_values_named_one(x, ac);
        lemma_values_named_one(y, ac);
        assert(values_named(all, ac) =~= seq![y.value]);
    } else {
        lemma_values_named_none(checked, ac);
        assert(values_named(all, ac) =~= Seq::<AttrValueSpec>::empty());
    }
}

/// A menu trigger carries one `aria-expanded`, `"true"` exactly when the
/// menu is open.
pub proof fn lemma_menu_trigger_expanded(model: MenuModel, trigger: MenuTriggerAttrs)
    ensures
        values_named(menu_trigger_spec(model, trigger), "aria-expanded"@) == seq![
            AttrValueSpec::Text(
                if model.open {
                    "true"@
                } else {
                    "false"@
                },
            ),
        ],
{
    reveal_strlit("aria-expanded");
    reveal_strlit("hidden");
    reveal_strlit("data-state");
    reveal_strlit("aria-haspopup");
    reveal_strlit("type");
    reveal_strlit("aria-controls");
    reveal_strlit("role");
    reveal_strlit("tabindex");
    reveal_strlit("id");
    reveal_strlit("aria-labelledby");
    let ex = "aria-expanded"@;
    let h = "hidden"@;
    assert(ex != "data-state"@ && ex != "type"@) by {
        assert(ex.len() != "data-state"@.len() && ex.len() != "type"@.len());
    }
    assert(ex != "aria-haspopup"@ && ex != "aria-controls"@) by {
        assert(ex[5] != "aria-haspopup"@[5] && ex[5] != "aria-controls"@[5]);
    }
    assert(h != "data-state"@ && h != "role"@ && h != "tabindex"@ && h != "id"@ && h
        != "aria-labelledby"@) by {
        assert(h.len() != "data-state"@.len() && h.len() != "role"@.len() && h.len()
            != "tabindex"@.len() && h.len() != "id"@.len() && h.len() != "aria-labelledby"@.len());
    }
    let st = text_attr("data-state"@, menu_state_text(model.open));
    let pop = text_attr("aria-haspopup"@, "menu"@);
    let e = text_attr("aria-expanded"@, bool_text(model.open));
    let ty = if trigger.element_spec() == MenuTriggerElement::Button {
        seq![text_attr("type"@, "button"@)]
    } else {
        Seq::<AttrSpec>::empty()
    };
    let ctl = optional_text_attr("aria-controls"@, trigger.controls_id_spec());
    let t = menu_trigger_spec(model, trigger);
    assert(t =~= seq![st, pop] + seq![e] + ty + ctl);
    lemma_values_named_append(seq![st, pop] + seq![e] + ty, ctl, ex);
    lemma_values_named_append(seq![st, pop] + seq![e], ty, ex);
    lemma_values_named_append(seq![st, pop], seq![e], ex);
    lemma_values_named_none(seq![st, pop], ex);
    lemma_values_named_one(e, ex);
    lemma_values_named_none(ty, ex);
    lemma_optional_attr_values("aria-controls"@, trigger.controls_id_spec(), ex);
    assert(values_named(t, ex) =~= seq![e.value]);
}

/// A menu surface carries one `hidden` flag, set exactly when the menu is
/// closed.
pub proof fn lemma_menu_content_hidden(model: MenuModel, content: MenuContentAttrs)
    ensures
        values_named(menu_content_spec(model, content), "hidden"@) == seq![
            AttrValueSpec::Flag(!model.open),
        ],
{
    reveal_strlit("aria-expanded");
    reveal_strlit("hidden");
    reveal_strlit("data-state");
    reveal_strlit("aria-haspopup");
    reveal_strlit("type");
    reveal_strlit("aria-controls");
    reveal_strlit("role");
    reveal_strlit("tabindex");
    reveal_strlit("id");
    reveal_strlit("aria-labelledby");
    let ex = "aria-expanded"@;
    let h = "hidden"@;
    assert(ex != "data-state"@ && ex != "type"@) by {
        assert(ex.len() != "data-state"@.len() && ex.len() != "type"@.len());
    }
    assert(ex != "aria-haspopup"@ && ex != "aria-controls"@) by {
        assert(ex[5] != "aria-haspopup"@[5] && ex[5] != "aria-controls"@[5]);
    }
    assert(h != "data-state"@ && h != "role"@ && h != "tabindex"@ && h != "id"@ && h
        != "aria-labelledby"@) by {
        assert(h.len() != "data-state"@.len() && h.len() != "role"@.len() && h.len()
            != "tabindex"@.len() && h.len() != "id"@.len() && h.len() != "aria-labelledby"@.len());
    }
    let st = text_attr("data-state"@, menu_state_text(model.open));
    let r = text_attr("role"@, "menu"@);
    let hid = flag_attr("hidden"@, !model.open);
    let ti = text_attr("tabindex"@, "-1"@);
    let id = optional_text_attr("id"@, content.content_id_spec());
    let lb = optional_text_attr("aria-labelledby"@, content.labelled_by_spec());
    let c = menu_content_spec(model, content);
    assert(c =~= seq![st, r] + seq![hid] + seq![ti] + id + lb);
    lemma_values_named_append(seq![st, r] + seq![hid] + seq![ti] + id, lb, h);
    lemma_values_named_append(seq![st, r] + seq![hid] + seq![ti], id, h);
    lemma_values_named_append(seq![st, r] + seq![hid], seq![ti], h);
    lemma_values_named_append(seq![st, r], seq![hid], h);
    lemma_values_named_none(seq![st, r], h);
    lemma_values_named_one(hid, h);
    lemma_values_named_one(ti, h);
    lemma_optional_attr_values("id"@, content.content_id_spec(), h);
    lemma_optional_attr_values("aria-labelledby"@, content.labelled_by_spec(), h);
    assert(values_named(c, h) =~= seq![hid.value]);
}

} // verus!
