//! DOM attribute values produced by the attribute helpers.
use vstd::prelude::*;
use vstd::string::*;

verus! {

/// The value of one DOM attribute: a string, or a boolean attribute that is
/// present when `true` and absent when `false`.
#[derive(Debug, Clone, PartialEq, Eq)]
pub enum DomAttributeValue {
    String(String),
    Bool(bool),
}

/// The mathematical value of a [`DomAttributeValue`].
pub enum AttrValueSpec {
    Text(Seq<char>),
    Flag(bool),
}

/// The mathematical value of a [`DomAttribute`]: its name and its value.
pub struct AttrSpec {
    pub name: Seq<char>,
    pub value: AttrValueSpec,
}

impl View for DomAttributeValue {
    type V = AttrValueSpec;

    open spec fn view(&self) -> AttrValueSpec {
        match self {
            DomAttributeValue::String(s) => AttrValueSpec::Text(s@),
            DomAttributeValue::Bool(b) => AttrValueSpec::Flag(*b),
        }
    }
}

/// One named DOM attribute.
#[derive(Debug, Clone, PartialEq, Eq)]
pub struct DomAttribute {
    name: String,
    value: DomAttributeValue,
}

impl View for DomAttribute {
    type V = AttrSpec;

    closed spec fn view(&self) -> AttrSpec {
        AttrSpec { name: self.name@, value: self.value@ }
    }
}

/// A string attribute `name="value"`.
pub open spec fn text_attr(name: Seq<char>, value: Seq<char>) -> AttrSpec {
    AttrSpec { name, value: AttrValueSpec::Text(value) }
}

/// A boolean attribute `name`, present when `value` holds.
pub open spec fn flag_attr(name: Seq<char>, value: bool) -> AttrSpec {
    AttrSpec { name, value: AttrValueSpec::Flag(value) }
}

/// The mathematical value of a list of attributes.
pub open spec fn attrs_view(attrs: Seq<DomAttribute>) -> Seq<AttrSpec> {
    attrs.map_values(|a: DomAttribute| a@)
}

/// `Some(value)` as the sequence of characters it holds.
pub open spec fn opt_str_view(value: Option<&str>) -> Option<Seq<char>> {
    match value {
        Some(s) => Some(s@),
        None => None,
    }
}

/// Appending an attribute appends its value.
pub proof fn lemma_attrs_view_push(attrs: Seq<DomAttribute>, attr: DomAttribute)
    ensures
        attrs_view(attrs.push(attr)) == attrs_view(attrs).push(attr@),
{
    assert(attrs_view(attrs.push(attr)) =~= attrs_view(attrs).push(attr@));
}

/// The values of the attributes named `name`, in list order.
pub open spec fn values_named(attrs: Seq<AttrSpec>, name: Seq<char>) -> Seq<AttrValueSpec>
    decreases attrs.len(),
{
    if attrs.len() == 0 {
        Seq::empty()
    } else {
        values_named(attrs.drop_last(), name) + if attrs.last().name == name {
            seq![attrs.last().value]
        } else {
            Seq::empty()
        }
    }
}

/// The attributes named `name` of two lists, one after the other, are those
/// of the first list followed by those of the second.
pub proof fn lemma_values_named_append(a: Seq<AttrSpec>, b: Seq<AttrSpec>, name: Seq<char>)
    ensures
        values_named(a + b, name) == values_named(a, name) + values_named(b, name),
    decreases b.len(),
{
    if b.len() == 0 {
        assert(a + b =~= a);
        assert(values_named(b, name) =~= Seq::<AttrValueSpec>::empty());
        assert(values_named(a, name) + values_named(b, name) =~= values_named(a, name));
    } else {
        lemma_values_named_append(a, b.drop_last(), name);
        assert((a + b).drop_last() =~= a + b.drop_last());
        assert((a + b).last() == b.last());
        assert(values_named(a + b, name) =~= values_named(a, name) + values_named(b, name));
    }
}

/// A list without an attribute named `name` gives no value for it.
pub proof fn lemma_values_named_none(attrs: Seq<AttrSpec>, name: Seq<char>)
    requires
        forall|i: int| 0 <= i < attrs.len() ==> #[trigger] attrs[i].name != name,
    ensures
        values_named(attrs, name) == Seq::<AttrValueSpec>::empty(),
    decreases attrs.len(),
{
    if attrs.len() > 0 {
        let rest = attrs.drop_last();
        assert forall|i: int| 0 <= i < rest.len() implies #[trigger] rest[i].name != name by {
            assert(rest[i] == attrs[i]);
        }
        lemma_values_named_none(rest, name);
        assert(attrs.last() == attrs[attrs.len() - 1]);
        assert(values_named(attrs, name) =~= Seq::<AttrValueSpec>::empty());
    }
}

/// A single attribute gives its value under its own name only.
pub proof fn lemma_values_named_one(attr: AttrSpec, name: Seq<char>)
    ensures
        values_named(seq![attr], name) == (if attr.name == name {
            seq![attr.value]
        } else {
            Seq::<AttrValueSpec>::empty()
        }),
{
    reveal_with_fuel(values_named, 2);
    assert(seq![attr].drop_last() =~= Seq::<AttrSpec>::empty());
    assert(seq![attr].last() == attr);
    assert(values_named(Seq::<AttrSpec>::empty(), name) =~= Seq::<AttrValueSpec>::empty());
    assert(values_named(seq![attr], name) =~= (if attr.name == name {
        seq![attr.value]
    } else {
        Seq::<AttrValueSpec>::empty()
    }));
}

/// Appends `attr` to `attrs`.
pub fn push_attr(attrs: &mut Vec<DomAttribute>, attr: DomAttribute)
    ensures
        attrs_view(final(attrs)@) == attrs_view(old(attrs)@).push(attr@),
{
    proof {
        lemma_attrs_view_push(attrs@, attr);
    }
    attrs.push(attr);
}

impl DomAttribute {
    /// Creates a string attribute.
    pub fn string(name: &str, value: &str) -> (attr: DomAttribute)
        ensures
            attr@ == text_attr(name@, value@),
    {
        DomAttribute {
            name: String::from_str(name),
            value: DomAttributeValue::String(String::from_str(value)),
        }
    }

    /// Creates a boolean attribute.
    pub fn bool(name: &str, value: bool) -> (attr: DomAttribute)
        ensures
            attr@ == flag_attr(name@, value),
    {
        DomAttribute { name: String::from_str(name), value: DomAttributeValue::Bool(value) }
    }

    /// Returns the attribute name.
    pub fn name(&self) -> (name: &str)
        ensures
            name@ == self@.name,
    {
        self.name.as_str()
    }

    /// Returns the attribute value.
    pub fn value(&self) -> (value: &DomAttributeValue)
        ensures
            value@ == self@.value,
    {
        &self.value
    }
}

} // verus!
