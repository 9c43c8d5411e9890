//! Dismissible layers: escape, outside-pointer and outside-focus dismissal,
//! answered only by the topmost active layer.
use vstd::prelude::*;

use crate::text::str_eq;

verus! {

/// Reason given when a dismissible layer requests dismissal.
#[derive(Debug, Clone, Copy, PartialEq, Eq)]
pub enum DismissibleReason {
    Escape,
    PointerDownOutside,
    FocusOutside,
}

/// Returns `true` when a key value should dismiss via escape handling.
pub fn dismissible_is_escape(key: &str) -> (r: bool)
    ensures
        r == (key@ == "Escape"@),
{
    str_eq(key, "Escape")
}

/// Returns `true` when an interaction target is outside the active layer.
pub fn dismissible_is_outside(is_inside: bool) -> (r: bool)
    ensures
        r == !is_inside,
{
    !is_inside
}

/// Whether pointer-down-outside dismissal is switched off for a layer.
pub fn pointer_down_outside_dismiss_disabled(disable_pointer_down_outside_dismiss: bool) -> (r: bool)
    ensures
        r == disable_pointer_down_outside_dismiss,
{
    disable_pointer_down_outside_dismiss
}

/// `id` is the topmost layer of `layers`.
pub open spec fn stack_top_is(layers: Seq<u64>, id: u64) -> bool {
    layers.len() > 0 && layers.last() == id
}

/// Returns `true` when `id` is the last registered layer.
pub fn dismissible_layer_is_topmost_for_stack(layers: &[u64], id: u64) -> (r: bool)
    ensures
        r == stack_top_is(layers@, id),
{
    layers.len() > 0 && layers[layers.len() - 1] == id
}

/// `i` is the first position of `id` in `layers`.
pub open spec fn is_first_position(layers: Seq<u64>, id: u64, i: int) -> bool {
    &&& 0 <= i < layers.len()
    &&& layers[i] == id
    &&& forall|k: int| 0 <= k < i ==> layers[k] != id
}

/// `layers` without the first occurrence of `id` (unchanged when absent).
pub open spec fn stack_without(layers: Seq<u64>, id: u64) -> Seq<u64> {
    layers.remove_value(id)
}

/// Removing `id` takes out the element at its first position.
pub proof fn lemma_stack_without_first(layers: Seq<u64>, id: u64, i: int)
    requires
        is_first_position(layers, id, i),
    ensures
        stack_without(layers, id) == layers.remove(i),
{
    layers.index_of_first_ensures(id);
    assert(layers.contains(id));
    let j = layers.index_of_first(id)->0;
    if j < i {
        assert(layers[j] != id);
    }
    if i < j {
        assert(layers[i] != id);
    }
}

/// Removing an element that occurs takes out the element at its first
/// position.
pub proof fn lemma_stack_without_contains(layers: Seq<u64>, id: u64) -> (i: int)
    requires
        layers.contains(id),
    ensures
        is_first_position(layers, id, i),
        stack_without(layers, id) == layers.remove(i),
{
    layers.index_of_first_ensures(id);
    let i = layers.index_of_first(id)->0;
    lemma_stack_without_first(layers, id, i);
    i
}

/// Removes the first occurrence of `id` from the layer stack.
pub fn dismissible_layer_remove_from_stack(layers: &mut Vec<u64>, id: u64)
    ensures
        final(layers)@ == stack_without(old(layers)@, id),
{
    let n = layers.len();
    let mut i: usize = 0;
    while i < n
        invariant
            n == layers@.len(),
            layers@ == old(layers)@,
            i <= n,
            forall|k: int| 0 <= k < i ==> layers@[k] != id,
        decreases n - i,
    {
        if layers[i] == id {
            proof {
                lemma_stack_without_first(layers@, id, i as int);
            }
            layers.remove(i);
            return ;
        }
        i = i + 1;
    }
    assert(!layers@.contains(id));
    proof {
        layers@.index_of_first_ensures(id);
    }
}

/// The stack of registered dismissible layers of a document, newest last.
#[derive(Debug)]
pub struct DismissibleStack {
    next_id: u64,
    layers: Vec<u64>,
}

impl DismissibleStack {
    /// The registered layers, oldest first.
    pub closed spec fn layers_spec(&self) -> Seq<u64> {
        self.layers@
    }

    /// The id that the next registration hands out.
    pub closed spec fn next_id_spec(&self) -> u64 {
        self.next_id
    }

    /// Registered ids are distinct and all below the next id.
    pub open spec fn wf(&self) -> bool {
        &&& forall|i: int, j: int|
            0 <= i < j < self.layers_spec().len() ==> self.layers_spec()[i]
                != self.layers_spec()[j]
        &&& forall|i: int|
            0 <= i < self.layers_spec().len() ==> #[trigger] self.layers_spec()[i]
                < self.next_id_spec()
    }

    /// An empty stack.
    pub fn new() -> (r: Self)
        ensures
            r.wf(),
            r.layers_spec() == Seq::<u64>::empty(),
            r.next_id_spec() == 0,
    {
        DismissibleStack { next_id: 0, layers: Vec::new() }
    }

    /// Returns the registered layers, oldest first.
    pub fn layers(&self) -> (r: &[u64])
        ensures
            r@ == self.layers_spec(),
    {
        self.layers.as_slice()
    }

    /// Registers a new layer on top and returns its id.
    pub fn register(&mut self) -> (id: u64)
        ensures
            id == old(self).next_id_spec(),
            final(self).next_id_spec() == (if old(self).next_id_spec() == u64::MAX {
                u64::MAX
            } else {
                (old(self).next_id_spec() + 1) as u64
            }),
            final(self).layers_spec() == old(self).layers_spec().push(id),
            stack_top_is(final(self).layers_spec(), id),
            old(self).wf() && old(self).next_id_spec() < u64::MAX ==> final(self).wf(),
    {
        let id = self.next_id;
        let ghost s = self.layers@;
        self.next_id = self.next_id.saturating_add(1);
        self.layers.push(id);
        proof {
            if old(self).wf() && id < u64::MAX {
                assert forall|a: int, b: int| 0 <= a < b < self.layers@.len() implies
                    self.layers@[a] != self.layers@[b] by {
                    if b < s.len() {
                        assert(self.layers@[a] == s[a] && self.layers@[b] == s[b]);
                        assert(s == old(self).layers_spec());
                    } else {
                        assert(self.layers@[a] == s[a]);
                        assert(s == old(self).layers_spec());
                        assert(old(self).layers_spec()[a] < old(self).next_id_spec());
                    }
                }
                assert forall|a: int| 0 <= a < self.layers@.len() implies #[trigger] self.layers@[a]
                    < self.next_id by {
                    if a < s.len() {
                        assert(self.layers@[a] == s[a]);
                        assert(s == old(self).layers_spec());
                        assert(old(self).layers_spec()[a] < old(self).next_id_spec());
                    } else {
                        assert(self.layers@[a] == id);
                    }
                }
            }
        }
        id
    }

    /// Removes layer `id` from the stack.
    pub fn unregister(&mut self, id: u64)
        ensures
            final(self).layers_spec() == stack_without(old(self).layers_spec(), id),
            final(self).next_id_spec() == old(self).next_id_spec(),
            old(self).wf() ==> final(self).wf(),
    {
        dismissible_layer_remove_from_stack(&mut self.layers, id);
        proof {
            let s = old(self).layers_spec();
            if !s.contains(id) {
                s.index_of_first_ensures(id);
            } else if old(self).wf() {
                let i = lemma_stack_without_contains(s, id);
                assert(self.layers@ == s.remove(i));
                s.remove_ensures(i);
                assert forall|a: int, b: int| 0 <= a < b < self.layers@.len() implies
                    self.layers@[a] != self.layers@[b] by {
                    let a0 = if a < i { a } else { a + 1 };
                    let b0 = if b < i { b } else { b + 1 };
                    assert(self.layers@[a] == s[a0]);
                    assert(self.layers@[b] == s[b0]);
                }
                assert forall|a: int| 0 <= a < self.layers@.len() implies #[trigger] self.layers@[a]
                    < self.next_id by {
                    let a0 = if a < i { a } else { a + 1 };
                    assert(self.layers@[a] == s[a0]);
                }
            }
        }
    }

    /// Puts layer `id` back on top when it was deactivated; a layer that is
    /// still registered stays where it is.
    pub fn reactivate(&mut self, id: u64)
        ensures
            old(self).layers_spec().contains(id) ==> final(self).layers_spec() == old(
                self,
            ).layers_spec(),
            !old(self).layers_spec().contains(id) ==> final(self).layers_spec() == old(
                self,
            ).layers_spec().push(id),
            final(self).next_id_spec() == old(self).next_id_spec(),
            old(self).wf() && id < old(self).next_id_spec() ==> final(self).wf(),
    {
        let n = self.layers.len();
        let mut i: usize = 0;
        while i < n
            invariant
                n == self.layers@.len(),
                i <= n,
                forall|k: int| 0 <= k < i ==> self.layers@[k] != id,
            decreases n - i,
        {
            if self.layers[i] == id {
                assert(self.layers@.contains(id));
                return ;
            }
            i = i + 1;
        }
        assert(!self.layers@.contains(id));
        self.layers.push(id);
    }

    /// Returns `true` when layer `id` is the topmost registered layer.
    pub fn is_topmost(&self, id: u64) -> (r: bool)
        ensures
            r == stack_top_is(self.layers_spec(), id),
    {
        dismissible_layer_is_topmost_for_stack(self.layers.as_slice(), id)
    }
}

/// A newly registered layer is the topmost one.
pub proof fn lemma_registered_layer_is_topmost(layers: Seq<u64>, id: u64)
    ensures
        stack_top_is(layers.push(id), id),
{
}

/// Removing the topmost layer reveals the layer registered before it.
pub proof fn lemma_remove_top_reveals_previous(layers: Seq<u64>, below: u64, top: u64)
    requires
        !layers.contains(top),
        below != top,
    ensures
        stack_without(layers.push(below).push(top), top) == layers.push(below),
        stack_top_is(stack_without(layers.push(below).push(top), top), below),
{
    let s = layers.push(below).push(top);
    let i = layers.len() + 1int;
    assert forall|k: int| 0 <= k < i implies s[k] != top by {
        if k < layers.len() {
            assert(s[k] == layers[k]);
        }
    }
    lemma_stack_without_first(s, top, i);
    assert(s.remove(i) =~= layers.push(below));
}

/// Removing a layer other than the topmost one leaves the topmost in place.
pub proof fn lemma_remove_other_keeps_top(layers: Seq<u64>, top: u64, id: u64)
    requires
        stack_top_is(layers, top),
        id != top,
    ensures
        stack_top_is(stack_without(layers, id), top),
{
    if layers.contains(id) {
        let i = lemma_stack_without_contains(layers, id);
        assert(i < layers.len() - 1);
        layers.remove_ensures(i);
        assert(layers.remove(i).last() == layers.last());
    } else {
        layers.index_of_first_ensures(id);
    }
}

/// Removing a layer that is not registered changes nothing.
pub proof fn lemma_remove_absent_is_noop(layers: Seq<u64>, id: u64)
    requires
        !layers.contains(id),
    ensures
        stack_without(layers, id) == layers,
{
    layers.index_of_first_ensures(id);
}

/// How a layer's registration follows its `active` signal.
#[derive(Debug, Clone, Copy, PartialEq, Eq)]
pub enum DismissibleRegistration {
    /// Active again: put the layer back on the stack.
    Register,
    /// Inactive: take the layer off the stack.
    Unregister,
    /// Nothing changes.
    Keep,
}

/// Decides how a layer's registration follows its `active` signal.
pub fn dismissible_registration_step(active: bool, registered: bool) -> (r: DismissibleRegistration)
    ensures
        r == (if active && !registered {
            DismissibleRegistration::Register
        } else if !active && registered {
            DismissibleRegistration::Unregister
        } else {
            DismissibleRegistration::Keep
        }),
{
    match (active, registered) {
        (true, false) => DismissibleRegistration::Register,
        (false, true) => DismissibleRegistration::Unregister,
        _ => DismissibleRegistration::Keep,
    }
}

/// A pointer-down or focus event reaches a layer's outside handlers.
pub open spec fn outside_reaches_spec(active: bool, topmost: bool, is_inside: bool) -> bool {
    active && topmost && !is_inside
}

/// A key press reaches a layer's escape handler.
pub open spec fn escape_reaches_spec(
    active: bool,
    topmost: bool,
    is_inside: bool,
    key: Seq<char>,
) -> bool {
    active && topmost && is_inside && key == "Escape"@
}

/// Whether a pointer-down or focus event reaches a layer's outside
/// handlers: the layer is active, topmost, and the target lies outside it
/// and its branches.
pub fn dismissible_outside_reaches(active: bool, topmost: bool, is_inside: bool) -> (r: bool)
    ensures
        r == outside_reaches_spec(active, topmost, is_inside),
{
    active && topmost && dismissible_is_outside(is_inside)
}

/// Whether a key press reaches a layer's escape handler: the layer is
/// active and topmost, the target lies inside it or its branches, and the
/// key is `Escape`.
pub fn dismissible_escape_reaches(active: bool, topmost: bool, is_inside: bool, key: &str) -> (r:
    bool)
    ensures
        r == escape_reaches_spec(active, topmost, is_inside, key@),
{
    active && topmost && is_inside && dismissible_is_escape(key)
}

/// Whether a reached event dismisses the layer: neither the layer's
/// handler nor the DOM prevented its default.
pub fn dismissible_dismisses(handler_prevented: bool, dom_prevented: bool) -> (r: bool)
    ensures
        r == (!handler_prevented && !dom_prevented),
{
    !handler_prevented && !dom_prevented
}

/// Nested layers answer from the inside out: with an inner layer registered
/// after an outer one, only the inner layer is topmost, so no escape key,
/// outside pointer-down or outside focus reaches the outer layer, whatever
/// the target and key. Once the inner layer leaves the stack (cleaned up
/// or made inactive) the outer layer is topmost again and receives the
/// escape key on its own targets.
pub proof fn lemma_nested_layers_route_to_topmost(
    base: Seq<u64>,
    outer: u64,
    inner: u64,
    active: bool,
    is_inside: bool,
    key: Seq<char>,
)
    requires
        outer != inner,
        !base.contains(inner),
    ensures
        ({
            let layers = base.push(outer).push(inner);
            &&& stack_top_is(layers, inner)
            &&& !stack_top_is(layers, outer)
            &&& !escape_reaches_spec(active, stack_top_is(layers, outer), is_inside, key)
            &&& !outside_reaches_spec(active, stack_top_is(layers, outer), is_inside)
            &&& escape_reaches_spec(active, stack_top_is(layers, inner), is_inside, key) == (
            active && is_inside && key == "Escape"@)
            &&& stack_without(layers, inner) == base.push(outer)
            &&& stack_top_is(stack_without(layers, inner), outer)
            &&& escape_reaches_spec(
                active,
                stack_top_is(stack_without(layers, inner), outer),
                is_inside,
                key,
            ) == (active && is_inside && key == "Escape"@)
        }),
{
    lemma_remove_top_reveals_previous(base, outer, inner);
}

} // verus!
