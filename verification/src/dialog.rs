//! Dialog layers: while a modal dialog is open, the page behind it is
//! hidden from assistive technology and its scrolling is locked.
use vstd::prelude::*;

verus! {

/// What the modal effect of a dialog layer does.
#[derive(Debug, Clone, Copy, PartialEq, Eq)]
pub enum DialogModalStep {
    /// Not modal, or closed: give back the scroll lock and the hidden
    /// siblings.
    Release,
    /// Already holding them: nothing to do.
    Hold,
    /// Open and modal, but the dialog element is not attached yet.
    Wait,
    /// Lock scrolling and hide the siblings of the dialog element.
    Acquire,
}

/// Decides the modal effect of a dialog layer.
pub fn dialog_modal_layer_step(modal: bool, open: bool, holding: bool, root_attached: bool) -> (step:
    DialogModalStep)
    ensures
        step == (if !modal || !open {
            DialogModalStep::Release
        } else if holding {
            DialogModalStep::Hold
        } else if !root_attached {
            DialogModalStep::Wait
        } else {
            DialogModalStep::Acquire
        }),
{
    if !modal || !open {
        DialogModalStep::Release
    } else if holding {
        DialogModalStep::Hold
    } else if !root_attached {
        DialogModalStep::Wait
    } else {
        DialogModalStep::Acquire
    }
}

/// After an acquire, the layer holds what it obtained when at least one of
/// the scroll lock and the sibling hiding succeeded; when both failed it
/// holds nothing and tries again on the next change.
pub fn dialog_modal_layer_holds(scroll_locked: bool, siblings_hidden: bool) -> (r: bool)
    ensures
        r == (scroll_locked || siblings_hidden),
{
    scroll_locked || siblings_hidden
}

/// A dismissal request reaches the caller's handler only while the dialog
/// is open.
pub fn layer_forwards_dismiss(open: bool) -> (r: bool)
    ensures
        r == open,
{
    open
}

} // verus!
