//! Portals: the container a portal owns, and when it moves to its mount.
use vstd::prelude::*;

verus! {

/// Attribute applied to the DOM subtree owned by a portal.
pub const PORTAL_CONTAINER_ATTRIBUTE: &'static str = "data-web-ui-portal";

/// Whether a portal's container moves under its mount target: the portal is
/// still mounted, and the target is neither the container itself nor inside
/// it, where appending would fail.
pub fn portal_moves_container(
    active: bool,
    target_is_container: bool,
    target_inside_container: bool,
) -> (r: bool)
    ensures
        r == (active && !target_is_container && !target_inside_container),
{
    active && !target_is_container && !target_inside_container
}

} // verus!
