//! Headless, accessible UI primitives: the framework-neutral decision logic
//! behind DOM attributes, focus scopes, dismissible layers, menus, presence
//! lifecycles and scroll locking.
//!
//! - `dom`: the attribute values that the helpers produce.
//! - `attrs`: pure helpers that derive DOM attributes from widget state.
//! - the other modules hold the state machines and validators that the
//!   browser bindings drive.

pub mod attrs;
pub mod dialog;
pub mod dismissible;
pub mod dom;
pub mod focus;
pub mod menu;
pub mod portal;
pub mod presence;
pub mod scroll_lock;
pub mod scroll_lock_host;
pub mod text;
pub mod timing;


pub use attrs::dialog::{
    dialog_content_attrs, dialog_trigger_attrs, DialogContentAttrs, DialogModel, DialogName,
    DialogNameError, DialogRole,
};
pub use attrs::menu::{
    menu_content_attrs, menu_item_attrs, menu_item_indicator_attrs, menu_trigger_attrs,
    MenuContentAttrs, MenuItemAttrs, MenuItemDisabledPolicy, MenuItemElement, MenuItemKind,
    MenuModel, MenuTriggerAttrs, MenuTriggerElement,
};
pub use attrs::tabs::{
    tabs_list_attrs, tabs_panel_attrs, tabs_trigger_attrs, Orientation, TabsModel,
    TabsTriggerAttrs, TabsTriggerDisabledPolicy, TabsTriggerElement,
};
pub use dismissible::{dismissible_is_escape, dismissible_is_outside, DismissibleReason};
pub use dom::{DomAttribute, DomAttributeValue};
pub use focus::{focus_scope_next_index, focus_scope_selector};
pub use menu::{
    placement_align_data_value, placement_side_data_value, PlacementAlign, PlacementSide,
    PlacementSink, PlacementSinkError, PlacementStyleId, PlacementStyleNonce,
    StrictPlacementSink,
};
pub use presence::{presence_state_next, PresenceState, PRESENCE_ABI_VERSION};
pub use scroll_lock::{ScrollLockError, ScrollLockGuard, ScrollLockResult};
pub use scroll_lock_host::{scroll_lock_acquire, scroll_lock_release};
