//! Attribute helpers for headless widget state.
//!
//! These helpers are pure functions: they derive [`crate::dom::DomAttribute`]
//! lists from widget state without attaching listeners or touching the DOM.
//! Each one states the exact list it returns, attribute by attribute and in
//! order.
pub mod dialog;
pub mod menu;
pub mod tabs;
