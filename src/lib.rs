//! Menu descriptions and icon lookups for a desktop file manager.
//!
//! The menus are plain data: the host toolkit renders each [`menu::MenuItem`]
//! and sends back its action when the user picks it. Which items a menu holds
//! is decided here, from the state of the tab that the menu is opened on.

pub mod action;
pub mod archive;
pub mod bar;
pub mod context;
pub mod icons;
pub mod menu;
pub mod selection;
pub mod tab;
pub mod text;
