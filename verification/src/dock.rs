//! Dock layouts: their stored description, the panels that fill them, the
//! registry of panel factories, and the builder that turns a description
//! into a live tree and back.

pub mod builder;
pub mod error;
pub mod item;
pub mod layout;
pub mod panel;
pub mod registry;
