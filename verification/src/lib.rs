//! A framework-agnostic radio-group selection controller.
//!
//! A group owns one selected value among a list of option descriptors.
//! Rendering derives, for every option in input order, whether it is the
//! group's active option and which style and class fragments it wears;
//! selection is a single mutation entry point that installs a clicked value
//! and reports it to the embedding layer, unless the clicked option is
//! disabled, in which case nothing at all happens.
#![allow(non_snake_case)]

pub mod common;
pub mod group;
pub mod laws;

pub use common::Orientation;
pub use common::Size;
pub use common::Type;
