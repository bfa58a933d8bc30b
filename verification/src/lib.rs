//! An opaque cell of a whole number of words that owns one value of a chosen
//! type, with the layout rule that relates the cell's capacity to that type.
//!
//! `layout` counts words and states the rule; `cell` holds the cell itself,
//! which can only be made for a capacity and a value type that the rule
//! admits.

pub mod cell;
pub mod layout;

pub use cell::ReprCWrapper;
pub use layout::{capacity_for, check_layout, words_for_bytes, LayoutError, WORD_BYTES};
