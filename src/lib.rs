//! Decision logic for a transient drag overlay: a borderless, click-through
//! window that follows the pointer while an item is dragged.
//!
//! The windowing toolkit itself is driven from outside this library. The
//! library decides where the overlay goes, what it shows and how the single
//! overlay slot changes, and proves those decisions against their contracts.
use vstd::prelude::*;

pub mod geometry;
pub mod laws;
pub mod markup;
pub mod overlay;
