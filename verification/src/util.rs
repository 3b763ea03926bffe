//! Helpers that stand beside the layout logic.
pub mod path_utils;
