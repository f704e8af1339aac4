//! Timesheet parsing support: a generic engine that packs rule-tagged
//! concrete syntax trees into typed values, the timesheet model built with it,
//! and the evaluation and rendering of the packed timesheets.

pub mod text;
pub mod rules;
pub mod providence;
pub mod errors;
pub mod tree;
pub mod pack_trees;
pub mod pack_laws;
pub mod clock;
pub mod delta;
pub mod grammar;
pub mod timesheet;
pub mod term_render;
pub mod eval;
pub mod render;
pub mod parsing;
