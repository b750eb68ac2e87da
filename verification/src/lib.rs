//! Meerkat's syntax trees and the pieces of its runtime that work on them:
//! a string interner, the human-readable and `Debug` texts of trees, an
//! indented tree printer, type texts, and the node that keeps loaded
//! programs.
pub mod addresses;
pub mod ast;
pub mod binding_id;
pub mod cloning;
pub mod display;
pub mod interner;
pub mod limits;
pub mod node;
pub mod printer;
pub mod repr;
pub mod symbol;
pub mod text;
pub mod types;
