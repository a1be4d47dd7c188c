//! Layered layout of directed graphs and DOT export.

pub mod rank;
pub mod dot;
