//! The record decoder: a shape is a stream of tagged records.

pub mod ansi;
pub mod code;
pub mod dump;
pub mod error;
pub mod explore;
pub mod name;
pub mod opaque;
pub mod facet;
pub mod format;
pub mod instr;
pub mod refs;
pub mod shape;
pub mod unknown;
pub mod vertex;
