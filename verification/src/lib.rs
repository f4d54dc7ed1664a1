//! Code generation for the events of an X protocol module.
//!
//! An event is declared by the fields that are particular to it. [`frame`] puts
//! the fields round them that all events have in common, [`resolve`] registers
//! the event with the generator, and [`emit`], [`constructor`] and [`dispatch`]
//! generate its code. [`model_laws`], [`resolve_laws`] and [`code_laws`] say what
//! holds of each of them, [`laws`] what holds of them together.

pub mod code_laws;
pub mod constructor;
pub mod dispatch;
pub mod emit;
pub mod frame;
pub mod ir;
pub mod laws;
pub mod model;
pub mod model_laws;
pub mod need_count;
pub mod output;
pub mod resolve;
pub mod resolve_laws;
pub mod size;
pub mod text;
