//! A verified engine for a binary 2-D drawing-script format.
//!
//! A scene is described by a compact binary instruction stream: a sequence of
//! two-byte opcode tags, each followed by an opcode-specific payload.  This
//! crate decodes such streams into typed operations, stores decoded scripts
//! under string identifiers, and executes a script against an abstract canvas
//! by walking its operations while maintaining a save/restore graphics-state
//! stack, an in-progress path builder, and guarded cross-references to other
//! named scripts.
//!
//! The engine itself performs no drawing: executing a script produces the
//! exact ordered list of canvas calls (clears, clips, transforms, draws) that
//! a rendering backend must issue.  Geometry values travel through the engine
//! as raw IEEE-754 single-precision bit patterns (`u32`), and quarter-unit
//! fixed-point quantities (stroke width, font size) as the `u16` wire value,
//! so every step of decoding and execution is exact and fully specified.

use vstd::prelude::*;

pub mod canvas;
pub mod codec;
pub mod color;
pub mod encode;
pub mod exec;
pub mod exec_laws;
pub mod input_translate;
pub mod keyboard;
pub mod ops;
pub mod render;
pub mod resources;
pub mod state;
pub mod store;
pub mod texture;
pub mod wire_laws;

verus! {

} // verus!
