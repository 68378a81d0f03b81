//! Names for the engine's objects. The engine owns them; the library only
//! stores and hands back the number that identifies each.

use vstd::prelude::*;

verus! {

/// A frame of a page, through which messages to another process are sent.
#[derive(Clone, Copy, Debug, PartialEq, Eq, Structural)]
pub struct Frame(pub usize);

/// A script execution context.
#[derive(Clone, Copy, Debug, PartialEq, Eq, Structural)]
pub struct V8Context(pub usize);

/// A script value that can be called.
#[derive(Clone, Copy, Debug, PartialEq, Eq, Structural)]
pub struct V8Function(pub usize);

/// The process that a message is sent to.
#[derive(Clone, Copy, Debug, PartialEq, Eq, Structural)]
pub enum ProcessId {
    /// The privileged process, which owns the native window.
    Browser,
    /// The rendering process, which runs page script.
    Renderer,
}

} // verus!
