use vstd::prelude::*;

verus! {

/// The partial-clear region kinds of the terminal protocol.
///
/// Only `All` can be honoured by a grid renderer without a cursor; the
/// other kinds are defined relative to a cursor position.
#[derive(Clone, Copy, PartialEq, Eq, Structural, Debug)]
pub enum ClearKind {
    /// The whole surface.
    All,
    /// Everything after the cursor.
    AfterCursor,
    /// Everything before the cursor.
    BeforeCursor,
    /// The line the cursor is on.
    CurrentLine,
    /// From the cursor to the end of the line.
    UntilNewLine,
}

/// Flushing to the display failed; carries the device's message.
#[derive(Debug, Clone)]
pub struct FlushError(pub String);

/// A rasterization or fill operation on the active surface failed.
#[derive(Clone, Copy, PartialEq, Eq, Structural, Debug)]
pub struct DrawFault;

/// A backend failure, returned synchronously to the caller.
#[derive(Debug)]
pub enum Error {
    /// Drawing a glyph or filling the active surface failed.
    DrawError,
    /// The requested partial-clear region has no meaning for a renderer
    /// without a cursor; carries the requested kind.
    ClearTypeUnsupported(ClearKind),
    /// Handing the composed frame to the device failed.
    Flush(FlushError),
    /// A simulated display collaborator reported user-initiated shutdown.
    SimulatorQuit,
}

} // verus!
