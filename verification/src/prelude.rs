//! A prelude for conveniently writing applications using this
//! library.

use vstd::prelude::*;

verus! {

pub use crate::backend::{EmbeddedBackend, EmbeddedBackendConfig, TerminalWindowSize};
pub use crate::cell::{FontChoice, StyleModifiers, TermCell};
pub use crate::color::{ColorRole, ColorTheme, Rgb, TermColor};
pub use crate::error::{ClearKind, Error, FlushError};
pub use crate::font::FontDescriptor;
pub use crate::framebuffer::{FrameBuffer, FramebufferDisplay};
pub use crate::layout::{TerminalAlignment, TerminalLayout};
pub use crate::sim::SimulatorBackendDisplay;
pub use crate::surface::BufferedDisplay;

} // verus!
