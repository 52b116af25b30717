//! Typed handles over a native GUI toolkit's foreign interface.
//!
//! The native toolkit hands out opaque object addresses together with
//! per-kind tables of entry points. This crate holds everything about a call
//! across that boundary that can be decided without making it: which entry of
//! which table is addressed, which object it is invoked on, and how each host
//! value is laid out for the native side. A handle method returns the one
//! [`NativeCall`] it stands for; carrying the call out is left to the caller.

pub mod dispatch;
pub mod marshal;
pub mod refs;
pub mod text;
pub mod widgets;

pub use crate::dispatch::{Entry, NativeCall, RetKind, WidgetKind};
pub use crate::marshal::{decode_bool, encode_bool, ArgKind, NativeArg};
pub use crate::refs::{ObjectRef, TableRef};
pub use crate::text::{marshal_text, MarshalError};
pub use crate::widgets::{Application, DockWidget, MainWindow, PushButton, Window};
