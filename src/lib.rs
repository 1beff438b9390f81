//! Lifecycle and message delivery for an embedded plugin editor window.
//!
//! The library holds the parts of the editor that decide something: the
//! adapter from a host parent handle to a platform handle, the bounded
//! channel that carries messages from a background producer to the frame
//! callback, and the open/closed state of the editor.

pub mod channel;
pub mod editor;
pub mod platform;
pub mod plugin;
