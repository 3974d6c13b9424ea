//! Watches the operating-system clipboard and publishes every content change
//! as a typed, priority-resolved artifact to any number of subscribers.
//!
//! The crate holds the platform-independent logic: the format-priority
//! resolution that turns the set of advertised clipboard formats into exactly
//! one [`body::Body`], the size-gating decisions, the incremental-transfer
//! protocol state, and the fan-out registry that delivers each result to
//! every registered subscriber queue. The platform drivers feed events into
//! these state machines and perform the native calls.

pub mod body;
pub mod error;
pub mod event_listener;
pub mod formats;
pub mod gating;
pub mod laws;
pub mod observer;
pub mod policy;
pub mod senders;
pub mod stream;
pub mod uri;
pub mod xproto;

pub use body::{Body, RawImage};
pub use error::{ClipboardError, ClipboardResult, InitializationError};
pub use event_listener::ClipboardEventListenerBuilder;
pub use stream::StreamId;
