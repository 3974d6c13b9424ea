//! Configuration of a clipboard event listener.
//!
//! The builder collects the polling interval, the list of custom format
//! names to monitor (their order is their extraction priority) and the
//! size limit applied to images and custom formats. The platform driver
//! consumes it when the listener is spawned.

use vstd::prelude::*;

use core::time::Duration;

verus! {

/// The options of a clipboard event listener.
pub struct ClipboardEventListenerBuilder {
    /// The polling interval for clipboard monitoring; the drivers fall
    /// back to 200 milliseconds when unset.
    pub interval: Option<Duration>,
    /// The custom clipboard formats to monitor, in priority order.
    pub custom_formats: Vec<String>,
    /// The size limit applied to images and custom formats, in bytes.
    pub max_bytes: Option<u32>,
}

impl ClipboardEventListenerBuilder {
    /// A builder with every option at its default: no custom formats, no
    /// size limit, and the default polling interval.
    pub fn new() -> (r: ClipboardEventListenerBuilder)
        ensures
            r.interval is None,
            r.custom_formats@ == Seq::<String>::empty(),
            r.max_bytes is None,
    {
        let r = ClipboardEventListenerBuilder {
            interval: None,
            custom_formats: Vec::new(),
            max_bytes: None,
        };
        proof {
            assert(r.custom_formats@ =~= Seq::<String>::empty());
        }
        r
    }

    /// Defines the polling interval for the clipboard monitoring. If
    /// unset, it defaults to 200 milliseconds.
    pub fn interval(self, duration: Duration) -> (r: ClipboardEventListenerBuilder)
        ensures
            r.interval == Some(duration),
            r.custom_formats == self.custom_formats,
            r.max_bytes == self.max_bytes,
    {
        ClipboardEventListenerBuilder {
            interval: Some(duration),
            custom_formats: self.custom_formats,
            max_bytes: self.max_bytes,
        }
    }

    /// Sets the list of custom clipboard formats to monitor. When a
    /// clipboard item matches more than one of them, only the first is
    /// selected; all of them are extracted with a higher priority than
    /// the built-in formats.
    pub fn with_custom_formats(self, formats: Vec<String>) -> (r: ClipboardEventListenerBuilder)
        ensures
            r.custom_formats == formats,
            r.interval == self.interval,
            r.max_bytes == self.max_bytes,
    {
        ClipboardEventListenerBuilder {
            interval: self.interval,
            custom_formats: formats,
            max_bytes: self.max_bytes,
        }
    }

    /// Sets the maximum allowed size. It applies to custom formats and to
    /// images, never to text-based formats like HTML or plain text: the
    /// platform providers check the size of a clipboard item against it
    /// before loading the content into a buffer.
    pub fn max_size(self, max_bytes: u32) -> (r: ClipboardEventListenerBuilder)
        ensures
            r.max_bytes == Some(max_bytes),
            r.interval == self.interval,
            r.custom_formats == self.custom_formats,
    {
        ClipboardEventListenerBuilder {
            interval: self.interval,
            custom_formats: self.custom_formats,
            max_bytes: Some(max_bytes),
        }
    }
}

} // verus!
