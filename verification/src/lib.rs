//! A multi-channel audio sample buffer.
//!
//! The buffer either owns its per-channel storage (and may grow) or was
//! constructed over per-channel storage handed in by an external owner
//! (and then must never grow). Samples are opaque to the buffer: it is
//! generic over the element type and only stores, hands out and appends
//! elements, so any sample format can be carried through it.

pub mod buffer;
pub mod error;

pub mod laws;
pub use buffer::AudioBuffer;
pub use error::AudioBufferError;
