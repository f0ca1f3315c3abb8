use vstd::prelude::*;

verus! {

/// The failure conditions a sample buffer reports. Every failure is local
/// to the offending call and surfaced synchronously; nothing is deferred.
#[derive(Clone, Copy, Debug, PartialEq, Eq, Structural)]
pub enum AudioBufferError {
    /// A borrowed-mode construction descriptor does not have the stated
    /// shape: the number of channel blocks differs from the channel count,
    /// or some channel block does not hold exactly the stated length.
    InvalidBufferDescriptor,
    /// A channel index at or beyond the channel count was passed to a
    /// reader or writer accessor.
    IndexOutOfRange,
    /// Growth was attempted on a buffer whose storage belongs to an
    /// external owner; such a buffer has a fixed length for its lifetime.
    IllegalGrowthOnBorrowedBuffer,
}

} // verus!
