use vstd::prelude::*;

verus! {

/// Failures of the register-access layer.
///
/// Every caller of this layer treats a failure as fatal for the current run:
/// an out-of-bounds register offset indicates a configuration mismatch with
/// the hardware, a mapping failure means no controller can be built at all,
/// and a broken wait/re-arm cycle cannot be repaired mid-sequence.
#[derive(Clone, Copy, Debug, PartialEq, Eq, Structural)]
pub enum DriverError {
    /// A register access at `offset` would reach past the end of its window
    /// (`offset + 4 > length`).
    OutOfBounds,
    /// The physical-memory device could not be mapped.
    MappingFailure,
    /// A completion wait cannot be satisfied yet: the event handle holds no
    /// pending edge (or was consumed and never re-armed), or a poll found
    /// the watched counter unmoved.
    NotificationIoFailure,
}

} // verus!
