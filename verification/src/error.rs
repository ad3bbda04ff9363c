use vstd::prelude::*;

verus! {

/// The single way in which the engine fails.
///
/// It stands for an encoding without a matching operation, a destination of
/// the zero register where the operation rejects it, a memory access outside
/// the memory region, a write to a read-only control register, and an
/// instruction group that the engine does not support.
#[derive(Debug, Clone, Copy, PartialEq, Eq, Structural)]
pub enum Error {
    InvalidOpCode,
}

} // verus!
