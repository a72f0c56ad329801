//! The values that cross the boundary to the controller's library.

use vstd::prelude::*;

verus! {

/// A double-precision value, carried as its IEEE 754 bit pattern.
///
/// Nothing in this crate computes with such a value: it is taken from the
/// command line or from a buffer and handed on bit for bit, so the pattern
/// is all that is kept.
#[derive(Clone, Copy, Debug, PartialEq, Eq, Structural)]
pub struct Binary64 {
    pub bits: u64,
}

/// The number of bytes that one double-precision value takes in a buffer.
pub const DOUBLE_BYTES: usize = 8;

/// One reading of all axes: the position and the speed of each, by axis index.
#[derive(Clone, Debug, PartialEq, Eq)]
pub struct Sample {
    pub positions: Vec<Binary64>,
    pub speeds: Vec<Binary64>,
}

/// The mathematical content of a [`Sample`].
pub struct SampleView {
    pub positions: Seq<Binary64>,
    pub speeds: Seq<Binary64>,
}

impl View for Sample {
    type V = SampleView;

    open spec fn view(&self) -> SampleView {
        SampleView { positions: self.positions@, speeds: self.speeds@ }
    }
}

/// Why a reading could not be delivered.
#[derive(Clone, Copy, Debug, PartialEq, Eq, Structural)]
pub enum ReadError {
    /// The read call returned this code, which is not zero.
    Failed(i32),
    /// The read call returned zero although a buffer it was given is null.
    NullBuffer,
    /// A buffer for this many values has a size in bytes that no `usize` holds.
    Oversized,
}

/// How a buffer exchange ends, over the content of the reading.
pub type Verdict = Result<SampleView, ReadError>;

/// The verdict that stands for an exchange's result.
pub open spec fn verdict_of(result: Result<Sample, ReadError>) -> Verdict {
    match result {
        Ok(sample) => Ok(sample@),
        Err(e) => Err(e),
    }
}

} // verus!
