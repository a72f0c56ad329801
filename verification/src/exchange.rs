//! The buffer exchange: reading positions and speeds through two buffers
//! that the caller allocates and the controller's library fills.
//!
//! The memory and the foreign call belong to a driver outside this crate.
//! What is decided here is the order of the work: the driver asks an
//! [`Exchange`] for its next [`Request`], carries it out, and answers with a
//! [`Reply`]. The exchange never asks for a buffer of no bytes, never asks to
//! copy from a buffer before the call has succeeded and both pointers were
//! seen to be non-null, and asks for the release of what it had allocated on
//! every path, once.

use vstd::prelude::*;
use crate::sample::{Binary64, ReadError, Sample, SampleView, Verdict, verdict_of, DOUBLE_BYTES};

verus! {

/// What the driver is asked to do next.
#[derive(Clone, Copy, Debug, PartialEq, Eq, Structural)]
pub enum Request {
    /// Allocate two distinct raw buffers of `bytes` bytes each, room for
    /// `elements` double-precision values; answer [`Reply::Allocated`].
    Allocate { elements: usize, bytes: usize },
    /// Call the library's read entry point and answer [`Reply::Returned`].
    /// With `buffered` the call gets the two allocated buffers; without it no
    /// buffer exists, and the call gets two null pointers.
    Read { buffered: bool },
    /// Copy `elements` values out of each buffer; answer [`Reply::Copied`].
    Copy { elements: usize },
    /// Release both buffers; answer [`Reply::Released`].
    Release,
    /// Nothing is left to do: take the result.
    Done,
}

/// What the driver reports after it has carried out a request.
#[derive(Clone, Debug, PartialEq, Eq)]
pub enum Reply {
    /// Both buffers were asked for from the allocator.
    Allocated,
    /// The read call returned `code`; the flags say which of the two buffer
    /// pointers is null.
    Returned { code: i32, positions_null: bool, speeds_null: bool },
    /// The values found in the two buffers, in buffer order.
    Copied { positions: Vec<Binary64>, speeds: Vec<Binary64> },
    /// Both buffers were given back to the allocator.
    Released,
}

/// The mathematical content of a [`Reply`].
pub enum ReplyView {
    Allocated,
    Returned { code: i32, positions_null: bool, speeds_null: bool },
    Copied { positions: Seq<Binary64>, speeds: Seq<Binary64> },
    Released,
}

impl View for Reply {
    type V = ReplyView;

    open spec fn view(&self) -> ReplyView {
        match *self {
            Reply::Allocated => ReplyView::Allocated,
            Reply::Returned { code, positions_null, speeds_null } => ReplyView::Returned {
                code,
                positions_null,
                speeds_null,
            },
            Reply::Copied { positions, speeds } => ReplyView::Copied {
                positions: positions@,
                speeds: speeds@,
            },
            Reply::Released => ReplyView::Released,
        }
    }
}

/// Where an exchange stands.
pub enum Stage {
    /// The buffers for `count` values are to be allocated.
    Allocating { count: usize },
    /// The read call is to be made; buffers are held when `count` is not zero.
    Calling { count: usize },
    /// The call succeeded on two non-null buffers, which are to be copied.
    Copying { count: usize },
    /// The verdict is known, and the buffers are still to be released.
    Releasing { verdict: Verdict },
    /// No buffer is held and the verdict can be taken.
    Finished { verdict: Verdict },
}

/// Whether the size in bytes of a buffer of `count` values fits a `usize`.
pub open spec fn fits(count: usize) -> bool {
    count * DOUBLE_BYTES <= usize::MAX
}

/// The stage at which an exchange of `count` values per buffer starts.
///
/// With no value to read there is nothing to allocate, and the call comes
/// first. A count whose buffers cannot be described ends the exchange at once.
pub open spec fn start(count: usize) -> Stage {
    if count == 0 {
        Stage::Calling { count }
    } else if fits(count) {
        Stage::Allocating { count }
    } else {
        Stage::Finished { verdict: Err(ReadError::Oversized) }
    }
}

/// The request that a stage holds out to the driver.
pub open spec fn request_of(stage: Stage) -> Request {
    match stage {
        Stage::Allocating { count } => Request::Allocate {
            elements: count,
            bytes: (count * DOUBLE_BYTES) as usize,
        },
        Stage::Calling { count } => Request::Read { buffered: count != 0 },
        Stage::Copying { count } => Request::Copy { elements: count },
        Stage::Releasing { .. } => Request::Release,
        Stage::Finished { .. } => Request::Done,
    }
}

/// The stage that follows the read call's return.
///
/// A code other than zero is the verdict, whatever the pointers are, and the
/// buffers are never looked at. After a zero, a reading of no values is
/// empty; otherwise a null pointer is the verdict, and only two non-null
/// buffers are copied. Buffers that were allocated are released before the
/// exchange finishes.
pub open spec fn after_call(
    count: usize,
    code: i32,
    positions_null: bool,
    speeds_null: bool,
) -> Stage {
    if code != 0 {
        if count == 0 {
            Stage::Finished { verdict: Err(ReadError::Failed(code)) }
        } else {
            Stage::Releasing { verdict: Err(ReadError::Failed(code)) }
        }
    } else if count == 0 {
        Stage::Finished {
            verdict: Ok(SampleView { positions: Seq::empty(), speeds: Seq::empty() }),
        }
    } else if positions_null || speeds_null {
        Stage::Releasing { verdict: Err(ReadError::NullBuffer) }
    } else {
        Stage::Copying { count }
    }
}

/// Whether `reply` is the answer to the request that `stage` holds out.
pub open spec fn answers(stage: Stage, reply: ReplyView) -> bool {
    match (stage, reply) {
        (Stage::Allocating { .. }, ReplyView::Allocated) => true,
        (Stage::Calling { .. }, ReplyView::Returned { .. }) => true,
        (Stage::Copying { count }, ReplyView::Copied { positions, speeds }) => {
            positions.len() == count && speeds.len() == count
        },
        (Stage::Releasing { .. }, ReplyView::Released) => true,
        _ => false,
    }
}

/// The stage that follows `stage` on `reply`. A reply that does not answer
/// the stage's request changes nothing.
pub open spec fn next(stage: Stage, reply: ReplyView) -> Stage {
    if !answers(stage, reply) {
        stage
    } else {
        match (stage, reply) {
            (Stage::Allocating { count }, _) => Stage::Calling { count },
            (Stage::Calling { count }, ReplyView::Returned { code, positions_null, speeds_null }) => {
                after_call(count, code, positions_null, speeds_null)
            },
            (Stage::Copying { .. }, ReplyView::Copied { positions, speeds }) => Stage::Releasing {
                verdict: Ok(SampleView { positions, speeds }),
            },
            (Stage::Releasing { verdict }, _) => Stage::Finished { verdict },
            _ => stage,
        }
    }
}

enum Progress {
    Allocating { count: usize },
    Calling { count: usize },
    Copying { count: usize },
    Releasing { result: Result<Sample, ReadError> },
    Finished { result: Result<Sample, ReadError> },
}

/// One buffer exchange, from the count of values to the verdict.
pub struct Exchange {
    progress: Progress,
}

impl View for Exchange {
    type V = Stage;

    closed spec fn view(&self) -> Stage {
        match self.progress {
            Progress::Allocating { count } => Stage::Allocating { count },
            Progress::Calling { count } => Stage::Calling { count },
            Progress::Copying { count } => Stage::Copying { count },
            Progress::Releasing { result } => Stage::Releasing { verdict: verdict_of(result) },
            Progress::Finished { result } => Stage::Finished { verdict: verdict_of(result) },
        }
    }
}

impl Exchange {
    #[verifier::type_invariant]
    spec fn describable(&self) -> bool {
        self.progress matches Progress::Allocating { count } ==> count > 0 && fits(count)
    }

    /// Starts an exchange that is to read `count` values from each buffer.
    pub fn new(count: usize) -> (exchange: Exchange)
        ensures
            exchange@ == start(count),
    {
        if count == 0 {
            Exchange { progress: Progress::Calling { count } }
        } else if count <= usize::MAX / DOUBLE_BYTES {
            Exchange { progress: Progress::Allocating { count } }
        } else {
            Exchange { progress: Progress::Finished { result: Err(ReadError::Oversized) } }
        }
    }

    /// What the driver is to do now.
    pub fn request(&self) -> (request: Request)
        ensures
            request == request_of(self@),
            request matches Request::Allocate { elements, bytes } ==> elements > 0 && bytes
                == elements * DOUBLE_BYTES,
    {
        proof {
            use_type_invariant(self);
        }
        match &self.progress {
            Progress::Allocating { count } => Request::Allocate {
                elements: *count,
                bytes: *count * DOUBLE_BYTES,
            },
            Progress::Calling { count } => Request::Read { buffered: *count != 0 },
            Progress::Copying { count } => Request::Copy { elements: *count },
            Progress::Releasing { .. } => Request::Release,
            Progress::Finished { .. } => Request::Done,
        }
    }

    /// Whether the verdict is known and no buffer is held.
    pub fn is_finished(&self) -> (finished: bool)
        ensures
            finished == (self@ is Finished),
    {
        match &self.progress {
            Progress::Finished { .. } => true,
            _ => false,
        }
    }

    /// Takes the driver's reply and moves on.
    pub fn advance(self, reply: Reply) -> (exchange: Exchange)
        ensures
            exchange@ == next(self@, reply@),
    {
        proof {
            use_type_invariant(&self);
        }
        match (self.progress, reply) {
            (Progress::Allocating { count }, Reply::Allocated) => Exchange {
                progress: Progress::Calling { count },
            },
            (Progress::Calling { count }, Reply::Returned { code, positions_null, speeds_null }) => {
                if code != 0 {
                    if count == 0 {
                        Exchange {
                            progress: Progress::Finished { result: Err(ReadError::Failed(code)) },
                        }
                    } else {
                        Exchange {
                            progress: Progress::Releasing { result: Err(ReadError::Failed(code)) },
                        }
                    }
                } else if count == 0 {
                    Exchange {
                        progress: Progress::Finished {
                            result: Ok(Sample { positions: Vec::new(), speeds: Vec::new() }),
                        },
                    }
                } else if positions_null || speeds_null {
                    Exchange { progress: Progress::Releasing { result: Err(ReadError::NullBuffer) } }
                } else {
                    Exchange { progress: Progress::Copying { count } }
                }
            },
            (Progress::Copying { count }, Reply::Copied { positions, speeds }) => {
                if positions.len() == count && speeds.len() == count {
                    Exchange { progress: Progress::Releasing { result: Ok(Sample { positions, speeds }) } }
                } else {
                    Exchange { progress: Progress::Copying { count } }
                }
            },
            (Progress::Releasing { result }, Reply::Released) => Exchange {
                progress: Progress::Finished { result },
            },
            (progress, _) => Exchange { progress },
        }
    }

    /// The result of a finished exchange; `None` while work is left.
    pub fn finish(self) -> (result: Option<Result<Sample, ReadError>>)
        ensures
            match self@ {
                Stage::Finished { verdict } => result is Some && verdict_of(result->0) == verdict,
                _ => result is None,
            },
    {
        match self.progress {
            Progress::Finished { result } => Some(result),
            _ => None,
        }
    }
}

} // verus!
