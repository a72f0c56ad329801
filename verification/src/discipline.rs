//! What holds of every buffer exchange.
//!
//! Some laws hold whatever the driver replies: they are stated over any
//! sequence of replies. The others say how an exchange goes with a faithful
//! driver, one that carries out each request and reports what it sees,
//! whatever the library behind the read call does. The library is described
//! by what a driver can see of one call: the code it returns, whether a
//! buffer pointer is null afterwards, and the values found in the two
//! buffers.

use vstd::prelude::*;
use crate::exchange::{Request, ReplyView, Stage, answers, fits, next, request_of, start};
use crate::sample::{Binary64, ReadError, SampleView, Verdict, DOUBLE_BYTES};

verus! {

/// What one read call does, as far as a driver can tell.
pub struct Behaviour {
    /// The code that the call returns.
    pub code: i32,
    /// Whether the pointer to the position buffer is null after the call.
    pub positions_null: bool,
    /// Whether the pointer to the speed buffer is null after the call.
    pub speeds_null: bool,
    /// The values in the position buffer after the call.
    pub positions: Seq<Binary64>,
    /// The values in the speed buffer after the call.
    pub speeds: Seq<Binary64>,
}

/// The reply of a driver that does what it is asked and reports what it sees.
pub open spec fn faithful_reply(request: Request, behaviour: Behaviour) -> ReplyView {
    match request {
        Request::Allocate { .. } => ReplyView::Allocated,
        Request::Read { .. } => ReplyView::Returned {
            code: behaviour.code,
            positions_null: behaviour.positions_null,
            speeds_null: behaviour.speeds_null,
        },
        Request::Copy { .. } => ReplyView::Copied {
            positions: behaviour.positions,
            speeds: behaviour.speeds,
        },
        Request::Release => ReplyView::Released,
        Request::Done => ReplyView::Released,
    }
}

/// The stage reached from `stage` when a faithful driver serves up to `steps`
/// requests.
pub open spec fn drive(stage: Stage, behaviour: Behaviour, steps: nat) -> Stage
    decreases steps,
{
    if steps == 0 || stage is Finished {
        stage
    } else {
        drive(
            next(stage, faithful_reply(request_of(stage), behaviour)),
            behaviour,
            (steps - 1) as nat,
        )
    }
}

/// The requests that a faithful driver serves on the way, in order.
pub open spec fn work(stage: Stage, behaviour: Behaviour, steps: nat) -> Seq<Request>
    decreases steps,
{
    if steps == 0 || stage is Finished {
        Seq::empty()
    } else {
        seq![request_of(stage)] + work(
            next(stage, faithful_reply(request_of(stage), behaviour)),
            behaviour,
            (steps - 1) as nat,
        )
    }
}

/// The stage reached from `stage` when the driver answers with `replies` in
/// turn, whether they fit the requests or not.
pub open spec fn run(stage: Stage, replies: Seq<ReplyView>) -> Stage
    decreases replies.len(),
{
    if replies.len() == 0 {
        stage
    } else {
        run(next(stage, replies.first()), replies.drop_first())
    }
}

/// The requests that the driver has carried out when it has answered with
/// `replies` in turn: a reply that answers the request held out counts for
/// that request, and any other reply counts for nothing.
pub open spec fn answered(stage: Stage, replies: Seq<ReplyView>) -> Seq<Request>
    decreases replies.len(),
{
    if replies.len() == 0 {
        Seq::empty()
    } else if answers(stage, replies.first()) {
        seq![request_of(stage)] + answered(next(stage, replies.first()), replies.drop_first())
    } else {
        answered(stage, replies.drop_first())
    }
}

/// Whether buffers are allocated and not yet released at `stage`.
pub open spec fn holds_buffers(stage: Stage) -> bool {
    match stage {
        Stage::Allocating { .. } => false,
        Stage::Calling { count } => count != 0,
        Stage::Copying { .. } => true,
        Stage::Releasing { .. } => true,
        Stage::Finished { .. } => false,
    }
}

/// Whether the call, where it returns zero on two buffers that are not null,
/// has left `count` values in each. Of any other call nothing is asked: what
/// the buffers hold then is not specified, and is never looked at. Nor is
/// anything asked where there is no value to read.
pub open spec fn fills(behaviour: Behaviour, count: usize) -> bool {
    count != 0 && behaviour.code == 0 && !behaviour.positions_null && !behaviour.speeds_null
        ==> behaviour.positions.len() == count && behaviour.speeds.len() == count
}

/// The verdict that an exchange of `count` values owes on a behaviour.
pub open spec fn owed(count: usize, behaviour: Behaviour) -> Verdict {
    if count != 0 && !fits(count) {
        Err(ReadError::Oversized)
    } else if behaviour.code != 0 {
        Err(ReadError::Failed(behaviour.code))
    } else if count == 0 {
        Ok(SampleView { positions: Seq::empty(), speeds: Seq::empty() })
    } else if behaviour.positions_null || behaviour.speeds_null {
        Err(ReadError::NullBuffer)
    } else {
        Ok(SampleView { positions: behaviour.positions, speeds: behaviour.speeds })
    }
}

/// The requests that an exchange of `count` values is made of, given how it
/// ends: the read call alone where nothing is to be read, nothing at all
/// where the buffers cannot be described, and else allocation, call, a copy
/// only before a good verdict, and release.
pub open spec fn course(count: usize, verdict: Verdict) -> Seq<Request> {
    let allocate = Request::Allocate { elements: count, bytes: (count * DOUBLE_BYTES) as usize };
    if count == 0 {
        seq![Request::Read { buffered: false }]
    } else if !fits(count) {
        Seq::empty()
    } else if verdict is Ok {
        seq![
            allocate,
            Request::Read { buffered: true },
            Request::Copy { elements: count },
            Request::Release,
        ]
    } else {
        seq![allocate, Request::Read { buffered: true }, Request::Release]
    }
}

/// How often a request to allocate occurs in `requests`.
pub open spec fn allocations(requests: Seq<Request>) -> nat
    decreases requests.len(),
{
    if requests.len() == 0 {
        0
    } else {
        allocations(requests.drop_first()) + if requests.first() is Allocate {
            1nat
        } else {
            0nat
        }
    }
}

/// How often a request to release occurs in `requests`.
pub open spec fn releases(requests: Seq<Request>) -> nat
    decreases requests.len(),
{
    if requests.len() == 0 {
        0
    } else {
        releases(requests.drop_first()) + if requests.first() is Release {
            1nat
        } else {
            0nat
        }
    }
}

/// Whether `stage` can occur in an exchange of `count` values.
pub open spec fn belongs(count: usize, stage: Stage) -> bool {
    match stage {
        Stage::Allocating { count: c } => c == count,
        Stage::Calling { count: c } => c == count,
        Stage::Copying { count: c } => c == count,
        Stage::Releasing { verdict } => verdict matches Ok(sample) ==> sample.positions.len()
            == count && sample.speeds.len() == count,
        Stage::Finished { verdict } => verdict matches Ok(sample) ==> sample.positions.len()
            == count && sample.speeds.len() == count,
    }
}

proof fn lemma_count_prepended(first: Request, rest: Seq<Request>)
    ensures
        allocations(seq![first] + rest) == allocations(rest) + if first is Allocate {
            1nat
        } else {
            0nat
        },
        releases(seq![first] + rest) == releases(rest) + if first is Release {
            1nat
        } else {
            0nat
        },
{
    let whole = seq![first] + rest;
    assert(whole.first() == first);
    assert(whole.drop_first() =~= rest);
}

proof fn lemma_buffers_are_conserved(stage: Stage, replies: Seq<ReplyView>)
    requires
        stage matches Stage::Allocating { count } ==> count != 0,
    ensures
        allocations(answered(stage, replies)) + if holds_buffers(stage) {
            1nat
        } else {
            0nat
        } == releases(answered(stage, replies)) + if holds_buffers(run(stage, replies)) {
            1nat
        } else {
            0nat
        },
        allocations(answered(stage, replies)) <= if stage is Allocating {
            1nat
        } else {
            0nat
        },
    decreases replies.len(),
{
    if replies.len() != 0 {
        let reply = replies.first();
        let onward = next(stage, reply);
        lemma_buffers_are_conserved(onward, replies.drop_first());
        if answers(stage, reply) {
            lemma_count_prepended(request_of(stage), answered(onward, replies.drop_first()));
        }
    }
}

/// Whatever the driver replies, buffers are allocated at most once and never
/// released unless they are held, and a finished exchange holds none: what
/// was allocated has been released, once.
pub proof fn law_no_leak_no_double_release(count: usize, replies: Seq<ReplyView>)
    ensures
        ({
            let done = answered(start(count), replies);
            let last = run(start(count), replies);
            &&& allocations(done) <= 1
            &&& releases(done) <= allocations(done)
            &&& releases(done) < allocations(done) <==> holds_buffers(last)
            &&& last is Finished ==> releases(done) == allocations(done)
        }),
{
    lemma_buffers_are_conserved(start(count), replies);
}

proof fn lemma_copy_needs_good_call(stage: Stage, replies: Seq<ReplyView>, i: int)
    requires
        0 <= i < answered(stage, replies).len(),
        answered(stage, replies)[i] is Copy,
        !(stage is Copying),
    ensures
        exists|j: int|
            0 <= j < i && answered(stage, replies)[j] == (Request::Read { buffered: true }),
    decreases replies.len(),
{
    let reply = replies.first();
    let onward = next(stage, reply);
    let later = answered(onward, replies.drop_first());
    if !answers(stage, reply) {
        lemma_copy_needs_good_call(stage, replies.drop_first(), i);
    } else {
        assert(answered(stage, replies) =~= seq![request_of(stage)] + later);
        assert(i > 0);
        assert(later[i - 1] is Copy);
        if onward is Copying {
            assert(answered(stage, replies)[0] == (Request::Read { buffered: true }));
        } else {
            lemma_copy_needs_good_call(onward, replies.drop_first(), i - 1);
            let j = choose|j: int|
                0 <= j < i - 1 && later[j] == (Request::Read { buffered: true });
            assert(answered(stage, replies)[j + 1] == later[j]);
        }
    }
}

/// Whatever the driver replies, a copy is asked for only after the read call
/// was made on buffers that had been allocated.
pub proof fn law_copy_follows_the_call(count: usize, replies: Seq<ReplyView>, i: int)
    requires
        0 <= i < answered(start(count), replies).len(),
        answered(start(count), replies)[i] is Copy,
    ensures
        exists|j: int|
            0 <= j < i && answered(start(count), replies)[j] == (Request::Read {
                buffered: true,
            }),
{
    lemma_copy_needs_good_call(start(count), replies, i);
}

proof fn lemma_run_belongs(count: usize, stage: Stage, replies: Seq<ReplyView>)
    requires
        belongs(count, stage),
    ensures
        belongs(count, run(stage, replies)),
    decreases replies.len(),
{
    if replies.len() != 0 {
        lemma_run_belongs(count, next(stage, replies.first()), replies.drop_first());
    }
}

/// A reading that an exchange delivers has exactly `count` positions and
/// `count` speeds, whatever the driver replied on the way.
pub proof fn law_reading_has_count_values(count: usize, replies: Seq<ReplyView>)
    ensures
        run(start(count), replies) matches Stage::Finished { verdict: Ok(sample) }
            ==> sample.positions.len() == count && sample.speeds.len() == count,
{
    lemma_run_belongs(count, start(count), replies);
}

/// A finished exchange stays finished, and its verdict stays what it is.
pub proof fn law_finished_is_final(stage: Stage, replies: Seq<ReplyView>)
    requires
        stage is Finished,
    ensures
        run(stage, replies) == stage,
    decreases replies.len(),
{
    if replies.len() != 0 {
        law_finished_is_final(stage, replies.drop_first());
    }
}

/// With a faithful driver every exchange is finished after four requests at
/// most, with the verdict that is owed on the library's behaviour.
pub proof fn law_exchange_ends_as_owed(count: usize, behaviour: Behaviour, steps: nat)
    requires
        fills(behaviour, count),
        steps >= 4,
    ensures
        drive(start(count), behaviour, steps) == (Stage::Finished {
            verdict: owed(count, behaviour),
        }),
{
    reveal_with_fuel(drive, 6);
}

/// With a faithful driver the requests served are exactly the course of the
/// exchange: buffers are allocated at most once, only for a count that is
/// not zero; they are copied only after the call returned zero and both
/// pointers were non-null; and what was allocated is released exactly once,
/// after the copy, on every path.
pub proof fn law_buffers_released_once(count: usize, behaviour: Behaviour, steps: nat)
    requires
        fills(behaviour, count),
        steps >= 4,
    ensures
        ({
            let served = work(start(count), behaviour, steps);
            &&& served == course(count, owed(count, behaviour))
            &&& allocations(served) == releases(served)
            &&& allocations(served) == if count != 0 && fits(count) {
                1nat
            } else {
                0nat
            }
        }),
{
    reveal_with_fuel(drive, 6);
    reveal_with_fuel(work, 6);
    let served = work(start(count), behaviour, steps);
    let planned = course(count, owed(count, behaviour));
    assert(served =~= planned);
    lemma_course_is_balanced(count, owed(count, behaviour));
}

proof fn lemma_course_is_balanced(count: usize, verdict: Verdict)
    ensures
        allocations(course(count, verdict)) == releases(course(count, verdict)),
        allocations(course(count, verdict)) == if count != 0 && fits(count) {
            1nat
        } else {
            0nat
        },
{
    let planned = course(count, verdict);
    let release = seq![Request::Release];
    lemma_count_prepended(Request::Release, Seq::empty());
    if count == 0 {
        lemma_count_prepended(Request::Read { buffered: false }, Seq::empty());
        assert(planned =~= seq![Request::Read { buffered: false }] + Seq::empty());
    } else if fits(count) {
        let allocate = Request::Allocate { elements: count, bytes: (count * DOUBLE_BYTES) as usize };
        let call = Request::Read { buffered: true };
        let copy = Request::Copy { elements: count };
        assert(release =~= seq![Request::Release] + Seq::empty());
        if verdict is Ok {
            lemma_count_prepended(copy, release);
            lemma_count_prepended(call, seq![copy] + release);
            lemma_count_prepended(allocate, seq![call] + (seq![copy] + release));
            assert(planned =~= seq![allocate] + (seq![call] + (seq![copy] + release)));
        } else {
            lemma_count_prepended(call, release);
            lemma_count_prepended(allocate, seq![call] + release);
            assert(planned =~= seq![allocate] + (seq![call] + release));
        }
    }
}

/// The values that the call left in the buffers come back unchanged and in
/// order: a delivered reading holds, at every index, the value that the
/// buffer held there.
pub proof fn law_round_trip(count: usize, behaviour: Behaviour, steps: nat)
    requires
        fills(behaviour, count),
        steps >= 4,
    ensures
        drive(start(count), behaviour, steps) matches Stage::Finished { verdict: Ok(sample) } ==> {
            &&& sample.positions.len() == count
            &&& sample.speeds.len() == count
            &&& forall|i: int| 0 <= i < count ==> sample.positions[i] == behaviour.positions[i]
            &&& forall|i: int| 0 <= i < count ==> sample.speeds[i] == behaviour.speeds[i]
        },
{
    law_exchange_ends_as_owed(count, behaviour, steps);
}

/// A read call that returns a code other than zero ends the exchange with
/// that code, and no copy is ever asked for: the buffers are not looked at.
pub proof fn law_failure_carries_code(count: usize, behaviour: Behaviour, steps: nat)
    requires
        steps >= 4,
        count == 0 || fits(count),
        behaviour.code != 0,
    ensures
        drive(start(count), behaviour, steps) == (Stage::Finished {
            verdict: Err(ReadError::Failed(behaviour.code)),
        }),
        ({
            let served = work(start(count), behaviour, steps);
            forall|i: int| 0 <= i < served.len() ==> !(served[i] is Copy)
        }),
{
    law_exchange_ends_as_owed(count, behaviour, steps);
    law_buffers_released_once(count, behaviour, steps);
}

/// A read call that returns zero and leaves a buffer pointer null ends the
/// exchange with the verdict kept for that, never with a reading, and no copy
/// is ever asked for. This is said of exchanges that have buffers: where
/// nothing is to be read none is allocated, and the reading is empty.
pub proof fn law_null_buffer_is_told_apart(count: usize, behaviour: Behaviour, steps: nat)
    requires
        steps >= 4,
        count != 0,
        fits(count),
        behaviour.code == 0,
        behaviour.positions_null || behaviour.speeds_null,
    ensures
        drive(start(count), behaviour, steps) == (Stage::Finished {
            verdict: Err(ReadError::NullBuffer),
        }),
        ({
            let served = work(start(count), behaviour, steps);
            forall|i: int| 0 <= i < served.len() ==> !(served[i] is Copy)
        }),
{
    law_exchange_ends_as_owed(count, behaviour, steps);
    law_buffers_released_once(count, behaviour, steps);
}

} // verus!
