//! What holds of every session, whatever the controller's library returns.
//!
//! The library is described by what each of its entry points returns during
//! one run. A faithful driver makes each call that the session asks for and
//! hands back what it got. The laws below say how such a run ends and which
//! calls it is made of.

use vstd::prelude::*;
use crate::command::Command;
use crate::discipline::{Behaviour, course, faithful_reply, fills, owed};
use crate::exchange::{Request, fits, start};
use crate::outcome::axis_count_of;
use crate::present::diagnostic;
use crate::session::{
    Call, End, EventView, Failure, OutputView, Step, after, call_of, concluded, end_of_reading,
    reading, silent_end, stop_end,
};
use crate::text::integer_text;

verus! {

/// What the library's entry points return during one run.
pub struct Library {
    /// The code that initialising returns.
    pub initialized: i32,
    /// The code that a move returns.
    pub moved: i32,
    /// The code that a move at a speed returns.
    pub moved_at_speed: i32,
    /// The number of axes that the library reports.
    pub axes: i32,
    /// What the read call does.
    pub read: Behaviour,
    /// The status that the library reports.
    pub status: i32,
    /// The code that stopping returns.
    pub stopped: i32,
}

/// What a faithful driver hands back after `call`, with `command` on the
/// command line.
pub open spec fn faithful_event(call: Call, library: Library, command: Command) -> EventView {
    match call {
        Call::Initialize => EventView::Returned(library.initialized),
        Call::Parse => EventView::Parsed(command),
        Call::MoveToAxis { .. } => EventView::Returned(library.moved),
        Call::MoveToAxisVelocity { .. } => EventView::Returned(library.moved_at_speed),
        Call::CountAxes => EventView::Returned(library.axes),
        Call::Buffers(request) => EventView::Buffers(faithful_reply(request, library.read)),
        Call::ReadStatus => EventView::Returned(library.status),
        Call::Stop => EventView::Returned(library.stopped),
        Call::Show => EventView::Shown,
        Call::Unload => EventView::Unloaded,
        Call::Finish => EventView::Unloaded,
    }
}

/// The step that follows `step` when a faithful driver has made its call.
pub open spec fn onward(step: Step, library: Library, command: Command) -> Step {
    after(step, faithful_event(call_of(step), library, command))
}

/// The step reached from `step` when a faithful driver makes up to `steps`
/// calls.
pub open spec fn conduct(step: Step, library: Library, command: Command, steps: nat) -> Step
    decreases steps,
{
    if steps == 0 || step is Finished {
        step
    } else {
        conduct(onward(step, library, command), library, command, (steps - 1) as nat)
    }
}

/// The calls that a faithful driver makes on the way, in order.
pub open spec fn calls(step: Step, library: Library, command: Command, steps: nat) -> Seq<Call>
    decreases steps,
{
    if steps == 0 || step is Finished {
        Seq::empty()
    } else {
        seq![call_of(step)] + calls(
            onward(step, library, command),
            library,
            command,
            (steps - 1) as nat,
        )
    }
}

/// The end that a session owes on a library and a command.
pub open spec fn owed_end(library: Library, command: Command) -> End {
    if library.initialized != 0 {
        Err(Failure::Initialize(library.initialized))
    } else {
        match command {
            Command::Move { .. } => silent_end(library.moved),
            Command::MoveSpeed { .. } => silent_end(library.moved_at_speed),
            Command::Position => end_of_reading(owed(axis_count_of(library.axes), library.read)),
            Command::NumAxes => Ok(OutputView::AxisCount(axis_count_of(library.axes))),
            Command::Status => Ok(OutputView::Status(library.status)),
            Command::Stop => stop_end(library.stopped),
        }
    }
}

/// The calls that a command stands for, once the library is initialised and
/// the command is known.
pub open spec fn errand(library: Library, command: Command) -> Seq<Call> {
    match command {
        Command::Move { axis, position } => seq![Call::MoveToAxis { axis, position }],
        Command::MoveSpeed { axis, position, speed } => seq![
            Call::MoveToAxisVelocity { axis, position, speed },
        ],
        Command::Position => {
            let count = axis_count_of(library.axes);
            seq![Call::CountAxes] + course(count, owed(count, library.read)).map_values(
                |request: Request| Call::Buffers(request),
            )
        },
        Command::NumAxes => seq![Call::CountAxes],
        Command::Status => seq![Call::ReadStatus],
        Command::Stop => seq![Call::Stop],
    }
}

/// The calls that end a session: an output is shown, and the library is
/// unloaded whatever the end is.
pub open spec fn closing(end: End) -> Seq<Call> {
    if end is Ok {
        seq![Call::Show, Call::Unload]
    } else {
        seq![Call::Unload]
    }
}

/// The calls that a whole session is made of: initialisation, the command
/// line, the command's errand, and the closing. Where initialisation fails,
/// only the unloading follows it.
pub open spec fn script(library: Library, command: Command) -> Seq<Call> {
    if library.initialized != 0 {
        seq![Call::Initialize, Call::Unload]
    } else {
        seq![Call::Initialize, Call::Parse] + errand(library, command) + closing(
            owed_end(library, command),
        )
    }
}

/// Whether the read call, where it returns zero on two buffers that are not
/// null, has left in each one value for each axis that the library reports.
pub open spec fn buffers_match_axes(library: Library) -> bool {
    fills(library.read, axis_count_of(library.axes))
}

/// Once the work of a session has ended, its end is settled, whatever events
/// come: only the unloading of the library is left, no call into the library
/// is asked for again, and a session that is over stays over.
pub proof fn law_the_end_is_final(step: Step, event: EventView)
    ensures
        step matches Step::Unloading { end } ==> after(step, event) == step || after(step, event)
            == (Step::Finished { end }),
        step is Finished ==> after(step, event) == step,
{
}

/// What is left of a session once a command's work has ended: the closing
/// calls, and then the end.
proof fn lemma_closing(end: End, library: Library, command: Command, steps: nat)
    requires
        steps >= 2,
    ensures
        conduct(concluded(end), library, command, steps) == (Step::Finished { end }),
        calls(concluded(end), library, command, steps) == closing(end),
{
    reveal_with_fuel(conduct, 4);
    reveal_with_fuel(calls, 4);
    assert(calls(concluded(end), library, command, steps) =~= closing(end));
}

/// One call of a faithful driver, taken off the front of what is left.
proof fn lemma_step(step: Step, library: Library, command: Command, steps: nat)
    requires
        steps >= 1,
        !(step is Finished),
    ensures
        conduct(step, library, command, steps) == conduct(
            onward(step, library, command),
            library,
            command,
            (steps - 1) as nat,
        ),
        calls(step, library, command, steps) == seq![call_of(step)] + calls(
            onward(step, library, command),
            library,
            command,
            (steps - 1) as nat,
        ),
{
}

/// What is left of a session once the axes are counted and a reading is due:
/// the course of the buffer exchange, the closing calls, and then the end.
proof fn lemma_reading(library: Library, command: Command, steps: nat)
    requires
        buffers_match_axes(library),
        steps >= 6,
    ensures
        ({
            let count = axis_count_of(library.axes);
            let verdict = owed(count, library.read);
            let first = reading(start(count));
            &&& conduct(first, library, command, steps) == (Step::Finished {
                end: end_of_reading(verdict),
            })
            &&& calls(first, library, command, steps) == course(count, verdict).map_values(
                |request: Request| Call::Buffers(request),
            ) + closing(end_of_reading(verdict))
        }),
{
    let count = axis_count_of(library.axes);
    let verdict = owed(count, library.read);
    let end = end_of_reading(verdict);
    let first = reading(start(count));
    let planned = course(count, verdict).map_values(|request: Request| Call::Buffers(request));
    if count != 0 && !fits(count) {
        lemma_closing(end, library, command, steps);
        assert(planned + closing(end) =~= closing(end));
    } else if count == 0 {
        let second = onward(first, library, command);
        lemma_step(first, library, command, steps);
        lemma_closing(end, library, command, (steps - 1) as nat);
        assert(second == concluded(end));
        assert(calls(first, library, command, steps) =~= planned + closing(end));
    } else {
        let second = onward(first, library, command);
        let third = onward(second, library, command);
        let fourth = onward(third, library, command);
        lemma_step(first, library, command, steps);
        lemma_step(second, library, command, (steps - 1) as nat);
        lemma_step(third, library, command, (steps - 2) as nat);
        if verdict is Ok {
            let fifth = onward(fourth, library, command);
            lemma_step(fourth, library, command, (steps - 3) as nat);
            lemma_closing(end, library, command, (steps - 4) as nat);
            assert(fifth == concluded(end));
            assert(calls(first, library, command, steps) =~= planned + closing(end));
        } else {
            lemma_closing(end, library, command, (steps - 3) as nat);
            assert(fourth == concluded(end));
            assert(calls(first, library, command, steps) =~= planned + closing(end));
        }
    }
}

/// A whole session, from initialisation on.
proof fn lemma_session(library: Library, command: Command, steps: nat)
    requires
        command is Position ==> buffers_match_axes(library),
        steps >= 9,
    ensures
        conduct(Step::Initializing, library, command, steps) == (Step::Finished {
            end: owed_end(library, command),
        }),
        calls(Step::Initializing, library, command, steps) == script(library, command),
{
    let end = owed_end(library, command);
    let whole = calls(Step::Initializing, library, command, steps);
    lemma_step(Step::Initializing, library, command, steps);
    if library.initialized != 0 {
        lemma_closing(end, library, command, (steps - 1) as nat);
        assert(whole =~= script(library, command));
    } else {
        let parsing = onward(Step::Initializing, library, command);
        let working = onward(parsing, library, command);
        let worked = onward(working, library, command);
        lemma_step(parsing, library, command, (steps - 1) as nat);
        lemma_step(working, library, command, (steps - 2) as nat);
        if command is Position {
            lemma_reading(library, command, (steps - 3) as nat);
            assert(worked == reading(start(axis_count_of(library.axes))));
        } else {
            lemma_closing(end, library, command, (steps - 3) as nat);
            assert(worked == concluded(end));
        }
        assert(whole =~= script(library, command));
    }
}

/// With a faithful driver every session is over after nine calls at most,
/// with the end that is owed on what the library returned.
pub proof fn law_session_ends_as_owed(library: Library, command: Command, steps: nat)
    requires
        command is Position ==> buffers_match_axes(library),
        steps >= 9,
    ensures
        conduct(Step::Initializing, library, command, steps) == (Step::Finished {
            end: owed_end(library, command),
        }),
{
    lemma_session(library, command, steps);
}

/// With a faithful driver the calls made are exactly the session's script:
/// each command makes its one call into the library, with the arguments it
/// was given; a reading counts the axes and then runs the buffer exchange;
/// an output is shown; the library is unloaded; and nothing is called twice.
pub proof fn law_session_follows_script(library: Library, command: Command, steps: nat)
    requires
        command is Position ==> buffers_match_axes(library),
        steps >= 9,
    ensures
        calls(Step::Initializing, library, command, steps) == script(library, command),
{
    lemma_session(library, command, steps);
}

/// With a faithful driver the library is unloaded exactly once, by the last
/// call of the session, on every path: after the output was shown, or right
/// after the failure.
pub proof fn law_library_is_unloaded_last(library: Library, command: Command, steps: nat)
    requires
        command is Position ==> buffers_match_axes(library),
        steps >= 9,
    ensures
        ({
            let made = calls(Step::Initializing, library, command, steps);
            &&& made.len() >= 2
            &&& made.last() == Call::Unload
            &&& forall|i: int| 0 <= i < made.len() - 1 ==> made[i] != Call::Unload
            &&& owed_end(library, command) is Ok ==> made[made.len() - 2] == Call::Show
        }),
{
    law_session_follows_script(library, command, steps);
}

/// Where initialising fails, the work ends there: no call but the unloading
/// of the library follows, the failure carries the code that was returned,
/// and the diagnostic ends with that code in decimal.
pub proof fn law_failed_initialization_is_fatal(library: Library, command: Command, steps: nat)
    requires
        library.initialized != 0,
        steps >= 2,
    ensures
        conduct(Step::Initializing, library, command, steps) == (Step::Finished {
            end: Err(Failure::Initialize(library.initialized)),
        }),
        calls(Step::Initializing, library, command, steps) == seq![
            Call::Initialize,
            Call::Unload,
        ],
        diagnostic(Failure::Initialize(library.initialized))
            == "Error while initializing. Return Code: "@ + integer_text(
            library.initialized as int,
        ),
{
    reveal_with_fuel(conduct, 4);
    reveal_with_fuel(calls, 4);
    assert(calls(Step::Initializing, library, command, steps) =~= seq![
        Call::Initialize,
        Call::Unload,
    ]);
}

/// The code of a failed call reaches the end of the session unchanged, for
/// every command that can fail.
pub proof fn law_failure_codes_pass_through(library: Library, command: Command, steps: nat)
    requires
        command is Position ==> buffers_match_axes(library),
        library.initialized == 0,
        steps >= 9,
    ensures
        ({
            let last = conduct(Step::Initializing, library, command, steps);
            let count = axis_count_of(library.axes);
            &&& command is Move && library.moved != 0 ==> last == (Step::Finished {
                end: Err(Failure::Operation(library.moved)),
            })
            &&& command is MoveSpeed && library.moved_at_speed != 0 ==> last == (Step::Finished {
                end: Err(Failure::Operation(library.moved_at_speed)),
            })
            &&& command is Stop && library.stopped != 0 ==> last == (Step::Finished {
                end: Err(Failure::Stop(library.stopped)),
            })
            &&& command is Position && library.read.code != 0 && (count == 0 || fits(count))
                ==> last == (Step::Finished { end: Err(Failure::Operation(library.read.code)) })
        }),
{
    law_session_ends_as_owed(library, command, steps);
}

/// A status is passed on as it came: whatever integer the library reports is
/// the one that is shown, in the documented range or out of it.
pub proof fn law_status_is_passed_on(library: Library, steps: nat)
    requires
        library.initialized == 0,
        steps >= 9,
    ensures
        conduct(Step::Initializing, library, Command::Status, steps) == (Step::Finished {
            end: Ok(OutputView::Status(library.status)),
        }),
{
    law_session_ends_as_owed(library, Command::Status, steps);
}

} // verus!
