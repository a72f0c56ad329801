//! One run of the program: initialise the library, take one command, make
//! the calls it stands for, show what they gave, unload the library, and end.
//!
//! The calls into the controller's library, the command line and the
//! standard output belong to a driver outside this crate, which has loaded
//! the library before the session starts. A [`Session`] tells the driver
//! which [`Call`] to make next and takes what came back as an [`Event`].
//! Nothing is tried twice and nothing is recovered: the first failure ends
//! the work, and nothing but unloading the library follows it.

use vstd::prelude::*;
use crate::command::Command;
use crate::exchange::{Exchange, Reply, ReplyView, Request, Stage, next, request_of, start};
use crate::outcome::{axis_count, axis_count_of, interpret, outcome_of};
use crate::sample::{Binary64, ReadError, Sample, SampleView, Verdict};

verus! {

/// What the driver is asked to do next.
#[derive(Clone, Copy, Debug, PartialEq, Eq, Structural)]
pub enum Call {
    /// Initialise the library; answer with the code it returned.
    Initialize,
    /// Read the command line; answer with the command.
    Parse,
    /// Move `axis` to `position`; answer with the code returned.
    MoveToAxis { axis: i32, position: Binary64 },
    /// Move `axis` to `position` at `speed`; answer with the code returned.
    MoveToAxisVelocity { axis: i32, position: Binary64, speed: Binary64 },
    /// Ask for the number of axes; answer with the number returned.
    CountAxes,
    /// Serve this request of the buffer exchange; answer with its reply.
    Buffers(Request),
    /// Ask for the status; answer with the number returned.
    ReadStatus,
    /// Stop the manipulator; answer with the code returned.
    Stop,
    /// Write what [`Session::output`] holds to standard output; answer
    /// [`Event::Shown`].
    Show,
    /// Unload the library, which releases all its entry points; answer
    /// [`Event::Unloaded`]. No call into the library follows.
    Unload,
    /// Nothing is left to do: take the end of the session, and leave with the
    /// diagnostic of its failure if it has one.
    Finish,
}

/// What the driver hands back after a call.
#[derive(Clone, Debug, PartialEq, Eq)]
pub enum Event {
    /// The integer that a call into the library returned.
    Returned(i32),
    /// The command that the command line held.
    Parsed(Command),
    /// The reply to a request of the buffer exchange.
    Buffers(Reply),
    /// The output was written.
    Shown,
    /// The library was unloaded.
    Unloaded,
}

/// The mathematical content of an [`Event`].
pub enum EventView {
    Returned(i32),
    Parsed(Command),
    Buffers(ReplyView),
    Shown,
    Unloaded,
}

impl View for Event {
    type V = EventView;

    open spec fn view(&self) -> EventView {
        match *self {
            Event::Returned(code) => EventView::Returned(code),
            Event::Parsed(command) => EventView::Parsed(command),
            Event::Buffers(reply) => EventView::Buffers(reply@),
            Event::Shown => EventView::Shown,
            Event::Unloaded => EventView::Unloaded,
        }
    }
}

/// What a session that went well leaves to be shown.
#[derive(Clone, Debug, PartialEq, Eq)]
pub enum Output {
    /// The command was carried out and shows nothing.
    Nothing,
    /// The number of axes.
    AxisCount(usize),
    /// The status as the library gave it, in or out of the range it documents.
    Status(i32),
    /// The position and the speed of every axis.
    Reading(Sample),
}

/// The mathematical content of an [`Output`].
pub enum OutputView {
    Nothing,
    AxisCount(usize),
    Status(i32),
    Reading(SampleView),
}

impl View for Output {
    type V = OutputView;

    open spec fn view(&self) -> OutputView {
        match *self {
            Output::Nothing => OutputView::Nothing,
            Output::AxisCount(count) => OutputView::AxisCount(count),
            Output::Status(code) => OutputView::Status(code),
            Output::Reading(sample) => OutputView::Reading(sample@),
        }
    }
}

/// Why a session ended without doing what was asked. A code is the integer
/// that the library returned, unchanged.
#[derive(Clone, Copy, Debug, PartialEq, Eq, Structural)]
pub enum Failure {
    /// Initialising the library returned this code.
    Initialize(i32),
    /// A move or a read returned this code.
    Operation(i32),
    /// Stopping the manipulator returned this code.
    Stop(i32),
    /// The read call returned zero although a buffer it was given is null.
    NullBuffer,
    /// The library reports more axes than a buffer can be described for.
    Oversized,
}

/// How a session ends, over the content of what is shown.
pub type End = Result<OutputView, Failure>;

/// The end that stands for a session's result.
pub open spec fn end_of(result: Result<Output, Failure>) -> End {
    match result {
        Ok(output) => Ok(output@),
        Err(failure) => Err(failure),
    }
}

/// Where a session stands.
pub enum Step {
    /// The library is to be initialised.
    Initializing,
    /// The command line is to be read.
    Parsing,
    /// The move is to be made.
    Moving { axis: i32, position: Binary64 },
    /// The move at a speed is to be made.
    MovingAtSpeed { axis: i32, position: Binary64, speed: Binary64 },
    /// The axes are to be counted; with `read`, a reading follows.
    Counting { read: bool },
    /// The buffer exchange is under way.
    Reading { exchange: Stage },
    /// The status is to be asked for.
    AskingStatus,
    /// The manipulator is to be stopped.
    Stopping,
    /// The command went well, and what it gave is to be shown.
    Showing { output: OutputView },
    /// The work is over, and the library is to be unloaded.
    Unloading { end: End },
    /// The session is over, and the library is gone.
    Finished { end: End },
}

/// The call that a step holds out to the driver.
pub open spec fn call_of(step: Step) -> Call {
    match step {
        Step::Initializing => Call::Initialize,
        Step::Parsing => Call::Parse,
        Step::Moving { axis, position } => Call::MoveToAxis { axis, position },
        Step::MovingAtSpeed { axis, position, speed } => Call::MoveToAxisVelocity {
            axis,
            position,
            speed,
        },
        Step::Counting { .. } => Call::CountAxes,
        Step::Reading { exchange } => Call::Buffers(request_of(exchange)),
        Step::AskingStatus => Call::ReadStatus,
        Step::Stopping => Call::Stop,
        Step::Showing { .. } => Call::Show,
        Step::Unloading { .. } => Call::Unload,
        Step::Finished { .. } => Call::Finish,
    }
}

/// The step that follows the last call of a command, which ended with `end`:
/// an output is shown first, and after a failure only unloading is left.
pub open spec fn concluded(end: End) -> Step {
    match end {
        Ok(output) => Step::Showing { output },
        Err(failure) => Step::Unloading { end: Err(failure) },
    }
}

/// The step at which a command's work begins.
pub open spec fn chosen(command: Command) -> Step {
    match command {
        Command::Move { axis, position } => Step::Moving { axis, position },
        Command::MoveSpeed { axis, position, speed } => Step::MovingAtSpeed {
            axis,
            position,
            speed,
        },
        Command::Position => Step::Counting { read: true },
        Command::NumAxes => Step::Counting { read: false },
        Command::Status => Step::AskingStatus,
        Command::Stop => Step::Stopping,
    }
}

/// The end of a session whose buffer exchange ended with `verdict`.
pub open spec fn end_of_reading(verdict: Verdict) -> End {
    match verdict {
        Ok(sample) => Ok(OutputView::Reading(sample)),
        Err(ReadError::Failed(code)) => Err(Failure::Operation(code)),
        Err(ReadError::NullBuffer) => Err(Failure::NullBuffer),
        Err(ReadError::Oversized) => Err(Failure::Oversized),
    }
}

/// The step that stands for a buffer exchange at `stage`: the command's
/// work is over as soon as the exchange is.
pub open spec fn reading(stage: Stage) -> Step {
    match stage {
        Stage::Finished { verdict } => concluded(end_of_reading(verdict)),
        _ => Step::Reading { exchange: stage },
    }
}

/// The end of a command that shows nothing, on the code its call returned.
pub open spec fn silent_end(code: i32) -> End {
    match outcome_of(code) {
        Ok(_) => Ok(OutputView::Nothing),
        Err(code) => Err(Failure::Operation(code)),
    }
}

/// The end of a stop, on the code its call returned.
pub open spec fn stop_end(code: i32) -> End {
    match outcome_of(code) {
        Ok(_) => Ok(OutputView::Nothing),
        Err(code) => Err(Failure::Stop(code)),
    }
}

/// The step that follows `step` on `event`. An event that does not answer
/// the step's call changes nothing.
pub open spec fn after(step: Step, event: EventView) -> Step {
    match (step, event) {
        (Step::Initializing, EventView::Returned(code)) => match outcome_of(code) {
            Ok(_) => Step::Parsing,
            Err(code) => concluded(Err(Failure::Initialize(code))),
        },
        (Step::Parsing, EventView::Parsed(command)) => chosen(command),
        (Step::Moving { .. }, EventView::Returned(code)) => concluded(silent_end(code)),
        (Step::MovingAtSpeed { .. }, EventView::Returned(code)) => concluded(silent_end(code)),
        (Step::Counting { read }, EventView::Returned(raw)) => if read {
            reading(start(axis_count_of(raw)))
        } else {
            concluded(Ok(OutputView::AxisCount(axis_count_of(raw))))
        },
        (Step::Reading { exchange }, EventView::Buffers(reply)) => reading(next(exchange, reply)),
        (Step::AskingStatus, EventView::Returned(code)) => concluded(
            Ok(OutputView::Status(code)),
        ),
        (Step::Stopping, EventView::Returned(code)) => concluded(stop_end(code)),
        (Step::Showing { output }, EventView::Shown) => Step::Unloading { end: Ok(output) },
        (Step::Unloading { end }, EventView::Unloaded) => Step::Finished { end },
        _ => step,
    }
}

enum Standing {
    Initializing,
    Parsing,
    Moving { axis: i32, position: Binary64 },
    MovingAtSpeed { axis: i32, position: Binary64, speed: Binary64 },
    Counting { read: bool },
    Reading { exchange: Exchange },
    AskingStatus,
    Stopping,
    Showing { output: Output },
    Unloading { result: Result<Output, Failure> },
    Finished { result: Result<Output, Failure> },
}

/// The step that a standing stands for.
spec fn step_of(standing: Standing) -> Step {
    match standing {
        Standing::Initializing => Step::Initializing,
        Standing::Parsing => Step::Parsing,
        Standing::Moving { axis, position } => Step::Moving { axis, position },
        Standing::MovingAtSpeed { axis, position, speed } => Step::MovingAtSpeed {
            axis,
            position,
            speed,
        },
        Standing::Counting { read } => Step::Counting { read },
        Standing::Reading { exchange } => Step::Reading { exchange: exchange@ },
        Standing::AskingStatus => Step::AskingStatus,
        Standing::Stopping => Step::Stopping,
        Standing::Showing { output } => Step::Showing { output: output@ },
        Standing::Unloading { result } => Step::Unloading { end: end_of(result) },
        Standing::Finished { result } => Step::Finished { end: end_of(result) },
    }
}

/// One run of the program, from initialisation to its end.
pub struct Session {
    standing: Standing,
}

impl View for Session {
    type V = Step;

    closed spec fn view(&self) -> Step {
        step_of(self.standing)
    }
}

/// Where the session stands once a command's work has ended with `result`.
fn conclude(result: Result<Output, Failure>) -> (standing: Standing)
    ensures
        step_of(standing) == concluded(end_of(result)),
{
    match result {
        Ok(output) => Standing::Showing { output },
        Err(failure) => Standing::Unloading { result: Err(failure) },
    }
}

/// Where the session stands with an exchange that has just started or moved on.
fn settle(exchange: Exchange) -> (standing: Standing)
    ensures
        step_of(standing) == reading(exchange@),
{
    if exchange.is_finished() {
        let result = match exchange.finish().unwrap() {
            Ok(sample) => Ok(Output::Reading(sample)),
            Err(ReadError::Failed(code)) => Err(Failure::Operation(code)),
            Err(ReadError::NullBuffer) => Err(Failure::NullBuffer),
            Err(ReadError::Oversized) => Err(Failure::Oversized),
        };
        conclude(result)
    } else {
        Standing::Reading { exchange }
    }
}

/// The result of a command that shows nothing, on the code its call returned.
fn silent(code: i32) -> (result: Result<Output, Failure>)
    ensures
        end_of(result) == silent_end(code),
{
    match interpret(code) {
        Ok(_) => Ok(Output::Nothing),
        Err(code) => Err(Failure::Operation(code)),
    }
}

impl Session {
    /// Starts a session on a library that has been loaded: it is to be
    /// initialised first.
    pub fn new() -> (session: Session)
        ensures
            session@ == Step::Initializing,
    {
        Session { standing: Standing::Initializing }
    }

    /// What the driver is to do now.
    pub fn call(&self) -> (call: Call)
        ensures
            call == call_of(self@),
    {
        match &self.standing {
            Standing::Initializing => Call::Initialize,
            Standing::Parsing => Call::Parse,
            Standing::Moving { axis, position } => Call::MoveToAxis {
                axis: *axis,
                position: *position,
            },
            Standing::MovingAtSpeed { axis, position, speed } => Call::MoveToAxisVelocity {
                axis: *axis,
                position: *position,
                speed: *speed,
            },
            Standing::Counting { .. } => Call::CountAxes,
            Standing::Reading { exchange } => Call::Buffers(exchange.request()),
            Standing::AskingStatus => Call::ReadStatus,
            Standing::Stopping => Call::Stop,
            Standing::Showing { .. } => Call::Show,
            Standing::Unloading { .. } => Call::Unload,
            Standing::Finished { .. } => Call::Finish,
        }
    }

    /// What is to be shown now; `None` unless the session asks for it.
    pub fn output(&self) -> (output: Option<&Output>)
        ensures
            match self@ {
                Step::Showing { output: wanted } => output is Some && output->0@ == wanted,
                _ => output is None,
            },
    {
        match &self.standing {
            Standing::Showing { output } => Some(output),
            _ => None,
        }
    }

    /// Whether the session is over.
    pub fn is_finished(&self) -> (finished: bool)
        ensures
            finished == (self@ is Finished),
    {
        match &self.standing {
            Standing::Finished { .. } => true,
            _ => false,
        }
    }

    /// Takes what the driver hands back and moves on.
    pub fn advance(self, event: Event) -> (session: Session)
        ensures
            session@ == after(self@, event@),
    {
        let standing = match (self.standing, event) {
            (Standing::Initializing, Event::Returned(code)) => match interpret(code) {
                Ok(_) => Standing::Parsing,
                Err(code) => conclude(Err(Failure::Initialize(code))),
            },
            (Standing::Parsing, Event::Parsed(command)) => match command {
                Command::Move { axis, position } => Standing::Moving { axis, position },
                Command::MoveSpeed { axis, position, speed } => Standing::MovingAtSpeed {
                    axis,
                    position,
                    speed,
                },
                Command::Position => Standing::Counting { read: true },
                Command::NumAxes => Standing::Counting { read: false },
                Command::Status => Standing::AskingStatus,
                Command::Stop => Standing::Stopping,
            },
            (Standing::Moving { .. }, Event::Returned(code)) => conclude(silent(code)),
            (Standing::MovingAtSpeed { .. }, Event::Returned(code)) => conclude(silent(code)),
            (Standing::Counting { read }, Event::Returned(raw)) => {
                let count = axis_count(raw);
                if read {
                    settle(Exchange::new(count))
                } else {
                    conclude(Ok(Output::AxisCount(count)))
                }
            },
            (Standing::Reading { exchange }, Event::Buffers(reply)) => settle(
                exchange.advance(reply),
            ),
            (Standing::AskingStatus, Event::Returned(code)) => conclude(Ok(Output::Status(code))),
            (Standing::Stopping, Event::Returned(code)) => match interpret(code) {
                Ok(_) => conclude(Ok(Output::Nothing)),
                Err(code) => conclude(Err(Failure::Stop(code))),
            },
            (Standing::Showing { output }, Event::Shown) => Standing::Unloading {
                result: Ok(output),
            },
            (Standing::Unloading { result }, Event::Unloaded) => Standing::Finished { result },
            (standing, _) => standing,
        };
        Session { standing }
    }

    /// The result of a finished session; `None` while work is left.
    pub fn finish(self) -> (result: Option<Result<Output, Failure>>)
        ensures
            match self@ {
                Step::Finished { end } => result is Some && end_of(result->0) == end,
                _ => result is None,
            },
    {
        match self.standing {
            Standing::Finished { result } => Some(result),
            _ => None,
        }
    }
}

} // verus!
