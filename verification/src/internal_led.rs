//! The status indicator: one LED that free-runs a program on a background
//! unit until a newer program supersedes it.
//!
//! Two halves share nothing but a command channel. The controller half,
//! `InternalLed`, stays with the constructing context and decides what goes
//! into the channel. The worker half, `LedWorker`, moves to the background
//! unit and decides what happens to the line. Neither half blocks, sleeps or
//! writes a line: each names the next action, and the firmware performs it.

use crate::signal::{Level, Outcome};
use std::time::Duration;
use vstd::prelude::*;

verus! {

/// Longest wait for a new program at a cycle boundary, in milliseconds.
pub const POLL_INTERVAL_MS: u64 = 10;

/// Time that a stable level is held before the next poll, in milliseconds.
pub const STABLE_HOLD_MS: u64 = 100;

/// What the second half of a blink is shortened by, so that polling is never
/// starved, in milliseconds.
pub const BLINK_SLACK_MS: u64 = 10;

/// Nanoseconds in a millisecond.
pub const NANOS_PER_MILLI: u64 = 1_000_000;

/// The length of a time span in nanoseconds: what `Duration::as_nanos`
/// returns for it.
pub uninterp spec fn span_nanos(span: Duration) -> nat;

/// `Duration::from_millis` makes the span of that many milliseconds.
pub assume_specification[ Duration::from_millis ](millis: u64) -> (span: Duration)
    ensures
        span_nanos(span) == millis * NANOS_PER_MILLI,
;

/// `Duration::checked_sub` gives the difference of two spans, and `None`
/// where it would be negative.
pub assume_specification[ Duration::checked_sub ](span: Duration, rhs: Duration) -> (rest:
    Option<Duration>)
    ensures
        span_nanos(span) < span_nanos(rhs) ==> rest is None,
        span_nanos(span) >= span_nanos(rhs) ==> rest is Some && span_nanos(rest.unwrap())
            == span_nanos(span) - span_nanos(rhs),
;

/// What the indicator is meant to do until told otherwise.
#[derive(Clone, Copy, Debug, PartialEq, Eq)]
pub enum LedProgram {
    /// Hold the line at a level.
    Stable(Level),
    /// Alternate low and high, each for about the given period.
    Blink(Duration),
    /// Stop the background unit.
    Shutdown,
}

/// A program with its period in nanoseconds.
pub ghost enum ProgramModel {
    Stable(Level),
    Blink(nat),
    Shutdown,
}

impl View for LedProgram {
    type V = ProgramModel;

    open spec fn view(&self) -> ProgramModel {
        match self {
            LedProgram::Stable(level) => ProgramModel::Stable(*level),
            LedProgram::Blink(period) => ProgramModel::Blink(span_nanos(*period)),
            LedProgram::Shutdown => ProgramModel::Shutdown,
        }
    }
}

/// What the background unit is asked to do next.
#[derive(Clone, Copy, Debug, PartialEq, Eq)]
pub enum LedAction {
    /// Wait up to the given span for commands, and take all that are there.
    Poll(Duration),
    /// Drive the line to a level.
    SetLine(Level),
    /// Sleep for the given span.
    Sleep(Duration),
    /// Leave the loop and end the unit.
    Exit,
}

/// An action with its span in nanoseconds.
pub ghost enum ActionModel {
    Poll(nat),
    SetLine(Level),
    Sleep(nat),
    Exit,
}

impl View for LedAction {
    type V = ActionModel;

    open spec fn view(&self) -> ActionModel {
        match self {
            LedAction::Poll(span) => ActionModel::Poll(span_nanos(*span)),
            LedAction::SetLine(level) => ActionModel::SetLine(*level),
            LedAction::Sleep(span) => ActionModel::Sleep(span_nanos(*span)),
            LedAction::Exit => ActionModel::Exit,
        }
    }
}

/// What the background unit reports back.
#[derive(Debug, PartialEq, Eq)]
pub enum LedEvent {
    /// The unit has been spawned.
    Started,
    /// A poll has ended with these commands, oldest first; none if the wait
    /// ran out.
    Polled(Vec<LedProgram>),
    /// A line write has ended.
    LineWritten(Outcome),
    /// A sleep has ended.
    Slept,
}

/// An event with its programs as mathematics.
pub ghost enum EventModel {
    Started,
    Polled(Seq<ProgramModel>),
    LineWritten(Outcome),
    Slept,
}

impl View for LedEvent {
    type V = EventModel;

    open spec fn view(&self) -> EventModel {
        match self {
            LedEvent::Started => EventModel::Started,
            LedEvent::Polled(pending) => EventModel::Polled(
                Seq::new(pending@.len(), |i: int| pending@[i]@),
            ),
            LedEvent::LineWritten(outcome) => EventModel::LineWritten(*outcome),
            LedEvent::Slept => EventModel::Slept,
        }
    }
}

/// The two halves of a cycle. A stable program has only the first.
#[derive(Clone, Copy, Debug, PartialEq, Eq, Structural)]
pub enum Half {
    First,
    Second,
}

/// Why the background unit has ended.
#[derive(Clone, Copy, Debug, PartialEq, Eq, Structural)]
pub enum StopReason {
    /// The program told it to.
    Shutdown,
    /// A line write failed.
    LineFault,
    /// The blink period is shorter than the slack that its second half is
    /// shortened by.
    PeriodTooShort,
    /// An event arrived that does not answer the outstanding action.
    OutOfTurn,
}

/// Where the background unit is in its loop: which action is outstanding.
#[derive(Clone, Copy, Debug, PartialEq, Eq, Structural)]
pub enum WorkerPhase {
    /// Not started yet.
    Idle,
    /// A poll is outstanding: the unit is at a cycle boundary.
    Polling,
    /// A line write is outstanding.
    Driving(Half),
    /// A sleep is outstanding.
    Holding(Half),
    /// The unit has ended.
    Stopped(StopReason),
}

/// The worker half as mathematics.
pub ghost struct WorkerModel {
    pub program: ProgramModel,
    pub phase: WorkerPhase,
}

/// The program that a poll leaves in force: the newest command, or the
/// program as it was where no command came. Older commands of the same poll
/// are dropped unseen.
pub open spec fn adopt(current: ProgramModel, pending: Seq<ProgramModel>) -> ProgramModel {
    if pending.len() == 0 {
        current
    } else {
        pending.last()
    }
}

/// The span of a poll, in nanoseconds.
pub open spec fn poll_nanos() -> nat {
    (POLL_INTERVAL_MS * NANOS_PER_MILLI) as nat
}

/// The span that a stable level is held for, in nanoseconds.
pub open spec fn stable_hold_nanos() -> nat {
    (STABLE_HOLD_MS * NANOS_PER_MILLI) as nat
}

/// The slack of a blink's second half, in nanoseconds.
pub open spec fn blink_slack_nanos() -> nat {
    (BLINK_SLACK_MS * NANOS_PER_MILLI) as nat
}

impl WorkerModel {
    /// The worker as constructed: the line is to be held high.
    pub open spec fn initial() -> WorkerModel {
        WorkerModel { program: ProgramModel::Stable(Level::High), phase: WorkerPhase::Idle }
    }

    /// The worker ended for a reason.
    pub open spec fn stop(self, reason: StopReason) -> (WorkerModel, ActionModel) {
        (WorkerModel { phase: WorkerPhase::Stopped(reason), ..self }, ActionModel::Exit)
    }

    /// The worker with another action outstanding.
    pub open spec fn go(self, phase: WorkerPhase, action: ActionModel) -> (
        WorkerModel,
        ActionModel,
    ) {
        (WorkerModel { phase, ..self }, action)
    }

    /// The start of a cycle under the program in force.
    pub open spec fn enter_cycle(self) -> (WorkerModel, ActionModel) {
        match self.program {
            ProgramModel::Stable(level) => self.go(
                WorkerPhase::Driving(Half::First),
                ActionModel::SetLine(level),
            ),
            ProgramModel::Blink(_) => self.go(
                WorkerPhase::Driving(Half::First),
                ActionModel::SetLine(Level::Low),
            ),
            ProgramModel::Shutdown => self.stop(StopReason::Shutdown),
        }
    }

    /// What follows a line write that went through.
    pub open spec fn after_write(self, half: Half) -> (WorkerModel, ActionModel) {
        match self.program {
            ProgramModel::Stable(_) => self.go(
                WorkerPhase::Holding(Half::First),
                ActionModel::Sleep(stable_hold_nanos()),
            ),
            ProgramModel::Blink(period) => match half {
                Half::First => self.go(WorkerPhase::Holding(Half::First), ActionModel::Sleep(period)),
                Half::Second => if period >= blink_slack_nanos() {
                    self.go(
                        WorkerPhase::Holding(Half::Second),
                        ActionModel::Sleep((period - blink_slack_nanos()) as nat),
                    )
                } else {
                    self.stop(StopReason::PeriodTooShort)
                },
            },
            ProgramModel::Shutdown => self.stop(StopReason::OutOfTurn),
        }
    }

    /// What follows a sleep.
    pub open spec fn after_sleep(self, half: Half) -> (WorkerModel, ActionModel) {
        match (self.program, half) {
            (ProgramModel::Blink(_), Half::First) => self.go(
                WorkerPhase::Driving(Half::Second),
                ActionModel::SetLine(Level::High),
            ),
            _ => self.go(WorkerPhase::Polling, ActionModel::Poll(poll_nanos())),
        }
    }

    /// The worker's one rule: from the phase it is in and the event that
    /// arrived to the phase it goes to and the action it asks for.
    ///
    /// A poll puts the newest command in force and starts a cycle. A stable
    /// program drives its level and holds it. A blink drives low, sleeps its
    /// period, drives high, and sleeps its period less the slack. Shutdown
    /// ends the unit at once. A failed line write ends it too, and so does a
    /// blink period shorter than the slack, once the line is high. A sleep
    /// is never cut short: a command waits for the next cycle boundary.
    pub open spec fn step(self, event: EventModel) -> (WorkerModel, ActionModel) {
        match (self.phase, event) {
            (WorkerPhase::Stopped(_), _) => (self, ActionModel::Exit),
            (WorkerPhase::Idle, EventModel::Started) => self.go(
                WorkerPhase::Polling,
                ActionModel::Poll(poll_nanos()),
            ),
            (WorkerPhase::Polling, EventModel::Polled(pending)) => (WorkerModel {
                program: adopt(self.program, pending),
                ..self
            }).enter_cycle(),
            (WorkerPhase::Driving(_), EventModel::LineWritten(Outcome::Failed)) => self.stop(
                StopReason::LineFault,
            ),
            (WorkerPhase::Driving(half), EventModel::LineWritten(Outcome::Done)) => self.after_write(
                half,
            ),
            (WorkerPhase::Holding(half), EventModel::Slept) => self.after_sleep(half),
            _ => self.stop(StopReason::OutOfTurn),
        }
    }
}

/// The worker half: the program in force and the phase of the loop.
pub struct LedWorker {
    program: LedProgram,
    phase: WorkerPhase,
}

impl View for LedWorker {
    type V = WorkerModel;

    closed spec fn view(&self) -> WorkerModel {
        WorkerModel { program: self.program@, phase: self.phase }
    }
}

impl LedWorker {
    /// The program in force.
    pub fn program(&self) -> (program: LedProgram)
        ensures
            program@ == self@.program,
    {
        self.program
    }

    /// The phase of the loop.
    pub fn phase(&self) -> (phase: WorkerPhase)
        ensures
            phase == self@.phase,
    {
        self.phase
    }

    /// Ends the unit.
    fn stop(&mut self, reason: StopReason) -> (action: LedAction)
        ensures
            (final(self)@, action@) == old(self)@.stop(reason),
    {
        self.phase = WorkerPhase::Stopped(reason);
        LedAction::Exit
    }

    /// Starts a cycle under the program in force.
    fn enter_cycle(&mut self) -> (action: LedAction)
        ensures
            (final(self)@, action@) == old(self)@.enter_cycle(),
    {
        match self.program {
            LedProgram::Stable(level) => {
                self.phase = WorkerPhase::Driving(Half::First);
                LedAction::SetLine(level)
            },
            LedProgram::Blink(_) => {
                self.phase = WorkerPhase::Driving(Half::First);
                LedAction::SetLine(Level::Low)
            },
            LedProgram::Shutdown => self.stop(StopReason::Shutdown),
        }
    }

    /// Goes on after a line write that went through.
    fn after_write(&mut self, half: Half) -> (action: LedAction)
        ensures
            (final(self)@, action@) == old(self)@.after_write(half),
    {
        match self.program {
            LedProgram::Stable(_) => {
                self.phase = WorkerPhase::Holding(Half::First);
                LedAction::Sleep(Duration::from_millis(STABLE_HOLD_MS))
            },
            LedProgram::Blink(period) => match half {
                Half::First => {
                    self.phase = WorkerPhase::Holding(Half::First);
                    LedAction::Sleep(period)
                },
                Half::Second => match period.checked_sub(Duration::from_millis(BLINK_SLACK_MS)) {
                    Some(rest) => {
                        self.phase = WorkerPhase::Holding(Half::Second);
                        LedAction::Sleep(rest)
                    },
                    None => self.stop(StopReason::PeriodTooShort),
                },
            },
            LedProgram::Shutdown => self.stop(StopReason::OutOfTurn),
        }
    }

    /// Goes on after a sleep.
    fn after_sleep(&mut self, half: Half) -> (action: LedAction)
        ensures
            (final(self)@, action@) == old(self)@.after_sleep(half),
    {
        match (self.program, half) {
            (LedProgram::Blink(_), Half::First) => {
                self.phase = WorkerPhase::Driving(Half::Second);
                LedAction::SetLine(Level::High)
            },
            _ => {
                self.phase = WorkerPhase::Polling;
                LedAction::Poll(Duration::from_millis(POLL_INTERVAL_MS))
            },
        }
    }

    /// Takes the event that answers the outstanding action and names the
    /// next action.
    pub fn step(&mut self, event: LedEvent) -> (action: LedAction)
        ensures
            (final(self)@, action@) == old(self)@.step(event@),
    {
        match self.phase {
            WorkerPhase::Stopped(_) => LedAction::Exit,
            WorkerPhase::Idle => match event {
                LedEvent::Started => {
                    self.phase = WorkerPhase::Polling;
                    LedAction::Poll(Duration::from_millis(POLL_INTERVAL_MS))
                },
                _ => self.stop(StopReason::OutOfTurn),
            },
            WorkerPhase::Polling => match event {
                LedEvent::Polled(pending) => {
                    if pending.len() > 0 {
                        self.program = pending[pending.len() - 1];
                    }
                    self.enter_cycle()
                },
                _ => self.stop(StopReason::OutOfTurn),
            },
            WorkerPhase::Driving(half) => match event {
                LedEvent::LineWritten(Outcome::Done) => self.after_write(half),
                LedEvent::LineWritten(Outcome::Failed) => self.stop(StopReason::LineFault),
                _ => self.stop(StopReason::OutOfTurn),
            },
            WorkerPhase::Holding(half) => match event {
                LedEvent::Slept => self.after_sleep(half),
                _ => self.stop(StopReason::OutOfTurn),
            },
        }
    }
}

/// What the controller puts into the command channel, and in which order.
pub ghost struct ControllerModel {
    /// Whether teardown has happened.
    pub closed: bool,
    /// Every command handed out for sending so far, oldest first.
    pub sent: Seq<ProgramModel>,
}

impl ControllerModel {
    /// A new program goes into the channel as it is, unless teardown has
    /// happened: then nothing is sent any more.
    pub open spec fn set_program(self, program: ProgramModel) -> (
        ControllerModel,
        Option<ProgramModel>,
    ) {
        if self.closed {
            (self, None)
        } else {
            (ControllerModel { sent: self.sent.push(program), ..self }, Some(program))
        }
    }

    /// Teardown sends `Shutdown` as the last command ever; the background
    /// unit is then joined. A second teardown does nothing.
    pub open spec fn shutdown(self) -> (ControllerModel, Option<ProgramModel>) {
        if self.closed {
            (self, None)
        } else {
            (
                ControllerModel { closed: true, sent: self.sent.push(ProgramModel::Shutdown) },
                Some(ProgramModel::Shutdown),
            )
        }
    }
}

/// The controller half of the indicator.
pub struct InternalLed {
    closed: bool,
    sent: Ghost<Seq<ProgramModel>>,
}

impl View for InternalLed {
    type V = ControllerModel;

    closed spec fn view(&self) -> ControllerModel {
        ControllerModel { closed: self.closed, sent: self.sent@ }
    }
}

impl InternalLed {
    /// Makes the two halves of an indicator. The worker goes to a background
    /// unit of its own, which owns the line from then on; the controller
    /// keeps the sending side of the channel.
    pub fn new() -> (halves: (InternalLed, LedWorker))
        ensures
            halves.0@ == (ControllerModel { closed: false, sent: Seq::<ProgramModel>::empty() }),
            halves.1@ == WorkerModel::initial(),
    {
        (
            InternalLed { closed: false, sent: Ghost(Seq::empty()) },
            LedWorker { program: LedProgram::Stable(Level::High), phase: WorkerPhase::Idle },
        )
    }

    /// Whether teardown has happened.
    pub fn is_closed(&self) -> (closed: bool)
        ensures
            closed == self@.closed,
    {
        self.closed
    }

    /// Sets a new program. Returns the command to put into the channel; the
    /// caller neither waits for the line nor learns what became of it.
    pub fn set_program(&mut self, program: LedProgram) -> (command: Option<LedProgram>)
        ensures
            final(self)@ == old(self)@.set_program(program@).0,
            match command {
                Some(sent) => old(self)@.set_program(program@).1 == Some(sent@) && sent == program,
                None => old(self)@.set_program(program@).1 is None,
            },
    {
        if self.closed {
            None
        } else {
            self.sent = Ghost(self.sent@.push(program@));
            Some(program)
        }
    }

    /// Teardown. Returns the command to send before the background unit is
    /// joined: `Shutdown`, once. A send that fails because the unit is gone
    /// already is of no consequence, and the join still follows.
    pub fn shutdown(&mut self) -> (command: Option<LedProgram>)
        ensures
            final(self)@ == old(self)@.shutdown().0,
            match command {
                Some(sent) => old(self)@.shutdown().1 == Some(sent@),
                None => old(self)@.shutdown().1 is None,
            },
    {
        if self.closed {
            None
        } else {
            self.closed = true;
            self.sent = Ghost(self.sent@.push(ProgramModel::Shutdown));
            Some(LedProgram::Shutdown)
        }
    }
}

impl WorkerModel {
    /// Whether the worker is at a cycle boundary or has ended: the only
    /// places where a command can take effect, or no longer needs to.
    pub open spec fn at_boundary(self) -> bool {
        self.phase == WorkerPhase::Polling || self.phase is Stopped
    }

    /// How many events at most lie between the worker and its next cycle
    /// boundary.
    pub open spec fn distance(self) -> nat {
        match (self.phase, self.program) {
            (WorkerPhase::Polling, _) => 0,
            (WorkerPhase::Stopped(_), _) => 0,
            (WorkerPhase::Idle, _) => 1,
            (WorkerPhase::Driving(Half::First), ProgramModel::Blink(_)) => 4,
            (WorkerPhase::Holding(Half::First), ProgramModel::Blink(_)) => 3,
            (WorkerPhase::Driving(_), _) => 2,
            (WorkerPhase::Holding(_), _) => 1,
        }
    }
}

/// Latest wins. Of the commands that one poll finds, only the newest takes
/// effect: the program in force afterwards is that command, and what the
/// worker does next is what it would do had that command arrived alone,
/// whatever was in force before. No older command of the poll ever reaches
/// the line.
pub proof fn lemma_latest_wins(worker: WorkerModel, pending: Seq<ProgramModel>, other: ProgramModel)
    requires
        worker.phase == WorkerPhase::Polling,
        pending.len() > 0,
    ensures
        worker.step(EventModel::Polled(pending)).0.program == pending.last(),
        worker.step(EventModel::Polled(pending)) == worker.step(
            EventModel::Polled(seq![pending.last()]),
        ),
        worker.step(EventModel::Polled(pending)) == (WorkerModel { program: other, ..worker }).step(
            EventModel::Polled(pending),
        ),
{
    assert(seq![pending.last()].last() == pending.last());
}

/// A poll that finds nothing leaves the program in force as it was.
pub proof fn lemma_empty_poll_keeps_program(worker: WorkerModel)
    requires
        worker.phase == WorkerPhase::Polling,
    ensures
        worker.step(EventModel::Polled(Seq::empty())).0.program == worker.program,
{
}

/// Teardown of the controller hands out `Shutdown`, and nothing is handed
/// out after it: `Shutdown` is the last command that the channel ever
/// carries. A second teardown hands out nothing.
pub proof fn lemma_teardown_sends_shutdown_last(controller: ControllerModel, later: ProgramModel)
    ensures
        !controller.closed ==> controller.shutdown().1 == Some(ProgramModel::Shutdown),
        !controller.closed ==> controller.shutdown().0.sent.last() == ProgramModel::Shutdown,
        controller.shutdown().0.closed,
        controller.shutdown().0.set_program(later) == (controller.shutdown().0, None::<ProgramModel>),
        controller.shutdown().0.shutdown() == (controller.shutdown().0, None::<ProgramModel>),
{
}

/// A worker whose poll finds `Shutdown` as the newest command ends at once,
/// without touching the line, whatever it was doing before. Being ended is
/// final: no event brings it back.
pub proof fn lemma_shutdown_stops_worker(
    worker: WorkerModel,
    pending: Seq<ProgramModel>,
    event: EventModel,
)
    requires
        worker.phase == WorkerPhase::Polling,
        pending.len() > 0,
        pending.last() == ProgramModel::Shutdown,
    ensures
        worker.step(EventModel::Polled(pending)).1 == ActionModel::Exit,
        worker.step(EventModel::Polled(pending)).0.phase == WorkerPhase::Stopped(
            StopReason::Shutdown,
        ),
        worker.step(EventModel::Polled(pending)).0.step(event) == (
            worker.step(EventModel::Polled(pending)).0,
            ActionModel::Exit,
        ),
{
}

/// The worker is never more than four events away from a cycle boundary, and
/// every event brings it closer: whatever the firmware reports, the next
/// poll, or the end of the unit, comes. A sleep is not cut short on the way,
/// so a long blink period delays the poll by up to two periods.
pub proof fn lemma_worker_reaches_boundary(worker: WorkerModel, event: EventModel)
    ensures
        worker.distance() <= 4,
        worker.at_boundary() <==> worker.distance() == 0,
        !worker.at_boundary() ==> worker.step(event).0.distance() < worker.distance(),
        !worker.at_boundary() ==> worker.step(event).0.program == worker.program,
{
}

/// A failed line write ends the worker, in whichever half of whichever
/// program it happens.
pub proof fn lemma_line_fault_is_fatal(worker: WorkerModel, half: Half)
    requires
        worker.phase == WorkerPhase::Driving(half),
    ensures
        worker.step(EventModel::LineWritten(Outcome::Failed)) == worker.stop(StopReason::LineFault),
{
}

} // verus!
