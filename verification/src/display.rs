//! The panel driver: power-up, reset, bus set-up, handshake, frame transfer
//! and sleep of the e-paper panel, as a machine that decides and leaves the
//! doing to its caller.
//!
//! The driver never touches the bus or a control line. It names the next
//! action; the firmware performs it and reports the outcome; the driver
//! moves on. Construction is a fixed script of such actions, after which a
//! `Display` exists and alternates between `Ready` and `Updating` until it
//! is put to sleep.

use crate::frame::{solid, Color, FrameBuffer, FRAME_BYTES};
use crate::layouts::Layout;
use crate::signal::{Level, Outcome};
use vstd::prelude::*;

verus! {

/// Settle time of the power rail after power-enable goes high.
pub const POWER_SETTLE_MS: u32 = 100;

/// Time that reset is held low.
pub const RESET_PULSE_MS: u32 = 200;

/// Recovery time after reset goes high again.
pub const RESET_RECOVERY_MS: u32 = 200;

/// Settle time after the first frame has been presented.
pub const READY_SETTLE_MS: u32 = 100;

/// Clock rate of the serial bus.
pub const BUS_CLOCK_HZ: u32 = 4_000_000;

/// Clock polarity and phase mode of the serial bus.
pub const BUS_MODE: u8 = 0;

/// Number of actions in the bring-up script.
pub const BRING_UP_STEPS: usize = 14;

/// Where the panel is in its life.
#[derive(Clone, Copy, Debug, PartialEq, Eq, Structural)]
pub enum PanelState {
    Uninitialized,
    PoweredAndReset,
    BusInitialized,
    Ready,
    Updating,
    Asleep,
}

/// The four roles of the panel's control lines.
#[derive(Clone, Copy, Debug, PartialEq, Eq, Structural)]
pub enum ControlLine {
    PowerEnable,
    Reset,
    DataCommand,
    BusySense,
}

/// What the firmware is asked to do on the driver's behalf.
#[derive(Clone, Copy, Debug, PartialEq, Eq, Structural)]
pub enum PanelAction {
    /// Take exclusive hold of a control line.
    ClaimLine(ControlLine),
    /// Drive an output line to a level.
    SetLine(ControlLine, Level),
    /// Let the given number of milliseconds pass.
    Wait(u32),
    /// Set the bus device up with a clock rate in hertz and a mode number.
    ConfigureBus(u32, u8),
    /// Run the panel's own start-up exchange until busy-sense clears.
    Handshake,
    /// Transfer the whole frame and issue the refresh command.
    Present,
    /// Issue the panel's sleep command.
    Sleep,
}

/// Why the driver refused or could not complete an operation.
#[derive(Clone, Copy, Debug, PartialEq, Eq, Structural)]
pub enum PanelError {
    /// The named bring-up action failed; no driver was constructed.
    BringUp(PanelAction),
    /// The operation needs a state that the driver is not in.
    NotReady,
    /// The frame transfer or the panel's acknowledgement failed.
    Transfer,
}

/// The colour that the frame is cleared to before its first transfer.
pub open spec fn base_color() -> Color {
    Color::Black
}

/// The bring-up script: every action of construction, in order.
pub open spec fn bring_up_script() -> Seq<PanelAction> {
    seq![
        PanelAction::ClaimLine(ControlLine::BusySense),
        PanelAction::ClaimLine(ControlLine::DataCommand),
        PanelAction::ClaimLine(ControlLine::Reset),
        PanelAction::ClaimLine(ControlLine::PowerEnable),
        PanelAction::SetLine(ControlLine::PowerEnable, Level::High),
        PanelAction::Wait(POWER_SETTLE_MS),
        PanelAction::SetLine(ControlLine::Reset, Level::Low),
        PanelAction::Wait(RESET_PULSE_MS),
        PanelAction::SetLine(ControlLine::Reset, Level::High),
        PanelAction::Wait(RESET_RECOVERY_MS),
        PanelAction::ConfigureBus(BUS_CLOCK_HZ, BUS_MODE),
        PanelAction::Handshake,
        PanelAction::Present,
        PanelAction::Wait(READY_SETTLE_MS),
    ]
}

/// The panel's state while `done` actions of the script have completed.
pub open spec fn state_after(done: nat) -> PanelState {
    if done < 10 {
        PanelState::Uninitialized
    } else if done == 10 {
        PanelState::PoweredAndReset
    } else if done < BRING_UP_STEPS {
        PanelState::BusInitialized
    } else {
        PanelState::Ready
    }
}

/// A construction under way, as mathematics: how many actions of the script
/// have completed, and the staged frame.
pub ghost struct BringUpModel {
    pub done: nat,
    pub frame: Seq<u8>,
}

/// A constructed driver, as mathematics.
pub ghost struct DisplayModel {
    pub state: PanelState,
    pub frame: Seq<u8>,
}

/// What a completed bring-up action leads to.
pub ghost enum BringUpNext {
    Continue(BringUpModel),
    Finished(DisplayModel),
}

impl BringUpModel {
    /// A construction is under way while actions of the script are left, and
    /// its frame has the panel's size.
    pub open spec fn wf(self) -> bool {
        &&& self.done < BRING_UP_STEPS
        &&& self.frame.len() == FRAME_BYTES
    }

    /// The action that is outstanding.
    pub open spec fn action(self) -> PanelAction {
        bring_up_script()[self.done as int]
    }

    /// The frame once the outstanding action has completed: the handshake is
    /// followed by a clear to the base colour, nothing else touches it.
    pub open spec fn frame_after(self) -> Seq<u8> {
        if self.action() == PanelAction::Handshake {
            solid(base_color())
        } else {
            self.frame
        }
    }

    /// Construction's one rule: a failed action ends it with that action's
    /// name, a completed one leads to the next, and the last to a driver in
    /// `Ready`.
    pub open spec fn advance(self, outcome: Outcome) -> Result<BringUpNext, PanelError> {
        if outcome == Outcome::Failed {
            Err(PanelError::BringUp(self.action()))
        } else if self.done + 1 < BRING_UP_STEPS {
            Ok(BringUpNext::Continue(BringUpModel { done: self.done + 1, frame: self.frame_after() }))
        } else {
            Ok(BringUpNext::Finished(DisplayModel { state: PanelState::Ready, frame: self.frame_after() }))
        }
    }

    /// The driver that construction hands over if every action still to come
    /// is done.
    pub open spec fn handed_over(self) -> DisplayModel
        decreases BRING_UP_STEPS - self.done,
    {
        if self.done + 1 < BRING_UP_STEPS {
            (BringUpModel { done: self.done + 1, frame: self.frame_after() }).handed_over()
        } else {
            DisplayModel { state: PanelState::Ready, frame: self.frame_after() }
        }
    }
}

impl DisplayModel {
    /// A constructed driver is ready, updating or asleep, and its frame has
    /// the panel's size.
    pub open spec fn wf(self) -> bool {
        &&& self.state == PanelState::Ready || self.state == PanelState::Updating || self.state
            == PanelState::Asleep
        &&& self.frame.len() == FRAME_BYTES
    }

    /// The frame may change in `Ready` only: while a transfer reads it, and
    /// once the panel sleeps, it stays as it is.
    pub open spec fn stage(self, frame: Seq<u8>) -> (DisplayModel, Result<(), PanelError>) {
        if self.state == PanelState::Ready {
            (DisplayModel { frame, ..self }, Ok(()))
        } else {
            (self, Err(PanelError::NotReady))
        }
    }

    /// Clearing stages a frame of one colour.
    pub open spec fn clear(self, color: Color) -> (DisplayModel, Result<(), PanelError>) {
        self.stage(solid(color))
    }

    /// A present is accepted in `Ready` and nowhere else.
    pub open spec fn begin_update(self) -> (DisplayModel, Result<PanelAction, PanelError>) {
        if self.state == PanelState::Ready {
            (DisplayModel { state: PanelState::Updating, ..self }, Ok(PanelAction::Present))
        } else {
            (self, Err(PanelError::NotReady))
        }
    }

    /// The end of a transfer brings the driver back to `Ready`, whether the
    /// transfer succeeded or not; a failure is handed to the caller, and
    /// nothing is retried.
    pub open spec fn finish_update(self, outcome: Outcome) -> (
        DisplayModel,
        Result<(), PanelError>,
    ) {
        if self.state != PanelState::Updating {
            (self, Err(PanelError::NotReady))
        } else if outcome == Outcome::Done {
            (DisplayModel { state: PanelState::Ready, ..self }, Ok(()))
        } else {
            (DisplayModel { state: PanelState::Ready, ..self }, Err(PanelError::Transfer))
        }
    }

    /// Teardown: one sleep command from any waking state, none from sleep.
    pub open spec fn shutdown(self) -> (DisplayModel, Option<PanelAction>) {
        if self.state == PanelState::Asleep {
            (self, None)
        } else {
            (DisplayModel { state: PanelState::Asleep, ..self }, Some(PanelAction::Sleep))
        }
    }
}

/// The action at a position of the bring-up script.
fn scripted(step: usize) -> (action: PanelAction)
    requires
        step < BRING_UP_STEPS,
    ensures
        action == bring_up_script()[step as int],
{
    match step {
        0 => PanelAction::ClaimLine(ControlLine::BusySense),
        1 => PanelAction::ClaimLine(ControlLine::DataCommand),
        2 => PanelAction::ClaimLine(ControlLine::Reset),
        3 => PanelAction::ClaimLine(ControlLine::PowerEnable),
        4 => PanelAction::SetLine(ControlLine::PowerEnable, Level::High),
        5 => PanelAction::Wait(POWER_SETTLE_MS),
        6 => PanelAction::SetLine(ControlLine::Reset, Level::Low),
        7 => PanelAction::Wait(RESET_PULSE_MS),
        8 => PanelAction::SetLine(ControlLine::Reset, Level::High),
        9 => PanelAction::Wait(RESET_RECOVERY_MS),
        10 => PanelAction::ConfigureBus(BUS_CLOCK_HZ, BUS_MODE),
        11 => PanelAction::Handshake,
        12 => PanelAction::Present,
        _ => PanelAction::Wait(READY_SETTLE_MS),
    }
}

/// A construction under way: the position in the script and the frame that
/// the driver will own.
pub struct BringUp {
    done: usize,
    frame: FrameBuffer,
}

impl View for BringUp {
    type V = BringUpModel;

    closed spec fn view(&self) -> BringUpModel {
        BringUpModel { done: self.done as nat, frame: self.frame@ }
    }
}

/// The panel driver once construction has succeeded.
pub struct Display {
    state: PanelState,
    frame: FrameBuffer,
}

impl View for Display {
    type V = DisplayModel;

    closed spec fn view(&self) -> DisplayModel {
        DisplayModel { state: self.state, frame: self.frame@ }
    }
}

/// What `BringUp::advance` hands back when the action was done.
pub enum BringUpStep {
    /// Another action is outstanding.
    Continue(BringUp),
    /// The script is through: the driver exists and is `Ready`.
    Finished(Display),
}

impl View for BringUpStep {
    type V = BringUpNext;

    open spec fn view(&self) -> BringUpNext {
        match self {
            BringUpStep::Continue(bring_up) => BringUpNext::Continue(bring_up@),
            BringUpStep::Finished(display) => BringUpNext::Finished(display@),
        }
    }
}

impl BringUp {
    /// The action that the firmware is to perform now.
    pub fn action(&self) -> (action: PanelAction)
        requires
            self@.wf(),
        ensures
            action == self@.action(),
    {
        scripted(self.done)
    }

    /// How many actions of the script have completed.
    pub fn completed(&self) -> (done: usize)
        ensures
            done == self@.done,
    {
        self.done
    }

    /// The staged frame, for the transfer that construction ends with.
    pub fn frame(&self) -> (bytes: &[u8])
        ensures
            bytes@ == self@.frame,
    {
        self.frame.bytes()
    }

    /// The panel's state at this point of construction.
    pub fn state(&self) -> (state: PanelState)
        requires
            self@.wf(),
        ensures
            state == state_after(self@.done),
    {
        if self.done < 10 {
            PanelState::Uninitialized
        } else if self.done == 10 {
            PanelState::PoweredAndReset
        } else {
            PanelState::BusInitialized
        }
    }

    /// Takes the outcome of the outstanding action. A failure ends
    /// construction for good; otherwise the script moves on by one action,
    /// and past its end the driver is handed over.
    pub fn advance(self, outcome: Outcome) -> (next: Result<BringUpStep, PanelError>)
        requires
            self@.wf(),
        ensures
            match next {
                Ok(step) => self@.advance(outcome) == Ok::<BringUpNext, PanelError>(step@),
                Err(error) => self@.advance(outcome) == Err::<BringUpNext, PanelError>(error),
            },
            next matches Ok(BringUpStep::Continue(bring_up)) ==> bring_up@.wf(),
            next matches Ok(BringUpStep::Finished(display)) ==> display@.wf(),
    {
        let action = scripted(self.done);
        match outcome {
            Outcome::Failed => Err(PanelError::BringUp(action)),
            Outcome::Done => {
                let mut frame = self.frame;
                match action {
                    PanelAction::Handshake => {
                        frame.clear(Color::Black);
                    },
                    _ => {},
                }
                if self.done + 1 < BRING_UP_STEPS {
                    Ok(BringUpStep::Continue(BringUp { done: self.done + 1, frame }))
                } else {
                    Ok(BringUpStep::Finished(Display { state: PanelState::Ready, frame }))
                }
            },
        }
    }
}

impl Display {
    /// Begins the construction of a panel driver: nothing has been done yet,
    /// and the frame is blank.
    pub fn new() -> (bring_up: BringUp)
        ensures
            bring_up@ == (BringUpModel { done: 0, frame: solid(Color::Black) }),
            bring_up@.wf(),
    {
        BringUp { done: 0, frame: FrameBuffer::new() }
    }

    /// The driver's state.
    pub fn state(&self) -> (state: PanelState)
        ensures
            state == self@.state,
    {
        self.state
    }

    /// The staged frame, for the transfer.
    pub fn frame(&self) -> (bytes: &[u8])
        ensures
            bytes@ == self@.frame,
    {
        self.frame.bytes()
    }

    /// Overwrites the staged frame with one colour. Memory only: nothing
    /// goes over the bus.
    pub fn clear_display(&mut self, color: Color) -> (done: Result<(), PanelError>)
        requires
            old(self)@.wf(),
        ensures
            (final(self)@, done) == old(self)@.clear(color),
            final(self)@.wf(),
    {
        match self.state {
            PanelState::Ready => {
                self.frame.clear(color);
                Ok(())
            },
            _ => Err(PanelError::NotReady),
        }
    }

    /// Lets a layout draw onto the staged frame. Memory only: what is drawn
    /// is the layout's business, the frame keeps its size.
    pub fn draw_layout<L: Layout>(&mut self, layout: &L) -> (done: Result<(), PanelError>)
        requires
            old(self)@.wf(),
        ensures
            (final(self)@, done) == old(self)@.stage(layout.drawn(old(self)@.frame)),
            final(self)@.wf(),
    {
        match self.state {
            PanelState::Ready => {
                layout.draw(&mut self.frame);
                Ok(())
            },
            _ => Err(PanelError::NotReady),
        }
    }

    /// Asks for the staged frame to be transferred and shown. Accepted in
    /// `Ready` only; the driver is `Updating` until `finish_update`.
    pub fn update_and_display(&mut self) -> (action: Result<PanelAction, PanelError>)
        requires
            old(self)@.wf(),
        ensures
            (final(self)@, action) == old(self)@.begin_update(),
            final(self)@.wf(),
    {
        match self.state {
            PanelState::Ready => {
                self.state = PanelState::Updating;
                Ok(PanelAction::Present)
            },
            _ => Err(PanelError::NotReady),
        }
    }

    /// Takes the outcome of the transfer that `update_and_display` asked
    /// for, once busy-sense has cleared or the bus has failed.
    pub fn finish_update(&mut self, outcome: Outcome) -> (done: Result<(), PanelError>)
        requires
            old(self)@.wf(),
        ensures
            (final(self)@, done) == old(self)@.finish_update(outcome),
            final(self)@.wf(),
    {
        match self.state {
            PanelState::Updating => {
                self.state = PanelState::Ready;
                match outcome {
                    Outcome::Done => Ok(()),
                    Outcome::Failed => Err(PanelError::Transfer),
                }
            },
            _ => Err(PanelError::NotReady),
        }
    }

    /// Teardown. The first call asks for the panel's sleep command and the
    /// driver is `Asleep` from then on, whatever comes of the command; later
    /// calls ask for nothing.
    pub fn shutdown(&mut self) -> (action: Option<PanelAction>)
        requires
            old(self)@.wf(),
        ensures
            (final(self)@, action) == old(self)@.shutdown(),
            final(self)@.wf(),
    {
        match self.state {
            PanelState::Asleep => None,
            _ => {
                self.state = PanelState::Asleep;
                Some(PanelAction::Sleep)
            },
        }
    }
}

/// A present is accepted in `Ready` and in no other state. Once accepted, the
/// end of the transfer brings the driver back to `Ready`, whatever its
/// outcome: the driver cannot get stuck in `Updating`.
pub proof fn lemma_present_returns_to_ready(display: DisplayModel, outcome: Outcome)
    ensures
        display.begin_update().1 is Ok <==> display.state == PanelState::Ready,
        display.state != PanelState::Ready ==> display.begin_update().0 == display,
        display.state == PanelState::Ready ==> {
            &&& display.begin_update().0.state == PanelState::Updating
            &&& display.begin_update().0.finish_update(outcome).0.state == PanelState::Ready
            &&& display.begin_update().0.finish_update(outcome).0.frame == display.frame
        },
{
}

/// Teardown asks for exactly one sleep command, whatever happened before: a
/// driver that is awake, in whichever state and after whichever outcome of
/// its last transfer, asks for the command once and is `Asleep` from then
/// on, and a second teardown asks for nothing.
pub proof fn lemma_teardown_sleeps_once(display: DisplayModel, outcome: Outcome)
    ensures
        display.state != PanelState::Asleep ==> display.shutdown().1 == Some(PanelAction::Sleep),
        display.shutdown().0.state == PanelState::Asleep,
        display.shutdown().0.shutdown() == (display.shutdown().0, None::<PanelAction>),
        display.finish_update(outcome).0.state != PanelState::Asleep
            ==> display.finish_update(outcome).0.shutdown().1 == Some(PanelAction::Sleep),
{
}

/// Clearing twice with one colour leaves the frame that clearing once
/// leaves, byte for byte.
pub proof fn lemma_clear_is_idempotent(display: DisplayModel, color: Color)
    ensures
        display.clear(color).0.clear(color) == display.clear(color),
{
}

/// The script holds one handshake and one transfer of the frame, the
/// handshake first, both after the power and reset sequence and the bus
/// set-up; it never asks for sleep.
pub proof fn lemma_script_presents_once()
    ensures
        bring_up_script().len() == BRING_UP_STEPS,
        forall|i: int|
            0 <= i < BRING_UP_STEPS ==> (#[trigger] bring_up_script()[i] == PanelAction::Handshake
                <==> i == 11),
        forall|i: int|
            0 <= i < BRING_UP_STEPS ==> (#[trigger] bring_up_script()[i] == PanelAction::Present
                <==> i == 12),
        forall|i: int|
            0 <= i < BRING_UP_STEPS ==> #[trigger] bring_up_script()[i] != PanelAction::Sleep,
{
}

/// A construction in which every action is done hands over a driver in
/// `Ready`. If the handshake was still to come, the frame it stages is the
/// base colour throughout, whatever was staged before; after the handshake
/// the frame is handed over as it is.
pub proof fn lemma_construction_ends_ready(bring_up: BringUpModel)
    requires
        bring_up.wf(),
    ensures
        bring_up.handed_over().state == PanelState::Ready,
        bring_up.handed_over().wf(),
        bring_up.done <= 11 ==> bring_up.handed_over().frame == solid(base_color()),
        bring_up.done > 11 ==> bring_up.handed_over().frame == bring_up.frame,
    decreases BRING_UP_STEPS - bring_up.done,
{
    if bring_up.done + 1 < BRING_UP_STEPS {
        lemma_construction_ends_ready(
            BringUpModel { done: bring_up.done + 1, frame: bring_up.frame_after() },
        );
    }
}

} // verus!
