//! The panel driver on a simulated bench: the actions it asks for are
//! performed on recording lines and a recording bus, the panel's own
//! exchanges by the real panel crate.

use embedded_hal::delay::DelayNs;
use embedded_hal::digital::{ErrorType as LineErrorType, InputPin, OutputPin};
use embedded_hal::spi::{ErrorKind, ErrorType as BusErrorType, Operation, SpiDevice};
use epaper_panel::display::{
    BringUpStep, ControlLine, Display, PanelAction, PanelError, PanelState,
};
use epaper_panel::frame::Color;
use epaper_panel::signal::{Level, Outcome};
use epd_waveshare::epd7in5_v2::Epd7in5;
use epd_waveshare::prelude::WaveshareDisplay;
use std::cell::RefCell;
use std::convert::Infallible;
use std::rc::Rc;

const DATA_START: u8 = 0x13;
const REFRESH: u8 = 0x12;
const GET_STATUS: u8 = 0x71;
const POWER_OFF: u8 = 0x02;
const DEEP_SLEEP: u8 = 0x07;

#[derive(Clone, Debug, PartialEq)]
enum Seen {
    Line(ControlLine, bool),
    Delay(u64),
    Sent(u8, Vec<u8>),
}

struct Bench {
    seen: Vec<Seen>,
    data_mode: bool,
    busy_ticks: u32,
    busy_reads: u32,
    bus_fails: bool,
}

type Shared = Rc<RefCell<Bench>>;

struct Line {
    bench: Shared,
    role: ControlLine,
}

impl LineErrorType for Line {
    type Error = Infallible;
}

impl OutputPin for Line {
    fn set_low(&mut self) -> Result<(), Infallible> {
        let mut bench = self.bench.borrow_mut();
        match self.role {
            ControlLine::DataCommand => bench.data_mode = false,
            role => bench.seen.push(Seen::Line(role, false)),
        }
        Ok(())
    }

    fn set_high(&mut self) -> Result<(), Infallible> {
        let mut bench = self.bench.borrow_mut();
        match self.role {
            ControlLine::DataCommand => bench.data_mode = true,
            role => bench.seen.push(Seen::Line(role, true)),
        }
        Ok(())
    }
}

struct Busy {
    bench: Shared,
}

impl LineErrorType for Busy {
    type Error = Infallible;
}

impl Busy {
    /// Busy-sense is low while the panel works: it clears after the ticks run out.
    fn read(&mut self) -> bool {
        let mut bench = self.bench.borrow_mut();
        bench.busy_reads += 1;
        if bench.busy_ticks > 0 {
            bench.busy_ticks -= 1;
            true
        } else {
            false
        }
    }
}

impl InputPin for Busy {
    fn is_high(&mut self) -> Result<bool, Infallible> {
        Ok(!self.read())
    }

    fn is_low(&mut self) -> Result<bool, Infallible> {
        Ok(self.read())
    }
}

#[derive(Debug)]
struct BusFault;

impl embedded_hal::spi::Error for BusFault {
    fn kind(&self) -> ErrorKind {
        ErrorKind::Other
    }
}

struct Bus {
    bench: Shared,
}

impl BusErrorType for Bus {
    type Error = BusFault;
}

impl SpiDevice for Bus {
    fn transaction(&mut self, operations: &mut [Operation<'_, u8>]) -> Result<(), BusFault> {
        let mut bench = self.bench.borrow_mut();
        for operation in operations.iter() {
            if let Operation::Write(bytes) = operation {
                if bench.data_mode {
                    if let Some(Seen::Sent(_, data)) = bench.seen.last_mut() {
                        data.extend_from_slice(bytes);
                    }
                } else {
                    bench.seen.push(Seen::Sent(bytes[0], Vec::new()));
                }
            }
        }
        if bench.bus_fails {
            Err(BusFault)
        } else {
            Ok(())
        }
    }
}

struct Clock {
    bench: Shared,
}

impl DelayNs for Clock {
    fn delay_ns(&mut self, ns: u32) {
        self.bench.borrow_mut().seen.push(Seen::Delay(ns as u64));
    }
}

/// The firmware's side: holds the simulated hardware and performs actions.
struct Rig {
    bench: Shared,
    power: Option<Line>,
    reset: Option<Line>,
    select: Option<Line>,
    busy: Option<Busy>,
    bus: Option<Bus>,
    clock: Clock,
    panel: Option<Epd7in5<Bus, Busy, Line, Line, Clock>>,
}

impl Rig {
    fn new() -> Rig {
        let bench = Rc::new(RefCell::new(Bench {
            seen: Vec::new(),
            data_mode: false,
            busy_ticks: 0,
            busy_reads: 0,
            bus_fails: false,
        }));
        Rig {
            bench: bench.clone(),
            power: None,
            reset: None,
            select: None,
            busy: None,
            bus: None,
            clock: Clock { bench },
            panel: None,
        }
    }

    fn line(&self, role: ControlLine) -> Line {
        Line { bench: self.bench.clone(), role }
    }

    fn perform(&mut self, action: PanelAction, frame: &[u8]) -> Outcome {
        let done = match action {
            PanelAction::ClaimLine(ControlLine::BusySense) => {
                self.busy = Some(Busy { bench: self.bench.clone() });
                true
            }
            PanelAction::ClaimLine(ControlLine::DataCommand) => {
                self.select = Some(self.line(ControlLine::DataCommand));
                true
            }
            PanelAction::ClaimLine(ControlLine::Reset) => {
                self.reset = Some(self.line(ControlLine::Reset));
                true
            }
            PanelAction::ClaimLine(ControlLine::PowerEnable) => {
                self.power = Some(self.line(ControlLine::PowerEnable));
                true
            }
            PanelAction::SetLine(role, level) => {
                let line = match role {
                    ControlLine::PowerEnable => self.power.as_mut(),
                    ControlLine::Reset => self.reset.as_mut(),
                    _ => None,
                };
                match (line, level) {
                    (Some(line), Level::High) => line.set_high().is_ok(),
                    (Some(line), Level::Low) => line.set_low().is_ok(),
                    (None, _) => false,
                }
            }
            PanelAction::Wait(millis) => {
                self.clock.delay_ms(millis);
                true
            }
            PanelAction::ConfigureBus(clock_hz, mode) => {
                assert_eq!(clock_hz, 4_000_000);
                assert_eq!(mode, 0);
                self.bus = Some(Bus { bench: self.bench.clone() });
                true
            }
            PanelAction::Handshake => {
                let made = Epd7in5::new(
                    self.bus.as_mut().unwrap(),
                    self.busy.take().unwrap(),
                    self.select.take().unwrap(),
                    self.reset.take().unwrap(),
                    &mut self.clock,
                    None,
                );
                match made {
                    Ok(panel) => {
                        self.panel = Some(panel);
                        true
                    }
                    Err(_) => false,
                }
            }
            PanelAction::Present => self
                .panel
                .as_mut()
                .unwrap()
                .update_and_display_frame(self.bus.as_mut().unwrap(), frame, &mut self.clock)
                .is_ok(),
            PanelAction::Sleep => self
                .panel
                .as_mut()
                .unwrap()
                .sleep(self.bus.as_mut().unwrap(), &mut self.clock)
                .is_ok(),
        };
        if done {
            Outcome::Done
        } else {
            Outcome::Failed
        }
    }

    fn construct(&mut self) -> Result<Display, PanelError> {
        let mut bring_up = Display::new();
        loop {
            let action = bring_up.action();
            let frame = bring_up.frame().to_vec();
            let outcome = self.perform(action, &frame);
            match bring_up.advance(outcome)? {
                BringUpStep::Continue(next) => bring_up = next,
                BringUpStep::Finished(display) => return Ok(display),
            }
        }
    }

    fn present(&mut self, display: &mut Display) -> Result<(), PanelError> {
        let action = display.update_and_display()?;
        let frame = display.frame().to_vec();
        let outcome = self.perform(action, &frame);
        display.finish_update(outcome)
    }

    fn teardown(&mut self, display: &mut Display) {
        if let Some(action) = display.shutdown() {
            let frame = display.frame().to_vec();
            let _ = self.perform(action, &frame);
        }
    }

    fn seen(&self) -> Vec<Seen> {
        self.bench.borrow().seen.clone()
    }

    fn sent(&self, command: u8) -> Vec<Vec<u8>> {
        let mut found = Vec::new();
        for seen in self.seen() {
            if let Seen::Sent(code, data) = seen {
                if code == command {
                    found.push(data);
                }
            }
        }
        found
    }

    fn forget(&mut self) {
        self.bench.borrow_mut().seen.clear();
    }
}

#[test]
fn construction_on_the_bench_powers_resets_and_presents_once() {
    let mut rig = Rig::new();
    let display = rig.construct().unwrap();
    assert_eq!(display.state(), PanelState::Ready);

    let seen = rig.seen();
    assert_eq!(
        seen[..6],
        [
            Seen::Line(ControlLine::PowerEnable, true),
            Seen::Delay(100_000_000),
            Seen::Line(ControlLine::Reset, false),
            Seen::Delay(200_000_000),
            Seen::Line(ControlLine::Reset, true),
            Seen::Delay(200_000_000),
        ]
    );

    // One transfer of the whole frame, one refresh after it, nothing before the reset.
    let transfers = rig.sent(DATA_START);
    assert_eq!(transfers.len(), 1);
    assert_eq!(transfers[0].len(), 48000);
    assert!(transfers[0].iter().all(|byte| *byte == 0x00));
    assert_eq!(rig.sent(REFRESH).len(), 1);
    let first_sent = seen.iter().position(|entry| matches!(entry, Seen::Sent(_, _))).unwrap();
    assert!(first_sent >= 6);
    let transfer = seen.iter().position(|entry| matches!(entry, Seen::Sent(DATA_START, _))).unwrap();
    let refresh = seen.iter().position(|entry| matches!(entry, Seen::Sent(REFRESH, _))).unwrap();
    assert!(first_sent < transfer && transfer < refresh);

    // The settle time closes construction, and the panel was not put to sleep.
    assert_eq!(seen[seen.len() - 1], Seen::Delay(100_000_000));
    assert!(rig.sent(DEEP_SLEEP).is_empty());
}

#[test]
fn power_is_never_dropped_during_construction() {
    let mut rig = Rig::new();
    rig.construct().unwrap();
    assert!(!rig.seen().contains(&Seen::Line(ControlLine::PowerEnable, false)));
    let raised = rig
        .seen()
        .iter()
        .filter(|entry| **entry == Seen::Line(ControlLine::PowerEnable, true))
        .count();
    assert_eq!(raised, 1);
}

#[test]
fn present_returns_to_ready_once_busy_sense_clears() {
    for ticks in [0u32, 1, 7, 250] {
        let mut rig = Rig::new();
        let mut display = rig.construct().unwrap();
        rig.forget();
        rig.bench.borrow_mut().busy_ticks = ticks;
        rig.bench.borrow_mut().busy_reads = 0;
        display.clear_display(Color::White).unwrap();

        assert_eq!(rig.present(&mut display), Ok(()));
        assert_eq!(display.state(), PanelState::Ready);

        // The transfer waited out every busy tick and one clear reading.
        assert_eq!(rig.bench.borrow().busy_reads, ticks + 1);
        assert_eq!(rig.bench.borrow().busy_ticks, 0);
        let transfers = rig.sent(DATA_START);
        assert_eq!(transfers.len(), 1);
        assert_eq!(transfers[0].len(), 48000);
        assert!(transfers[0].iter().all(|byte| *byte == 0xFF));
        assert_eq!(rig.sent(REFRESH).len(), 1);
    }
}

#[test]
fn present_transfers_what_was_drawn() {
    let mut rig = Rig::new();
    let mut display = rig.construct().unwrap();
    rig.forget();
    let mut layout = epaper_panel::layouts::JokeLayout::new();
    epaper_panel::layouts::Layout::refresh_data(
        &mut layout,
        epaper_panel::widgets::Fetched::Decoded(epaper_panel::widgets::joke::JokeData {
            error: false,
            joke: String::from("It works on my bench."),
        }),
    );
    display.draw_layout(&layout).unwrap();
    assert_eq!(rig.present(&mut display), Ok(()));
    let transfers = rig.sent(DATA_START);
    assert_eq!(transfers.len(), 1);
    assert_eq!(&transfers[0][..], display.frame());
    assert!(transfers[0].iter().any(|byte| *byte != 0x00));
}

#[test]
fn a_failing_bus_fails_the_present_and_leaves_the_driver_usable() {
    let mut rig = Rig::new();
    let mut display = rig.construct().unwrap();
    rig.bench.borrow_mut().bus_fails = true;
    assert_eq!(rig.present(&mut display), Err(PanelError::Transfer));
    assert_eq!(display.state(), PanelState::Ready);
    rig.bench.borrow_mut().bus_fails = false;
    assert_eq!(rig.present(&mut display), Ok(()));
    assert_eq!(display.state(), PanelState::Ready);
}

#[test]
fn a_failing_bus_fails_construction_at_the_handshake() {
    let mut rig = Rig::new();
    rig.bench.borrow_mut().bus_fails = true;
    match rig.construct() {
        Err(error) => assert_eq!(error, PanelError::BringUp(PanelAction::Handshake)),
        Ok(_) => panic!("construction passed over a failing bus"),
    }
    assert!(rig.sent(DATA_START).is_empty());
}

#[test]
fn teardown_on_the_bench_sends_one_sleep() {
    let mut rig = Rig::new();
    let mut display = rig.construct().unwrap();
    rig.forget();
    rig.teardown(&mut display);
    assert_eq!(display.state(), PanelState::Asleep);
    assert_eq!(rig.sent(POWER_OFF).len(), 1);
    assert_eq!(rig.sent(DEEP_SLEEP), vec![vec![0xA5]]);

    rig.forget();
    rig.teardown(&mut display);
    assert!(rig.seen().is_empty());
}

#[test]
fn teardown_on_a_failing_bus_tries_once_and_gives_up_quietly() {
    let mut rig = Rig::new();
    let mut display = rig.construct().unwrap();
    rig.bench.borrow_mut().bus_fails = true;
    assert_eq!(rig.present(&mut display), Err(PanelError::Transfer));
    rig.forget();

    rig.teardown(&mut display);
    assert_eq!(display.state(), PanelState::Asleep);
    // The attempt got as far as its first status request.
    assert_eq!(rig.seen(), vec![Seen::Sent(GET_STATUS, Vec::new())]);

    rig.forget();
    rig.teardown(&mut display);
    assert!(rig.seen().is_empty());
}
