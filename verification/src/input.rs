//! Non-blocking controller input: one poll pass per frame over a fixed
//! number of controller slots. A raw device report is decoded into a named
//! button/axis snapshot; a slot whose device is absent, or for which no
//! report was produced, yields a disconnected all-zero snapshot — device
//! absence is normal, never an error.

use vstd::prelude::*;

verus! {

/// Number of controller slots polled every iteration, whether or not a
/// device is attached to them.
pub const MAX_CONTROLLER_COUNT: usize = 4;

/// Digital button bits of a raw gamepad report.
pub const BUTTON_DPAD_UP: u16 = 0x0001;

pub const BUTTON_DPAD_DOWN: u16 = 0x0002;

pub const BUTTON_DPAD_LEFT: u16 = 0x0004;

pub const BUTTON_DPAD_RIGHT: u16 = 0x0008;

pub const BUTTON_BACK: u16 = 0x0020;

pub const BUTTON_LEFT_SHOULDER: u16 = 0x0100;

pub const BUTTON_RIGHT_SHOULDER: u16 = 0x0200;

pub const BUTTON_A: u16 = 0x1000;

pub const BUTTON_B: u16 = 0x2000;

pub const BUTTON_X: u16 = 0x4000;

pub const BUTTON_Y: u16 = 0x8000;

/// The raw report a controller device hands back on a successful poll:
/// a button bitmask and the left stick's two signed axes.
#[derive(Clone, Copy, PartialEq, Eq, Structural, Debug)]
pub struct RawReport {
    pub buttons: u16,
    pub stick_x: i16,
    pub stick_y: i16,
}

/// One controller slot's state for one frame: recreated fresh every loop
/// iteration, never persisted across frames.
#[derive(Clone, Copy, PartialEq, Eq, Structural, Debug)]
pub struct ControllerSnapshot {
    pub connected: bool,
    pub dpad_up: bool,
    pub dpad_down: bool,
    pub dpad_left: bool,
    pub dpad_right: bool,
    pub button_a: bool,
    pub button_b: bool,
    pub button_x: bool,
    pub button_y: bool,
    pub back: bool,
    pub left_shoulder: bool,
    pub right_shoulder: bool,
    pub stick_x: i16,
    pub stick_y: i16,
}

/// The all-zero snapshot of an absent controller.
pub open spec fn zero_snapshot() -> ControllerSnapshot {
    ControllerSnapshot {
        connected: false,
        dpad_up: false,
        dpad_down: false,
        dpad_left: false,
        dpad_right: false,
        button_a: false,
        button_b: false,
        button_x: false,
        button_y: false,
        back: false,
        left_shoulder: false,
        right_shoulder: false,
        stick_x: 0,
        stick_y: 0,
    }
}

/// The snapshot a successful raw report decodes to: connected, each button
/// taken from its bit of the mask, axes copied through.
pub open spec fn decoded(report: RawReport) -> ControllerSnapshot {
    ControllerSnapshot {
        connected: true,
        dpad_up: report.buttons & BUTTON_DPAD_UP != 0,
        dpad_down: report.buttons & BUTTON_DPAD_DOWN != 0,
        dpad_left: report.buttons & BUTTON_DPAD_LEFT != 0,
        dpad_right: report.buttons & BUTTON_DPAD_RIGHT != 0,
        button_a: report.buttons & BUTTON_A != 0,
        button_b: report.buttons & BUTTON_B != 0,
        button_x: report.buttons & BUTTON_X != 0,
        button_y: report.buttons & BUTTON_Y != 0,
        back: report.buttons & BUTTON_BACK != 0,
        left_shoulder: report.buttons & BUTTON_LEFT_SHOULDER != 0,
        right_shoulder: report.buttons & BUTTON_RIGHT_SHOULDER != 0,
        stick_x: report.stick_x,
        stick_y: report.stick_y,
    }
}

/// The snapshot slot `i` of a poll pass ends with, given what the device
/// boundary produced: the decoded report where one was produced, the
/// all-zero disconnected snapshot everywhere else.
pub open spec fn slot_snapshot(results: Seq<Option<RawReport>>, i: int) -> ControllerSnapshot {
    if 0 <= i < results.len() {
        match results[i] {
            Some(report) => decoded(report),
            None => zero_snapshot(),
        }
    } else {
        zero_snapshot()
    }
}

/// The full result of one poll pass: always exactly `MAX_CONTROLLER_COUNT`
/// snapshots, whatever the device boundary produced.
pub open spec fn poll_spec(results: Seq<Option<RawReport>>) -> Seq<ControllerSnapshot> {
    Seq::new(MAX_CONTROLLER_COUNT as nat, |i: int| slot_snapshot(results, i))
}

/// The disconnected snapshot, as a value.
pub fn disconnected_snapshot() -> (r: ControllerSnapshot)
    ensures
        r == zero_snapshot(),
{
    ControllerSnapshot {
        connected: false,
        dpad_up: false,
        dpad_down: false,
        dpad_left: false,
        dpad_right: false,
        button_a: false,
        button_b: false,
        button_x: false,
        button_y: false,
        back: false,
        left_shoulder: false,
        right_shoulder: false,
        stick_x: 0,
        stick_y: 0,
    }
}

/// Decode one raw report into a connected snapshot.
pub fn decode_report(report: RawReport) -> (r: ControllerSnapshot)
    ensures
        r == decoded(report),
{
    ControllerSnapshot {
        connected: true,
        dpad_up: report.buttons & BUTTON_DPAD_UP != 0,
        dpad_down: report.buttons & BUTTON_DPAD_DOWN != 0,
        dpad_left: report.buttons & BUTTON_DPAD_LEFT != 0,
        dpad_right: report.buttons & BUTTON_DPAD_RIGHT != 0,
        button_a: report.buttons & BUTTON_A != 0,
        button_b: report.buttons & BUTTON_B != 0,
        button_x: report.buttons & BUTTON_X != 0,
        button_y: report.buttons & BUTTON_Y != 0,
        back: report.buttons & BUTTON_BACK != 0,
        left_shoulder: report.buttons & BUTTON_LEFT_SHOULDER != 0,
        right_shoulder: report.buttons & BUTTON_RIGHT_SHOULDER != 0,
        stick_x: report.stick_x,
        stick_y: report.stick_y,
    }
}

/// One poll pass. `results` is what the device boundary handed back, one
/// entry per slot it reached (`None` for a poll failure). The pass returns
/// exactly `MAX_CONTROLLER_COUNT` snapshots: a decoded one for each slot
/// with a report, the disconnected snapshot for every other slot.
pub fn poll_all(results: &Vec<Option<RawReport>>) -> (snapshots: Vec<ControllerSnapshot>)
    ensures
        snapshots@.len() == MAX_CONTROLLER_COUNT,
        snapshots@ == poll_spec(results@),
        forall|i: int|
            0 <= i < MAX_CONTROLLER_COUNT ==> snapshots@[i] == slot_snapshot(results@, i),
{
    let mut snapshots: Vec<ControllerSnapshot> = Vec::new();
    let mut slot: usize = 0;
    while slot < MAX_CONTROLLER_COUNT
        invariant
            slot <= MAX_CONTROLLER_COUNT,
            snapshots@.len() == slot,
            forall|i: int| 0 <= i < slot ==> snapshots@[i] == slot_snapshot(results@, i),
        decreases MAX_CONTROLLER_COUNT - slot,
    {
        if slot < results.len() {
            match results[slot] {
                Some(report) => snapshots.push(decode_report(report)),
                None => snapshots.push(disconnected_snapshot()),
            }
        } else {
            snapshots.push(disconnected_snapshot());
        }
        slot = slot + 1;
    }
    proof {
        assert(snapshots@ =~= poll_spec(results@));
    }
    snapshots
}

} // verus!
