//! The virtual gamepad: the capabilities it declares, the chat commands that
//! drive it, and the two-event protocol of a momentary press.

use vstd::prelude::*;
use crate::text::{all_ascii, ascii_lower, lower_of, str_eq, to_lower};

verus! {

/// Event type of digital buttons in the Linux input protocol.
pub const EV_KEY: u16 = 0x01;
/// Event type of absolute axes in the Linux input protocol.
pub const EV_ABS: u16 = 0x03;

pub const BTN_SOUTH: u16 = 0x130;
pub const BTN_EAST: u16 = 0x131;
pub const BTN_NORTH: u16 = 0x133;
pub const BTN_WEST: u16 = 0x134;
pub const BTN_TL: u16 = 0x136;
pub const BTN_TR: u16 = 0x137;
pub const BTN_SELECT: u16 = 0x13a;
pub const BTN_START: u16 = 0x13b;
pub const BTN_MODE: u16 = 0x13c;
pub const BTN_THUMBL: u16 = 0x13d;
pub const BTN_THUMBR: u16 = 0x13e;

pub const ABS_X: u16 = 0x00;
pub const ABS_Y: u16 = 0x01;
pub const ABS_Z: u16 = 0x02;
pub const ABS_RX: u16 = 0x03;
pub const ABS_RY: u16 = 0x04;
pub const ABS_RZ: u16 = 0x05;
pub const ABS_HAT0X: u16 = 0x10;
pub const ABS_HAT0Y: u16 = 0x11;

pub const FF_RUMBLE: u16 = 0x50;
pub const FF_PERIODIC: u16 = 0x51;
pub const FF_SQUARE: u16 = 0x58;
pub const FF_TRIANGLE: u16 = 0x59;
pub const FF_SINE: u16 = 0x5a;
pub const FF_GAIN: u16 = 0x60;

/// Bus type of USB devices in the Linux input protocol.
pub const BUS_USB: u16 = 0x03;

/// How long every chat command holds its control, in milliseconds.
pub const PRESS_MS: u64 = 300;

/// Most force-feedback effects the device holds at once.
pub const FF_EFFECTS_MAX: u32 = 16;

/// A timed actuation of one control: set `code` of event type `event_type`
/// to `value`, hold it for `duration_ms`, then return it to zero.
#[derive(Clone, Copy, Debug, PartialEq, Eq, Structural)]
pub struct ControlEvent {
    pub event_type: u16,
    pub code: u16,
    pub value: i32,
    pub duration_ms: u64,
}

/// One step of driving the device.
#[derive(Clone, Copy, Debug, PartialEq, Eq, Structural)]
pub enum DeviceStep {
    /// Emit one input event.
    Emit { event_type: u16, code: u16, value: i32 },
    /// Block for this many milliseconds.
    Wait { ms: u64 },
}

pub open spec fn press(event_type: u16, code: u16, value: i32) -> ControlEvent {
    ControlEvent { event_type, code, value, duration_ms: PRESS_MS }
}

/// The command table: which control a lower-case chat token actuates.
pub open spec fn command_of(token: Seq<char>) -> Option<ControlEvent> {
    if token == "z"@ {
        Some(press(EV_ABS, ABS_HAT0Y, -1i32))
    } else if token == "q"@ {
        Some(press(EV_ABS, ABS_HAT0X, -1i32))
    } else if token == "s"@ {
        Some(press(EV_ABS, ABS_HAT0Y, 1))
    } else if token == "d"@ {
        Some(press(EV_ABS, ABS_HAT0X, 1))
    } else if token == "a"@ {
        Some(press(EV_KEY, BTN_SOUTH, 1))
    } else if token == "b"@ {
        Some(press(EV_KEY, BTN_EAST, 1))
    } else if token == "x"@ {
        Some(press(EV_KEY, BTN_NORTH, 1))
    } else if token == "y"@ {
        Some(press(EV_KEY, BTN_WEST, 1))
    } else if token == "start"@ {
        Some(press(EV_KEY, BTN_START, 1))
    } else if token == "select"@ {
        Some(press(EV_KEY, BTN_SELECT, 1))
    } else if token == "tl"@ {
        Some(press(EV_KEY, BTN_TL, 1))
    } else if token == "tr"@ {
        Some(press(EV_KEY, BTN_TR, 1))
    } else {
        None
    }
}

/// The control that a chat message actuates: the message is lower-cased as a
/// whole and looked up as one token.
pub open spec fn chat_command(message: Seq<char>) -> Option<ControlEvent> {
    command_of(lower_of(message))
}

fn press_now(event_type: u16, code: u16, value: i32) -> (r: ControlEvent)
    ensures
        r == press(event_type, code, value),
{
    ControlEvent { event_type, code, value, duration_ms: PRESS_MS }
}

/// Looks a lower-case token up in the command table.
pub fn lookup_command(token: &str) -> (r: Option<ControlEvent>)
    ensures
        r == command_of(token@),
{
    if str_eq(token, "z") {
        Some(press_now(EV_ABS, ABS_HAT0Y, -1))
    } else if str_eq(token, "q") {
        Some(press_now(EV_ABS, ABS_HAT0X, -1))
    } else if str_eq(token, "s") {
        Some(press_now(EV_ABS, ABS_HAT0Y, 1))
    } else if str_eq(token, "d") {
        Some(press_now(EV_ABS, ABS_HAT0X, 1))
    } else if str_eq(token, "a") {
        Some(press_now(EV_KEY, BTN_SOUTH, 1))
    } else if str_eq(token, "b") {
        Some(press_now(EV_KEY, BTN_EAST, 1))
    } else if str_eq(token, "x") {
        Some(press_now(EV_KEY, BTN_NORTH, 1))
    } else if str_eq(token, "y") {
        Some(press_now(EV_KEY, BTN_WEST, 1))
    } else if str_eq(token, "start") {
        Some(press_now(EV_KEY, BTN_START, 1))
    } else if str_eq(token, "select") {
        Some(press_now(EV_KEY, BTN_SELECT, 1))
    } else if str_eq(token, "tl") {
        Some(press_now(EV_KEY, BTN_TL, 1))
    } else if str_eq(token, "tr") {
        Some(press_now(EV_KEY, BTN_TR, 1))
    } else {
        None
    }
}

/// Lower-cases a whole chat message and looks it up in the command table.
pub fn chat_lookup(message: &str) -> (r: Option<ControlEvent>)
    ensures
        r == chat_command(message@),
        all_ascii(message@) ==> r == command_of(ascii_lower(message@)),
{
    let lowered = to_lower(message);
    lookup_command(lowered.as_str())
}

/// Case does not matter in a chat command: an ASCII message that equals a
/// token of the table up to the case of its letters actuates that token's
/// control, and two ASCII messages that differ only in case actuate the same.
pub proof fn lemma_chat_case_insensitive(message: Seq<char>, other: Seq<char>, token: Seq<char>)
    requires
        all_ascii(message),
        all_ascii(other),
        ascii_lower(message) == ascii_lower(other),
        command_of(token) is Some,
        ascii_lower(message) == ascii_lower(token),
    ensures
        command_of(ascii_lower(message)) == command_of(ascii_lower(other)),
        command_of(ascii_lower(message)) == command_of(token),
{
    lemma_tokens_lower_case(token);
}

/// Every token of the command table is lower case, so each way of writing
/// it in ASCII letters of either case reaches it.
pub proof fn lemma_tokens_lower_case(token: Seq<char>)
    requires
        command_of(token) is Some,
    ensures
        all_ascii(token),
        ascii_lower(token) == token,
{
    reveal_strlit("z");
    reveal_strlit("q");
    reveal_strlit("s");
    reveal_strlit("d");
    reveal_strlit("a");
    reveal_strlit("b");
    reveal_strlit("x");
    reveal_strlit("y");
    reveal_strlit("start");
    reveal_strlit("select");
    reveal_strlit("tl");
    reveal_strlit("tr");
    assert forall|i: int| 0 <= i < token.len() implies 'a' <= #[trigger] token[i] && token[i]
        <= 'z' by {}
    assert(ascii_lower(token) =~= token);
}

/// The steps of a momentary actuation: set `code` to `value`, wait `delay_ms`
/// milliseconds, then set `code` back to its neutral value zero.
pub open spec fn press_release_steps(event_type: u16, code: u16, value: i32, delay_ms: u64) -> Seq<
    DeviceStep,
> {
    seq![
        DeviceStep::Emit { event_type, code, value },
        DeviceStep::Wait { ms: delay_ms },
        DeviceStep::Emit { event_type, code, value: 0 },
    ]
}

/// Plans a press-then-release of one control. The caller performs the steps
/// in order and stops at the first emission that fails.
pub fn press_release(event_type: u16, code: u16, value: i32, delay_ms: u64) -> (r: Vec<DeviceStep>)
    ensures
        r@ == press_release_steps(event_type, code, value, delay_ms),
{
    let mut steps: Vec<DeviceStep> = Vec::new();
    steps.push(DeviceStep::Emit { event_type, code, value });
    steps.push(DeviceStep::Wait { ms: delay_ms });
    steps.push(DeviceStep::Emit { event_type, code, value: 0 });
    assert(steps@ =~= press_release_steps(event_type, code, value, delay_ms));
    steps
}

/// The steps that carry out a chat command.
pub fn command_steps(command: &ControlEvent) -> (r: Vec<DeviceStep>)
    ensures
        r@ == press_release_steps(
            command.event_type,
            command.code,
            command.value,
            command.duration_ms,
        ),
{
    press_release(command.event_type, command.code, command.value, command.duration_ms)
}

/// Range and filtering of one absolute axis, as the input subsystem takes it.
#[derive(Clone, Copy, Debug, PartialEq, Eq, Structural)]
pub struct AxisSetup {
    pub code: u16,
    pub value: i32,
    pub minimum: i32,
    pub maximum: i32,
    pub fuzz: i32,
    pub flat: i32,
    pub resolution: i32,
}

/// Everything the virtual gamepad declares when it is created.
#[derive(Clone, Debug)]
pub struct Capabilities {
    pub bus_type: u16,
    pub vendor: u16,
    pub product: u16,
    pub version: u16,
    pub keys: Vec<u16>,
    pub axes: Vec<AxisSetup>,
    pub ff_effects: Vec<u16>,
    pub ff_effects_max: u32,
}

pub open spec fn stick_axis(code: u16) -> AxisSetup {
    AxisSetup { code, value: 0, minimum: -32768i32, maximum: 32767, fuzz: 16, flat: 128, resolution: 0 }
}

pub open spec fn trigger_axis(code: u16) -> AxisSetup {
    AxisSetup { code, value: 0, minimum: 0, maximum: 255, fuzz: 0, flat: 0, resolution: 0 }
}

pub open spec fn dpad_axis(code: u16) -> AxisSetup {
    AxisSetup { code, value: 0, minimum: -1i32, maximum: 1, fuzz: 0, flat: 0, resolution: 0 }
}

/// The buttons of the gamepad: face, shoulder, select and start, mode, and
/// the two thumbstick clicks.
pub open spec fn gamepad_keys() -> Seq<u16> {
    seq![
        BTN_SOUTH, BTN_EAST, BTN_NORTH, BTN_WEST, BTN_TL, BTN_TR,
        BTN_SELECT, BTN_START, BTN_MODE, BTN_THUMBL, BTN_THUMBR,
    ]
}

/// Two full-range sticks, two one-sided triggers and a directional pad.
pub open spec fn gamepad_axes() -> Seq<AxisSetup> {
    seq![
        stick_axis(ABS_X), stick_axis(ABS_Y), stick_axis(ABS_RX), stick_axis(ABS_RY),
        trigger_axis(ABS_Z), trigger_axis(ABS_RZ),
        dpad_axis(ABS_HAT0X), dpad_axis(ABS_HAT0Y),
    ]
}

pub open spec fn gamepad_ff_effects() -> Seq<u16> {
    seq![FF_RUMBLE, FF_PERIODIC, FF_SQUARE, FF_TRIANGLE, FF_SINE, FF_GAIN]
}

fn axis(code: u16, minimum: i32, maximum: i32, fuzz: i32, flat: i32) -> (r: AxisSetup)
    ensures
        r == (AxisSetup { code, value: 0, minimum, maximum, fuzz, flat, resolution: 0 }),
{
    AxisSetup { code, value: 0, minimum, maximum, fuzz, flat, resolution: 0 }
}

/// The capability set of an Xbox 360 style controller.
pub fn gamepad_capabilities() -> (r: Capabilities)
    ensures
        r.bus_type == BUS_USB,
        r.vendor == 0x45e,
        r.product == 0x28e,
        r.version == 0x114,
        r.keys@ == gamepad_keys(),
        r.axes@ == gamepad_axes(),
        r.ff_effects@ == gamepad_ff_effects(),
        r.ff_effects_max == FF_EFFECTS_MAX,
{
    let keys: Vec<u16> = vec![
        BTN_SOUTH, BTN_EAST, BTN_NORTH, BTN_WEST, BTN_TL, BTN_TR,
        BTN_SELECT, BTN_START, BTN_MODE, BTN_THUMBL, BTN_THUMBR,
    ];
    let axes: Vec<AxisSetup> = vec![
        axis(ABS_X, -32768, 32767, 16, 128),
        axis(ABS_Y, -32768, 32767, 16, 128),
        axis(ABS_RX, -32768, 32767, 16, 128),
        axis(ABS_RY, -32768, 32767, 16, 128),
        axis(ABS_Z, 0, 255, 0, 0),
        axis(ABS_RZ, 0, 255, 0, 0),
        axis(ABS_HAT0X, -1, 1, 0, 0),
        axis(ABS_HAT0Y, -1, 1, 0, 0),
    ];
    let ff_effects: Vec<u16> = vec![FF_RUMBLE, FF_PERIODIC, FF_SQUARE, FF_TRIANGLE, FF_SINE, FF_GAIN];
    assert(keys@ =~= gamepad_keys());
    assert(axes@ =~= gamepad_axes());
    assert(ff_effects@ =~= gamepad_ff_effects());
    Capabilities {
        bus_type: BUS_USB,
        vendor: 0x45e,
        product: 0x28e,
        version: 0x114,
        keys,
        axes,
        ff_effects,
        ff_effects_max: FF_EFFECTS_MAX,
    }
}

} // verus!
