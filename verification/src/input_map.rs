//! Input adapter mapping: from the discrete event kinds an input library
//! reports (gamepad buttons and stick axes) to this crate's button and
//! axis identifiers. The surrounding program converts the input library's
//! enums into these kinds before calling in.

use vstd::prelude::*;
use crate::state::{
    AXIS_LH, AXIS_LV, AXIS_RH, AXIS_RV, BUTTON_A, BUTTON_B, BUTTON_DOWN, BUTTON_HOME, BUTTON_L,
    BUTTON_LEFT, BUTTON_L_STICK, BUTTON_MINUS, BUTTON_PLUS, BUTTON_R, BUTTON_RIGHT,
    BUTTON_R_STICK, BUTTON_UP, BUTTON_X, BUTTON_Y, BUTTON_ZL, BUTTON_ZR, NUM_AXES, NUM_BUTTONS,
};

verus! {

/// Button kinds of a source gamepad, named by position as input libraries
/// report them.
#[derive(Clone, Copy, PartialEq, Eq, Structural, Debug)]
pub enum PadButton {
    South,
    East,
    North,
    West,
    C,
    Z,
    LeftTrigger,
    LeftTrigger2,
    RightTrigger,
    RightTrigger2,
    Select,
    Start,
    Mode,
    LeftThumb,
    RightThumb,
    DPadUp,
    DPadDown,
    DPadLeft,
    DPadRight,
    Unknown,
}

/// Axis kinds of a source gamepad.
#[derive(Clone, Copy, PartialEq, Eq, Structural, Debug)]
pub enum PadAxis {
    LeftStickX,
    LeftStickY,
    LeftZ,
    RightStickX,
    RightStickY,
    RightZ,
    DPadX,
    DPadY,
    Unknown,
}

/// The protocol button a source button maps to, if any. Positional names
/// (South/East/North/West) land on B/A/X/Y as on the emulated layout.
pub open spec fn spec_button_input(button: PadButton) -> Option<usize> {
    match button {
        PadButton::South => Some(BUTTON_B),
        PadButton::East => Some(BUTTON_A),
        PadButton::North => Some(BUTTON_X),
        PadButton::West => Some(BUTTON_Y),
        PadButton::LeftTrigger => Some(BUTTON_L),
        PadButton::LeftTrigger2 => Some(BUTTON_ZL),
        PadButton::RightTrigger => Some(BUTTON_R),
        PadButton::RightTrigger2 => Some(BUTTON_ZR),
        PadButton::Select => Some(BUTTON_MINUS),
        PadButton::Start => Some(BUTTON_PLUS),
        PadButton::Mode => Some(BUTTON_HOME),
        PadButton::LeftThumb => Some(BUTTON_L_STICK),
        PadButton::RightThumb => Some(BUTTON_R_STICK),
        PadButton::DPadUp => Some(BUTTON_UP),
        PadButton::DPadDown => Some(BUTTON_DOWN),
        PadButton::DPadLeft => Some(BUTTON_LEFT),
        PadButton::DPadRight => Some(BUTTON_RIGHT),
        _ => None,
    }
}

/// The axis identifier a source axis maps to, if any.
pub open spec fn spec_axis_input(axis: PadAxis) -> Option<usize> {
    match axis {
        PadAxis::LeftStickX => Some(AXIS_LH),
        PadAxis::LeftStickY => Some(AXIS_LV),
        PadAxis::RightStickX => Some(AXIS_RH),
        PadAxis::RightStickY => Some(AXIS_RV),
        _ => None,
    }
}

/// Maps a source button to its protocol button id; `None` for kinds the
/// emulated controller has no bit for. Every id returned is in range.
pub fn get_button_input(button: PadButton) -> (r: Option<usize>)
    ensures
        r == spec_button_input(button),
        r is Some ==> r.unwrap() < NUM_BUTTONS,
{
    match button {
        PadButton::South => Some(BUTTON_B),
        PadButton::East => Some(BUTTON_A),
        PadButton::North => Some(BUTTON_X),
        PadButton::West => Some(BUTTON_Y),
        PadButton::LeftTrigger => Some(BUTTON_L),
        PadButton::LeftTrigger2 => Some(BUTTON_ZL),
        PadButton::RightTrigger => Some(BUTTON_R),
        PadButton::RightTrigger2 => Some(BUTTON_ZR),
        PadButton::Select => Some(BUTTON_MINUS),
        PadButton::Start => Some(BUTTON_PLUS),
        PadButton::Mode => Some(BUTTON_HOME),
        PadButton::LeftThumb => Some(BUTTON_L_STICK),
        PadButton::RightThumb => Some(BUTTON_R_STICK),
        PadButton::DPadUp => Some(BUTTON_UP),
        PadButton::DPadDown => Some(BUTTON_DOWN),
        PadButton::DPadLeft => Some(BUTTON_LEFT),
        PadButton::DPadRight => Some(BUTTON_RIGHT),
        _ => None,
    }
}

/// Maps a source axis to its axis identifier; `None` for kinds the
/// emulated controller has no axis for. Every id returned is in range.
pub fn get_axis_input(axis: PadAxis) -> (r: Option<usize>)
    ensures
        r == spec_axis_input(axis),
        r is Some ==> r.unwrap() < NUM_AXES,
{
    match axis {
        PadAxis::LeftStickX => Some(AXIS_LH),
        PadAxis::LeftStickY => Some(AXIS_LV),
        PadAxis::RightStickX => Some(AXIS_RH),
        PadAxis::RightStickY => Some(AXIS_RV),
        _ => None,
    }
}

} // verus!
