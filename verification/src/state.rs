//! Authoritative controller state: button bits, analog axes, identity color.

use vstd::prelude::*;

verus! {

/// Bit index of each named button inside the report's three button bytes.
/// Index `i` lands in button byte `i / 8`, bit `i % 8`, matching the Pro
/// Controller's standard full-report layout.
pub const BUTTON_Y: usize = 0;

pub const BUTTON_X: usize = 1;

pub const BUTTON_B: usize = 2;

pub const BUTTON_A: usize = 3;

pub const BUTTON_R: usize = 6;

pub const BUTTON_ZR: usize = 7;

pub const BUTTON_MINUS: usize = 8;

pub const BUTTON_PLUS: usize = 9;

pub const BUTTON_R_STICK: usize = 10;

pub const BUTTON_L_STICK: usize = 11;

pub const BUTTON_HOME: usize = 12;

pub const BUTTON_CAPTURE: usize = 13;

pub const BUTTON_DOWN: usize = 16;

pub const BUTTON_UP: usize = 17;

pub const BUTTON_RIGHT: usize = 18;

pub const BUTTON_LEFT: usize = 19;

pub const BUTTON_L: usize = 22;

pub const BUTTON_ZL: usize = 23;

/// Number of button bits carried by the report (three bytes).
pub const NUM_BUTTONS: usize = 24;

/// Axis identifiers: left/right stick, horizontal/vertical.
pub const AXIS_LH: usize = 0;

pub const AXIS_LV: usize = 1;

pub const AXIS_RH: usize = 2;

pub const AXIS_RV: usize = 3;

/// Number of analog axes.
pub const NUM_AXES: usize = 4;

/// Raw 16-bit axis value of a centered stick.
pub const AXIS_CENTER_RAW: u16 = 32768;

/// One complete, report-producible snapshot of the emulated controller.
///
/// `buttons[i]` is the pressed flag of protocol bit `i`; `axes` holds the
/// raw 16-bit analog values; `color` is the RGB identity sent during the
/// handshake.
pub struct ControllerState {
    pub buttons: Vec<bool>,
    pub axes: Vec<u16>,
    pub color: [u8; 3],
}

impl ControllerState {
    /// The state always holds exactly one flag per button bit and one raw
    /// value per axis; constructors establish this and mutators keep it.
    pub open spec fn wf(self) -> bool {
        &&& self.buttons@.len() == NUM_BUTTONS
        &&& self.axes@.len() == NUM_AXES
    }

    /// Fresh state: nothing pressed, both sticks centered, the given color.
    pub fn new(color: [u8; 3]) -> (s: ControllerState)
        ensures
            s.wf(),
            forall|j: int| 0 <= j < NUM_BUTTONS ==> !s.buttons@[j],
            forall|j: int| 0 <= j < NUM_AXES ==> s.axes@[j] == AXIS_CENTER_RAW,
            s.color@ == color@,
    {
        let mut buttons: Vec<bool> = Vec::new();
        let mut i: usize = 0;
        while i < NUM_BUTTONS
            invariant
                i <= NUM_BUTTONS,
                buttons@.len() == i,
                forall|j: int| 0 <= j < i ==> !buttons@[j],
            decreases NUM_BUTTONS - i,
        {
            buttons.push(false);
            i += 1;
        }
        let mut axes: Vec<u16> = Vec::new();
        let mut k: usize = 0;
        while k < NUM_AXES
            invariant
                k <= NUM_AXES,
                axes@.len() == k,
                forall|j: int| 0 <= j < k ==> axes@[j] == AXIS_CENTER_RAW,
            decreases NUM_AXES - k,
        {
            axes.push(AXIS_CENTER_RAW);
            k += 1;
        }
        ControllerState { buttons, axes, color }
    }

    /// Sets or clears one button bit. An unrecognized id is a silent no-op,
    /// so an input adapter may fire-and-forget.
    pub fn press(&mut self, id: usize, value: bool)
        requires
            old(self).wf(),
        ensures
            final(self).wf(),
            id < NUM_BUTTONS ==> final(self).buttons@ == old(self).buttons@.update(
                id as int,
                value,
            ),
            id >= NUM_BUTTONS ==> final(self).buttons@ == old(self).buttons@,
            final(self).axes@ == old(self).axes@,
            final(self).color@ == old(self).color@,
    {
        if id < NUM_BUTTONS {
            self.buttons[id] = value;
        }
    }

    /// Stores a raw analog value for later encoding; no clamping beyond the
    /// type's natural range. An unrecognized id is a silent no-op.
    pub fn set_axis(&mut self, id: usize, value: u16)
        requires
            old(self).wf(),
        ensures
            final(self).wf(),
            id < NUM_AXES ==> final(self).axes@ == old(self).axes@.update(id as int, value),
            id >= NUM_AXES ==> final(self).axes@ == old(self).axes@,
            final(self).buttons@ == old(self).buttons@,
            final(self).color@ == old(self).color@,
    {
        if id < NUM_AXES {
            self.axes[id] = value;
        }
    }

    /// Reads one button flag.
    pub fn is_pressed(&self, id: usize) -> (r: bool)
        requires
            self.wf(),
            id < NUM_BUTTONS,
        ensures
            r == self.buttons@[id as int],
    {
        self.buttons[id]
    }

    /// Reads one raw axis value.
    pub fn axis(&self, id: usize) -> (r: u16)
        requires
            self.wf(),
            id < NUM_AXES,
        ensures
            r == self.axes@[id as int],
    {
        self.axes[id]
    }
}

} // verus!
