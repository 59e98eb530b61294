//! Controller facade: one object combining the controller state and the
//! communication channel, mirroring the lifecycle `create` ->
//! `start_comms` -> streaming -> `stop`.
//!
//! Mutation methods (`press`, `release`, `set_axis`) always succeed
//! locally, even after the transmit side has failed, so the input adapter
//! never blocks on transmission errors.

use vstd::prelude::*;
use crate::channel::{Channel, ChannelPhase, CommError, spec_stop, spec_transmit_ok};
use crate::report::{encode, encode_handshake, spec_handshake_report, spec_report};
use crate::state::{ControllerState, AXIS_CENTER_RAW, NUM_AXES, NUM_BUTTONS};

verus! {

/// The emulated Pro Controller: authoritative state, channel, and the
/// path of the gadget device file the surrounding program opens.
pub struct NsProcon {
    pub state: ControllerState,
    pub channel: Channel,
    pub device_path: String,
}

impl NsProcon {
    /// The facade is well formed exactly when its state snapshot is.
    pub open spec fn wf(self) -> bool {
        self.state.wf()
    }

    /// Builds a controller for the given device path and identity color.
    /// Never fails: all I/O is deferred to the channel transitions.
    pub fn create(path: &str, color: [u8; 3]) -> (p: NsProcon)
        ensures
            p.wf(),
            p.device_path@ == path@,
            p.channel.phase == ChannelPhase::Idle,
            p.channel.sequence == 0,
            forall|j: int| 0 <= j < NUM_BUTTONS ==> !p.state.buttons@[j],
            forall|j: int| 0 <= j < NUM_AXES ==> p.state.axes@[j] == AXIS_CENTER_RAW,
            p.state.color@ == color@,
    {
        NsProcon { state: ControllerState::new(color), channel: Channel::new(), device_path: path.to_string() }
    }

    /// Consumes the outcome of opening the device file: on success the
    /// handshake phase begins, otherwise `DeviceUnavailable` is surfaced
    /// and the controller stays Idle.
    pub fn start_comms(&mut self, opened: bool) -> (r: Result<(), CommError>)
        requires
            old(self).wf(),
            old(self).channel.phase == ChannelPhase::Idle,
        ensures
            final(self).wf(),
            final(self).state == old(self).state,
            final(self).device_path == old(self).device_path,
            final(self).channel.sequence == old(self).channel.sequence,
            opened ==> final(self).channel.phase == ChannelPhase::Handshaking && r is Ok,
            !opened ==> final(self).channel.phase == ChannelPhase::Idle && r == Err::<
                (),
                CommError,
            >(CommError::DeviceUnavailable),
    {
        self.channel.opened(opened)
    }

    /// The identification report to write while handshaking: it carries
    /// the controller's identity color.
    pub fn handshake_report(&self) -> (r: Vec<u8>)
        requires
            self.wf(),
            self.channel.phase == ChannelPhase::Handshaking,
        ensures
            r@ == spec_handshake_report(self.state.color@),
    {
        encode_handshake(&self.state.color)
    }

    /// Consumes the outcome of writing the identification report: on
    /// success streaming begins, otherwise the controller is Stopped and
    /// `HandshakeFailed` is surfaced.
    pub fn handshake_sent(&mut self, ok: bool) -> (r: Result<(), CommError>)
        requires
            old(self).wf(),
            old(self).channel.phase == ChannelPhase::Handshaking,
        ensures
            final(self).wf(),
            final(self).state == old(self).state,
            final(self).device_path == old(self).device_path,
            final(self).channel.sequence == old(self).channel.sequence,
            ok ==> final(self).channel.phase == ChannelPhase::Streaming && r is Ok,
            !ok ==> final(self).channel.phase == ChannelPhase::Stopped && r == Err::<
                (),
                CommError,
            >(CommError::HandshakeFailed),
    {
        self.channel.handshake_sent(ok)
    }

    /// Encodes the report of the current tick: the present snapshot
    /// stamped with the present sequence counter. A heartbeat: it is
    /// produced whether or not the state changed since the last tick.
    pub fn next_report(&self) -> (r: Vec<u8>)
        requires
            self.wf(),
            self.channel.phase == ChannelPhase::Streaming,
        ensures
            r@ == spec_report(self.state.buttons@, self.state.axes@, self.channel.sequence),
    {
        encode(&self.state, self.channel.sequence)
    }

    /// Consumes the outcome of one steady-state write: on success the
    /// sequence counter advances (wrapping modulo 256), otherwise the
    /// controller is Stopped — terminal for this instance — and
    /// `TransmitFailed` is surfaced.
    pub fn report_sent(&mut self, ok: bool) -> (r: Result<(), CommError>)
        requires
            old(self).wf(),
            old(self).channel.phase == ChannelPhase::Streaming,
        ensures
            final(self).wf(),
            final(self).state == old(self).state,
            final(self).device_path == old(self).device_path,
            ok ==> final(self).channel == spec_transmit_ok(old(self).channel) && r is Ok,
            !ok ==> final(self).channel == spec_stop(old(self).channel) && r == Err::<
                (),
                CommError,
            >(CommError::TransmitFailed),
    {
        self.channel.report_sent(ok)
    }

    /// Signals loop termination: the channel is Stopped whatever phase it
    /// was in, nothing else changes, and repeating the call is a no-op.
    pub fn stop(&mut self)
        requires
            old(self).wf(),
        ensures
            final(self).wf(),
            final(self).state == old(self).state,
            final(self).device_path == old(self).device_path,
            final(self).channel == spec_stop(old(self).channel),
    {
        self.channel.stop()
    }

    /// Sets or clears one button bit; a silent no-op on an unrecognized
    /// id. Always succeeds locally, whatever the channel phase.
    pub fn press(&mut self, id: usize, value: bool)
        requires
            old(self).wf(),
        ensures
            final(self).wf(),
            final(self).channel == old(self).channel,
            final(self).device_path == old(self).device_path,
            id < NUM_BUTTONS ==> final(self).state.buttons@ == old(self).state.buttons@.update(
                id as int,
                value,
            ),
            id >= NUM_BUTTONS ==> final(self).state.buttons@ == old(self).state.buttons@,
            final(self).state.axes@ == old(self).state.axes@,
            final(self).state.color@ == old(self).state.color@,
    {
        self.state.press(id, value)
    }

    /// Clears one button bit: `release(id)` is `press(id, false)`.
    pub fn release(&mut self, id: usize)
        requires
            old(self).wf(),
        ensures
            final(self).wf(),
            final(self).channel == old(self).channel,
            final(self).device_path == old(self).device_path,
            id < NUM_BUTTONS ==> final(self).state.buttons@ == old(self).state.buttons@.update(
                id as int,
                false,
            ),
            id >= NUM_BUTTONS ==> final(self).state.buttons@ == old(self).state.buttons@,
            final(self).state.axes@ == old(self).state.axes@,
            final(self).state.color@ == old(self).state.color@,
    {
        self.state.press(id, false)
    }

    /// Stores a raw analog value; a silent no-op on an unrecognized id.
    /// Always succeeds locally, whatever the channel phase.
    pub fn set_axis(&mut self, id: usize, value: u16)
        requires
            old(self).wf(),
        ensures
            final(self).wf(),
            final(self).channel == old(self).channel,
            final(self).device_path == old(self).device_path,
            id < NUM_AXES ==> final(self).state.axes@ == old(self).state.axes@.update(
                id as int,
                value,
            ),
            id >= NUM_AXES ==> final(self).state.axes@ == old(self).state.axes@,
            final(self).state.buttons@ == old(self).state.buttons@,
            final(self).state.color@ == old(self).state.color@,
    {
        self.state.set_axis(id, value)
    }

    /// True exactly while streaming: the transmit loop keeps running as
    /// long as this holds.
    pub fn is_streaming(&self) -> (r: bool)
        ensures
            r == (self.channel.phase == ChannelPhase::Streaming),
    {
        self.channel.is_streaming()
    }

    /// The path of the gadget device file this controller targets.
    pub fn path(&self) -> (r: &str)
        ensures
            r@ == self.device_path@,
    {
        self.device_path.as_str()
    }
}

} // verus!
