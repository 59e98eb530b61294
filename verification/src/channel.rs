//! Communication channel state machine: Idle -> Handshaking -> Streaming ->
//! Stopped, with the sequence counter the transmit loop stamps into each
//! report.
//!
//! The channel itself never touches the device file. The surrounding
//! program opens the file and writes the reports; it reports each outcome
//! back through `opened`, `handshake_sent` and `report_sent`, and the
//! channel decides the next phase and surfaces the typed error.

use vstd::prelude::*;
use vstd::arithmetic::div_mod::lemma_add_mod_noop;

verus! {

/// Phase of the communication channel.
#[derive(Clone, Copy, PartialEq, Eq, Structural, Debug)]
pub enum ChannelPhase {
    /// No device handle open.
    Idle,
    /// Handle open, identification report not yet acknowledged as written.
    Handshaking,
    /// Steady-state: one report per tick.
    Streaming,
    /// Terminal: stopped by request or by a failed write.
    Stopped,
}

/// Typed outcome of a failed channel operation.
#[derive(Clone, Copy, PartialEq, Eq, Structural, Debug)]
pub enum CommError {
    /// The device file could not be opened: host not attached or not ready.
    DeviceUnavailable,
    /// The identification report could not be written during setup.
    HandshakeFailed,
    /// A steady-state write failed: host disconnected or gadget reset.
    TransmitFailed,
}

/// The channel: current phase plus the report sequence counter.
pub struct Channel {
    pub phase: ChannelPhase,
    pub sequence: u8,
}

/// The sequence counter after one successfully transmitted report: it
/// wraps modulo 256.
pub open spec fn spec_next_sequence(s: u8) -> u8 {
    ((s as int + 1) % 256) as u8
}

/// The channel after one successful steady-state transmission.
pub open spec fn spec_transmit_ok(c: Channel) -> Channel {
    Channel { phase: c.phase, sequence: spec_next_sequence(c.sequence) }
}

/// The channel after `k` consecutive successful transmissions.
pub open spec fn spec_stream(c: Channel, k: nat) -> Channel
    decreases k,
{
    if k == 0 {
        c
    } else {
        spec_transmit_ok(spec_stream(c, (k - 1) as nat))
    }
}

/// The channel after `stop`: the phase is Stopped, the counter keeps its
/// value.
pub open spec fn spec_stop(c: Channel) -> Channel {
    Channel { phase: ChannelPhase::Stopped, sequence: c.sequence }
}

impl Channel {
    /// A fresh channel: no handle open, counter at zero.
    pub fn new() -> (c: Channel)
        ensures
            c.phase == ChannelPhase::Idle,
            c.sequence == 0,
    {
        Channel { phase: ChannelPhase::Idle, sequence: 0 }
    }

    /// Consumes the outcome of opening the device file. On success the
    /// handshake begins; on failure the channel stays Idle and the error
    /// names the unavailable device.
    pub fn opened(&mut self, ok: bool) -> (r: Result<(), CommError>)
        requires
            old(self).phase == ChannelPhase::Idle,
        ensures
            final(self).sequence == old(self).sequence,
            ok ==> final(self).phase == ChannelPhase::Handshaking && r is Ok,
            !ok ==> final(self).phase == ChannelPhase::Idle && r == Err::<(), CommError>(
                CommError::DeviceUnavailable,
            ),
    {
        if ok {
            self.phase = ChannelPhase::Handshaking;
            Ok(())
        } else {
            Err(CommError::DeviceUnavailable)
        }
    }

    /// Consumes the outcome of writing the identification report. On
    /// success streaming begins; on failure the channel is Stopped and the
    /// error names the failed handshake.
    pub fn handshake_sent(&mut self, ok: bool) -> (r: Result<(), CommError>)
        requires
            old(self).phase == ChannelPhase::Handshaking,
        ensures
            final(self).sequence == old(self).sequence,
            ok ==> final(self).phase == ChannelPhase::Streaming && r is Ok,
            !ok ==> final(self).phase == ChannelPhase::Stopped && r == Err::<(), CommError>(
                CommError::HandshakeFailed,
            ),
    {
        if ok {
            self.phase = ChannelPhase::Streaming;
            Ok(())
        } else {
            self.phase = ChannelPhase::Stopped;
            Err(CommError::HandshakeFailed)
        }
    }

    /// Consumes the outcome of one steady-state write. On success the
    /// counter advances (wrapping modulo 256) and streaming goes on; on
    /// failure the channel is Stopped — terminal for this instance — and
    /// the error names the failed transmission.
    pub fn report_sent(&mut self, ok: bool) -> (r: Result<(), CommError>)
        requires
            old(self).phase == ChannelPhase::Streaming,
        ensures
            ok ==> *final(self) == spec_transmit_ok(*old(self)) && r is Ok,
            !ok ==> *final(self) == spec_stop(*old(self)) && r == Err::<(), CommError>(
                CommError::TransmitFailed,
            ),
    {
        if ok {
            self.sequence = if self.sequence == 255 {
                0
            } else {
                self.sequence + 1
            };
            Ok(())
        } else {
            self.phase = ChannelPhase::Stopped;
            Err(CommError::TransmitFailed)
        }
    }

    /// Signals termination: the channel is Stopped whatever phase it was
    /// in, and nothing else changes. Safe to call repeatedly.
    pub fn stop(&mut self)
        ensures
            *final(self) == spec_stop(*old(self)),
    {
        self.phase = ChannelPhase::Stopped;
    }

    /// True exactly in the Streaming phase: one report may be encoded and
    /// written per tick.
    pub fn is_streaming(&self) -> (r: bool)
        ensures
            r == (self.phase == ChannelPhase::Streaming),
    {
        match self.phase {
            ChannelPhase::Streaming => true,
            _ => false,
        }
    }
}

/// Sequence monotonicity: over `k` consecutive successful transmissions
/// with no stop or error, the channel keeps streaming and the counter of
/// the report produced at tick `k` is `(initial + k) mod 256`.
pub proof fn lemma_sequence_monotonic(c: Channel, k: nat)
    requires
        c.phase == ChannelPhase::Streaming,
    ensures
        spec_stream(c, k).phase == ChannelPhase::Streaming,
        spec_stream(c, k).sequence as int == (c.sequence as int + k) % 256,
    decreases k,
{
    if k == 0 {
        assert((c.sequence as int) % 256 == c.sequence as int);
    } else {
        lemma_sequence_monotonic(c, (k - 1) as nat);
        let prev = spec_stream(c, (k - 1) as nat);
        lemma_add_mod_noop(c.sequence as int + (k - 1), 1, 256);
        assert(1int % 256 == 1);
        assert(prev.sequence as int % 256 == prev.sequence as int);
    }
}

/// Idempotent stop: stopping an already stopped channel is a no-op — the
/// channel stays Stopped and keeps its counter.
pub proof fn lemma_stop_idempotent(c: Channel)
    ensures
        spec_stop(spec_stop(c)) == spec_stop(c),
        spec_stop(c).phase == ChannelPhase::Stopped,
{
}

} // verus!
