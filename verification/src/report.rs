//! Report encoder: turns a controller snapshot and a sequence counter into
//! the fixed-size binary HID report the host expects, and builds the
//! identification report sent during the handshake.

use vstd::prelude::*;
use vstd::arithmetic::div_mod::lemma_fundamental_div_mod;
use crate::state::{ControllerState, AXIS_CENTER_RAW, NUM_AXES, NUM_BUTTONS};

verus! {

/// Every report written to the gadget file has this length.
pub const REPORT_LEN: usize = 64;

/// Type byte of a full input report.
pub const REPORT_TYPE: u8 = 0x30;

/// Battery-full / wired-connection status byte of a full input report.
pub const STATUS_BYTE: u8 = 0x91;

/// Type byte of the handshake identification report.
pub const HANDSHAKE_TYPE: u8 = 0x81;

/// Subtype byte of the handshake identification report.
pub const HANDSHAKE_SUBTYPE: u8 = 0x01;

/// Largest packed 12-bit analog value.
pub const AXIS_MAX_PACKED: u16 = 4095;

/// Packed analog value of a centered stick.
pub const AXIS_CENTER_PACKED: u16 = 2048;

/// Weight a button flag contributes to its byte.
pub open spec fn bool_weight(b: bool, w: int) -> int {
    if b {
        w
    } else {
        0
    }
}

/// One button byte: the eight flags starting at `base`, least significant
/// bit first.
pub open spec fn spec_button_byte(s: Seq<bool>, base: int) -> int {
    bool_weight(s[base], 1) + bool_weight(s[base + 1], 2) + bool_weight(s[base + 2], 4)
        + bool_weight(s[base + 3], 8) + bool_weight(s[base + 4], 16) + bool_weight(s[base + 5], 32)
        + bool_weight(s[base + 6], 64) + bool_weight(s[base + 7], 128)
}

pub proof fn lemma_button_byte_bounds(s: Seq<bool>, base: int)
    ensures
        0 <= spec_button_byte(s, base) <= 255,
{
}

/// A raw 16-bit axis value scaled down to the protocol's 12-bit resolution.
pub open spec fn spec_axis12(v: u16) -> int {
    v as int / 16
}

/// Byte `i` of the full input report for the given button flags, raw axis
/// values and sequence counter. Layout: type byte, sequence, status, three
/// button bytes, each stick packed as two 12-bit values in three bytes,
/// zero padding to `REPORT_LEN`.
pub open spec fn spec_report_byte(b: Seq<bool>, a: Seq<u16>, seq: u8, i: int) -> u8 {
    if i == 0 {
        REPORT_TYPE
    } else if i == 1 {
        seq
    } else if i == 2 {
        STATUS_BYTE
    } else if i == 3 {
        spec_button_byte(b, 0) as u8
    } else if i == 4 {
        spec_button_byte(b, 8) as u8
    } else if i == 5 {
        spec_button_byte(b, 16) as u8
    } else if i == 6 {
        (spec_axis12(a[0]) % 256) as u8
    } else if i == 7 {
        (spec_axis12(a[0]) / 256 + (spec_axis12(a[1]) % 16) * 16) as u8
    } else if i == 8 {
        (spec_axis12(a[1]) / 16) as u8
    } else if i == 9 {
        (spec_axis12(a[2]) % 256) as u8
    } else if i == 10 {
        (spec_axis12(a[2]) / 256 + (spec_axis12(a[3]) % 16) * 16) as u8
    } else if i == 11 {
        (spec_axis12(a[3]) / 16) as u8
    } else {
        0
    }
}

/// The whole full input report.
pub open spec fn spec_report(b: Seq<bool>, a: Seq<u16>, seq: u8) -> Seq<u8> {
    Seq::new(REPORT_LEN as nat, |i: int| spec_report_byte(b, a, seq, i))
}

/// Byte `i` of the handshake identification report: type byte, subtype,
/// the three color bytes, zero padding to `REPORT_LEN`.
pub open spec fn spec_handshake_byte(color: Seq<u8>, i: int) -> u8 {
    if i == 0 {
        HANDSHAKE_TYPE
    } else if i == 1 {
        HANDSHAKE_SUBTYPE
    } else if 2 <= i < 5 {
        color[i - 2]
    } else {
        0
    }
}

/// The whole handshake identification report.
pub open spec fn spec_handshake_report(color: Seq<u8>) -> Seq<u8> {
    Seq::new(REPORT_LEN as nat, |i: int| spec_handshake_byte(color, i))
}

fn button_byte(buttons: &Vec<bool>, base: usize) -> (r: u8)
    requires
        buttons@.len() == NUM_BUTTONS,
        base + 8 <= NUM_BUTTONS,
    ensures
        r as int == spec_button_byte(buttons@, base as int),
{
    let b0: u8 = if buttons[base] { 1 } else { 0 };
    let b1: u8 = if buttons[base + 1] { 2 } else { 0 };
    let b2: u8 = if buttons[base + 2] { 4 } else { 0 };
    let b3: u8 = if buttons[base + 3] { 8 } else { 0 };
    let b4: u8 = if buttons[base + 4] { 16 } else { 0 };
    let b5: u8 = if buttons[base + 5] { 32 } else { 0 };
    let b6: u8 = if buttons[base + 6] { 64 } else { 0 };
    let b7: u8 = if buttons[base + 7] { 128 } else { 0 };
    b0 + b1 + b2 + b3 + b4 + b5 + b6 + b7
}

fn axis12(v: u16) -> (r: u16)
    ensures
        r as int == spec_axis12(v),
        r <= AXIS_MAX_PACKED,
{
    v / 16
}

/// Byte `i` of the full input report, computed from the live state.
fn report_byte(state: &ControllerState, seq: u8, i: usize) -> (r: u8)
    requires
        state.wf(),
        i < REPORT_LEN,
    ensures
        r == spec_report_byte(state.buttons@, state.axes@, seq, i as int),
{
    if i == 0 {
        REPORT_TYPE
    } else if i == 1 {
        seq
    } else if i == 2 {
        STATUS_BYTE
    } else if i == 3 {
        button_byte(&state.buttons, 0)
    } else if i == 4 {
        button_byte(&state.buttons, 8)
    } else if i == 5 {
        button_byte(&state.buttons, 16)
    } else if i == 6 {
        (axis12(state.axes[0]) % 256) as u8
    } else if i == 7 {
        (axis12(state.axes[0]) / 256 + (axis12(state.axes[1]) % 16) * 16) as u8
    } else if i == 8 {
        (axis12(state.axes[1]) / 16) as u8
    } else if i == 9 {
        (axis12(state.axes[2]) % 256) as u8
    } else if i == 10 {
        (axis12(state.axes[2]) / 256 + (axis12(state.axes[3]) % 16) * 16) as u8
    } else if i == 11 {
        (axis12(state.axes[3]) / 16) as u8
    } else {
        0
    }
}

/// Encodes one full input report. Pure: the bytes are a function of the
/// snapshot and the sequence counter alone, so repeated calls on equal
/// arguments return identical buffers.
pub fn encode(state: &ControllerState, seq: u8) -> (r: Vec<u8>)
    requires
        state.wf(),
    ensures
        r@ == spec_report(state.buttons@, state.axes@, seq),
{
    let mut r: Vec<u8> = Vec::new();
    let mut i: usize = 0;
    while i < REPORT_LEN
        invariant
            state.wf(),
            i <= REPORT_LEN,
            r@.len() == i,
            forall|j: int|
                0 <= j < i ==> r@[j] == spec_report_byte(state.buttons@, state.axes@, seq, j),
        decreases REPORT_LEN - i,
    {
        let b: u8 = report_byte(state, seq, i);
        r.push(b);
        i += 1;
    }
    proof {
        assert(r@ =~= spec_report(state.buttons@, state.axes@, seq));
    }
    r
}

/// Builds the handshake identification report carrying the given color.
pub fn encode_handshake(color: &[u8; 3]) -> (r: Vec<u8>)
    ensures
        r@ == spec_handshake_report(color@),
{
    let mut r: Vec<u8> = Vec::new();
    r.push(HANDSHAKE_TYPE);
    r.push(HANDSHAKE_SUBTYPE);
    r.push(color[0]);
    r.push(color[1]);
    r.push(color[2]);
    let mut i: usize = 5;
    while i < REPORT_LEN
        invariant
            5 <= i <= REPORT_LEN,
            r@.len() == i,
            forall|j: int| 0 <= j < i ==> r@[j] == spec_handshake_byte(color@, j),
        decreases REPORT_LEN - i,
    {
        r.push(0);
        i += 1;
    }
    proof {
        assert(r@ =~= spec_handshake_report(color@));
    }
    r
}

/// Weight of bit `j` of a button byte.
pub open spec fn pow2_bit(j: int) -> int {
    if j == 0 {
        1
    } else if j == 1 {
        2
    } else if j == 2 {
        4
    } else if j == 3 {
        8
    } else if j == 4 {
        16
    } else if j == 5 {
        32
    } else if j == 6 {
        64
    } else {
        128
    }
}

/// Whether bit `j` of `byte` is set.
pub open spec fn spec_bit_of(byte: int, j: int) -> bool {
    (byte / pow2_bit(j)) % 2 == 1
}

/// Whether the report carries protocol button `id` as pressed: bit
/// `id % 8` of button byte `id / 8`.
pub open spec fn spec_report_button(r: Seq<u8>, id: int) -> bool {
    spec_bit_of(r[3 + id / 8] as int, id % 8)
}

/// Bit `j` of a button byte is exactly the flag it was packed from.
pub proof fn lemma_button_byte_bit(s: Seq<bool>, base: int, j: int)
    requires
        0 <= base,
        base + 8 <= s.len(),
        0 <= j < 8,
    ensures
        spec_bit_of(spec_button_byte(s, base), j) == s[base + j],
{
    let c0: u8 = if s[base] { 1 } else { 0 };
    let c1: u8 = if s[base + 1] { 1 } else { 0 };
    let c2: u8 = if s[base + 2] { 1 } else { 0 };
    let c3: u8 = if s[base + 3] { 1 } else { 0 };
    let c4: u8 = if s[base + 4] { 1 } else { 0 };
    let c5: u8 = if s[base + 5] { 1 } else { 0 };
    let c6: u8 = if s[base + 6] { 1 } else { 0 };
    let c7: u8 = if s[base + 7] { 1 } else { 0 };
    assert(spec_button_byte(s, base) == c0 + 2 * c1 + 4 * c2 + 8 * c3 + 16 * c4 + 32 * c5 + 64
        * c6 + 128 * c7);
    if j == 0 {
        assert((c0 + 2 * c1 + 4 * c2 + 8 * c3 + 16 * c4 + 32 * c5 + 64 * c6 + 128 * c7) / 1 % 2
            == c0) by (bit_vector)
            requires
                c0 <= 1 && c1 <= 1 && c2 <= 1 && c3 <= 1 && c4 <= 1 && c5 <= 1 && c6 <= 1 && c7
                    <= 1,
        ;
    } else if j == 1 {
        assert((c0 + 2 * c1 + 4 * c2 + 8 * c3 + 16 * c4 + 32 * c5 + 64 * c6 + 128 * c7) / 2 % 2
            == c1) by (bit_vector)
            requires
                c0 <= 1 && c1 <= 1 && c2 <= 1 && c3 <= 1 && c4 <= 1 && c5 <= 1 && c6 <= 1 && c7
                    <= 1,
        ;
    } else if j == 2 {
        assert((c0 + 2 * c1 + 4 * c2 + 8 * c3 + 16 * c4 + 32 * c5 + 64 * c6 + 128 * c7) / 4 % 2
            == c2) by (bit_vector)
            requires
                c0 <= 1 && c1 <= 1 && c2 <= 1 && c3 <= 1 && c4 <= 1 && c5 <= 1 && c6 <= 1 && c7
                    <= 1,
        ;
    } else if j == 3 {
        assert((c0 + 2 * c1 + 4 * c2 + 8 * c3 + 16 * c4 + 32 * c5 + 64 * c6 + 128 * c7) / 8 % 2
            == c3) by (bit_vector)
            requires
                c0 <= 1 && c1 <= 1 && c2 <= 1 && c3 <= 1 && c4 <= 1 && c5 <= 1 && c6 <= 1 && c7
                    <= 1,
        ;
    } else if j == 4 {
        assert((c0 + 2 * c1 + 4 * c2 + 8 * c3 + 16 * c4 + 32 * c5 + 64 * c6 + 128 * c7) / 16 % 2
            == c4) by (bit_vector)
            requires
                c0 <= 1 && c1 <= 1 && c2 <= 1 && c3 <= 1 && c4 <= 1 && c5 <= 1 && c6 <= 1 && c7
                    <= 1,
        ;
    } else if j == 5 {
        assert((c0 + 2 * c1 + 4 * c2 + 8 * c3 + 16 * c4 + 32 * c5 + 64 * c6 + 128 * c7) / 32 % 2
            == c5) by (bit_vector)
            requires
                c0 <= 1 && c1 <= 1 && c2 <= 1 && c3 <= 1 && c4 <= 1 && c5 <= 1 && c6 <= 1 && c7
                    <= 1,
        ;
    } else if j == 6 {
        assert((c0 + 2 * c1 + 4 * c2 + 8 * c3 + 16 * c4 + 32 * c5 + 64 * c6 + 128 * c7) / 64 % 2
            == c6) by (bit_vector)
            requires
                c0 <= 1 && c1 <= 1 && c2 <= 1 && c3 <= 1 && c4 <= 1 && c5 <= 1 && c6 <= 1 && c7
                    <= 1,
        ;
    } else {
        assert((c0 + 2 * c1 + 4 * c2 + 8 * c3 + 16 * c4 + 32 * c5 + 64 * c6 + 128 * c7) / 128 % 2
            == c7) by (bit_vector)
            requires
                c0 <= 1 && c1 <= 1 && c2 <= 1 && c3 <= 1 && c4 <= 1 && c5 <= 1 && c6 <= 1 && c7
                    <= 1,
        ;
    }
}

/// Encoding determinism: the report is a function of the snapshot and the
/// sequence counter alone, so two encodings of equal inputs are identical
/// byte for byte.
pub proof fn lemma_encode_deterministic(
    b: Seq<bool>,
    a: Seq<u16>,
    seq: u8,
    r1: Seq<u8>,
    r2: Seq<u8>,
)
    requires
        r1 == spec_report(b, a, seq),
        r2 == spec_report(b, a, seq),
    ensures
        r1 == r2,
{
}

/// The button byte a protocol button lands in, related to its report
/// position: button `id` is carried by report byte `3 + id / 8`.
pub proof fn lemma_report_carries_button(b: Seq<bool>, a: Seq<u16>, seq: u8, id: int)
    requires
        b.len() == NUM_BUTTONS,
        0 <= id < NUM_BUTTONS,
    ensures
        spec_report_button(spec_report(b, a, seq), id) == b[id],
{
    let base = 8 * (id / 8);
    lemma_fundamental_div_mod(id, 8);
    lemma_button_byte_bounds(b, base);
    lemma_button_byte_bit(b, base, id % 8);
    assert(spec_report(b, a, seq)[3 + id / 8] == spec_button_byte(b, base) as u8);
}

/// Button round-trip: pressing (or releasing) button `id` and then
/// encoding sets (clears) exactly the report bit of `id`; every other
/// button bit reads as it did before the press.
pub proof fn lemma_button_round_trip(b: Seq<bool>, a: Seq<u16>, seq: u8, id: int, value: bool)
    requires
        b.len() == NUM_BUTTONS,
        0 <= id < NUM_BUTTONS,
    ensures
        spec_report_button(spec_report(b.update(id, value), a, seq), id) == value,
        forall|j: int|
            0 <= j < NUM_BUTTONS && j != id ==> spec_report_button(
                spec_report(b.update(id, value), a, seq),
                j,
            ) == spec_report_button(spec_report(b, a, seq), j),
{
    let nb = b.update(id, value);
    lemma_report_carries_button(nb, a, seq, id);
    assert forall|j: int| 0 <= j < NUM_BUTTONS && j != id implies spec_report_button(
        spec_report(nb, a, seq),
        j,
    ) == spec_report_button(spec_report(b, a, seq), j) by {
        lemma_report_carries_button(nb, a, seq, j);
        lemma_report_carries_button(b, a, seq, j);
    }
}

/// Axis scaling boundaries: raw 0 packs to the protocol minimum, raw
/// 65535 to the protocol maximum, and the raw midpoint to the protocol
/// center within one unit.
pub proof fn lemma_axis_scaling_boundaries()
    ensures
        spec_axis12(0) == 0,
        spec_axis12(65535) == AXIS_MAX_PACKED,
        spec_axis12(AXIS_CENTER_RAW) == AXIS_CENTER_PACKED,
        AXIS_CENTER_PACKED - 1 <= spec_axis12(32767) <= AXIS_CENTER_PACKED,
{
}

} // verus!
