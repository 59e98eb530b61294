//! Verified core of a Switch Pro Controller emulator.
//!
//! The crate keeps an authoritative controller state (buttons, analog
//! sticks, identity color), encodes it into the fixed-size binary HID
//! report the host console expects, and drives the handshake/streaming
//! state machine of the communication channel. All device-file I/O and
//! input-device polling live outside this crate: the surrounding program
//! opens the gadget file, writes the reports this crate produces, and
//! feeds the write outcomes back into the channel's transition methods.

pub mod state;
pub mod report;
pub mod channel;
pub mod procon;
pub mod input_map;
