//! Core logic of a minimal three-state idle game: the state machine that
//! reacts to input, the per-tick input reduction, and the elapsed-time
//! formatter. The windowing, rendering and input-device layers live outside
//! this crate; everything here works on plain values and is verified.

pub mod input;
pub mod state;
pub mod time_format;
