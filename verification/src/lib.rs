//! A cycle-stepped instruction-set simulator for an 8-bit handheld-console
//! CPU: a mirrored byte-addressable memory bus, a cycle-accounting timer with
//! periodic tickers and multi-phase sequencers, and a fetch-decode-execute
//! engine with bit-exact register and flag semantics.

pub mod bus;
pub mod cpu;
pub mod gameboy;
pub mod io;
pub mod timer;
