//! A bridge from audio-endpoint volume notifications to webhook triggers.
//!
//! The library holds the verified core of the bridge: the process-wide
//! last-dispatched state, the reducer that turns a raw notification into a
//! dispatch plan, the truncation of a fractional volume level to an integer
//! percentage, and the construction of the outbound trigger URLs and the
//! JSON body of the volume trigger. Platform binding and the HTTP transport
//! live outside the library and consume plain values from it.

pub mod bridge;
pub mod state;
pub mod volume;
pub mod wire;
