//! Core of a networked multiplayer ice-hockey game server: the match rules
//! engine (icing, offside, two-line pass, pass tracking, goal attribution),
//! the tick clock, faceoff resolution, per-connection session state, and the
//! bit-packed wire codec.
//!
//! All rink geometry is modelled in integer centimetres and all times in
//! centiseconds (one tick = one centisecond at the fixed 100 Hz cadence).
//! The floating-point physics simulation, the UDP socket and the system
//! clock live outside this crate; they communicate with it through plain
//! values (events, integer coordinates, quantised object packets).

pub mod bitio;
pub mod commands;
pub mod engine;
pub mod game;
pub mod positions;
pub mod server;
pub mod spots;
pub mod touch;
pub mod types;
pub mod wire;
