//! Verified protocol and peripheral logic for a hardware-in-the-loop test
//! controller.
//!
//! Remote clients send 4-byte command words and receive 2-byte results; the
//! server serializes access to each physical test-board peripheral (serial
//! bus, digital-to-analog converter, two relay lines, a timed-pulse signal
//! generator, and an edge-detection monitor). This crate holds the
//! bit-exact protocol and peripheral algorithms: command decoding and
//! routing, per-half parity adjustment, bus transaction planning, converter
//! framing and response folding, relay levels, the signal generator's
//! register bank and GCD-quantized waveform patterns, and the edge
//! monitor's counting state machine. The unverified binary around it does
//! the socket, channel, pin and process I/O.

pub mod bus;
pub mod bytes;
pub mod converter;
pub mod monitor;
pub mod parity;
pub mod relay;
pub mod tnr;
pub mod waveform;
pub mod wire;
