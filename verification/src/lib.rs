//! Firmware core for a wirelessly controlled LED bank and e-paper display.
//!
//! The crate holds the device's logic: the line-oriented command codec, the
//! indicator controller, the display controller with its framebuffer and
//! vendor-mandated bus sequences, the chunked-transfer reassembly protocol,
//! the command dispatcher, and the wireless-association supervisor.
//!
//! Hardware effects are modelled as data: the display controller emits the
//! exact sequence of bus operations (command byte, data byte, delay, reset
//! line, busy wait) that a driver must perform, and the indicator controller
//! tracks the requested level of each output line. The thin shell that owns
//! the sockets, queues and pins performs those effects.

pub mod chunk;
pub mod dispatch;
pub mod epd;
pub mod errors;
pub mod leds;
pub mod proto_parser;
pub mod supervisor;
