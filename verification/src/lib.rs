//! Verified core of a command-line controller for a network-attached
//! media-casting receiver.
//!
//! The receiver speaks an always-on, bidirectional message protocol with no
//! synchronous request/response pairing: a command triggers asynchronous
//! status pushes that the client must observe and react to.  This crate
//! holds everything that can be decided without touching the network:
//!
//! * the status model: typed snapshots of receiver and media state;
//! * the command resolution engine: a state machine that maps a requested
//!   command plus each inbound protocol event to the channel operations to
//!   perform next, and decides when the command is done;
//! * the rendering of the human-readable report lines;
//! * the device-discovery resolver that extracts candidate addresses from
//!   free-form scan text.
//!
//! The unverified binary around this library owns the socket, performs the
//! channel operations the engine asks for, and feeds the inbound frames
//! back in.

pub mod command;
pub mod discovery;
pub mod engine;
pub mod laws;
pub mod numbers;
pub mod render;
pub mod status;
