//! Validation of the textual settings of a packet sender: six raw strings in,
//! one checked configuration or one classified error out.
//!
//! The settings are the receiver and the sender (endpoints, `address:port`),
//! the duration, the waiting time and the periodicity (spans such as `5s` or
//! `1h 30min`) and the packet length (a number from 1 to 65000). They are
//! checked in the order length, receiver, sender, duration, waiting,
//! periodicity, and the first one that is refused is reported: see
//! [`config::outcome`] for the rule and [`laws`] for what follows from it.
//!
//! [`ArgsConfig::from_matches`] and [`ArgsConfig::try_from_matches`] take the
//! settings from a matched command line, [`ArgsConfig::build`] from six
//! texts.

pub mod args;
pub mod config;
pub mod duration;
pub mod endpoint;
pub mod laws;
pub mod length;
pub mod text;

pub use crate::config::{ArgsConfig, ArgsConfigError, RawArgs};
pub use crate::endpoint::{Endpoint, EndpointError};
pub use crate::length::{PacketLengthError, MAX_PACKET_LENGTH, MIN_PACKET_LENGTH};
