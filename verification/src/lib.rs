//! The network command layer of a small appliance that wakes other devices.
//!
//! It keeps a dynamic-DNS record pointed at the public address of the
//! appliance, and it answers requests to send a Wake-on-LAN magic packet,
//! over HTTP and over a UDP text protocol.
//!
//! Sockets, timers and pins are not part of this library. Wherever a service
//! alternates between waiting on the network and deciding what to do next,
//! the decisions are functions here, and a driver outside performs the
//! steps and reports their outcomes.

pub mod address;
pub mod config;
pub mod dns;
pub mod fields;
pub mod html;
pub mod http;
pub mod mac;
pub mod query;
pub mod readiness;
pub mod response;
pub mod retry;
pub mod socket_io;
pub mod switch;
pub mod text;
pub mod udp;
pub mod wake;
pub mod wifi;
pub mod wol;
