//! Addressing, discovery and routing rules of a simulated P4 module network.
//!
//! A P4 consists of transmitters (basic, advanced, hub) whose COM modules
//! discover their neighbours over an external bus, hand out IPv4 addresses to
//! the system modules on their internal bus, and afterwards forward raw IPv4
//! packets between the buses.
#![allow(unused_imports)]

pub mod wire;
pub mod discovery;
pub mod codec;
pub mod com;
pub mod net;
