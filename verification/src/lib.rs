//! Wire-format codec and message receiver for the Real-Time Publish-Subscribe
//! (RTPS) protocol.
//!
//! Every codec is a pair of functions on bytes whose contracts are stated over
//! a mathematical description of the wire format, and the message receiver is
//! a state machine whose single step is specified over the same description.
#![allow(dead_code)]
#![allow(non_camel_case_types)]
#![allow(non_snake_case)]
#![allow(non_upper_case_globals)]
#![allow(unused_imports)]

pub mod common;
pub mod messages;
pub mod structure;
