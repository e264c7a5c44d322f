//! Protocol and egress-selection engine of an egress-rotating proxy.
//!
//! The crate holds the decisions of the proxy: how an egress address is
//! drawn from a pool of subnets, how a SOCKS5 connection moves through its
//! phases, and how an HTTP request is routed. Sockets, name resolution and
//! the relay of bytes belong to the program that drives these state machines.

pub mod addr;
pub mod config;
pub mod error;
pub mod http;
pub mod metrics;
pub mod socks5;
pub mod subnet;
pub mod text;
