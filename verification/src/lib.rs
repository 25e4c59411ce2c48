//! Control plane of a transparent traffic redirector.
//!
//! A virtual interface captures the host's outgoing IPv4 traffic, every TCP
//! flow found in it is dialled again on the physical interface and relayed to
//! one fixed endpoint, and a termination signal restores the routing table.
//! This crate holds the decisions of that control plane as verified pure
//! functions and state machines; the operating system is driven by the caller,
//! which performs each action the machines hand out and reports its outcome.

pub mod addr;
pub mod dial;
pub mod dispatch;
pub mod forward;
pub mod host;
pub mod iface;
pub mod ledger;
pub mod route;
pub mod supervisor;
