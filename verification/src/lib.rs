//! A minimal receive-path firewall: a bounds-checked packet classifier that
//! drops inbound TCP traffic aimed at a fixed set of legacy cleartext-protocol
//! ports, and a controller that keeps the classifier attached to every
//! container-backed network interface as containers come and go.

pub mod attach;
pub mod controller;
pub mod discovery;
pub mod packet;
pub mod registry;
