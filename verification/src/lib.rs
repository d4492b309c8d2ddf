//! The verified core of a desktop DNS client: a privileged service runs a
//! local DNS → DNS-over-HTTPS proxy and redirects the system resolver to it;
//! clients drive it over a local socket with length-prefixed JSON frames.

pub mod cli;
pub mod controller;
pub mod doh;
pub mod ipc;
pub mod net;
pub mod parse;
pub mod proto;
pub mod redirect;
pub mod text;
