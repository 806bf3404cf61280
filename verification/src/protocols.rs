//! Protocols built on top of plain delivery.

pub mod request_reply;
