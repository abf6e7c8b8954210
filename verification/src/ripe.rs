//! A client that speaks PipeWire's own protocol: how it answers what the server and the user
//! interface send.

pub mod action;
pub mod connection;
pub mod event;
pub mod laws;
pub mod outcomes;
pub mod session;
pub mod toggle;
