//! The client side of a PipeWire patchbay.
//!
//! The server's registry tells of nodes, ports and links as they come and go. A connection keeps
//! track of them, tells the user interface, and has links made and removed for it. There are two
//! ways to connect: [`native`] by way of the native library, and [`ripe`] in PipeWire's own
//! protocol. Both are given here as functions from what is received to what is to be done; doing it
//! is left to the caller.

pub mod dictionary;
pub mod link;
pub mod message;
pub mod native;
pub mod object;
pub mod ripe;
pub mod spa;
pub mod state;
pub mod text;
