//! What the server sends.

use crate::dictionary::Dictionary;
use crate::object::ObjectType;
use crate::spa::{Direction, Format, LinkState, ParamType, SpaEnum};
use vstd::prelude::*;

verus! {

/// An event of the core.
#[derive(Clone, Copy, Debug, PartialEq, Eq, Structural)]
pub enum CoreEvent {
    /// The server wants to hear that the client is alive.
    Ping { id: u32, seq: u32 },
    /// Any other event.
    Other,
}

/// An object that the server offers to all clients.
#[derive(Debug)]
pub struct Global {
    pub id: u32,
    pub interface: ObjectType,
    pub properties: Dictionary,
}

/// An event of the registry.
#[derive(Debug)]
pub enum RegistryEvent {
    /// A global has appeared.
    Global(Global),
    /// The global under `id` has gone.
    GlobalRemove { id: u32 },
}

/// What a node tells of itself.
#[derive(Debug)]
pub struct NodeInfo {
    pub id: u32,
    pub props: Dictionary,
}

/// An event of a node.
#[derive(Debug)]
pub enum NodeEvent {
    Info(NodeInfo),
    Param,
}

/// What a link tells of itself.
#[derive(Clone, Copy, Debug)]
pub struct LinkInfo {
    pub id: u32,
    pub output_port_id: u32,
    pub input_port_id: u32,
    /// Whether the change mask says that the state has changed.
    pub state_changed: bool,
    /// Whether the change mask says that the format has changed.
    pub format_changed: bool,
    pub state: SpaEnum<LinkState>,
    /// The format, where it is an object.
    pub format: Option<Format>,
}

/// An event of a link.
#[derive(Clone, Copy, Debug)]
pub enum LinkEvent {
    Info(LinkInfo),
}

/// A parameter that a port has.
#[derive(Clone, Copy, Debug)]
pub struct ParamInfo {
    pub id: SpaEnum<ParamType>,
    /// Whether its flags say that it can be read.
    pub readable: bool,
}

/// What a port tells of itself.
#[derive(Debug)]
pub struct PortInfo {
    pub id: u32,
    pub direction: SpaEnum<Direction>,
    pub props: Dictionary,
    pub params: Vec<ParamInfo>,
}

/// The value of a port's parameter.
#[derive(Clone, Copy, Debug)]
pub struct PortParam {
    pub id: SpaEnum<ParamType>,
    /// The value as a format, where it is an object.
    pub format: Option<Format>,
}

/// An event of a port.
#[derive(Debug)]
pub enum PortEvent {
    Info(PortInfo),
    Param(PortParam),
}

} // verus!
