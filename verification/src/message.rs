//! What the connection and the user interface tell each other.

use crate::spa::{Direction, SpaMediaType};
use vstd::prelude::*;

verus! {

/// Whether a node takes media in or gives it out.
#[derive(Clone, Copy, Debug, PartialEq, Eq, Structural)]
pub enum NodeType {
    Input,
    Output,
}

/// What the connection tells the user interface, with texts of type `S`.
#[derive(Debug, PartialEq, Eq)]
pub enum Message<S> {
    NodeAdded { id: u32, name: S, node_type: Option<NodeType> },
    NodeNameChanged { id: u32, name: S, media_name: S },
    NodeRemoved { id: u32 },
    PortAdded { id: u32, node_id: u32, name: S, direction: Direction },
    PortFormatChanged { id: u32, media_type: SpaMediaType },
    PortRemoved { id: u32, node_id: u32 },
    LinkAdded { id: u32, port_from: u32, port_to: u32, active: bool, media_type: SpaMediaType },
    LinkStateChanged { id: u32, active: bool },
    LinkFormatChanged { id: u32, media_type: SpaMediaType },
    LinkRemoved { id: u32 },
}

/// What the connection tells the user interface.
pub type PipewireMessage = Message<String>;

impl View for Message<String> {
    type V = Message<Seq<char>>;

    open spec fn view(&self) -> Message<Seq<char>> {
        match *self {
            Message::NodeAdded { id, name, node_type } => Message::NodeAdded {
                id,
                name: name@,
                node_type,
            },
            Message::NodeNameChanged { id, name, media_name } => Message::NodeNameChanged {
                id,
                name: name@,
                media_name: media_name@,
            },
            Message::NodeRemoved { id } => Message::NodeRemoved { id },
            Message::PortAdded { id, node_id, name, direction } => Message::PortAdded {
                id,
                node_id,
                name: name@,
                direction,
            },
            Message::PortFormatChanged { id, media_type } => Message::PortFormatChanged {
                id,
                media_type,
            },
            Message::PortRemoved { id, node_id } => Message::PortRemoved { id, node_id },
            Message::LinkAdded { id, port_from, port_to, active, media_type } =>
                Message::LinkAdded { id, port_from, port_to, active, media_type },
            Message::LinkStateChanged { id, active } => Message::LinkStateChanged { id, active },
            Message::LinkFormatChanged { id, media_type } => Message::LinkFormatChanged {
                id,
                media_type,
            },
            Message::LinkRemoved { id } => Message::LinkRemoved { id },
        }
    }
}

/// What the user interface asks of the connection. A value of type `C` says what to connect to.
#[derive(Debug, PartialEq, Eq)]
pub enum GtkMessage<C> {
    /// Remove the link between two ports where there is one, else make one.
    ToggleLink { port_from: u32, port_to: u32 },
    /// Connect anew.
    Connect(C),
    /// End the connection.
    Terminate,
}

/// The view of a message is of the same kind and has the same numbers and values, and the characters of
/// its texts in place of its texts.
pub proof fn law_message_view(
    id: u32,
    other: u32,
    third: u32,
    name: String,
    media_name: String,
    node_type: Option<NodeType>,
    direction: Direction,
    media_type: SpaMediaType,
    active: bool,
)
    ensures
        (Message::NodeAdded { id, name, node_type })@ == (Message::NodeAdded {
            id,
            name: name@,
            node_type,
        }),
        (Message::NodeNameChanged { id, name, media_name })@ == (Message::NodeNameChanged {
            id,
            name: name@,
            media_name: media_name@,
        }),
        (Message::<String>::NodeRemoved { id })@ == (Message::<Seq<char>>::NodeRemoved { id }),
        (Message::PortAdded { id, node_id: other, name, direction })@ == (Message::PortAdded {
            id,
            node_id: other,
            name: name@,
            direction,
        }),
        (Message::<String>::PortFormatChanged { id, media_type })@ == (Message::<
            Seq<char>,
        >::PortFormatChanged { id, media_type }),
        (Message::<String>::PortRemoved { id, node_id: other })@ == (Message::<
            Seq<char>,
        >::PortRemoved { id, node_id: other }),
        (Message::<String>::LinkAdded {
            id,
            port_from: other,
            port_to: third,
            active,
            media_type,
        })@ == (Message::<Seq<char>>::LinkAdded {
            id,
            port_from: other,
            port_to: third,
            active,
            media_type,
        }),
        (Message::<String>::LinkStateChanged { id, active })@ == (Message::<
            Seq<char>,
        >::LinkStateChanged { id, active }),
        (Message::<String>::LinkFormatChanged { id, media_type })@ == (Message::<
            Seq<char>,
        >::LinkFormatChanged { id, media_type }),
        (Message::<String>::LinkRemoved { id })@ == (Message::<Seq<char>>::LinkRemoved { id }),
{
}

} // verus!
