//! What the client does in answer to an event.

use crate::message::Message;
use vstd::prelude::*;

verus! {

/// The interfaces of the globals that the client binds to.
#[derive(Clone, Copy, Debug, PartialEq, Eq, Structural)]
pub enum Interface {
    Node,
    Link,
    Port,
}

/// Something to be done in answer to an event, with texts of type `S`.
#[derive(Debug, PartialEq, Eq)]
pub enum Action<S> {
    /// Answer a ping of the core.
    Pong { id: u32, seq: u32 },
    /// Tell the user interface.
    Send(Message<S>),
    /// Bind to the global `id`, and report the proxy that stands for it.
    Bind { id: u32, interface: Interface },
    /// Have the events of the node behind a proxy handled.
    ListenToNode { proxy_id: u32 },
    /// Have the events of the link behind a proxy handled, with the flag to start with.
    ListenToLink { proxy_id: u32, is_first_info_event: bool },
    /// Have the events of the port behind a proxy handled, with the data to start with.
    ListenToPort { proxy_id: u32, port_id: u32, is_first_info_event: bool },
    /// Ask the port that the event came from for the formats that it can take.
    EnumFormats,
    /// Have the core destroy the object behind a proxy.
    DestroyObject { proxy_id: u32 },
}

impl View for Action<String> {
    type V = Action<Seq<char>>;

    open spec fn view(&self) -> Action<Seq<char>> {
        match *self {
            Action::Pong { id, seq } => Action::Pong { id, seq },
            Action::Send(message) => Action::Send(message@),
            Action::Bind { id, interface } => Action::Bind { id, interface },
            Action::ListenToNode { proxy_id } => Action::ListenToNode { proxy_id },
            Action::ListenToLink { proxy_id, is_first_info_event } => Action::ListenToLink {
                proxy_id,
                is_first_info_event,
            },
            Action::ListenToPort { proxy_id, port_id, is_first_info_event } =>
                Action::ListenToPort { proxy_id, port_id, is_first_info_event },
            Action::EnumFormats => Action::EnumFormats,
            Action::DestroyObject { proxy_id } => Action::DestroyObject { proxy_id },
        }
    }
}

/// The actions, with texts as sequences of characters.
pub open spec fn action_views(actions: Seq<Action<String>>) -> Seq<Action<Seq<char>>> {
    actions.map_values(|action: Action<String>| action@)
}

/// The views of actions are as many and in the same order, each of the same kind and with the same
/// numbers, and what is sent is viewed as a message is.
pub proof fn law_action_views(actions: Seq<Action<String>>, i: int)
    requires
        0 <= i < actions.len(),
    ensures
        action_views(actions).len() == actions.len(),
        match actions[i] {
            Action::Send(message) => action_views(actions)[i] == Action::Send(message@),
            Action::Pong { id, seq } => action_views(actions)[i] == (Action::<Seq<char>>::Pong {
                id,
                seq,
            }),
            Action::Bind { id, interface } => action_views(actions)[i] == (Action::<
                Seq<char>,
            >::Bind { id, interface }),
            Action::ListenToNode { proxy_id } => action_views(actions)[i] == (Action::<
                Seq<char>,
            >::ListenToNode { proxy_id }),
            Action::ListenToLink { proxy_id, is_first_info_event } => action_views(actions)[i]
                == (Action::<Seq<char>>::ListenToLink { proxy_id, is_first_info_event }),
            Action::ListenToPort { proxy_id, port_id, is_first_info_event } => action_views(
                actions,
            )[i] == (Action::<Seq<char>>::ListenToPort { proxy_id, port_id, is_first_info_event }),
            Action::EnumFormats => action_views(actions)[i] is EnumFormats,
            Action::DestroyObject { proxy_id } => action_views(actions)[i] == (Action::<
                Seq<char>,
            >::DestroyObject { proxy_id }),
        },
{
}

} // verus!
