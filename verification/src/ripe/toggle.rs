//! Making and removing links on request.

use crate::dictionary::{Dictionary, Entries, entries_map};
use crate::link::{
    PipewireLink, described_link, law_link_round_trip, law_request_describes_link,
    law_request_entries_amount, law_request_names_both_ends, link_properties, link_request_entries,
    link_request_properties,
};
use crate::state::{Graph, Item, State};
use crate::text::decimal;
use vstd::prelude::*;

verus! {

/// A request that the core make an object, with texts of type `S` and properties of type `D`.
#[derive(Debug)]
pub struct CreateObject<S, D> {
    pub factory_name: S,
    pub interface: S,
    pub version: u32,
    pub properties: D,
    pub new_id: u32,
}

/// A request that a link be made or removed, with texts of type `S` and properties of type `D`.
#[derive(Debug)]
pub enum LinkRequest<S, D> {
    /// Ask the registry to destroy the link `id`.
    DestroyGlobal { id: u32 },
    /// Ask the core to make a link.
    CreateObject(CreateObject<S, D>),
}

impl View for LinkRequest<String, Dictionary> {
    type V = LinkRequest<Seq<char>, Entries>;

    open spec fn view(&self) -> LinkRequest<Seq<char>, Entries> {
        match *self {
            LinkRequest::DestroyGlobal { id } => LinkRequest::DestroyGlobal { id },
            LinkRequest::CreateObject(object) => LinkRequest::CreateObject(
                CreateObject {
                    factory_name: object.factory_name@,
                    interface: object.interface@,
                    version: object.version,
                    properties: object.properties.entries(),
                    new_id: object.new_id,
                },
            ),
        }
    }
}

/// Whether the link between two ports can be toggled: it is there, or both ports are known.
pub open spec fn toggle_fits(graph: Graph, port_from: u32, port_to: u32) -> bool {
    graph.link_id(port_from, port_to) is Some || (graph.node_of_port(port_from) is Some
        && graph.node_of_port(port_to) is Some)
}

/// The link between two ports that are known.
pub open spec fn link_between(graph: Graph, port_from: u32, port_to: u32) -> PipewireLink
    recommends
        graph.node_of_port(port_from) is Some,
        graph.node_of_port(port_to) is Some,
{
    PipewireLink {
        node_from: graph.node_of_port(port_from)->0,
        port_from,
        node_to: graph.node_of_port(port_to)->0,
        port_to,
    }
}

/// What to request so as to toggle the link between two ports.
pub open spec fn toggle_request(graph: Graph, port_from: u32, port_to: u32) -> LinkRequest<
    Seq<char>,
    Entries,
>
    recommends
        toggle_fits(graph, port_from, port_to),
{
    match graph.link_id(port_from, port_to) {
        Some(id) => LinkRequest::DestroyGlobal { id },
        None => LinkRequest::CreateObject(
            CreateObject {
                factory_name: "link-factory"@,
                interface: "PipeWire:Interface:Link"@,
                version: 3,
                properties: link_request_entries(link_between(graph, port_from, port_to)),
                new_id: 0,
            },
        ),
    }
}

/// Whether the link between two ports can be toggled.
pub fn can_toggle_link(port_from: u32, port_to: u32, state: &State) -> (can: bool)
    ensures
        can == toggle_fits(state@, port_from, port_to),
{
    state.get_link_id(port_from, port_to).is_some() || (state.get_node_of_port(
        port_from,
    ).is_some() && state.get_node_of_port(port_to).is_some())
}

/// What to request so as to toggle the link between two ports.
pub fn toggle_link(port_from: u32, port_to: u32, state: &State) -> (request: LinkRequest<
    String,
    Dictionary,
>)
    requires
        toggle_fits(state@, port_from, port_to),
    ensures
        request@ == toggle_request(state@, port_from, port_to),
{
    match state.get_link_id(port_from, port_to) {
        Some(id) => LinkRequest::DestroyGlobal { id },
        None => {
            let node_from: u32 = state.get_node_of_port(port_from).unwrap();
            let node_to: u32 = state.get_node_of_port(port_to).unwrap();
            LinkRequest::CreateObject(
                CreateObject {
                    factory_name: "link-factory".to_owned(),
                    interface: "PipeWire:Interface:Link".to_owned(),
                    version: 3,
                    properties: link_properties(
                        PipewireLink { node_from, port_from, node_to, port_to },
                    ),
                    new_id: 0,
                },
            )
        },
    }
}

/// The view of a request is of the same kind, with the same numbers, the characters of its texts and
/// the entries of its properties.
pub proof fn law_request_view(id: u32, object: CreateObject<String, Dictionary>)
    ensures
        (LinkRequest::<String, Dictionary>::DestroyGlobal { id })@ == (LinkRequest::<
            Seq<char>,
            Entries,
        >::DestroyGlobal { id }),
        LinkRequest::CreateObject(object)@ matches LinkRequest::CreateObject(seen)
            && seen.factory_name == object.factory_name@ && seen.interface == object.interface@
            && seen.version == object.version && seen.properties == object.properties.entries()
            && seen.new_id == object.new_id,
{
}

/// A link can be toggled exactly where one is found between the two ports or the graph holds both of
/// them as ports.
pub proof fn law_what_can_be_toggled(graph: Graph, port_from: u32, port_to: u32)
    ensures
        toggle_fits(graph, port_from, port_to) <==> graph.link_id(port_from, port_to) is Some || {
            &&& graph.items.contains_key(port_from)
            &&& graph.items[port_from] is Port
            &&& graph.items.contains_key(port_to)
            &&& graph.items[port_to] is Port
        },
{
}

/// Toggling removes the link that is found between the two ports, and asks for one exactly where none
/// is found.
pub proof fn law_found_link_is_removed(graph: Graph, port_from: u32, port_to: u32, id: u32)
    ensures
        toggle_request(graph, port_from, port_to) == (LinkRequest::<
            Seq<char>,
            Entries,
        >::DestroyGlobal { id }) <==> graph.link_id(port_from, port_to) == Some(id),
        toggle_request(graph, port_from, port_to) is CreateObject <==> graph.link_id(
            port_from,
            port_to,
        ) is None,
{
}

/// Where toggling asks for a link, it asks the link factory for version three of the link interface,
/// with entries that name, in this order, the node that the graph holds the first port on, the first
/// port, the node that it holds the second port on, and the second port. Read back, they are a link
/// from the first of the two ports to the second.
pub proof fn law_toggle_asks_for_the_two_ports(
    graph: Graph,
    port_from: u32,
    port_to: u32,
    node_from: u32,
    node_to: u32,
)
    requires
        graph.items.get(port_from) == Some(Item::Port { node_id: node_from }),
        graph.items.get(port_to) == Some(Item::Port { node_id: node_to }),
    ensures
        toggle_request(graph, port_from, port_to) matches LinkRequest::CreateObject(object) ==> {
            &&& object.factory_name == "link-factory"@
            &&& object.interface == "PipeWire:Interface:Link"@
            &&& object.version == 3
            &&& object.new_id == 0
            &&& object.properties.len() == 5
            &&& object.properties[0].0 == "link.output.node"@
            &&& object.properties[0].1 == decimal(node_from as nat)
            &&& object.properties[1].0 == "link.output.port"@
            &&& object.properties[1].1 == decimal(port_from as nat)
            &&& object.properties[2].0 == "link.input.node"@
            &&& object.properties[2].1 == decimal(node_to as nat)
            &&& object.properties[3].0 == "link.input.port"@
            &&& object.properties[3].1 == decimal(port_to as nat)
            &&& object.properties[4].0 == "object.linger"@
            &&& object.properties[4].1 == "1"@
            &&& described_link(entries_map(object.properties)) matches Ok(link)
            &&& link.node_from == node_from
            &&& link.port_from == port_from
            &&& link.node_to == node_to
            &&& link.port_to == port_to
        },
{
    let link = PipewireLink { node_from, port_from, node_to, port_to };
    law_request_names_both_ends(link);
    law_request_entries_amount(link);
    law_request_describes_link(link);
    law_link_round_trip(link, link_request_properties(link));
}

/// Toggling the other way round asks, where it asks for a link, for the same link turned round: each of
/// the two ends on the node that it was on.
pub proof fn law_toggle_the_other_way_round(graph: Graph, port_from: u32, port_to: u32)
    requires
        graph.node_of_port(port_from) is Some,
        graph.node_of_port(port_to) is Some,
    ensures
        toggle_request(graph, port_from, port_to) matches LinkRequest::CreateObject(one) ==> (
        toggle_request(graph, port_to, port_from) matches LinkRequest::CreateObject(other) ==> {
            &&& one.properties[0].1 == other.properties[2].1
            &&& one.properties[1].1 == other.properties[3].1
            &&& one.properties[2].1 == other.properties[0].1
            &&& one.properties[3].1 == other.properties[1].1
        }),
{
    let node_from = graph.node_of_port(port_from)->0;
    let node_to = graph.node_of_port(port_to)->0;
    law_toggle_asks_for_the_two_ports(graph, port_from, port_to, node_from, node_to);
    law_toggle_asks_for_the_two_ports(graph, port_to, port_from, node_to, node_from);
}

} // verus!
