//! What holds of a connection over several events.

use super::action::{Action, Interface};
use super::connection::{
    BindedGlobal, Connection, core_actions, global_actions, link_info_actions, listen_action,
    node_info_actions, port_added_actions, port_info_actions, port_param_actions, property_names,
    removed_message,
};
use super::event::{CoreEvent, LinkInfo, ParamInfo, PortInfo, PortParam};
use super::toggle::{LinkRequest, link_between, toggle_request};
use crate::dictionary::{Entries, Properties, entries_map, number_of};
use crate::link::{
    LinkError, PipewireLink, described_link, law_link_round_trip, law_request_describes_link,
    law_request_entries_amount, link_request_properties,
};
use crate::message::Message;
use crate::object::ObjectType;
use crate::spa::{Direction, SpaEnum};
use crate::state::{
    Graph, Item, law_insert_keeps_wf, law_link_id_finds_links, law_remove_absent,
    law_remove_keeps_wf, law_remove_undoes_insert, law_stored_link_is_found,
};
use vstd::prelude::*;

verus! {

/// Whether what is bound to and what the graph holds under one id belong together.
pub open spec fn belongs(global: BindedGlobal, item: Item) -> bool {
    match item {
        Item::Node => global is Node,
        Item::Port { node_id } => global matches BindedGlobal::Port { node_id: told, .. }
            && told == Some(node_id),
        Item::Link { .. } => global is Link,
    }
}

impl Connection {
    /// Whether the graph holds nothing but what the client has bound to, every node that it has
    /// bound to, and every port that has told its node, on that node.
    pub open spec fn consistent(self) -> bool {
        &&& self.graph.wf()
        &&& forall|id: u32| #[trigger]
            self.graph.items.contains_key(id) ==> self.binded_globals.contains_key(id) && belongs(
                self.binded_globals[id],
                self.graph.items[id],
            )
        &&& forall|id: u32| #[trigger]
            self.binded_globals.contains_key(id) ==> match self.binded_globals[id] {
                BindedGlobal::Node { .. } => self.graph.items.contains_key(id),
                BindedGlobal::Port { node_id: Some(node_id), .. } => self.graph.items.contains_key(
                    id,
                ),
                _ => true,
            }
    }
}

/// Something that happens on a connection.
pub enum Step {
    /// The core sends an event.
    CoreTells { event: CoreEvent },
    /// A global appears, and the client binds to it where it is of interest.
    Appears { id: u32, interface: ObjectType, properties: Properties, proxy_id: u32 },
    /// A node tells of itself.
    NodeTells { id: u32, properties: Properties },
    /// The port that was bound to as `port_id` tells of itself, for the first time or again.
    PortTells { port_id: u32, first: bool, info: PortInfo },
    /// The port that was bound to as `port_id` tells of a parameter.
    PortTellsParam { port_id: u32, param: PortParam },
    /// A link tells of itself, for the first time or again.
    LinkTells { first: bool, info: LinkInfo },
    /// A global goes.
    Goes { id: u32 },
}

/// The interface under which the client binds to a global, where it is of interest.
pub open spec fn bound_as(interface: ObjectType) -> Option<Interface> {
    match interface {
        ObjectType::Node => Some(Interface::Node),
        ObjectType::Link => Some(Interface::Link),
        ObjectType::Port => Some(Interface::Port),
        ObjectType::Other => None,
    }
}

/// The node that a port tells of.
pub open spec fn told_node(info: PortInfo) -> u32 {
    number_of(info.props@, "node.id"@)->Ok_0
}

impl Connection {
    /// Whether a step is in order: no port or link appears under the id of an item that is still
    /// there, and ports and links first tell of themselves under the id that they were bound to by.
    pub open spec fn in_order(self, step: Step) -> bool {
        match step {
            Step::Appears { id, interface, .. } => interface is Port || interface is Link
                ==> !self.graph.items.contains_key(id),
            Step::PortTells { port_id, first, info } => first ==> {
                &&& port_id == info.id
                &&& self.binded_globals.contains_key(info.id)
                &&& self.binded_globals[info.id] is Port
            },
            Step::LinkTells { first, info } => first ==> {
                &&& self.binded_globals.contains_key(info.id)
                &&& self.binded_globals[info.id] is Link
            },
            _ => true,
        }
    }

    /// What is known after a step.
    pub open spec fn after(self, step: Step) -> Connection {
        match step {
            Step::Appears { id, interface, proxy_id, .. } => match bound_as(interface) {
                Some(bound) => self.after_global(id, interface).after_bind(id, bound, proxy_id),
                None => self.after_global(id, interface),
            },
            Step::PortTells { port_id, first, info } => self.after_port_info(
                port_id,
                first,
                info.id,
                told_node(info),
            ),
            Step::LinkTells { first, info } => self.after_link_info(first, info),
            Step::Goes { id } => self.after_removal(id),
            _ => self,
        }
    }

    /// What the client does on a step.
    pub open spec fn actions(self, step: Step) -> Seq<Action<Seq<char>>> {
        match step {
            Step::CoreTells { event } => core_actions(event),
            Step::Appears { id, interface, properties, proxy_id } => {
                let actions = global_actions(id, interface, properties);
                match bound_as(interface) {
                    Some(bound) => actions.push(listen_action(id, bound, proxy_id)),
                    None => actions,
                }
            },
            Step::NodeTells { id, properties } => node_info_actions(id, properties),
            Step::PortTells { first, info, .. } => port_info_actions(first, info),
            Step::PortTellsParam { port_id, param } => port_param_actions(port_id, param),
            Step::LinkTells { first, info } => link_info_actions(first, info),
            Step::Goes { id } => self.removal_actions(id),
        }
    }

    /// What is known after several steps.
    pub open spec fn after_all(self, steps: Seq<Step>) -> Connection
        decreases steps.len(),
    {
        if steps.len() == 0 {
            self
        } else {
            self.after_all(steps.drop_last()).after(steps.last())
        }
    }

    /// What the client does on several steps.
    pub open spec fn all_actions(self, steps: Seq<Step>) -> Seq<Action<Seq<char>>>
        decreases steps.len(),
    {
        if steps.len() == 0 {
            seq![]
        } else {
            self.all_actions(steps.drop_last()) + self.after_all(steps.drop_last()).actions(
                steps.last(),
            )
        }
    }

    /// Whether several steps are in order, one after the other.
    pub open spec fn all_in_order(self, steps: Seq<Step>) -> bool
        decreases steps.len(),
    {
        steps.len() > 0 ==> self.all_in_order(steps.drop_last()) && self.after_all(
            steps.drop_last(),
        ).in_order(steps.last())
    }
}

/// Each step that is in order keeps a connection consistent.
pub proof fn law_step_keeps_consistent(connection: Connection, step: Step)
    requires
        connection.consistent(),
        connection.in_order(step),
    ensures
        connection.after(step).consistent(),
{
    match step {
        Step::Appears { id, .. } => law_insert_keeps_wf(connection.graph, id, Item::Node),
        Step::PortTells { info, .. } => law_insert_keeps_wf(
            connection.graph,
            info.id,
            Item::Port { node_id: told_node(info) },
        ),
        Step::LinkTells { info, .. } => law_insert_keeps_wf(
            connection.graph,
            info.id,
            Item::Link { port_from: info.output_port_id, port_to: info.input_port_id },
        ),
        Step::Goes { id } => law_remove_keeps_wf(connection.graph, id),
        _ => {},
    }
}

/// As long as all is in order, a connection is consistent.
pub proof fn law_connection_is_consistent(steps: Seq<Step>)
    requires
        Connection::empty().all_in_order(steps),
    ensures
        Connection::empty().after_all(steps).consistent(),
    decreases steps.len(),
{
    if steps.len() > 0 {
        law_connection_is_consistent(steps.drop_last());
        law_step_keeps_consistent(
            Connection::empty().after_all(steps.drop_last()),
            steps.last(),
        );
    }
}

impl Step {
    /// Whether a step is about what is known under `id`.
    pub open spec fn is_about(self, id: u32) -> bool {
        match self {
            Step::Appears { id: appeared, .. } => id == appeared,
            Step::PortTells { port_id, info, .. } => id == port_id || id == info.id,
            Step::LinkTells { info, .. } => id == info.id,
            Step::Goes { id: gone } => id == gone,
            _ => false,
        }
    }
}

/// A step changes nothing about the ids that it is not about.
pub proof fn law_step_leaves_the_rest(connection: Connection, step: Step, id: u32)
    requires
        !step.is_about(id),
    ensures
        connection.after(step).binded_globals.get(id) == connection.binded_globals.get(id),
        connection.after(step).graph.items.get(id) == connection.graph.items.get(id),
{
}

impl Step {
    /// Whether a step may change what is bound to as the port `port_id`, or the node that it is on:
    /// something appears under that id, the port brings its first news, or it goes.
    pub open spec fn resets_port(self, port_id: u32) -> bool {
        match self {
            Step::Appears { id, interface, .. } => id == port_id && bound_as(interface) is Some,
            Step::PortTells { port_id: told, first, .. } => told == port_id && first,
            Step::Goes { id } => id == port_id,
            _ => false,
        }
    }
}

/// What is bound to as a port stays as it is over steps that do not reset it.
proof fn lemma_port_stays(connection: Connection, steps: Seq<Step>, port_id: u32)
    requires
        forall|i: int| 0 <= i < steps.len() ==> !(#[trigger] steps[i]).resets_port(port_id),
        connection.binded_globals.contains_key(port_id),
        connection.binded_globals[port_id] is Port,
    ensures
        connection.after_all(steps).binded_globals.contains_key(port_id),
        connection.after_all(steps).binded_globals[port_id] == connection.binded_globals[port_id],
    decreases steps.len(),
{
    if steps.len() > 0 {
        let before = steps.drop_last();
        assert forall|i: int| 0 <= i < before.len() implies !(
        #[trigger] before[i]).resets_port(port_id) by {
            assert(before[i] == steps[i]);
        }
        lemma_port_stays(connection, before, port_id);
        assert(!steps[steps.len() - 1].resets_port(port_id));
    }
}

/// A port goes from the node that it told of when it was told of as new, whatever happens in between
/// but that something appears under its id, that it brings first news again, or that it goes.
pub proof fn law_port_goes_from_where_it_came(
    connection: Connection,
    port_id: u32,
    info: PortInfo,
    steps: Seq<Step>,
)
    requires
        connection.binded_globals.contains_key(port_id),
        connection.binded_globals[port_id] is Port,
        forall|i: int| 0 <= i < steps.len() ==> !(#[trigger] steps[i]).resets_port(port_id),
    ensures
        ({
            let tells = Step::PortTells { port_id, first: true, info };
            let told = connection.after(tells).after_all(steps);
            connection.actions(tells).last() matches Action::Send(
                Message::PortAdded { node_id, .. },
            ) && told.removal_fits(port_id) && told.actions(Step::Goes { id: port_id }).last()
                == Action::Send(Message::<Seq<char>>::PortRemoved { id: port_id, node_id })
        }),
{
    lemma_port_stays(
        connection.after(Step::PortTells { port_id, first: true, info }),
        steps,
        port_id,
    );
}

/// A port goes from the node that it is known to be on.
pub proof fn law_port_goes_from_its_node(connection: Connection, id: u32)
    requires
        connection.consistent(),
        connection.removal_fits(id),
        connection.binded_globals.contains_key(id),
        connection.binded_globals[id] is Port,
    ensures
        connection.graph.node_of_port(id) matches Some(node_id) && removed_message(
            id,
            connection.binded_globals[id],
        ) == (Message::<Seq<char>>::PortRemoved { id, node_id }),
{
}

/// Once a global has gone whose item, if it had one, was bound to, nothing is known of it, and as
/// much as before of every other.
pub proof fn law_gone_is_forgotten(connection: Connection, id: u32)
    requires
        connection.graph.items.contains_key(id) ==> connection.binded_globals.contains_key(id),
    ensures
        !connection.after_removal(id).binded_globals.contains_key(id),
        !connection.after_removal(id).graph.items.contains_key(id),
        forall|other: u32|
            other != id ==> #[trigger] connection.after_removal(id).binded_globals.get(other)
                == connection.binded_globals.get(other),
        forall|other: u32|
            other != id ==> #[trigger] connection.after_removal(id).graph.items.get(other)
                == connection.graph.items.get(other),
{
}

/// What comes and goes leaves no trace: once a global that had appeared under a new id has gone, all
/// is as it was.
pub proof fn law_going_undoes_appearing(
    connection: Connection,
    id: u32,
    interface: ObjectType,
    properties: Properties,
    proxy_id: u32,
)
    requires
        connection.graph.wf(),
        !connection.graph.items.contains_key(id),
        !connection.binded_globals.contains_key(id),
    ensures
        connection.after(Step::Appears { id, interface, properties, proxy_id }).after(
            Step::Goes { id },
        ) == connection,
{
    let appeared = connection.after(Step::Appears { id, interface, properties, proxy_id });
    let gone = appeared.after(Step::Goes { id });
    if interface is Node {
        law_remove_undoes_insert(connection.graph, id, Item::Node);
    } else {
        law_remove_absent(connection.graph, id);
    }
    assert(gone.binded_globals =~= connection.binded_globals);
}

/// Going destroys the very proxy that binding gave.
pub proof fn law_going_destroys_the_bound_proxy(
    connection: Connection,
    id: u32,
    interface: Interface,
    proxy_id: u32,
)
    ensures
        connection.after_bind(id, interface, proxy_id).removal_actions(id).len() == 2,
        connection.after_bind(id, interface, proxy_id).removal_actions(id)[0] == (Action::<
            Seq<char>,
        >::DestroyObject { proxy_id }),
{
}

/// What goes is told of as the kind of item that the user interface shows: of a node, that a node has
/// gone, of a port, that a port of its node has, and of a link, that a link has.
pub proof fn law_going_names_the_kind_that_is_shown(connection: Connection, id: u32)
    requires
        connection.consistent(),
        connection.graph.items.contains_key(id),
    ensures
        connection.removal_actions(id).last() == Action::Send(
            match connection.graph.items[id] {
                Item::Node => Message::<Seq<char>>::NodeRemoved { id },
                Item::Port { node_id } => Message::PortRemoved { id, node_id },
                Item::Link { .. } => Message::LinkRemoved { id },
            },
        ),
{
}

/// What the user interface shows once an action has been done, given what it showed before: the
/// items that it was told of as new and not as gone.
pub open spec fn shown_after(items: Map<u32, Item>, action: Action<Seq<char>>) -> Map<u32, Item> {
    match action {
        Action::Send(message) => match message {
            Message::NodeAdded { id, .. } => items.insert(id, Item::Node),
            Message::PortAdded { id, node_id, .. } => items.insert(id, Item::Port { node_id }),
            Message::LinkAdded { id, port_from, port_to, .. } => items.insert(
                id,
                Item::Link { port_from, port_to },
            ),
            Message::NodeRemoved { id } => items.remove(id),
            Message::PortRemoved { id, .. } => items.remove(id),
            Message::LinkRemoved { id } => items.remove(id),
            _ => items,
        },
        _ => items,
    }
}

/// What the user interface shows once several actions have been done.
pub open spec fn shown_after_all(
    items: Map<u32, Item>,
    actions: Seq<Action<Seq<char>>>,
) -> Map<u32, Item>
    decreases actions.len(),
{
    if actions.len() == 0 {
        items
    } else {
        shown_after(shown_after_all(items, actions.drop_last()), actions.last())
    }
}

/// What is shown after two runs of actions is what the second makes of what the first left.
proof fn lemma_shown_after_both(
    items: Map<u32, Item>,
    first: Seq<Action<Seq<char>>>,
    second: Seq<Action<Seq<char>>>,
)
    ensures
        shown_after_all(items, first + second) == shown_after_all(
            shown_after_all(items, first),
            second,
        ),
    decreases second.len(),
{
    if second.len() == 0 {
        assert(first + second =~= first);
    } else {
        assert((first + second).drop_last() =~= first + second.drop_last());
        lemma_shown_after_both(items, first, second.drop_last());
    }
}

/// A step has the user interface told of what it changes in the graph.
pub proof fn law_step_is_shown(connection: Connection, step: Step)
    ensures
        shown_after_all(connection.graph.items, connection.actions(step)) == connection.after(
            step,
        ).graph.items,
{
    reveal_with_fuel(shown_after_all, 4);
    assert(shown_after_all(connection.graph.items, connection.actions(step)) =~= connection.after(
        step,
    ).graph.items);
}

/// At all times, the user interface shows exactly the items that the graph holds.
pub proof fn law_user_interface_shows_the_graph(steps: Seq<Step>)
    ensures
        shown_after_all(Map::empty(), Connection::empty().all_actions(steps))
            == Connection::empty().after_all(steps).graph.items,
    decreases steps.len(),
{
    if steps.len() > 0 {
        let start = Connection::empty();
        let before = steps.drop_last();
        law_user_interface_shows_the_graph(before);
        law_step_is_shown(start.after_all(before), steps.last());
        lemma_shown_after_both(
            Map::empty(),
            start.all_actions(before),
            start.after_all(before).actions(steps.last()),
        );
    }
}

/// What the client does over all the news of a link, from when it has bound to it.
pub open spec fn link_news(is_first_info_event: bool, news: Seq<LinkInfo>) -> Seq<
    Action<Seq<char>>,
>
    decreases news.len(),
{
    if news.len() == 0 {
        seq![]
    } else {
        link_info_actions(is_first_info_event, news[0]) + link_news(false, news.skip(1))
    }
}

/// Whether an action tells of a new link.
pub open spec fn tells_of_new_link(action: Action<Seq<char>>) -> bool {
    action matches Action::Send(message) && message is LinkAdded
}

/// After its first news, a link is not told of as new.
proof fn lemma_later_news(news: Seq<LinkInfo>)
    ensures
        forall|i: int|
            0 <= i < link_news(false, news).len() ==> !tells_of_new_link(
                #[trigger] link_news(false, news)[i],
            ),
    decreases news.len(),
{
    if news.len() > 0 {
        lemma_later_news(news.skip(1));
        let now = link_info_actions(false, news[0]);
        let later = link_news(false, news.skip(1));
        assert forall|i: int| 0 <= i < (now + later).len() implies !tells_of_new_link(
            #[trigger] (now + later)[i],
        ) by {
            if i >= now.len() {
                assert((now + later)[i] == later[i - now.len()]);
            }
        }
    }
}

/// A link is told of as new once, at its first news and before anything else is told of it.
pub proof fn law_link_is_added_once(news: Seq<LinkInfo>)
    requires
        news.len() > 0,
    ensures
        link_news(true, news).len() > 0,
        tells_of_new_link(link_news(true, news)[0]),
        forall|i: int|
            0 < i < link_news(true, news).len() ==> !tells_of_new_link(
                #[trigger] link_news(true, news)[i],
            ),
{
    let later = link_news(false, news.skip(1));
    lemma_later_news(news.skip(1));
    assert forall|i: int| 0 < i < link_news(true, news).len() implies !tells_of_new_link(
        #[trigger] link_news(true, news)[i],
    ) by {
        assert(link_news(true, news)[i] == later[i - 1]);
    }
}

/// What the client does over all the news of a port, from when it has bound to it.
pub open spec fn port_news(is_first_info_event: bool, news: Seq<PortInfo>) -> Seq<
    Action<Seq<char>>,
>
    decreases news.len(),
{
    if news.len() == 0 {
        seq![]
    } else {
        port_info_actions(is_first_info_event, news[0]) + port_news(false, news.skip(1))
    }
}

/// After its first news, nothing is done on the news of a port.
proof fn lemma_later_port_news(news: Seq<PortInfo>)
    ensures
        port_news(false, news) == Seq::<Action<Seq<char>>>::empty(),
    decreases news.len(),
{
    if news.len() > 0 {
        lemma_later_port_news(news.skip(1));
    }
}

/// A port is told of as new once, at its first news, and nothing is done on its later news.
pub proof fn law_port_is_added_once(news: Seq<PortInfo>)
    requires
        news.len() > 0,
    ensures
        port_news(true, news) == port_info_actions(true, news[0]),
        port_news(true, news).last() matches Action::Send(message) && message is PortAdded,
        forall|i: int|
            0 <= i < port_news(true, news).len() - 1 ==> (#[trigger] port_news(true, news)[i])
                is EnumFormats,
{
    lemma_later_port_news(news.skip(1));
}

/// Toggling asks for the removal of a link between the two ports where there is one, and else for a
/// link from the one port to the other, each on the node that it is known to be on.
pub proof fn law_toggle(graph: Graph, port_from: u32, port_to: u32)
    requires
        graph.wf(),
    ensures
        match toggle_request(graph, port_from, port_to) {
            LinkRequest::DestroyGlobal { id } => graph.items.contains_key(id) && graph.items[id]
                == (Item::Link { port_from, port_to }),
            LinkRequest::CreateObject(object) => {
                &&& forall|id: u32| #[trigger]
                    graph.items.contains_key(id) ==> graph.items[id] != (Item::Link {
                        port_from,
                        port_to,
                    })
                &&& described_link(entries_map(object.properties)) == Ok::<PipewireLink, LinkError>(
                    link_between(graph, port_from, port_to),
                )
            },
        },
{
    law_link_id_finds_links(graph, port_from, port_to);
    let link = link_between(graph, port_from, port_to);
    law_request_entries_amount(link);
    law_request_describes_link(link);
    law_link_round_trip(link, link_request_properties(link));
}

/// Toggling the link between two ports undoes itself: while the link that was asked for is there,
/// toggling asks for its removal, and once it has gone, toggling asks for what it asked for before.
pub proof fn law_toggle_alternates(
    connection: Connection,
    info: LinkInfo,
    properties: Properties,
    proxy_id: u32,
)
    requires
        connection.graph.wf(),
        !connection.graph.items.contains_key(info.id),
    ensures
        ({
            let appeared = connection.after(
                Step::Appears { id: info.id, interface: ObjectType::Link, properties, proxy_id },
            ).after(Step::LinkTells { first: true, info });
            let gone = appeared.after(Step::Goes { id: info.id });
            &&& toggle_request(appeared.graph, info.output_port_id, info.input_port_id)
                == (LinkRequest::<Seq<char>, Entries>::DestroyGlobal { id: info.id })
            &&& toggle_request(gone.graph, info.output_port_id, info.input_port_id)
                == toggle_request(connection.graph, info.output_port_id, info.input_port_id)
        }),
{
    let item = Item::Link { port_from: info.output_port_id, port_to: info.input_port_id };
    law_stored_link_is_found(
        connection.graph,
        info.id,
        info.output_port_id,
        info.input_port_id,
    );
    law_remove_undoes_insert(connection.graph, info.id, item);
}

/// Properties that agree under the listed names decide alike, whatever else they hold: on what is
/// done when a global appears, when a node tells of itself, and when a port does, and on the node
/// that the port is on.
pub proof fn law_listed_properties_decide(
    one: Properties,
    other: Properties,
    id: u32,
    interface: ObjectType,
    direction: SpaEnum<Direction>,
    params: Seq<ParamInfo>,
)
    requires
        forall|name: Seq<char>| #[trigger]
            property_names().contains(name) ==> one.get(name) == other.get(name),
    ensures
        global_actions(id, interface, one) == global_actions(id, interface, other),
        node_info_actions(id, one) == node_info_actions(id, other),
        port_added_actions(id, direction, one, params) == port_added_actions(
            id,
            direction,
            other,
            params,
        ),
        number_of(one, "node.id"@) == number_of(other, "node.id"@),
{
    let names = property_names();
    assert(names[0] == "media.class"@ && names[1] == "media.name"@ && names[2]
        == "node.description"@ && names[3] == "node.id"@ && names[4] == "node.name"@ && names[5]
        == "node.nick"@ && names[6] == "port.name"@);
    assert forall|i: int| 0 <= i < names.len() implies one.get(#[trigger] names[i]) == other.get(
        names[i],
    ) by {
        assert(names.contains(names[i]));
    }
}

} // verus!
