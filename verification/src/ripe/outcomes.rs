//! What a single event comes to: what is done on it, and what is known after it.

use super::action::{Action, Interface};
use super::connection::{
    BindedGlobal, Connection, core_actions, global_actions, is_enum_format, link_event_fits,
    link_info_actions, listen_action, name_views, node_info_actions, port_info_actions,
    port_param_actions, property_names,
};
use super::event::{
    CoreEvent, Global, LinkEvent, LinkInfo, PortEvent, PortInfo, PortParam, RegistryEvent,
};
use crate::dictionary::Properties;
use crate::message::{Message, NodeType};
use crate::object::ObjectType;
use crate::spa::{
    Direction, Format, LinkState, MediaTypeValue, ParamType, SpaEnum, SpaMediaType,
};
use crate::state::Item;
use crate::text::{law_found_pattern_stands_in_text, law_pattern_is_found_anywhere, parsed_u32};
use vstd::prelude::*;

verus! {

/// A ping is answered once, with the numbers that it came with, and no other event of the core is
/// answered.
pub proof fn law_ping_is_answered_with_its_numbers(id: u32, seq: u32)
    ensures
        core_actions(CoreEvent::Ping { id, seq }).len() == 1,
        core_actions(CoreEvent::Ping { id, seq })[0] == (Action::<Seq<char>>::Pong { id, seq }),
        core_actions(CoreEvent::Other).len() == 0,
{
}

/// A node that appears is told of as new, under its id, and is then bound to.
pub proof fn law_new_node_is_told_of(id: u32, properties: Properties)
    ensures
        global_actions(id, ObjectType::Node, properties).len() == 2,
        global_actions(id, ObjectType::Node, properties)[0] matches Action::Send(
            Message::NodeAdded { id: told, .. },
        ) && told == id,
        global_actions(id, ObjectType::Node, properties)[1] == (Action::<Seq<char>>::Bind {
            id,
            interface: Interface::Node,
        }),
{
}

/// A node is named by its description, else by its nick, else by its name, else by nothing, both when
/// it appears and when it tells of what it plays.
pub proof fn law_node_is_named(id: u32, properties: Properties, shown: Seq<char>)
    requires
        properties.get("node.description"@) == Some(shown) || (properties.get("node.description"@)
            is None && (properties.get("node.nick"@) == Some(shown) || (properties.get("node.nick"@)
            is None && (properties.get("node.name"@) == Some(shown) || (properties.get("node.name"@)
            is None && shown.len() == 0))))),
    ensures
        global_actions(id, ObjectType::Node, properties)[0] matches Action::Send(
            Message::NodeAdded { name, .. },
        ) && name == shown,
        properties.contains_key("media.name"@) ==> (node_info_actions(id, properties)[0] matches
            Action::Send(Message::NodeNameChanged { name, .. }) && name == shown),
{
    if shown.len() == 0 {
        assert(shown =~= Seq::<char>::empty());
    }
}

/// A node whose media class has "Sink" or "Input" in it, after whatever comes before and before whatever
/// comes after, takes media in.
pub proof fn law_sink_takes_media_in(
    id: u32,
    properties: Properties,
    before: Seq<char>,
    after: Seq<char>,
)
    requires
        properties.contains_key("media.class"@),
        properties["media.class"@] == before + "Sink"@ + after || properties["media.class"@]
            == before + "Input"@ + after,
    ensures
        global_actions(id, ObjectType::Node, properties)[0] matches Action::Send(
            Message::NodeAdded { node_type, .. },
        ) && node_type == Some(NodeType::Input),
{
    law_pattern_is_found_anywhere(before, "Sink"@, after);
    law_pattern_is_found_anywhere(before, "Input"@, after);
}

/// A node whose media class has "Source" or "Output" in it, after whatever comes before and before
/// whatever comes after, but neither "Sink" nor "Input" anywhere, gives media out.
pub proof fn law_source_gives_media_out(
    id: u32,
    properties: Properties,
    before: Seq<char>,
    after: Seq<char>,
)
    requires
        properties.contains_key("media.class"@),
        properties["media.class"@] == before + "Source"@ + after || properties["media.class"@]
            == before + "Output"@ + after,
        !(exists|left: Seq<char>, right: Seq<char>|
            properties["media.class"@] == #[trigger] (left + "Sink"@ + right)),
        !(exists|left: Seq<char>, right: Seq<char>|
            properties["media.class"@] == #[trigger] (left + "Input"@ + right)),
    ensures
        global_actions(id, ObjectType::Node, properties)[0] matches Action::Send(
            Message::NodeAdded { node_type, .. },
        ) && node_type == Some(NodeType::Output),
{
    law_pattern_is_found_anywhere(before, "Source"@, after);
    law_pattern_is_found_anywhere(before, "Output"@, after);
    law_found_pattern_stands_in_text(properties["media.class"@], "Sink"@);
    law_found_pattern_stands_in_text(properties["media.class"@], "Input"@);
}

/// A node without a media class, or whose media class has none of "Sink", "Input", "Source" and
/// "Output" anywhere, is of no type.
pub proof fn law_other_node_has_no_type(id: u32, properties: Properties)
    requires
        properties.get("media.class"@) matches Some(class) ==> {
            &&& !(exists|left: Seq<char>, right: Seq<char>|
                class == #[trigger] (left + "Sink"@ + right))
            &&& !(exists|left: Seq<char>, right: Seq<char>|
                class == #[trigger] (left + "Input"@ + right))
            &&& !(exists|left: Seq<char>, right: Seq<char>|
                class == #[trigger] (left + "Source"@ + right))
            &&& !(exists|left: Seq<char>, right: Seq<char>|
                class == #[trigger] (left + "Output"@ + right))
        },
    ensures
        global_actions(id, ObjectType::Node, properties)[0] matches Action::Send(
            Message::NodeAdded { node_type, .. },
        ) && node_type is None,
{
    if properties.contains_key("media.class"@) {
        let class = properties["media.class"@];
        law_found_pattern_stands_in_text(class, "Sink"@);
        law_found_pattern_stands_in_text(class, "Input"@);
        law_found_pattern_stands_in_text(class, "Source"@);
        law_found_pattern_stands_in_text(class, "Output"@);
    }
}

/// A link or a port that appears is bound to as what it is, under its id, and nothing is told of it yet.
/// Nothing is done on any other object.
pub proof fn law_other_globals(id: u32, properties: Properties)
    ensures
        global_actions(id, ObjectType::Link, properties).len() == 1,
        global_actions(id, ObjectType::Link, properties)[0] == (Action::<Seq<char>>::Bind {
            id,
            interface: Interface::Link,
        }),
        global_actions(id, ObjectType::Port, properties).len() == 1,
        global_actions(id, ObjectType::Port, properties)[0] == (Action::<Seq<char>>::Bind {
            id,
            interface: Interface::Port,
        }),
        global_actions(id, ObjectType::Other, properties).len() == 0,
{
}

/// Of what appears, a node alone is known at once: it is in the graph, in place of what was under its
/// id. Nothing else changes.
pub proof fn law_appearing_adds_nodes(connection: Connection, id: u32)
    ensures
        connection.after_global(id, ObjectType::Node).graph == connection.graph.insert(
            id,
            Item::Node,
        ),
        connection.after_global(id, ObjectType::Node).binded_globals == connection.binded_globals,
        connection.after_global(id, ObjectType::Link) == connection,
        connection.after_global(id, ObjectType::Port) == connection,
        connection.after_global(id, ObjectType::Other) == connection,
{
}

/// What is bound to is known under its id, as what it is and with the proxy that stands for it, a port
/// without a node yet. Nothing else changes.
pub proof fn law_binding_is_known(
    connection: Connection,
    id: u32,
    interface: Interface,
    proxy_id: u32,
    other: u32,
)
    ensures
        connection.after_bind(id, Interface::Node, proxy_id).binded_globals.get(id) == Some(
            BindedGlobal::Node { proxy_id },
        ),
        connection.after_bind(id, Interface::Link, proxy_id).binded_globals.get(id) == Some(
            BindedGlobal::Link { proxy_id },
        ),
        connection.after_bind(id, Interface::Port, proxy_id).binded_globals.get(id) == Some(
            BindedGlobal::Port { proxy_id, node_id: None },
        ),
        other != id ==> connection.after_bind(id, interface, proxy_id).binded_globals.get(other)
            == connection.binded_globals.get(other),
        connection.after_bind(id, interface, proxy_id).graph == connection.graph,
{
}

/// What is bound to is listened to by the proxy that stands for it. Links and ports are told that their
/// first news are still to come, and ports the id that they are bound to by.
pub proof fn law_binding_is_listened_to(id: u32, proxy_id: u32)
    ensures
        listen_action::<String>(id, Interface::Node, proxy_id) == (Action::<String>::ListenToNode {
            proxy_id,
        }),
        listen_action::<String>(id, Interface::Link, proxy_id) == (Action::<String>::ListenToLink {
            proxy_id,
            is_first_info_event: true,
        }),
        listen_action::<String>(id, Interface::Port, proxy_id) == (Action::<String>::ListenToPort {
            proxy_id,
            port_id: id,
            is_first_info_event: true,
        }),
{
}

/// Whatever the graph holds, what goes was what it was bound to as: its proxy is destroyed, and then
/// it is told of as gone, as a node, as a link, or as a port of the node that the port told of.
pub proof fn law_what_goes_is_what_was_bound(
    connection: Connection,
    id: u32,
    proxy_id: u32,
    node_id: u32,
)
    ensures
        connection.binded_globals.get(id) == Some(BindedGlobal::Node { proxy_id }) ==> {
            &&& connection.removal_actions(id).len() == 2
            &&& connection.removal_actions(id)[0] == (Action::<Seq<char>>::DestroyObject {
                proxy_id,
            })
            &&& connection.removal_actions(id)[1] == Action::Send(
                Message::<Seq<char>>::NodeRemoved { id },
            )
        },
        connection.binded_globals.get(id) == Some(BindedGlobal::Link { proxy_id }) ==> {
            &&& connection.removal_actions(id).len() == 2
            &&& connection.removal_actions(id)[0] == (Action::<Seq<char>>::DestroyObject {
                proxy_id,
            })
            &&& connection.removal_actions(id)[1] == Action::Send(
                Message::<Seq<char>>::LinkRemoved { id },
            )
        },
        connection.binded_globals.get(id) == Some(
            BindedGlobal::Port { proxy_id, node_id: Some(node_id) },
        ) ==> {
            &&& connection.removal_actions(id).len() == 2
            &&& connection.removal_actions(id)[0] == (Action::<Seq<char>>::DestroyObject {
                proxy_id,
            })
            &&& connection.removal_actions(id)[1] == Action::Send(
                Message::<Seq<char>>::PortRemoved { id, node_id },
            )
        },
        connection.binded_globals.get(id) is None ==> connection.removal_actions(id).len() == 0,
{
}

/// What was bound to is neither bound to nor in the graph once it has gone, and the going of anything
/// else changes nothing.
pub proof fn law_going_takes_away_what_was_bound(connection: Connection, id: u32)
    ensures
        connection.binded_globals.contains_key(id) ==> {
            &&& connection.after_removal(id).binded_globals == connection.binded_globals.remove(id)
            &&& connection.after_removal(id).graph == connection.graph.remove(id)
        },
        !connection.binded_globals.contains_key(id) ==> connection.after_removal(id) == connection,
{
}

/// The only event of the registry that cannot be answered is that a port goes that has not told its
/// node.
pub proof fn law_registry_events_that_fit(connection: Connection, global: Global, id: u32)
    ensures
        connection.registry_event_fits(RegistryEvent::Global(global)),
        connection.registry_event_fits(RegistryEvent::GlobalRemove { id }) <==> !(
        connection.binded_globals.get(id) matches Some(BindedGlobal::Port { node_id, .. })
            && node_id is None),
{
}

/// A node tells of a new name exactly where what it plays has one, which it tells along with its own,
/// under its id.
pub proof fn law_node_tells_what_it_plays(id: u32, properties: Properties)
    ensures
        properties.contains_key("media.name"@) ==> {
            &&& node_info_actions(id, properties).len() == 1
            &&& node_info_actions(id, properties)[0] matches Action::Send(
                Message::NodeNameChanged { id: told, media_name, .. },
            )
            &&& told == id
            &&& media_name == properties["media.name"@]
        },
        !properties.contains_key("media.name"@) ==> node_info_actions(id, properties).len() == 0,
{
}

/// At its first news a link is told of as new, once and with nothing else, from its output port to its
/// input port, and as active exactly where its state is the active one.
pub proof fn law_first_news_of_a_link(info: LinkInfo)
    ensures
        link_info_actions(true, info).len() == 1,
        link_info_actions(true, info)[0] matches Action::Send(
            Message::LinkAdded { id, port_from, port_to, active, .. },
        ) && id == info.id && port_from == info.output_port_id && port_to == info.input_port_id && (
        active <==> info.state == SpaEnum::Value(LinkState::Active)),
{
}

/// At its later news a link is told of as often as its change mask says: of its state, then of its
/// format, each under its id, and of nothing else.
pub proof fn law_later_news_of_a_link(info: LinkInfo)
    ensures
        info.state_changed && info.format_changed ==> link_info_actions(false, info).len() == 2,
        info.state_changed != info.format_changed ==> link_info_actions(false, info).len() == 1,
        !info.state_changed && !info.format_changed ==> link_info_actions(false, info).len() == 0,
        info.state_changed ==> (link_info_actions(false, info)[0] matches Action::Send(
            Message::LinkStateChanged { id, active },
        ) && id == info.id && (active <==> info.state == SpaEnum::Value(LinkState::Active))),
        info.format_changed ==> (link_info_actions(false, info).last() matches Action::Send(
            Message::LinkFormatChanged { id, .. },
        ) && id == info.id),
{
}

/// The media type of a link is told as its format states it, at the first news and wherever the format
/// has changed, and as unknown where its format states none.
pub proof fn law_media_type_of_a_link(info: LinkInfo, stated: SpaMediaType)
    requires
        info.format == Some(
            Format { media_type: Some(MediaTypeValue::Id(SpaEnum::Value(stated))) },
        ) || (stated == SpaMediaType::Unknown && (info.format is None || info.format == Some(
            Format { media_type: None },
        ) || info.format == Some(Format { media_type: Some(MediaTypeValue::NotAnId) }))),
    ensures
        link_info_actions(true, info)[0] matches Action::Send(
            Message::LinkAdded { media_type, .. },
        ) && media_type == stated,
        info.format_changed ==> (link_info_actions(false, info).last() matches Action::Send(
            Message::LinkFormatChanged { media_type, .. },
        ) && media_type == stated),
{
}

/// At its first news a link is in the graph, under its id and from its output port to its input port,
/// in place of what was there. Nothing else changes then, and nothing at its later news.
pub proof fn law_first_news_add_a_link(connection: Connection, info: LinkInfo)
    ensures
        connection.after_link_info(true, info).graph == connection.graph.insert(
            info.id,
            Item::Link { port_from: info.output_port_id, port_to: info.input_port_id },
        ),
        connection.after_link_info(true, info).binded_globals == connection.binded_globals,
        connection.after_link_info(false, info) == connection,
{
}

/// The only news of a link that cannot be answered are those by which a media type would be told of
/// that its format states but that is none: first news, and news of the format.
pub proof fn law_link_events_that_fit(first: bool, info: LinkInfo)
    ensures
        link_event_fits(first, LinkEvent::Info(info)) <==> !((first || info.format_changed)
            && info.format == Some(
            Format { media_type: Some(MediaTypeValue::Id(SpaEnum::Unknown)) },
        )),
{
}

/// At its first news a port is told of as new after all else, under its id, on the node whose number it
/// names, and with its own direction.
pub proof fn law_first_news_of_a_port(info: PortInfo, way: Direction, node: u32)
    requires
        info.direction == SpaEnum::Value(way),
        info.props@.contains_key("node.id"@),
        parsed_u32(info.props@["node.id"@]) == Some(node),
    ensures
        port_info_actions(true, info).last() matches Action::Send(
            Message::PortAdded { id, node_id, direction, .. },
        ) && id == info.id && node_id == node && direction == way,
{
}

/// A port is told of as new by its name, or by none where it has none.
pub proof fn law_port_is_named(info: PortInfo)
    ensures
        port_info_actions(true, info).last() matches Action::Send(Message::PortAdded { name, .. })
            && (info.props@.contains_key("port.name"@) ==> name == info.props@["port.name"@]) && (
        !info.props@.contains_key("port.name"@) ==> name.len() == 0),
{
}

/// At its first news, before it is told of, a port is asked for the formats that it can take exactly
/// where the first of its parameters that lists them can be read.
pub proof fn law_readable_formats_are_asked_for(info: PortInfo, i: int)
    requires
        0 <= i < info.params@.len(),
        info.params@[i].id == SpaEnum::Value(ParamType::EnumFormat),
        forall|j: int|
            0 <= j < i ==> (#[trigger] info.params@[j]).id != SpaEnum::Value(ParamType::EnumFormat),
    ensures
        info.params@[i].readable ==> port_info_actions(true, info).len() == 2 && port_info_actions(
            true,
            info,
        )[0] is EnumFormats,
        !info.params@[i].readable ==> port_info_actions(true, info).len() == 1,
{
    assert(is_enum_format(info.params@[i]));
    assert forall|j: int| 0 <= j < i implies !is_enum_format(#[trigger] info.params@[j]) by {}
}

/// A port none of whose parameters lists the formats that it can take is not asked for them.
pub proof fn law_missing_formats_are_not_asked_for(info: PortInfo)
    requires
        forall|j: int|
            0 <= j < info.params@.len() ==> (#[trigger] info.params@[j]).id != SpaEnum::Value(
                ParamType::EnumFormat,
            ),
    ensures
        port_info_actions(true, info).len() == 1,
{
}

/// At its first news a port is in the graph, under its id and on its node, and where it was bound to as
/// a port its node is known there too, beside the proxy that stands for it. Nothing else changes.
pub proof fn law_first_news_add_a_port(
    connection: Connection,
    port_id: u32,
    id: u32,
    node_id: u32,
    other: u32,
)
    requires
        connection.binded_globals.contains_key(port_id),
    ensures
        connection.after_port_info(port_id, true, id, node_id).graph == connection.graph.insert(
            id,
            Item::Port { node_id },
        ),
        connection.binded_globals[port_id] matches BindedGlobal::Port { proxy_id, .. }
            ==> connection.after_port_info(port_id, true, id, node_id).binded_globals.get(port_id)
            == Some(BindedGlobal::Port { proxy_id, node_id: Some(node_id) }),
        !(connection.binded_globals[port_id] is Port) ==> connection.after_port_info(
            port_id,
            true,
            id,
            node_id,
        ).binded_globals.get(port_id) == connection.binded_globals.get(port_id),
        other != port_id ==> connection.after_port_info(
            port_id,
            true,
            id,
            node_id,
        ).binded_globals.get(other) == connection.binded_globals.get(other),
{
}

/// Nothing is done on the later news of a port, and nothing changes.
pub proof fn law_later_news_of_a_port(
    connection: Connection,
    port_id: u32,
    info: PortInfo,
    node_id: u32,
)
    ensures
        port_info_actions(false, info).len() == 0,
        connection.after_port_info(port_id, false, info.id, node_id) == connection,
{
}

/// A format that a port can take is told of once, under the id that the port is bound to by, with the
/// media type that the format states, or an unknown one where it states none.
pub proof fn law_format_of_a_port(port_id: u32, param: PortParam, stated: SpaMediaType)
    requires
        param.id == SpaEnum::Value(ParamType::EnumFormat),
        param.format == Some(
            Format { media_type: Some(MediaTypeValue::Id(SpaEnum::Value(stated))) },
        ) || (stated == SpaMediaType::Unknown && (param.format == Some(Format { media_type: None })
            || param.format == Some(Format { media_type: Some(MediaTypeValue::NotAnId) }))),
    ensures
        port_param_actions(port_id, param).len() == 1,
        port_param_actions(port_id, param)[0] == Action::Send(
            Message::<Seq<char>>::PortFormatChanged { id: port_id, media_type: stated },
        ),
{
}

/// Nothing is done on a parameter other than a format that a port can take, whatever its value.
pub proof fn law_other_parameters_of_a_port(port_id: u32, param: PortParam)
    requires
        param.id != SpaEnum::Value(ParamType::EnumFormat),
    ensures
        port_param_actions(port_id, param).len() == 0,
{
}

/// News of a port can be answered unless they are the first and the port is not bound to, has no known
/// direction or does not name its node by a number. A format can be answered where it is an object
/// that does not state a media type that is none, and any other parameter always.
pub proof fn law_port_events_that_fit(
    connection: Connection,
    port_id: u32,
    first: bool,
    info: PortInfo,
    param: PortParam,
)
    ensures
        connection.port_event_fits(port_id, first, PortEvent::Info(info)) <==> !first || {
            &&& connection.binded_globals.contains_key(port_id)
            &&& info.direction == SpaEnum::Value(Direction::Input) || info.direction
                == SpaEnum::Value(Direction::Output)
            &&& info.props@.contains_key("node.id"@)
            &&& parsed_u32(info.props@["node.id"@]) is Some
        },
        connection.port_event_fits(port_id, first, PortEvent::Param(param)) <==> param.id
            != SpaEnum::Value(ParamType::EnumFormat) || (param.format is Some && param.format
            != Some(Format { media_type: Some(MediaTypeValue::Id(SpaEnum::Unknown)) })),
{
    if let SpaEnum::Value(direction) = info.direction {
        assert(direction == Direction::Input || direction == Direction::Output);
    }
}

/// A connection starts out with nothing bound to and nothing in the graph.
pub proof fn law_connection_starts_empty(id: u32)
    ensures
        !Connection::empty().binded_globals.contains_key(id),
        !Connection::empty().graph.items.contains_key(id),
        Connection::empty().graph.links.len() == 0,
{
}

/// The properties that decide are the seven that nodes and ports are told of by, each once.
pub proof fn law_names_of_properties()
    ensures
        property_names().len() == 7,
        property_names().contains("media.class"@),
        property_names().contains("media.name"@),
        property_names().contains("node.description"@),
        property_names().contains("node.id"@),
        property_names().contains("node.name"@),
        property_names().contains("node.nick"@),
        property_names().contains("port.name"@),
{
    let all = property_names();
    assert(all[0] == "media.class"@ && all[1] == "media.name"@ && all[2] == "node.description"@
        && all[3] == "node.id"@ && all[4] == "node.name"@ && all[5] == "node.nick"@ && all[6]
        == "port.name"@);
}

/// The views of names are as many and in the same order, each with the characters of its name.
pub proof fn law_name_views(names: Seq<&'static str>)
    ensures
        name_views(names).len() == names.len(),
        forall|i: int| 0 <= i < names.len() ==> #[trigger] name_views(names)[i] == names[i]@,
{
}

} // verus!
