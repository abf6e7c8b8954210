//! A client of the native library: what it tells the user interface of the objects that it hears
//! of, and what it requests for the user interface.

use crate::dictionary::{
    Dictionary, Entries, Properties, PropertyError, entries_map, first_text, number_of,
    text_or_empty,
};
use crate::link::{
    LinkError, PipewireLink, described_link, end_properties, law_link_round_trip,
    law_request_describes_link, law_request_entries_amount, law_request_names_both_ends,
    link_properties, link_request_entries, read_link,
};
use crate::object::ObjectType;
use crate::spa::Direction;
use crate::text::{
    contains_text, decimal, law_found_pattern_stands_in_text, law_pattern_is_found_anywhere,
    parsed_u32, text_contains,
};
use vstd::prelude::*;

verus! {

/// What kind of media a node deals with.
#[derive(Clone, Copy, Debug, PartialEq, Eq, Structural)]
pub enum MediaType {
    Audio,
    Video,
    Midi,
}

/// What the connection tells the user interface, with texts of type `S`.
#[derive(Debug, PartialEq, Eq)]
pub enum Message<S> {
    NodeAdded { id: u32, name: S, media_type: Option<MediaType> },
    PortAdded { id: u32, node_id: u32, name: S, direction: Direction },
    LinkAdded { id: u32, link: PipewireLink },
    ObjectRemoved { id: u32 },
}

/// What the connection tells the user interface.
pub type PipewireMessage = Message<String>;

impl View for Message<String> {
    type V = Message<Seq<char>>;

    open spec fn view(&self) -> Message<Seq<char>> {
        match *self {
            Message::NodeAdded { id, name, media_type } => Message::NodeAdded {
                id,
                name: name@,
                media_type,
            },
            Message::PortAdded { id, node_id, name, direction } => Message::PortAdded {
                id,
                node_id,
                name: name@,
                direction,
            },
            Message::LinkAdded { id, link } => Message::LinkAdded { id, link },
            Message::ObjectRemoved { id } => Message::ObjectRemoved { id },
        }
    }
}

/// What the user interface asks of the connection.
#[derive(Clone, Copy, Debug, PartialEq, Eq, Structural)]
pub enum GtkMessage {
    CreateLink(PipewireLink),
    DestroyGlobal(u32),
    Terminate,
}

/// What the connection requests for the user interface, with texts of type `S` and properties of
/// type `D`.
#[derive(Debug)]
pub enum Request<S, D> {
    /// Have a factory of the core make a link.
    CreateLink { factory_name: S, properties: D },
    /// Have the registry destroy a global.
    DestroyGlobal { id: u32 },
    /// Leave the main loop.
    Quit,
}

impl View for Request<String, Dictionary> {
    type V = Request<Seq<char>, Entries>;

    open spec fn view(&self) -> Request<Seq<char>, Entries> {
        match *self {
            Request::CreateLink { factory_name, properties } => Request::CreateLink {
                factory_name: factory_name@,
                properties: properties.entries(),
            },
            Request::DestroyGlobal { id } => Request::DestroyGlobal { id },
            Request::Quit => Request::Quit,
        }
    }
}

/// An object that the registry has told of.
#[derive(Debug)]
pub struct GlobalObject {
    pub id: u32,
    pub type_: ObjectType,
    pub props: Option<Dictionary>,
}

/// Why an object cannot be told of.
#[derive(Clone, Copy, Debug, PartialEq, Eq, Structural)]
pub enum GlobalError {
    /// The object has no properties at all.
    NoProperties,
    /// A port does not name its node by number.
    NodeId(PropertyError),
    /// A link does not name its ends by number.
    Link(LinkError),
}

/// The nicest name there is for a node.
pub open spec fn node_name(properties: Properties) -> Seq<char> {
    first_text(properties, "node.nick"@, "node.description"@, "node.name"@)
}

/// The media that a media class stands for: of audio, video and midi the first that it contains.
pub open spec fn class_media_type(class: Seq<char>) -> Option<MediaType> {
    if contains_text(class, "Audio"@) {
        Some(MediaType::Audio)
    } else if contains_text(class, "Video"@) {
        Some(MediaType::Video)
    } else if contains_text(class, "Midi"@) {
        Some(MediaType::Midi)
    } else {
        None
    }
}

/// What kind of media a node deals with, by its media class.
pub open spec fn node_media_type(properties: Properties) -> Option<MediaType> {
    if properties.contains_key("media.class"@) {
        class_media_type(properties["media.class"@])
    } else {
        None
    }
}

/// Which way media flows through a port: in where the port says so, else out.
pub open spec fn port_direction(properties: Properties) -> Direction {
    if properties.contains_key("port.direction"@) && properties["port.direction"@] == "in"@ {
        Direction::Input
    } else {
        Direction::Output
    }
}

/// What tells of a new node.
pub open spec fn node_added(id: u32, properties: Properties) -> Message<Seq<char>> {
    Message::NodeAdded { id, name: node_name(properties), media_type: node_media_type(properties) }
}

/// What tells of a new port.
pub open spec fn port_added(id: u32, properties: Properties) -> Message<Seq<char>>
    recommends
        number_of(properties, "node.id"@) is Ok,
{
    Message::PortAdded {
        id,
        node_id: number_of(properties, "node.id"@)->Ok_0,
        name: text_or_empty(properties, "port.name"@),
        direction: port_direction(properties),
    }
}

/// What tells of a new link.
pub open spec fn link_added(id: u32, properties: Properties) -> Message<Seq<char>>
    recommends
        described_link(properties) is Ok,
{
    Message::LinkAdded { id, link: described_link(properties)->Ok_0 }
}

/// Why an object cannot be told of, if it cannot. Objects other than nodes, ports and links are of
/// no interest, whatever they hold.
pub open spec fn global_check(global: GlobalObject) -> Result<(), GlobalError> {
    match global.type_ {
        ObjectType::Other => Ok(()),
        _ => match global.props {
            None => Err(GlobalError::NoProperties),
            Some(props) => match global.type_ {
                ObjectType::Port => match number_of(props@, "node.id"@) {
                    Err(error) => Err(GlobalError::NodeId(error)),
                    Ok(_) => Ok(()),
                },
                ObjectType::Link => match described_link(props@) {
                    Err(error) => Err(GlobalError::Link(error)),
                    Ok(_) => Ok(()),
                },
                _ => Ok(()),
            },
        },
    }
}

/// What tells the user interface of an object, where it is of interest.
pub open spec fn global_message(global: GlobalObject) -> Option<Message<Seq<char>>>
    recommends
        global_check(global) is Ok,
{
    match global.type_ {
        ObjectType::Node => Some(node_added(global.id, global.props->0@)),
        ObjectType::Port => Some(port_added(global.id, global.props->0@)),
        ObjectType::Link => Some(link_added(global.id, global.props->0@)),
        ObjectType::Other => None,
    }
}

/// What the connection requests on a message of the user interface.
pub open spec fn requested(message: GtkMessage) -> Request<Seq<char>, Entries> {
    match message {
        GtkMessage::CreateLink(link) => Request::CreateLink {
            factory_name: "link-factory"@,
            properties: link_request_entries(link),
        },
        GtkMessage::DestroyGlobal(id) => Request::DestroyGlobal { id },
        GtkMessage::Terminate => Request::Quit,
    }
}

/// The media that a media class stands for.
fn media_class(class: &str) -> (media_type: Option<MediaType>)
    ensures
        media_type == class_media_type(class@),
{
    if text_contains(class, "Audio") {
        Some(MediaType::Audio)
    } else if text_contains(class, "Video") {
        Some(MediaType::Video)
    } else if text_contains(class, "Midi") {
        Some(MediaType::Midi)
    } else {
        None
    }
}

/// Tells of a new node.
pub fn handle_node(node: &GlobalObject) -> (message: PipewireMessage)
    requires
        node.props is Some,
    ensures
        message@ == node_added(node.id, node.props->0@),
{
    let props: &Dictionary = node.props.as_ref().unwrap();
    let name: String = props.get_first("node.nick", "node.description", "node.name");
    let media_type: Option<MediaType> = match props.get("media.class") {
        Some(class) => media_class(class.as_str()),
        None => None,
    };
    Message::NodeAdded { id: node.id, name, media_type }
}

/// Tells of a new port.
pub fn handle_port(port: &GlobalObject) -> (message: PipewireMessage)
    requires
        port.props is Some,
        number_of(port.props->0@, "node.id"@) is Ok,
    ensures
        message@ == port_added(port.id, port.props->0@),
{
    let props: &Dictionary = port.props.as_ref().unwrap();
    let name: String = props.get_or_empty("port.name");
    let node_id: u32 = props.number("node.id").unwrap();
    let inward: bool = match props.get("port.direction") {
        Some(direction) => *direction == "in".to_owned(),
        None => false,
    };
    let direction: Direction = if inward {
        Direction::Input
    } else {
        Direction::Output
    };
    Message::PortAdded { id: port.id, node_id, name, direction }
}

/// Tells of a new link.
pub fn handle_link(link: &GlobalObject) -> (message: PipewireMessage)
    requires
        link.props is Some,
        described_link(link.props->0@) is Ok,
    ensures
        message@ == link_added(link.id, link.props->0@),
{
    let props: &Dictionary = link.props.as_ref().unwrap();
    let ends: PipewireLink = read_link(props).unwrap();
    Message::LinkAdded { id: link.id, link: ends }
}

/// Why an object cannot be told of, if it cannot.
pub fn check_global(global: &GlobalObject) -> (check: Result<(), GlobalError>)
    ensures
        check == global_check(*global),
{
    match global.type_ {
        ObjectType::Other => Ok(()),
        _ => match &global.props {
            None => Err(GlobalError::NoProperties),
            Some(props) => match global.type_ {
                ObjectType::Port => match props.number("node.id") {
                    Err(error) => Err(GlobalError::NodeId(error)),
                    Ok(_) => Ok(()),
                },
                ObjectType::Link => match read_link(props) {
                    Err(error) => Err(GlobalError::Link(error)),
                    Ok(_) => Ok(()),
                },
                _ => Ok(()),
            },
        },
    }
}

/// Tells of a new object, where it is of interest.
pub fn handle_global(global: &GlobalObject) -> (message: Option<PipewireMessage>)
    requires
        global_check(*global) is Ok,
    ensures
        match message {
            Some(message) => Some(message@) == global_message(*global),
            None => global_message(*global) is None,
        },
{
    match global.type_ {
        ObjectType::Node => Some(handle_node(global)),
        ObjectType::Port => Some(handle_port(global)),
        ObjectType::Link => Some(handle_link(global)),
        ObjectType::Other => None,
    }
}

/// Tells that an object has gone.
pub fn handle_global_remove(id: u32) -> (message: PipewireMessage)
    ensures
        message@ == (Message::<Seq<char>>::ObjectRemoved { id }),
{
    Message::ObjectRemoved { id }
}

/// Answers a message of the user interface.
pub fn handle_gtk_message(message: GtkMessage) -> (request: Request<String, Dictionary>)
    ensures
        request@ == requested(message),
{
    match message {
        GtkMessage::CreateLink(link) => Request::CreateLink {
            factory_name: "link-factory".to_owned(),
            properties: link_properties(link),
        },
        GtkMessage::DestroyGlobal(id) => Request::DestroyGlobal { id },
        GtkMessage::Terminate => Request::Quit,
    }
}

/// A link that the user interface asked for is requested with properties that name both of its ends,
/// and once it is told of with those, whatever others come with them, it is told of as that link.
pub proof fn law_requested_link_is_told_of(link: PipewireLink, global: GlobalObject)
    requires
        global.type_ is Link,
        global.props is Some,
        end_properties(link).submap_of(global.props->0@),
    ensures
        end_properties(link).submap_of(
            entries_map(requested(GtkMessage::CreateLink(link))->properties),
        ),
        global_check(global) is Ok,
        global_message(global) == Some(Message::<Seq<char>>::LinkAdded { id: global.id, link }),
{
    law_request_entries_amount(link);
    law_request_describes_link(link);
    law_link_round_trip(link, global.props->0@);
}

/// The view of a message is of the same kind and has the same numbers and values, and the characters of
/// its name in place of its name.
pub proof fn law_message_view(
    id: u32,
    node_id: u32,
    name: String,
    media_type: Option<MediaType>,
    direction: Direction,
    link: PipewireLink,
)
    ensures
        (Message::NodeAdded { id, name, media_type })@ == (Message::NodeAdded {
            id,
            name: name@,
            media_type,
        }),
        (Message::PortAdded { id, node_id, name, direction })@ == (Message::PortAdded {
            id,
            node_id,
            name: name@,
            direction,
        }),
        (Message::<String>::LinkAdded { id, link })@ == (Message::<Seq<char>>::LinkAdded {
            id,
            link,
        }),
        (Message::<String>::ObjectRemoved { id })@ == (Message::<Seq<char>>::ObjectRemoved { id }),
{
}

/// The view of a request is of the same kind, with the same number, the characters of its text and the
/// entries of its properties.
pub proof fn law_request_view(id: u32, factory_name: String, properties: Dictionary)
    ensures
        (Request::CreateLink { factory_name, properties })@ == (Request::CreateLink {
            factory_name: factory_name@,
            properties: properties.entries(),
        }),
        (Request::<String, Dictionary>::DestroyGlobal { id })@ == (Request::<
            Seq<char>,
            Entries,
        >::DestroyGlobal { id }),
        Request::<String, Dictionary>::Quit@ is Quit,
{
}

/// A node is told of under its id, by its nick, else by its description, else by its name, else by
/// nothing.
pub proof fn law_node_is_named(id: u32, properties: Properties, shown: Seq<char>)
    requires
        properties.get("node.nick"@) == Some(shown) || (properties.get("node.nick"@) is None && (
        properties.get("node.description"@) == Some(shown) || (properties.get("node.description"@)
            is None && (properties.get("node.name"@) == Some(shown) || (properties.get("node.name"@)
            is None && shown.len() == 0))))),
    ensures
        node_added(id, properties) matches Message::NodeAdded { id: told, name, .. } && told == id
            && name == shown,
{
    if shown.len() == 0 {
        assert(shown =~= Seq::<char>::empty());
    }
}

/// A node whose media class has "Audio" in it, wherever that is, deals with audio. One that does not,
/// but has "Video" in it, deals with video, and one that has neither but "Midi", with midi.
pub proof fn law_media_of_a_node(
    id: u32,
    properties: Properties,
    before: Seq<char>,
    after: Seq<char>,
)
    requires
        properties.contains_key("media.class"@),
    ensures
        properties["media.class"@] == before + "Audio"@ + after ==> (node_added(id, properties) matches
            Message::NodeAdded { media_type, .. } && media_type == Some(MediaType::Audio)),
        properties["media.class"@] == before + "Video"@ + after && !(exists|
            left: Seq<char>,
            right: Seq<char>,
        |
            properties["media.class"@] == #[trigger] (left + "Audio"@ + right)) ==> (node_added(
            id,
            properties,
        ) matches Message::NodeAdded { media_type, .. } && media_type == Some(MediaType::Video)),
        properties["media.class"@] == before + "Midi"@ + after && !(exists|
            left: Seq<char>,
            right: Seq<char>,
        |
            properties["media.class"@] == #[trigger] (left + "Audio"@ + right)) && !(exists|
            left: Seq<char>,
            right: Seq<char>,
        |
            properties["media.class"@] == #[trigger] (left + "Video"@ + right)) ==> (node_added(
            id,
            properties,
        ) matches Message::NodeAdded { media_type, .. } && media_type == Some(MediaType::Midi)),
{
    let class = properties["media.class"@];
    law_pattern_is_found_anywhere(before, "Audio"@, after);
    law_pattern_is_found_anywhere(before, "Video"@, after);
    law_pattern_is_found_anywhere(before, "Midi"@, after);
    law_found_pattern_stands_in_text(class, "Audio"@);
    law_found_pattern_stands_in_text(class, "Video"@);
}

/// A node without a media class, or whose media class has none of "Audio", "Video" and "Midi" anywhere,
/// deals with no known media.
pub proof fn law_other_node_has_no_media(id: u32, properties: Properties)
    requires
        properties.get("media.class"@) matches Some(class) ==> {
            &&& !(exists|left: Seq<char>, right: Seq<char>|
                class == #[trigger] (left + "Audio"@ + right))
            &&& !(exists|left: Seq<char>, right: Seq<char>|
                class == #[trigger] (left + "Video"@ + right))
            &&& !(exists|left: Seq<char>, right: Seq<char>|
                class == #[trigger] (left + "Midi"@ + right))
        },
    ensures
        node_added(id, properties) matches Message::NodeAdded { media_type, .. } && media_type is None,
{
    if properties.contains_key("media.class"@) {
        let class = properties["media.class"@];
        law_found_pattern_stands_in_text(class, "Audio"@);
        law_found_pattern_stands_in_text(class, "Video"@);
        law_found_pattern_stands_in_text(class, "Midi"@);
    }
}

/// A port is told of under its id, on the node whose number it names, by its name or by none where it
/// has none, and as one that takes media in exactly where its direction is "in".
pub proof fn law_port_is_told_of(id: u32, properties: Properties, node: u32)
    requires
        properties.contains_key("node.id"@),
        parsed_u32(properties["node.id"@]) == Some(node),
    ensures
        port_added(id, properties) matches Message::PortAdded { id: told, node_id, name, direction }
            && {
            &&& told == id
            &&& node_id == node
            &&& properties.contains_key("port.name"@) ==> name == properties["port.name"@]
            &&& !properties.contains_key("port.name"@) ==> name.len() == 0
            &&& direction == Direction::Input <==> properties.get("port.direction"@) == Some("in"@)
        },
{
}

/// A link is told of under its id, with each of its four numbers as the property of that name has it.
pub proof fn law_link_is_told_of(id: u32, properties: Properties, link: PipewireLink)
    requires
        properties.contains_key("link.output.node"@),
        parsed_u32(properties["link.output.node"@]) == Some(link.node_from),
        properties.contains_key("link.output.port"@),
        parsed_u32(properties["link.output.port"@]) == Some(link.port_from),
        properties.contains_key("link.input.node"@),
        parsed_u32(properties["link.input.node"@]) == Some(link.node_to),
        properties.contains_key("link.input.port"@),
        parsed_u32(properties["link.input.port"@]) == Some(link.port_to),
    ensures
        link_added(id, properties) == (Message::<Seq<char>>::LinkAdded { id, link }),
{
}

/// An object is told of as what it is, under its id and by its properties, and one that is neither a
/// node nor a port nor a link not at all.
pub proof fn law_object_is_told_of_as_what_it_is(global: GlobalObject)
    ensures
        global.type_ is Other <==> global_message(global) is None,
        global.type_ is Node && global.props is Some ==> global_message(global) == Some(
            node_added(global.id, global.props->0@),
        ),
        global.type_ is Port && global.props is Some ==> global_message(global) == Some(
            port_added(global.id, global.props->0@),
        ),
        global.type_ is Link && global.props is Some ==> global_message(global) == Some(
            link_added(global.id, global.props->0@),
        ),
{
}

/// Objects of no interest can all be told of as such, and nodes wherever they have properties. Ports
/// and links also need the numbers that they are told of by: the first that they do not give is why
/// they cannot be told of.
pub proof fn law_objects_that_can_be_told_of(global: GlobalObject)
    ensures
        global.type_ is Other ==> global_check(global) is Ok,
        !(global.type_ is Other) ==> (global_check(global) == Err::<(), GlobalError>(
            GlobalError::NoProperties,
        ) <==> global.props is None),
        global.type_ is Node && global.props is Some ==> global_check(global) is Ok,
        global.type_ is Port && global.props is Some ==> match number_of(
            global.props->0@,
            "node.id"@,
        ) {
            Ok(_) => global_check(global) is Ok,
            Err(error) => global_check(global) == Err::<(), GlobalError>(GlobalError::NodeId(error)),
        },
        global.type_ is Link && global.props is Some ==> match described_link(global.props->0@) {
            Ok(_) => global_check(global) is Ok,
            Err(error) => global_check(global) == Err::<(), GlobalError>(GlobalError::Link(error)),
        },
{
}

/// The user interface gets what it asks for: a link from the one end to the other, in entries that name
/// them, from the link factory; the destruction of the very object; or the end of the main loop.
pub proof fn law_requests_are_what_was_asked_for(link: PipewireLink, id: u32)
    ensures
        requested(GtkMessage::CreateLink(link)) matches Request::CreateLink {
            factory_name,
            properties,
        } && {
            &&& factory_name == "link-factory"@
            &&& properties.len() == 5
            &&& properties[0].0 == "link.output.node"@
            &&& properties[0].1 == decimal(link.node_from as nat)
            &&& properties[1].0 == "link.output.port"@
            &&& properties[1].1 == decimal(link.port_from as nat)
            &&& properties[2].0 == "link.input.node"@
            &&& properties[2].1 == decimal(link.node_to as nat)
            &&& properties[3].0 == "link.input.port"@
            &&& properties[3].1 == decimal(link.port_to as nat)
            &&& properties[4].0 == "object.linger"@
            &&& properties[4].1 == "1"@
        },
        requested(GtkMessage::DestroyGlobal(id)) == (Request::<Seq<char>, Entries>::DestroyGlobal {
            id,
        }),
        requested(GtkMessage::Terminate) is Quit,
{
    law_request_names_both_ends(link);
}

} // verus!
