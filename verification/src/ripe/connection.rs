//! The state of a connection, and how the events of the server change it.

use super::action::{Action, Interface, action_views};
use super::event::{
    CoreEvent, LinkEvent, LinkInfo, NodeEvent, ParamInfo, PortEvent, PortInfo, PortParam,
    RegistryEvent,
};
use crate::dictionary::{Dictionary, Properties, first_text, number_of, text_or_empty};
use crate::message::{Message, NodeType};
use crate::object::ObjectType;
use crate::spa::{
    Direction, LinkState, ParamType, SpaEnum, SpaMediaType, has_usable_media_type, media_type,
    media_type_of, media_type_usable,
};
use crate::state::{Graph, Item, State};
use crate::text::{contains_text, text_contains};
use std::collections::HashMap;
use vstd::prelude::*;

verus! {

broadcast use vstd::std_specs::hash::group_hash_axioms;

/// A global that the client has bound to, by the proxy that stands for it.
#[derive(Clone, Copy, Debug, PartialEq, Eq, Structural)]
pub enum BindedGlobal {
    Node { proxy_id: u32 },
    Port {
        proxy_id: u32,
        /// The node that the port is on, once the port has told.
        node_id: Option<u32>,
    },
    Link { proxy_id: u32 },
}

impl BindedGlobal {
    /// The proxy that stands for the global.
    pub open spec fn proxy_id(self) -> u32 {
        match self {
            BindedGlobal::Node { proxy_id } => proxy_id,
            BindedGlobal::Port { proxy_id, .. } => proxy_id,
            BindedGlobal::Link { proxy_id } => proxy_id,
        }
    }
}

/// What a connection knows: the globals it has bound to by id, and the graph.
#[verifier::ext_equal]
pub struct Connection {
    pub binded_globals: Map<u32, BindedGlobal>,
    pub graph: Graph,
}

/// The name to show for a node.
pub open spec fn node_name(properties: Properties) -> Seq<char> {
    first_text(properties, "node.description"@, "node.nick"@, "node.name"@)
}

/// The type of node that a media class stands for. Taking media in goes before giving it out.
pub open spec fn class_node_type(class: Seq<char>) -> Option<NodeType> {
    if contains_text(class, "Sink"@) || contains_text(class, "Input"@) {
        Some(NodeType::Input)
    } else if contains_text(class, "Source"@) || contains_text(class, "Output"@) {
        Some(NodeType::Output)
    } else {
        None
    }
}

/// The type of a node, which its media class alone decides.
pub open spec fn node_type_of(properties: Properties) -> Option<NodeType> {
    if properties.contains_key("media.class"@) {
        class_node_type(properties["media.class"@])
    } else {
        None
    }
}

/// What a new global has the client do.
pub open spec fn global_actions(
    id: u32,
    interface: ObjectType,
    properties: Properties,
) -> Seq<Action<Seq<char>>> {
    match interface {
        ObjectType::Node => seq![
            Action::Send(
                Message::NodeAdded {
                    id,
                    name: node_name(properties),
                    node_type: node_type_of(properties),
                },
            ),
            Action::Bind { id, interface: Interface::Node },
        ],
        ObjectType::Link => seq![Action::Bind { id, interface: Interface::Link }],
        ObjectType::Port => seq![Action::Bind { id, interface: Interface::Port }],
        ObjectType::Other => seq![],
    }
}

/// The global that is bound to under `interface` and `proxy_id`.
pub open spec fn new_binding(interface: Interface, proxy_id: u32) -> BindedGlobal {
    match interface {
        Interface::Node => BindedGlobal::Node { proxy_id },
        Interface::Link => BindedGlobal::Link { proxy_id },
        Interface::Port => BindedGlobal::Port { proxy_id, node_id: None },
    }
}

/// What a new binding has the client do.
pub open spec fn listen_action<S>(id: u32, interface: Interface, proxy_id: u32) -> Action<S> {
    match interface {
        Interface::Node => Action::ListenToNode { proxy_id },
        Interface::Link => Action::ListenToLink { proxy_id, is_first_info_event: true },
        Interface::Port => Action::ListenToPort {
            proxy_id,
            port_id: id,
            is_first_info_event: true,
        },
    }
}

/// What tells the user interface that the global `id` has gone.
pub open spec fn removed_message(id: u32, global: BindedGlobal) -> Message<Seq<char>>
    recommends
        global matches BindedGlobal::Port { node_id, .. } ==> node_id is Some,
{
    match global {
        BindedGlobal::Node { .. } => Message::NodeRemoved { id },
        BindedGlobal::Port { node_id, .. } => Message::PortRemoved { id, node_id: node_id->0 },
        BindedGlobal::Link { .. } => Message::LinkRemoved { id },
    }
}

/// What a node's news have the client do: tell its names, where what it plays has one.
pub open spec fn node_info_actions(id: u32, properties: Properties) -> Seq<Action<Seq<char>>> {
    if properties.contains_key("media.name"@) {
        seq![
            Action::Send(
                Message::NodeNameChanged {
                    id,
                    name: node_name(properties),
                    media_name: properties["media.name"@],
                },
            ),
        ]
    } else {
        seq![]
    }
}

/// Whether a link is active.
pub open spec fn is_active(info: LinkInfo) -> bool {
    info.state == SpaEnum::Value(LinkState::Active)
}

/// What a link's first news have the client do.
pub open spec fn link_added_actions(info: LinkInfo) -> Seq<Action<Seq<char>>> {
    seq![
        Action::Send(
            Message::LinkAdded {
                id: info.id,
                port_from: info.output_port_id,
                port_to: info.input_port_id,
                active: is_active(info),
                media_type: media_type_of(info.format),
            },
        ),
    ]
}

/// What a link's later news have the client do: tell of a new state, then of a new format.
pub open spec fn link_changed_actions(info: LinkInfo) -> Seq<Action<Seq<char>>> {
    let state: Seq<Action<Seq<char>>> = if info.state_changed {
        seq![Action::Send(Message::LinkStateChanged { id: info.id, active: is_active(info) })]
    } else {
        seq![]
    };
    let format: Seq<Action<Seq<char>>> = if info.format_changed {
        seq![
            Action::Send(
                Message::LinkFormatChanged {
                    id: info.id,
                    media_type: media_type_of(info.format),
                },
            ),
        ]
    } else {
        seq![]
    };
    state + format
}

/// What a link's news have the client do. The flag says whether they are the first.
pub open spec fn link_info_actions(is_first_info_event: bool, info: LinkInfo) -> Seq<
    Action<Seq<char>>,
> {
    if is_first_info_event {
        link_added_actions(info)
    } else {
        link_changed_actions(info)
    }
}

/// Whether a link's event can be handled: where the media type is told of, it has to be usable.
pub open spec fn link_event_fits(is_first_info_event: bool, event: LinkEvent) -> bool {
    match event {
        LinkEvent::Info(info) => is_first_info_event || info.format_changed
            ==> has_usable_media_type(info.format),
    }
}

/// Whether a parameter lists the formats that a port can take.
pub open spec fn is_enum_format(param: ParamInfo) -> bool {
    param.id == SpaEnum::Value(ParamType::EnumFormat)
}

/// Whether the first parameter that lists the formats can be read.
pub open spec fn offers_formats(params: Seq<ParamInfo>) -> bool {
    exists|i: int|
        0 <= i < params.len() && is_enum_format(#[trigger] params[i]) && params[i].readable && (
        forall|j: int| 0 <= j < i ==> !is_enum_format(#[trigger] params[j]))
}

/// What a port's first news have the client do.
pub open spec fn port_added_actions(
    id: u32,
    direction: SpaEnum<Direction>,
    properties: Properties,
    params: Seq<ParamInfo>,
) -> Seq<Action<Seq<char>>> {
    let added: Action<Seq<char>> = Action::Send(
        Message::PortAdded {
            id,
            node_id: number_of(properties, "node.id"@)->Ok_0,
            name: text_or_empty(properties, "port.name"@),
            direction: direction->Value_0,
        },
    );
    if offers_formats(params) {
        seq![Action::EnumFormats, added]
    } else {
        seq![added]
    }
}

/// What a port's news have the client do: nothing but at the first.
pub open spec fn port_info_actions(is_first_info_event: bool, info: PortInfo) -> Seq<
    Action<Seq<char>>,
> {
    if is_first_info_event {
        port_added_actions(info.id, info.direction, info.props@, info.params@)
    } else {
        seq![]
    }
}

/// What a parameter of the port that was bound to as `port_id` has the client do: tell the media
/// type, where the parameter is one of the formats that the port can take.
pub open spec fn port_param_actions(port_id: u32, param: PortParam) -> Seq<Action<Seq<char>>> {
    if param.id == SpaEnum::Value(ParamType::EnumFormat) {
        seq![
            Action::Send(
                Message::PortFormatChanged {
                    id: port_id,
                    media_type: media_type_of(param.format),
                },
            ),
        ]
    } else {
        seq![]
    }
}

/// What an event of the core has the client do: answer a ping, with its own numbers.
pub open spec fn core_actions(event: CoreEvent) -> Seq<Action<Seq<char>>> {
    match event {
        CoreEvent::Ping { id, seq } => seq![Action::Pong { id, seq }],
        CoreEvent::Other => seq![],
    }
}

/// The properties that decide what the client does.
pub open spec fn property_names() -> Seq<Seq<char>> {
    seq![
        "media.class"@,
        "media.name"@,
        "node.description"@,
        "node.id"@,
        "node.name"@,
        "node.nick"@,
        "port.name"@,
    ]
}

/// The names, as sequences of characters.
pub open spec fn name_views(names: Seq<&'static str>) -> Seq<Seq<char>> {
    names.map_values(|name: &'static str| name@)
}

impl Connection {
    /// What a connection knows at the start.
    pub open spec fn empty() -> Connection {
        Connection { binded_globals: Map::empty(), graph: Graph::empty() }
    }

    /// What is known once a global has appeared.
    pub open spec fn after_global(self, id: u32, interface: ObjectType) -> Connection {
        if interface is Node {
            Connection { graph: self.graph.insert(id, Item::Node), ..self }
        } else {
            self
        }
    }

    /// What is known once the client has bound to a global.
    pub open spec fn after_bind(self, id: u32, interface: Interface, proxy_id: u32) -> Connection {
        Connection {
            binded_globals: self.binded_globals.insert(id, new_binding(interface, proxy_id)),
            ..self
        }
    }

    /// Whether the removal of the global `id` can be told of: of a port, the node has to be known.
    pub open spec fn removal_fits(self, id: u32) -> bool {
        self.binded_globals.contains_key(id) ==> (self.binded_globals[id] matches BindedGlobal::Port {
            node_id,
            ..
        } ==> node_id is Some)
    }

    /// What is known once the global `id` has gone.
    pub open spec fn after_removal(self, id: u32) -> Connection {
        if self.binded_globals.contains_key(id) {
            Connection {
                binded_globals: self.binded_globals.remove(id),
                graph: self.graph.remove(id),
            }
        } else {
            self
        }
    }

    /// What the removal of the global `id` has the client do: nothing where it had not bound to it.
    pub open spec fn removal_actions(self, id: u32) -> Seq<Action<Seq<char>>> {
        if self.binded_globals.contains_key(id) {
            seq![
                Action::DestroyObject { proxy_id: self.binded_globals[id].proxy_id() },
                Action::Send(removed_message(id, self.binded_globals[id])),
            ]
        } else {
            seq![]
        }
    }

    /// Whether a registry event can be handled.
    pub open spec fn registry_event_fits(self, event: RegistryEvent) -> bool {
        match event {
            RegistryEvent::Global(_) => true,
            RegistryEvent::GlobalRemove { id } => self.removal_fits(id),
        }
    }

    /// What is known after a link's news, of which the first alone add to what is known.
    pub open spec fn after_link_info(
        self,
        is_first_info_event: bool,
        info: LinkInfo,
    ) -> Connection {
        if is_first_info_event {
            Connection {
                graph: self.graph.insert(
                    info.id,
                    Item::Link { port_from: info.output_port_id, port_to: info.input_port_id },
                ),
                ..self
            }
        } else {
            self
        }
    }

    /// What is known after the news, under `id`, of the port that was bound to as `port_id`, of
    /// which the first alone add to what is known.
    pub open spec fn after_port_info(
        self,
        port_id: u32,
        is_first_info_event: bool,
        id: u32,
        node_id: u32,
    ) -> Connection {
        if is_first_info_event {
            Connection {
                binded_globals: match self.binded_globals[port_id] {
                    BindedGlobal::Port { proxy_id, .. } => self.binded_globals.insert(
                        port_id,
                        BindedGlobal::Port { proxy_id, node_id: Some(node_id) },
                    ),
                    _ => self.binded_globals,
                },
                graph: self.graph.insert(id, Item::Port { node_id }),
            }
        } else {
            self
        }
    }

    /// Whether a port's event can be handled. First news come from a port that was bound to, name
    /// its node by number and have a known direction; formats are objects with a usable media type.
    pub open spec fn port_event_fits(
        self,
        port_id: u32,
        is_first_info_event: bool,
        event: PortEvent,
    ) -> bool {
        match event {
            PortEvent::Info(info) => is_first_info_event ==> {
                &&& self.binded_globals.contains_key(port_id)
                &&& number_of(info.props@, "node.id"@) is Ok
                &&& info.direction is Value
            },
            PortEvent::Param(param) => param.id == SpaEnum::Value(ParamType::EnumFormat) ==> {
                &&& param.format is Some
                &&& has_usable_media_type(param.format)
            },
        }
    }
}

/// The names of the properties that decide what the client does. No other property has to be at hand
/// for an event to be handled.
pub fn property_keys() -> (names: Vec<&'static str>)
    ensures
        name_views(names@) == property_names(),
{
    let mut names: Vec<&'static str> = Vec::new();
    names.push("media.class");
    names.push("media.name");
    names.push("node.description");
    names.push("node.id");
    names.push("node.name");
    names.push("node.nick");
    names.push("port.name");
    names
}

/// The name to show for a node.
fn shown_name(properties: &Dictionary) -> (name: String)
    ensures
        name@ == node_name(properties@),
{
    properties.get_first("node.description", "node.nick", "node.name")
}

/// The type of node that a media class stands for.
fn media_class(class: &str) -> (node_type: Option<NodeType>)
    ensures
        node_type == class_node_type(class@),
{
    if text_contains(class, "Sink") || text_contains(class, "Input") {
        Some(NodeType::Input)
    } else if text_contains(class, "Source") || text_contains(class, "Output") {
        Some(NodeType::Output)
    } else {
        None
    }
}

/// The type of a node. The property `media.category` has no say in it: a duplex node goes by its
/// media class as well.
fn node_type(properties: &Dictionary) -> (node_type: Option<NodeType>)
    ensures
        node_type == node_type_of(properties@),
{
    match properties.get("media.class") {
        Some(class) => media_class(class.as_str()),
        None => None,
    }
}

/// Whether a link is active.
fn link_is_active(info: &LinkInfo) -> (active: bool)
    ensures
        active == is_active(*info),
{
    match info.state {
        SpaEnum::Value(LinkState::Active) => true,
        _ => false,
    }
}

/// Whether the first parameter that lists the formats can be read.
fn formats_readable(params: &Vec<ParamInfo>) -> (readable: bool)
    ensures
        readable == offers_formats(params@),
{
    let mut i: usize = 0;
    while i < params.len()
        invariant
            i <= params@.len(),
            forall|j: int| 0 <= j < i ==> !is_enum_format(#[trigger] params@[j]),
        decreases params@.len() - i,
    {
        match params[i].id {
            SpaEnum::Value(ParamType::EnumFormat) => {
                assert(is_enum_format(params@[i as int]));
                return params[i].readable;
            },
            _ => {},
        }
        i = i + 1;
    }
    false
}

/// The state of a connection.
#[derive(Debug)]
pub struct PipewireState {
    binded_globals: HashMap<u32, BindedGlobal>,
    state: State,
}

impl View for PipewireState {
    type V = Connection;

    closed spec fn view(&self) -> Connection {
        Connection { binded_globals: self.binded_globals@, graph: self.state@ }
    }
}

impl PipewireState {
    /// A connection that knows of nothing.
    pub fn new() -> (state: PipewireState)
        ensures
            state@ == Connection::empty(),
            state@.graph.wf(),
    {
        PipewireState { binded_globals: HashMap::new(), state: State::new() }
    }

    /// The graph as known.
    pub fn state(&self) -> (state: &State)
        ensures
            state@ == self@.graph,
    {
        &self.state
    }

    /// The global that the client has bound to under `id`.
    pub fn binded_global(&self, id: u32) -> (global: Option<BindedGlobal>)
        ensures
            global == self@.binded_globals.get(id),
    {
        match self.binded_globals.get(&id) {
            Some(global) => Some(*global),
            None => None,
        }
    }

    /// Answers an event of the core: a ping, with its own numbers.
    pub fn core_event(&self, event: CoreEvent) -> (actions: Vec<Action<String>>)
        ensures
            action_views(actions@) == core_actions(event),
    {
        let mut actions: Vec<Action<String>> = Vec::new();
        match event {
            CoreEvent::Ping { id, seq } => actions.push(Action::Pong { id, seq }),
            CoreEvent::Other => {},
        }
        actions
    }

    /// Answers an event of a node.
    pub fn node_event(&self, event: NodeEvent) -> (actions: Vec<Action<String>>)
        ensures
            action_views(actions@) == match event {
                NodeEvent::Info(info) => node_info_actions(info.id, info.props@),
                NodeEvent::Param => seq![],
            },
    {
        let mut actions: Vec<Action<String>> = Vec::new();
        match event {
            NodeEvent::Info(info) => {
                if let Some(media_name) = info.props.get("media.name") {
                    let name: String = shown_name(&info.props);
                    actions.push(
                        Action::Send(
                            Message::NodeNameChanged {
                                id: info.id,
                                name,
                                media_name: media_name.clone(),
                            },
                        ),
                    );
                }
            },
            NodeEvent::Param => {},
        }
        actions
    }

    /// Whether `registry_event` takes the event: not the removal of a port whose node is not known
    /// yet.
    pub fn accepts_registry_event(&self, event: &RegistryEvent) -> (accepts: bool)
        ensures
            accepts == self@.registry_event_fits(*event),
    {
        match event {
            RegistryEvent::Global(_) => true,
            RegistryEvent::GlobalRemove { id } => match self.binded_globals.get(id) {
                Some(BindedGlobal::Port { node_id: None, .. }) => false,
                _ => true,
            },
        }
    }

    /// Answers an event of the registry. The proxy that comes of a `Bind` is for `global_bound`.
    pub fn registry_event(&mut self, event: RegistryEvent) -> (actions: Vec<Action<String>>)
        requires
            old(self)@.graph.wf(),
            old(self)@.registry_event_fits(event),
        ensures
            final(self)@.graph.wf(),
            match event {
                RegistryEvent::Global(global) => {
                    &&& final(self)@ == old(self)@.after_global(global.id, global.interface)
                    &&& action_views(actions@) == global_actions(
                        global.id,
                        global.interface,
                        global.properties@,
                    )
                },
                RegistryEvent::GlobalRemove { id } => {
                    &&& final(self)@ == old(self)@.after_removal(id)
                    &&& action_views(actions@) == old(self)@.removal_actions(id)
                },
            },
    {
        let mut actions: Vec<Action<String>> = Vec::new();
        match event {
            RegistryEvent::Global(global) => match global.interface {
                ObjectType::Node => {
                    let name: String = shown_name(&global.properties);
                    let node_type: Option<NodeType> = node_type(&global.properties);
                    self.state.insert(global.id, Item::Node);
                    actions.push(
                        Action::Send(Message::NodeAdded { id: global.id, name, node_type }),
                    );
                    actions.push(Action::Bind { id: global.id, interface: Interface::Node });
                },
                ObjectType::Link => actions.push(
                    Action::Bind { id: global.id, interface: Interface::Link },
                ),
                ObjectType::Port => actions.push(
                    Action::Bind { id: global.id, interface: Interface::Port },
                ),
                ObjectType::Other => {},
            },
            RegistryEvent::GlobalRemove { id } => {
                if let Some(global) = self.binded_globals.remove(&id) {
                    let (proxy_id, message): (u32, Message<String>) = match global {
                        BindedGlobal::Node { proxy_id } => (proxy_id, Message::NodeRemoved { id }),
                        BindedGlobal::Port { proxy_id, node_id } => (
                            proxy_id,
                            Message::PortRemoved { id, node_id: node_id.unwrap() },
                        ),
                        BindedGlobal::Link { proxy_id } => (proxy_id, Message::LinkRemoved { id }),
                    };
                    actions.push(Action::DestroyObject { proxy_id });
                    self.state.remove(id);
                    actions.push(Action::Send(message));
                }
                assert(self@.binded_globals =~= old(self)@.after_removal(id).binded_globals);
            },
        }
        actions
    }

    /// Takes note of the proxy that stands for the global `id`, which the client has bound to.
    pub fn global_bound(&mut self, id: u32, interface: Interface, proxy_id: u32) -> (action: Action<
        String,
    >)
        ensures
            final(self)@ == old(self)@.after_bind(id, interface, proxy_id),
            action == listen_action::<String>(id, interface, proxy_id),
    {
        match interface {
            Interface::Node => {
                self.binded_globals.insert(id, BindedGlobal::Node { proxy_id });
                Action::ListenToNode { proxy_id }
            },
            Interface::Link => {
                self.binded_globals.insert(id, BindedGlobal::Link { proxy_id });
                Action::ListenToLink { proxy_id, is_first_info_event: true }
            },
            Interface::Port => {
                self.binded_globals.insert(id, BindedGlobal::Port { proxy_id, node_id: None });
                Action::ListenToPort { proxy_id, port_id: id, is_first_info_event: true }
            },
        }
    }

    /// Whether `link_event` takes the event: not where a media type would be told of that is none.
    pub fn accepts_link_event(&self, is_first_info_event: bool, event: &LinkEvent) -> (accepts: bool)
        ensures
            accepts == link_event_fits(is_first_info_event, *event),
    {
        match event {
            LinkEvent::Info(info) => !(is_first_info_event || info.format_changed)
                || media_type_usable(&info.format),
        }
    }

    /// Answers an event of a link. `is_first_info_event` is the flag that goes with the link.
    pub fn link_event(&mut self, is_first_info_event: &mut bool, event: LinkEvent) -> (actions: Vec<
        Action<String>,
    >)
        requires
            old(self)@.graph.wf(),
            link_event_fits(*old(is_first_info_event), event),
        ensures
            final(self)@.graph.wf(),
            !*final(is_first_info_event),
            match event {
                LinkEvent::Info(info) => {
                    &&& final(self)@ == old(self)@.after_link_info(*old(is_first_info_event), info)
                    &&& action_views(actions@) == link_info_actions(
                        *old(is_first_info_event),
                        info,
                    )
                },
            },
    {
        let mut actions: Vec<Action<String>> = Vec::new();
        match event {
            LinkEvent::Info(info) => {
                let active: bool = link_is_active(&info);
                if *is_first_info_event {
                    let port_from: u32 = info.output_port_id;
                    let port_to: u32 = info.input_port_id;
                    self.state.insert(info.id, Item::Link { port_from, port_to });
                    actions.push(
                        Action::Send(
                            Message::LinkAdded {
                                id: info.id,
                                port_from,
                                port_to,
                                active,
                                media_type: media_type(&info.format),
                            },
                        ),
                    );
                } else {
                    if info.state_changed {
                        actions.push(
                            Action::Send(Message::LinkStateChanged { id: info.id, active }),
                        );
                    }
                    if info.format_changed {
                        actions.push(
                            Action::Send(
                                Message::LinkFormatChanged {
                                    id: info.id,
                                    media_type: media_type(&info.format),
                                },
                            ),
                        );
                    }
                }
                *is_first_info_event = false;
            },
        }
        actions
    }

    /// Whether `port_event` takes the event.
    pub fn accepts_port_event(&self, data: &(u32, bool), event: &PortEvent) -> (accepts: bool)
        ensures
            accepts == self@.port_event_fits(data.0, data.1, *event),
    {
        match event {
            PortEvent::Info(info) => {
                if !data.1 {
                    return true;
                }
                let known_direction: bool = match info.direction {
                    SpaEnum::Value(_) => true,
                    SpaEnum::Unknown => false,
                };
                known_direction && self.binded_globals.contains_key(&data.0)
                    && info.props.number("node.id").is_ok()
            },
            PortEvent::Param(param) => match param.id {
                SpaEnum::Value(ParamType::EnumFormat) => param.format.is_some()
                    && media_type_usable(&param.format),
                _ => true,
            },
        }
    }

    /// Answers an event of a port. `data` goes with the port: the id of its global, and whether its
    /// first news are still to come.
    pub fn port_event(&mut self, data: &mut (u32, bool), event: PortEvent) -> (actions: Vec<
        Action<String>,
    >)
        requires
            old(self)@.graph.wf(),
            old(self)@.port_event_fits(old(data).0, old(data).1, event),
        ensures
            final(self)@.graph.wf(),
            final(data).0 == old(data).0,
            match event {
                PortEvent::Info(info) => {
                    &&& !final(data).1
                    &&& final(self)@ == old(self)@.after_port_info(
                        old(data).0,
                        old(data).1,
                        info.id,
                        number_of(info.props@, "node.id"@)->Ok_0,
                    )
                    &&& action_views(actions@) == port_info_actions(old(data).1, info)
                },
                PortEvent::Param(param) => {
                    &&& final(data).1 == old(data).1
                    &&& final(self)@ == old(self)@
                    &&& action_views(actions@) == port_param_actions(old(data).0, param)
                },
            },
    {
        let mut actions: Vec<Action<String>> = Vec::new();
        match event {
            PortEvent::Info(info) => {
                if data.1 {
                    let name: String = info.props.get_or_empty("port.name");
                    let node_id: u32 = info.props.number("node.id").unwrap();
                    let direction: Direction = match info.direction {
                        SpaEnum::Value(direction) => direction,
                        SpaEnum::Unknown => Direction::Output,
                    };
                    let port_id: u32 = data.0;
                    if let Some(BindedGlobal::Port { proxy_id, .. }) = self.binded_global(port_id) {
                        self.binded_globals.insert(
                            port_id,
                            BindedGlobal::Port { proxy_id, node_id: Some(node_id) },
                        );
                    }
                    self.state.insert(info.id, Item::Port { node_id });
                    if formats_readable(&info.params) {
                        actions.push(Action::EnumFormats);
                    }
                    actions.push(
                        Action::Send(Message::PortAdded { id: info.id, node_id, name, direction }),
                    );
                }
                data.1 = false;
            },
            PortEvent::Param(param) => {
                if let SpaEnum::Value(ParamType::EnumFormat) = param.id {
                    let media_type: SpaMediaType = media_type(&param.format);
                    actions.push(
                        Action::Send(Message::PortFormatChanged { id: data.0, media_type }),
                    );
                }
            },
        }
        actions
    }
}

} // verus!
