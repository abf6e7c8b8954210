use pipewire_connection::dictionary::Dictionary;
use pipewire_connection::link::{read_link, PipewireLink};
use pipewire_connection::message::{GtkMessage, NodeType, PipewireMessage};
use pipewire_connection::object::ObjectType;
use pipewire_connection::ripe::action::{Action, Interface};
use pipewire_connection::ripe::connection::{property_keys, BindedGlobal, PipewireState};
use pipewire_connection::ripe::event::{
    CoreEvent, Global, LinkEvent, LinkInfo, NodeEvent, NodeInfo, ParamInfo, PortEvent, PortInfo,
    PortParam, RegistryEvent,
};
use pipewire_connection::ripe::session::{
    goes_on_reading, properties, startup_steps, LoopStep, ReadOutcome, StartupStep,
};
use pipewire_connection::ripe::toggle::{can_toggle_link, toggle_link, LinkRequest};
use pipewire_connection::spa::{
    media_type, media_type_usable, Direction, Format, LinkState, MediaTypeValue, ParamType,
    SpaEnum, SpaMediaType,
};
use pipewire_connection::state::{Item, State};

type Actions = Vec<Action<String>>;

fn dictionary(pairs: &[(&str, &str)]) -> Dictionary {
    let mut dictionary = Dictionary::new();
    for (key, value) in pairs {
        dictionary.insert(key, value);
    }
    dictionary
}

fn appear(
    state: &mut PipewireState,
    id: u32,
    interface: ObjectType,
    pairs: &[(&str, &str)],
) -> Actions {
    state.registry_event(RegistryEvent::Global(Global {
        id,
        interface,
        properties: dictionary(pairs),
    }))
}

fn go(state: &mut PipewireState, id: u32) -> Actions {
    let event = RegistryEvent::GlobalRemove { id };
    assert!(state.accepts_registry_event(&event));
    state.registry_event(event)
}

fn format_of(media_type: SpaEnum<SpaMediaType>) -> Option<Format> {
    Some(Format { media_type: Some(MediaTypeValue::Id(media_type)) })
}

fn link_info(id: u32, state: LinkState, format: Option<Format>) -> LinkInfo {
    LinkInfo {
        id,
        output_port_id: 31,
        input_port_id: 41,
        state_changed: false,
        format_changed: false,
        state: SpaEnum::Value(state),
        format,
    }
}

fn port_info(id: u32, pairs: &[(&str, &str)], params: Vec<ParamInfo>) -> PortEvent {
    PortEvent::Info(PortInfo {
        id,
        direction: SpaEnum::Value(Direction::Input),
        props: dictionary(pairs),
        params,
    })
}

fn node_added(actions: &Actions) -> Option<NodeType> {
    match &actions[0] {
        Action::Send(PipewireMessage::NodeAdded { node_type, .. }) => *node_type,
        other => panic!("{:?}", other),
    }
}

/// A connection on which two ports, 31 on node 30 and 41 on node 40, have told of themselves.
fn two_ports() -> PipewireState {
    let mut state = PipewireState::new();
    for (node, port) in [("30", 31), ("40", 41)] {
        appear(&mut state, port, ObjectType::Port, &[]);
        state.global_bound(port, Interface::Port, port + 100);
        state.port_event(&mut (port, true), port_info(port, &[("node.id", node)], vec![]));
    }
    state
}

#[test]
fn a_ping_is_answered_with_its_numbers() {
    let state = PipewireState::new();
    assert_eq!(
        state.core_event(CoreEvent::Ping { id: 3, seq: 4 }),
        vec![Action::Pong { id: 3, seq: 4 }]
    );
    assert_eq!(state.core_event(CoreEvent::Other), vec![]);
}

#[test]
fn a_node_tells_its_names_where_what_it_plays_has_one() {
    let state = PipewireState::new();
    let info = |pairs: &[(&str, &str)]| {
        NodeEvent::Info(NodeInfo { id: 6, props: dictionary(pairs) })
    };
    assert_eq!(state.node_event(NodeEvent::Param), vec![]);
    assert_eq!(state.node_event(info(&[("node.name", "mpv")])), vec![]);
    assert_eq!(
        state.node_event(info(&[("node.name", "mpv"), ("media.name", "song")])),
        vec![Action::Send(PipewireMessage::NodeNameChanged {
            id: 6,
            name: "mpv".to_string(),
            media_name: "song".to_string(),
        })]
    );
    assert_eq!(
        state.node_event(info(&[
            ("node.name", "mpv"),
            ("node.nick", "nick"),
            ("node.description", "player"),
            ("media.name", ""),
        ])),
        vec![Action::Send(PipewireMessage::NodeNameChanged {
            id: 6,
            name: "player".to_string(),
            media_name: String::new(),
        })]
    );
}

#[test]
fn a_new_node_is_told_of_and_bound_to() {
    let mut state = PipewireState::new();
    assert_eq!(
        appear(
            &mut state,
            6,
            ObjectType::Node,
            &[("node.nick", "nick"), ("node.name", "name"), ("media.class", "Audio/Sink")],
        ),
        vec![
            Action::Send(PipewireMessage::NodeAdded {
                id: 6,
                name: "nick".to_string(),
                node_type: Some(NodeType::Input),
            }),
            Action::Bind { id: 6, interface: Interface::Node },
        ]
    );
    assert_eq!(state.state().get(6), Some(Item::Node));
    assert_eq!(
        state.global_bound(6, Interface::Node, 66),
        Action::ListenToNode { proxy_id: 66 }
    );
    assert_eq!(state.binded_global(6), Some(BindedGlobal::Node { proxy_id: 66 }));
}

#[test]
fn the_media_class_decides_the_type_of_a_node() {
    let mut state = PipewireState::new();
    let mut node_type = |pairs: &[(&str, &str)]| {
        node_added(&appear(&mut state, 6, ObjectType::Node, pairs))
    };
    assert_eq!(node_type(&[]), None);
    assert_eq!(node_type(&[("media.class", "Audio/Sink")]), Some(NodeType::Input));
    assert_eq!(node_type(&[("media.class", "Stream/Input/Audio")]), Some(NodeType::Input));
    assert_eq!(node_type(&[("media.class", "Audio/Source")]), Some(NodeType::Output));
    assert_eq!(node_type(&[("media.class", "Stream/Output/Audio")]), Some(NodeType::Output));
    assert_eq!(node_type(&[("media.class", "Source/Sink")]), Some(NodeType::Input));
    assert_eq!(node_type(&[("media.class", "Midi/Bridge")]), None);
    assert_eq!(node_type(&[("media.category", "Duplex")]), None);
    assert_eq!(
        node_type(&[("media.category", "Duplex"), ("media.class", "Audio/Source")]),
        Some(NodeType::Output)
    );
    assert_eq!(
        node_type(&[("media.category", "Playback"), ("media.class", "Audio/Sink")]),
        Some(NodeType::Input)
    );
}

#[test]
fn ports_and_links_are_bound_to_before_anything_is_told() {
    let mut state = PipewireState::new();
    assert_eq!(
        appear(&mut state, 7, ObjectType::Port, &[("node.name", "x")]),
        vec![Action::Bind { id: 7, interface: Interface::Port }]
    );
    assert_eq!(
        appear(&mut state, 8, ObjectType::Link, &[]),
        vec![Action::Bind { id: 8, interface: Interface::Link }]
    );
    assert_eq!(appear(&mut state, 9, ObjectType::Other, &[]), vec![]);
    assert_eq!(
        state.global_bound(7, Interface::Port, 77),
        Action::ListenToPort { proxy_id: 77, port_id: 7, is_first_info_event: true }
    );
    assert_eq!(
        state.global_bound(8, Interface::Link, 88),
        Action::ListenToLink { proxy_id: 88, is_first_info_event: true }
    );
    assert_eq!(
        state.binded_global(7),
        Some(BindedGlobal::Port { proxy_id: 77, node_id: None })
    );
    assert_eq!(state.binded_global(8), Some(BindedGlobal::Link { proxy_id: 88 }));
    assert_eq!(state.binded_global(9), None);
    assert_eq!(state.state().get(7), None);
}

#[test]
fn what_goes_is_destroyed_told_of_and_forgotten() {
    let mut state = two_ports();
    appear(&mut state, 6, ObjectType::Node, &[]);
    state.global_bound(6, Interface::Node, 66);
    appear(&mut state, 8, ObjectType::Link, &[]);
    state.global_bound(8, Interface::Link, 88);

    assert_eq!(
        go(&mut state, 6),
        vec![
            Action::DestroyObject { proxy_id: 66 },
            Action::Send(PipewireMessage::NodeRemoved { id: 6 }),
        ]
    );
    assert_eq!(state.state().get(6), None);
    assert_eq!(state.binded_global(6), None);
    assert_eq!(go(&mut state, 6), vec![]);
    assert_eq!(
        go(&mut state, 8),
        vec![
            Action::DestroyObject { proxy_id: 88 },
            Action::Send(PipewireMessage::LinkRemoved { id: 8 }),
        ]
    );
    assert_eq!(
        go(&mut state, 31),
        vec![
            Action::DestroyObject { proxy_id: 131 },
            Action::Send(PipewireMessage::PortRemoved { id: 31, node_id: 30 }),
        ]
    );
    assert_eq!(state.state().get_node_of_port(31), None);
    assert_eq!(state.state().get_node_of_port(41), Some(40));
}

#[test]
fn a_port_does_not_go_before_it_has_told_its_node() {
    let mut state = PipewireState::new();
    appear(&mut state, 7, ObjectType::Port, &[]);
    state.global_bound(7, Interface::Port, 77);
    assert!(!state.accepts_registry_event(&RegistryEvent::GlobalRemove { id: 7 }));
    assert!(state.accepts_registry_event(&RegistryEvent::GlobalRemove { id: 8 }));
    let mut data = (7, true);
    state.port_event(&mut data, port_info(7, &[("node.id", "5")], vec![]));
    assert!(state.accepts_registry_event(&RegistryEvent::GlobalRemove { id: 7 }));
}

#[test]
fn the_first_news_of_a_port_are_told() {
    let mut state = PipewireState::new();
    state.global_bound(7, Interface::Port, 77);
    let mut data = (7, true);
    let event = port_info(7, &[("node.id", "5"), ("port.name", "FL")], vec![]);
    assert!(state.accepts_port_event(&data, &event));
    assert_eq!(
        state.port_event(&mut data, event),
        vec![Action::Send(PipewireMessage::PortAdded {
            id: 7,
            node_id: 5,
            name: "FL".to_string(),
            direction: Direction::Input,
        })]
    );
    assert_eq!(data, (7, false));
    assert_eq!(state.state().get(7), Some(Item::Port { node_id: 5 }));
    assert_eq!(
        state.binded_global(7),
        Some(BindedGlobal::Port { proxy_id: 77, node_id: Some(5) })
    );

    let later = port_info(7, &[("node.id", "6")], vec![]);
    assert!(state.accepts_port_event(&data, &later));
    assert_eq!(state.port_event(&mut data, later), vec![]);
    assert_eq!(data, (7, false));
    assert_eq!(state.state().get(7), Some(Item::Port { node_id: 5 }));
}

#[test]
fn a_port_is_asked_for_its_formats_where_they_can_be_read() {
    let formats = |readable: bool| ParamInfo {
        id: SpaEnum::Value(ParamType::EnumFormat),
        readable,
    };
    let other = ParamInfo { id: SpaEnum::Value(ParamType::Other), readable: true };
    let unknown = ParamInfo { id: SpaEnum::Unknown, readable: true };
    let asks = |params: Vec<ParamInfo>| {
        let mut state = PipewireState::new();
        state.global_bound(7, Interface::Port, 77);
        let actions =
            state.port_event(&mut (7, true), port_info(7, &[("node.id", "5")], params));
        actions[0] == Action::EnumFormats && actions.len() == 2
    };
    assert!(asks(vec![other, formats(true)]));
    assert!(asks(vec![formats(true), formats(false)]));
    assert!(!asks(vec![formats(false), formats(true)]));
    assert!(!asks(vec![other, unknown]));
    assert!(!asks(vec![]));
}

#[test]
fn port_events_that_cannot_be_handled_are_not_taken() {
    let mut state = PipewireState::new();
    state.global_bound(7, Interface::Port, 77);
    let good = port_info(7, &[("node.id", "5")], vec![]);
    assert!(state.accepts_port_event(&(7, true), &good));
    assert!(!state.accepts_port_event(&(8, true), &good));
    assert!(state.accepts_port_event(&(8, false), &good));
    assert!(!state.accepts_port_event(&(7, true), &port_info(7, &[], vec![])));
    assert!(!state.accepts_port_event(&(7, true), &port_info(7, &[("node.id", "x")], vec![])));
    assert!(state.accepts_port_event(&(7, false), &port_info(7, &[], vec![])));
    let sideways = PortEvent::Info(PortInfo {
        id: 7,
        direction: SpaEnum::Unknown,
        props: dictionary(&[("node.id", "5")]),
        params: vec![],
    });
    assert!(!state.accepts_port_event(&(7, true), &sideways));

    let param = |id: SpaEnum<ParamType>, format: Option<Format>| {
        PortEvent::Param(PortParam { id, format })
    };
    let formats = SpaEnum::Value(ParamType::EnumFormat);
    assert!(!state.accepts_port_event(&(7, true), &param(formats, None)));
    assert!(!state.accepts_port_event(&(7, true), &param(formats, format_of(SpaEnum::Unknown))));
    assert!(state.accepts_port_event(&(7, true), &param(SpaEnum::Unknown, None)));
}

#[test]
fn the_format_of_a_port_is_told_under_its_global() {
    let mut state = PipewireState::new();
    let mut data = (7, true);
    let mut told = |id: SpaEnum<ParamType>, format: Option<Format>| {
        state.port_event(&mut data, PortEvent::Param(PortParam { id, format }))
    };
    let formats = SpaEnum::Value(ParamType::EnumFormat);
    assert_eq!(
        told(formats, format_of(SpaEnum::Value(SpaMediaType::Audio))),
        vec![Action::Send(PipewireMessage::PortFormatChanged {
            id: 7,
            media_type: SpaMediaType::Audio,
        })]
    );
    assert_eq!(
        told(formats, Some(Format { media_type: None })),
        vec![Action::Send(PipewireMessage::PortFormatChanged {
            id: 7,
            media_type: SpaMediaType::Unknown,
        })]
    );
    assert_eq!(told(SpaEnum::Value(ParamType::Other), None), vec![]);
    assert_eq!(told(SpaEnum::Unknown, None), vec![]);
    assert_eq!(data, (7, true));
}

#[test]
fn a_link_is_told_of_as_new_once() {
    let mut state = two_ports();
    let mut first = true;
    let format = format_of(SpaEnum::Value(SpaMediaType::Video));
    let info = link_info(50, LinkState::Active, format);
    assert!(state.accepts_link_event(first, &LinkEvent::Info(info)));
    assert_eq!(
        state.link_event(&mut first, LinkEvent::Info(info)),
        vec![Action::Send(PipewireMessage::LinkAdded {
            id: 50,
            port_from: 31,
            port_to: 41,
            active: true,
            media_type: SpaMediaType::Video,
        })]
    );
    assert!(!first);
    assert_eq!(state.state().get(50), Some(Item::Link { port_from: 31, port_to: 41 }));
    assert_eq!(state.link_event(&mut first, LinkEvent::Info(info)), vec![]);
    assert!(!first);
}

#[test]
fn the_changes_of_a_link_are_told_in_order() {
    let mut state = PipewireState::new();
    let mut first = false;
    let mut info = link_info(50, LinkState::Other, None);
    info.state_changed = true;
    assert_eq!(
        state.link_event(&mut first, LinkEvent::Info(info)),
        vec![Action::Send(PipewireMessage::LinkStateChanged { id: 50, active: false })]
    );
    info.state = SpaEnum::Unknown;
    info.format_changed = true;
    info.format = format_of(SpaEnum::Value(SpaMediaType::Application));
    assert_eq!(
        state.link_event(&mut first, LinkEvent::Info(info)),
        vec![
            Action::Send(PipewireMessage::LinkStateChanged { id: 50, active: false }),
            Action::Send(PipewireMessage::LinkFormatChanged {
                id: 50,
                media_type: SpaMediaType::Application,
            }),
        ]
    );
    info.state_changed = false;
    info.format = None;
    assert_eq!(
        state.link_event(&mut first, LinkEvent::Info(info)),
        vec![Action::Send(PipewireMessage::LinkFormatChanged {
            id: 50,
            media_type: SpaMediaType::Unknown,
        })]
    );
    assert_eq!(state.state().get(50), None);
}

#[test]
fn link_events_with_a_media_type_that_is_none_are_not_taken() {
    let state = PipewireState::new();
    let mut info = link_info(50, LinkState::Active, format_of(SpaEnum::Unknown));
    assert!(!state.accepts_link_event(true, &LinkEvent::Info(info)));
    assert!(state.accepts_link_event(false, &LinkEvent::Info(info)));
    info.format_changed = true;
    assert!(!state.accepts_link_event(false, &LinkEvent::Info(info)));
}

#[test]
fn media_types_are_read_from_formats() {
    for media_type_stated in [
        SpaMediaType::Unknown,
        SpaMediaType::Audio,
        SpaMediaType::Video,
        SpaMediaType::Image,
        SpaMediaType::Binary,
        SpaMediaType::Stream,
        SpaMediaType::Application,
    ] {
        let format = format_of(SpaEnum::Value(media_type_stated));
        assert!(media_type_usable(&format));
        assert_eq!(media_type(&format), media_type_stated);
    }
    for format in [
        None,
        Some(Format { media_type: None }),
        Some(Format { media_type: Some(MediaTypeValue::NotAnId) }),
    ] {
        assert!(media_type_usable(&format));
        assert_eq!(media_type(&format), SpaMediaType::Unknown);
    }
    assert!(!media_type_usable(&format_of(SpaEnum::Unknown)));
}

fn created(step: LoopStep<String, Dictionary>) -> PipewireLink {
    match step {
        LoopStep::Request(LinkRequest::CreateObject(object)) => {
            assert_eq!(object.factory_name, "link-factory");
            assert_eq!(object.interface, "PipeWire:Interface:Link");
            assert_eq!(object.version, 3);
            assert_eq!(object.new_id, 0);
            assert_eq!(object.properties.get("object.linger").unwrap(), "1");
            read_link(&object.properties).unwrap()
        }
        other => panic!("{:?}", other),
    }
}

#[test]
fn toggling_makes_and_removes_a_link() {
    let mut state = two_ports();
    let toggle = || GtkMessage::<()>::ToggleLink { port_from: 31, port_to: 41 };
    let link = PipewireLink { node_from: 30, port_from: 31, node_to: 40, port_to: 41 };
    assert_eq!(created(state.gtk_message(toggle())), link);

    appear(&mut state, 50, ObjectType::Link, &[]);
    state.global_bound(50, Interface::Link, 150);
    state.link_event(&mut true, LinkEvent::Info(link_info(50, LinkState::Active, None)));
    assert!(matches!(
        state.gtk_message(toggle()),
        LoopStep::Request(LinkRequest::DestroyGlobal { id: 50 })
    ));

    go(&mut state, 50);
    assert_eq!(created(state.gtk_message(toggle())), link);
}

#[test]
fn links_between_unknown_ports_cannot_be_toggled() {
    let mut state = State::new();
    assert!(!can_toggle_link(31, 41, &state));
    state.insert(31, Item::Port { node_id: 30 });
    assert!(!can_toggle_link(31, 41, &state));
    state.insert(41, Item::Node);
    assert!(!can_toggle_link(31, 41, &state));
    state.insert(41, Item::Port { node_id: 40 });
    assert!(can_toggle_link(31, 41, &state));
    state.remove(41);
    state.insert(50, Item::Link { port_from: 31, port_to: 41 });
    assert!(can_toggle_link(31, 41, &state));
    assert!(matches!(
        toggle_link(31, 41, &state),
        LinkRequest::DestroyGlobal { id: 50 }
    ));
}

#[test]
fn the_user_interface_ends_the_loop() {
    let state = PipewireState::new();
    assert!(matches!(state.gtk_message(GtkMessage::Connect("remote")), LoopStep::Continue));
    assert!(matches!(state.gtk_message(GtkMessage::<()>::Terminate), LoopStep::Stop));
}

#[test]
fn reading_goes_on_until_it_would_block() {
    assert!(goes_on_reading(ReadOutcome::Message));
    assert!(!goes_on_reading(ReadOutcome::WouldBlock));
}

#[test]
fn the_client_presents_itself() {
    let properties = properties("studio", "ada", 4711);
    assert_eq!(properties.pairs().len(), 26);
    assert_eq!(properties.get("application.process.id").unwrap(), "4711");
    assert_eq!(properties.get("application.process.user").unwrap(), "ada");
    assert_eq!(properties.get("application.process.host").unwrap(), "studio");
    assert_eq!(properties.get("application.name").unwrap(), "ripewire");
    assert_eq!(properties.get("default.clock.rate").unwrap(), "48000");
    assert_eq!(properties.get("core.name").unwrap(), "pipewire-poly-185501");
    assert_eq!(properties.pairs()[0], ("log.level".to_string(), "0".to_string()));
}

#[test]
fn a_connection_starts_in_order() {
    let steps = startup_steps("studio", "ada", 4711);
    assert_eq!(steps.len(), 6);
    assert!(matches!(steps[0], StartupStep::Hello));
    match &steps[1] {
        StartupStep::UpdateProperties(properties) => {
            assert_eq!(properties.get("application.process.host").unwrap(), "studio");
        }
        other => panic!("{:?}", other),
    }
    assert!(matches!(steps[2], StartupStep::GetRegistry));
    assert!(matches!(steps[3], StartupStep::Sync { id: 0, seq: 0 }));
    assert!(matches!(steps[4], StartupStep::ListenToCore));
    assert!(matches!(steps[5], StartupStep::ListenToRegistry));
}

#[test]
fn coming_and_going_leaves_no_trace() {
    let mut state = two_ports();
    for (interface, bound) in [
        (ObjectType::Node, Interface::Node),
        (ObjectType::Link, Interface::Link),
    ] {
        appear(&mut state, 60, interface, &[]);
        state.global_bound(60, bound, 160);
        go(&mut state, 60);
        assert_eq!(state.state().get(60), None);
        assert_eq!(state.binded_global(60), None);
        assert_eq!(state.state().get_node_of_port(31), Some(30));
        assert_eq!(
            state.binded_global(41),
            Some(BindedGlobal::Port { proxy_id: 141, node_id: Some(40) })
        );
    }
}

fn show(items: &mut Vec<(u32, Item)>, actions: Actions) {
    for action in actions {
        match action {
            Action::Send(PipewireMessage::NodeAdded { id, .. }) => items.push((id, Item::Node)),
            Action::Send(PipewireMessage::PortAdded { id, node_id, .. }) => {
                items.push((id, Item::Port { node_id }))
            }
            Action::Send(PipewireMessage::LinkAdded { id, port_from, port_to, .. }) => {
                items.push((id, Item::Link { port_from, port_to }))
            }
            Action::Send(PipewireMessage::NodeRemoved { id })
            | Action::Send(PipewireMessage::PortRemoved { id, .. })
            | Action::Send(PipewireMessage::LinkRemoved { id }) => {
                items.retain(|item| item.0 != id)
            }
            _ => {}
        }
    }
}

#[test]
fn the_user_interface_shows_what_the_graph_holds() {
    let mut state = PipewireState::new();
    let mut items: Vec<(u32, Item)> = vec![];

    show(&mut items, appear(&mut state, 30, ObjectType::Node, &[]));
    state.global_bound(30, Interface::Node, 130);
    show(&mut items, appear(&mut state, 31, ObjectType::Port, &[]));
    state.global_bound(31, Interface::Port, 131);
    show(
        &mut items,
        state.port_event(&mut (31, true), port_info(31, &[("node.id", "30")], vec![])),
    );
    show(&mut items, appear(&mut state, 50, ObjectType::Link, &[]));
    state.global_bound(50, Interface::Link, 150);
    let mut first = true;
    for _ in 0..2 {
        let info = LinkEvent::Info(link_info(50, LinkState::Active, None));
        show(&mut items, state.link_event(&mut first, info));
    }
    assert_eq!(
        items,
        vec![
            (30, Item::Node),
            (31, Item::Port { node_id: 30 }),
            (50, Item::Link { port_from: 31, port_to: 41 }),
        ]
    );
    for id in [50, 31, 99, 30] {
        for (id, item) in &items {
            assert_eq!(state.state().get(*id), Some(*item));
        }
        show(&mut items, go(&mut state, id));
        assert_eq!(state.state().get(id), None);
    }
    assert!(items.is_empty());
}

#[test]
fn no_property_but_the_listed_ones_decides() {
    let keys = property_keys();
    assert_eq!(
        keys,
        vec![
            "media.class",
            "media.name",
            "node.description",
            "node.id",
            "node.name",
            "node.nick",
            "port.name",
        ]
    );
    let bare: Vec<(&str, &str)> = keys.iter().map(|key| (*key, "12")).collect();
    let mut full = bare.clone();
    full.push(("media.category", "Duplex"));
    full.push(("port.direction", "in"));
    let mut state = PipewireState::new();
    assert_eq!(
        appear(&mut state, 6, ObjectType::Node, &bare),
        appear(&mut state, 6, ObjectType::Node, &full)
    );
    let info = |pairs: &[(&str, &str)]| {
        NodeEvent::Info(NodeInfo { id: 6, props: dictionary(pairs) })
    };
    assert_eq!(state.node_event(info(&bare)), state.node_event(info(&full)));
    state.global_bound(7, Interface::Port, 77);
    assert_eq!(
        state.port_event(&mut (7, true), port_info(7, &bare, vec![])),
        state.port_event(&mut (7, true), port_info(7, &full, vec![]))
    );
}

#[test]
fn a_closed_channel_does_not_end_the_loop() {
    let state = two_ports();
    assert!(matches!(state.channel_event::<()>(None), LoopStep::Continue));
    assert!(matches!(
        state.channel_event(Some(GtkMessage::<()>::Terminate)),
        LoopStep::Stop
    ));
    assert!(matches!(
        state.channel_event(Some(GtkMessage::Connect("remote"))),
        LoopStep::Continue
    ));
    let toggle = GtkMessage::<()>::ToggleLink { port_from: 31, port_to: 41 };
    assert_eq!(
        created(state.channel_event(Some(toggle))),
        PipewireLink { node_from: 30, port_from: 31, node_to: 40, port_to: 41 }
    );
}

#[test]
fn a_port_goes_from_its_node_after_other_events() {
    let mut state = two_ports();
    let mut data = (31, false);
    state.port_event(&mut data, port_info(31, &[("node.id", "99")], vec![]));
    state.port_event(
        &mut data,
        PortEvent::Param(PortParam {
            id: SpaEnum::Value(ParamType::EnumFormat),
            format: format_of(SpaEnum::Value(SpaMediaType::Audio)),
        }),
    );
    appear(&mut state, 30, ObjectType::Node, &[]);
    state.global_bound(30, Interface::Node, 130);
    go(&mut state, 30);
    go(&mut state, 41);
    state.port_event(&mut (50, false), port_info(31, &[("node.id", "7")], vec![]));
    assert_eq!(
        go(&mut state, 31),
        vec![
            Action::DestroyObject { proxy_id: 131 },
            Action::Send(PipewireMessage::PortRemoved { id: 31, node_id: 30 }),
        ]
    );
}

#[test]
fn the_client_presents_itself_with_each_property_once() {
    let properties = properties("studio", "ada", 1);
    let mut keys: Vec<&String> = properties.pairs().iter().map(|pair| &pair.0).collect();
    keys.sort();
    keys.dedup();
    assert_eq!(keys.len(), 26);
}
