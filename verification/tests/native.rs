use pipewire_connection::dictionary::{Dictionary, PropertyError};
use pipewire_connection::link::{LinkError, PipewireLink};
use pipewire_connection::native::{
    check_global, handle_global, handle_global_remove, handle_gtk_message, handle_link,
    handle_node, handle_port, GlobalError, GlobalObject, GtkMessage, MediaType, PipewireMessage,
    Request,
};
use pipewire_connection::object::ObjectType;
use pipewire_connection::spa::Direction;

fn global(type_: ObjectType, pairs: &[(&str, &str)]) -> GlobalObject {
    let mut props = Dictionary::new();
    for (key, value) in pairs {
        props.insert(key, value);
    }
    GlobalObject { id: 5, type_, props: Some(props) }
}

fn node(pairs: &[(&str, &str)]) -> PipewireMessage {
    handle_node(&global(ObjectType::Node, pairs))
}

fn added(name: &str, media_type: Option<MediaType>) -> PipewireMessage {
    PipewireMessage::NodeAdded { id: 5, name: name.to_string(), media_type }
}

#[test]
fn a_native_node_has_the_nicest_name_there_is() {
    assert_eq!(node(&[]), added("", None));
    assert_eq!(node(&[("node.name", "a")]), added("a", None));
    assert_eq!(node(&[("node.name", "a"), ("node.description", "b")]), added("b", None));
    assert_eq!(
        node(&[("node.name", "a"), ("node.description", "b"), ("node.nick", "c")]),
        added("c", None)
    );
}

#[test]
fn a_native_node_has_the_media_type_of_its_class() {
    assert_eq!(node(&[("media.class", "Audio/Sink")]), added("", Some(MediaType::Audio)));
    assert_eq!(node(&[("media.class", "Video/Source")]), added("", Some(MediaType::Video)));
    assert_eq!(node(&[("media.class", "Midi/Bridge")]), added("", Some(MediaType::Midi)));
    assert_eq!(node(&[("media.class", "Midi/Video/Audio")]), added("", Some(MediaType::Audio)));
    assert_eq!(node(&[("media.class", "Midi/Video")]), added("", Some(MediaType::Video)));
    assert_eq!(node(&[("media.class", "audio")]), added("", None));
}

#[test]
fn a_native_port_is_on_its_node() {
    assert_eq!(
        handle_port(&global(
            ObjectType::Port,
            &[("node.id", "12"), ("port.name", "playback_FL"), ("port.direction", "in")],
        )),
        PipewireMessage::PortAdded {
            id: 5,
            node_id: 12,
            name: "playback_FL".to_string(),
            direction: Direction::Input,
        }
    );
    for pairs in [
        vec![("node.id", "12")],
        vec![("node.id", "12"), ("port.direction", "out")],
        vec![("node.id", "12"), ("port.direction", "input")],
    ] {
        assert_eq!(
            handle_port(&global(ObjectType::Port, &pairs)),
            PipewireMessage::PortAdded {
                id: 5,
                node_id: 12,
                name: String::new(),
                direction: Direction::Output,
            }
        );
    }
}

#[test]
fn a_native_link_has_its_ends() {
    let link = global(
        ObjectType::Link,
        &[
            ("link.output.node", "1"),
            ("link.output.port", "2"),
            ("link.input.node", "3"),
            ("link.input.port", "4"),
        ],
    );
    assert_eq!(
        handle_link(&link),
        PipewireMessage::LinkAdded {
            id: 5,
            link: PipewireLink { node_from: 1, port_from: 2, node_to: 3, port_to: 4 },
        }
    );
}

#[test]
fn native_globals_are_checked() {
    for type_ in [ObjectType::Node, ObjectType::Port, ObjectType::Link] {
        let bare = GlobalObject { id: 5, type_, props: None };
        assert_eq!(check_global(&bare), Err(GlobalError::NoProperties));
    }
    let other = GlobalObject { id: 5, type_: ObjectType::Other, props: None };
    assert_eq!(check_global(&other), Ok(()));
    assert_eq!(handle_global(&other), None);
    assert_eq!(check_global(&global(ObjectType::Node, &[])), Ok(()));
    assert_eq!(
        check_global(&global(ObjectType::Port, &[])),
        Err(GlobalError::NodeId(PropertyError::Missing))
    );
    assert_eq!(
        check_global(&global(ObjectType::Port, &[("node.id", "x")])),
        Err(GlobalError::NodeId(PropertyError::Invalid))
    );
    assert_eq!(check_global(&global(ObjectType::Port, &[("node.id", "3")])), Ok(()));
    assert_eq!(
        check_global(&global(ObjectType::Link, &[])),
        Err(GlobalError::Link(LinkError::OutputNode(PropertyError::Missing)))
    );
}

#[test]
fn native_globals_are_told_of_by_type() {
    assert_eq!(handle_global(&global(ObjectType::Node, &[])), Some(added("", None)));
    assert!(matches!(
        handle_global(&global(ObjectType::Port, &[("node.id", "3")])),
        Some(PipewireMessage::PortAdded { id: 5, node_id: 3, .. })
    ));
    assert_eq!(handle_global(&global(ObjectType::Other, &[("node.id", "3")])), None);
    assert_eq!(handle_global_remove(8), PipewireMessage::ObjectRemoved { id: 8 });
}

#[test]
fn a_native_link_is_told_of_as_requested() {
    let link = PipewireLink { node_from: 10, port_from: 11, node_to: 20, port_to: 21 };
    let Request::CreateLink { factory_name, mut properties } =
        handle_gtk_message(GtkMessage::CreateLink(link))
    else {
        panic!("no link requested");
    };
    assert_eq!(factory_name, "link-factory");
    properties.insert("object.id", "5");
    let made = GlobalObject { id: 5, type_: ObjectType::Link, props: Some(properties) };
    assert_eq!(check_global(&made), Ok(()));
    assert_eq!(handle_global(&made), Some(PipewireMessage::LinkAdded { id: 5, link }));
}

#[test]
fn native_requests_follow_the_user_interface() {
    assert!(matches!(
        handle_gtk_message(GtkMessage::DestroyGlobal(7)),
        Request::DestroyGlobal { id: 7 }
    ));
    assert!(matches!(handle_gtk_message(GtkMessage::Terminate), Request::Quit));
}
