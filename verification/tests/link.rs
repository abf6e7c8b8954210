use pipewire_connection::dictionary::{Dictionary, PropertyError};
use pipewire_connection::link::{link_properties, read_link, LinkError, PipewireLink};

const LINK: PipewireLink = PipewireLink {
    node_from: 30,
    port_from: 31,
    node_to: 40,
    port_to: 4294967295,
};

#[test]
fn a_link_is_requested_by_its_ends_and_lingers() {
    let properties = link_properties(LINK);
    let pairs: Vec<(&str, &str)> = properties
        .pairs()
        .iter()
        .map(|(key, value)| (key.as_str(), value.as_str()))
        .collect();
    assert_eq!(
        pairs,
        vec![
            ("link.output.node", "30"),
            ("link.output.port", "31"),
            ("link.input.node", "40"),
            ("link.input.port", "4294967295"),
            ("object.linger", "1"),
        ]
    );
}

#[test]
fn the_requested_properties_describe_the_link() {
    let mut properties = link_properties(LINK);
    assert_eq!(read_link(&properties), Ok(LINK));
    properties.insert("object.serial", "77");
    assert_eq!(read_link(&properties), Ok(LINK));
}

#[test]
fn the_first_end_that_is_no_number_is_reported() {
    let mut properties = Dictionary::new();
    assert_eq!(
        read_link(&properties),
        Err(LinkError::OutputNode(PropertyError::Missing))
    );
    properties.insert("link.output.node", "x");
    assert_eq!(
        read_link(&properties),
        Err(LinkError::OutputNode(PropertyError::Invalid))
    );
    properties.insert("link.output.node", "1");
    assert_eq!(
        read_link(&properties),
        Err(LinkError::OutputPort(PropertyError::Missing))
    );
    properties.insert("link.output.port", "-2");
    assert_eq!(
        read_link(&properties),
        Err(LinkError::OutputPort(PropertyError::Invalid))
    );
    properties.insert("link.output.port", "2");
    assert_eq!(
        read_link(&properties),
        Err(LinkError::InputNode(PropertyError::Missing))
    );
    properties.insert("link.input.node", "3.0");
    assert_eq!(
        read_link(&properties),
        Err(LinkError::InputNode(PropertyError::Invalid))
    );
    properties.insert("link.input.node", "3");
    assert_eq!(
        read_link(&properties),
        Err(LinkError::InputPort(PropertyError::Missing))
    );
    properties.insert("link.input.port", "4294967296");
    assert_eq!(
        read_link(&properties),
        Err(LinkError::InputPort(PropertyError::Invalid))
    );
    properties.insert("link.input.port", "4");
    assert_eq!(
        read_link(&properties),
        Ok(PipewireLink { node_from: 1, port_from: 2, node_to: 3, port_to: 4 })
    );
}

#[test]
fn the_ends_alone_describe_the_link() {
    let mut properties = Dictionary::new();
    for (key, value) in link_properties(LINK).pairs() {
        if key != "object.linger" {
            properties.insert(key, value);
        }
    }
    assert_eq!(properties.pairs().len(), 4);
    assert_eq!(read_link(&properties), Ok(LINK));
}
