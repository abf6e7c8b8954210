use pipewire_connection::state::{Item, State};

#[test]
fn a_state_starts_empty() {
    let state = State::new();
    assert_eq!(state.get(0), None);
    assert_eq!(state.get_link_id(0, 0), None);
    assert_eq!(state.get_node_of_port(0), None);
}

#[test]
fn items_are_stored_and_removed() {
    let mut state = State::new();
    state.insert(1, Item::Node);
    state.insert(2, Item::Port { node_id: 1 });
    assert_eq!(state.get(1), Some(Item::Node));
    assert_eq!(state.get_node_of_port(2), Some(1));
    assert_eq!(state.get_node_of_port(1), None);
    assert_eq!(state.get_node_of_port(3), None);
    assert_eq!(state.remove(2), Some(Item::Port { node_id: 1 }));
    assert_eq!(state.remove(2), None);
    assert_eq!(state.get_node_of_port(2), None);
    assert_eq!(state.get(1), Some(Item::Node));
}

#[test]
fn links_are_found_by_their_ports_in_order() {
    let mut state = State::new();
    state.insert(9, Item::Link { port_from: 3, port_to: 4 });
    assert_eq!(state.get_link_id(3, 4), Some(9));
    assert_eq!(state.get_link_id(4, 3), None);
    assert_eq!(state.get_link_id(3, 3), None);
    state.remove(9);
    assert_eq!(state.get_link_id(3, 4), None);
}

#[test]
fn of_parallel_links_the_latest_is_found() {
    let mut state = State::new();
    state.insert(8, Item::Link { port_from: 3, port_to: 4 });
    state.insert(9, Item::Link { port_from: 3, port_to: 4 });
    assert_eq!(state.get_link_id(3, 4), Some(9));
    state.remove(9);
    assert_eq!(state.get_link_id(3, 4), Some(8));
    state.remove(8);
    assert_eq!(state.get_link_id(3, 4), None);
}

#[test]
fn storing_replaces_what_was_there() {
    let mut state = State::new();
    state.insert(9, Item::Link { port_from: 3, port_to: 4 });
    state.insert(9, Item::Link { port_from: 5, port_to: 6 });
    assert_eq!(state.get_link_id(3, 4), None);
    assert_eq!(state.get_link_id(5, 6), Some(9));
    state.insert(9, Item::Node);
    assert_eq!(state.get_link_id(5, 6), None);
    assert_eq!(state.get(9), Some(Item::Node));
}
