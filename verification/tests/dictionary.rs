use pipewire_connection::dictionary::{Dictionary, PropertyError};

#[test]
fn a_property_is_what_it_was_last_set_to() {
    let mut dictionary = Dictionary::new();
    assert_eq!(dictionary.get("node.name"), None);
    dictionary.insert("node.name", "first");
    dictionary.insert("node.nick", "nick");
    dictionary.insert("node.name", "second");
    assert_eq!(dictionary.get("node.name").unwrap(), "second");
    assert_eq!(dictionary.get("node.nick").unwrap(), "nick");
    assert_eq!(dictionary.get("node"), None);
    let pairs: Vec<(&str, &str)> = dictionary
        .pairs()
        .iter()
        .map(|(key, value)| (key.as_str(), value.as_str()))
        .collect();
    assert_eq!(
        pairs,
        vec![("node.name", "first"), ("node.nick", "nick"), ("node.name", "second")]
    );
}

#[test]
fn numbers_come_from_properties() {
    let mut dictionary = Dictionary::new();
    dictionary.insert("good", "17");
    dictionary.insert("bad", "seventeen");
    dictionary.insert("empty", "");
    assert_eq!(dictionary.number("good"), Ok(17));
    assert_eq!(dictionary.number("bad"), Err(PropertyError::Invalid));
    assert_eq!(dictionary.number("empty"), Err(PropertyError::Invalid));
    assert_eq!(dictionary.number("none"), Err(PropertyError::Missing));
}

#[test]
fn the_first_property_that_is_there_counts() {
    let mut dictionary = Dictionary::new();
    assert_eq!(dictionary.get_first("a", "b", "c"), "");
    assert_eq!(dictionary.get_or_empty("c"), "");
    dictionary.insert("c", "3");
    assert_eq!(dictionary.get_first("a", "b", "c"), "3");
    assert_eq!(dictionary.get_or_empty("c"), "3");
    dictionary.insert("b", "");
    assert_eq!(dictionary.get_first("a", "b", "c"), "");
    dictionary.insert("a", "1");
    assert_eq!(dictionary.get_first("a", "b", "c"), "1");
}
