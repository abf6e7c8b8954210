//! The properties that PipeWire attaches to its objects.

use crate::text::{parse_u32, parsed_u32};
use vstd::prelude::*;

verus! {

/// What a property list holds: a text for each of its keys.
pub type Properties = Map<Seq<char>, Seq<char>>;

/// A property list as it is written down: keys and values, in order.
pub type Entries = Seq<(Seq<char>, Seq<char>)>;

/// What the entries of a property list amount to, where a later entry replaces an earlier one with
/// the same key.
pub open spec fn entries_map(entries: Entries) -> Properties
    decreases entries.len(),
{
    if entries.len() == 0 {
        Map::empty()
    } else {
        entries_map(entries.drop_last()).insert(entries.last().0, entries.last().1)
    }
}

/// An entry sets the property under its key, and leaves all others as the entries before it have them.
pub broadcast proof fn law_entry_sets_property(entries: Entries, entry: (Seq<char>, Seq<char>))
    ensures
        #[trigger] entries_map(entries.push(entry)) == entries_map(entries).insert(
            entry.0,
            entry.1,
        ),
{
    assert(entries.push(entry).drop_last() =~= entries);
}

/// The pairs, with texts as sequences of characters.
pub open spec fn pair_views(pairs: Seq<(String, String)>) -> Entries {
    pairs.map_values(|pair: (String, String)| (pair.0@, pair.1@))
}

/// Text properties by key.
#[derive(Debug)]
pub struct Dictionary {
    pairs: Vec<(String, String)>,
}

impl View for Dictionary {
    type V = Properties;

    open spec fn view(&self) -> Properties {
        entries_map(self.entries())
    }
}

impl Dictionary {
    /// The properties in the order in which they were set, each as often as it was set.
    pub closed spec fn entries(&self) -> Entries {
        pair_views(self.pairs@)
    }

    /// A dictionary without any property.
    pub fn new() -> (dictionary: Dictionary)
        ensures
            dictionary.entries() == Seq::<(Seq<char>, Seq<char>)>::empty(),
            dictionary@ == Map::<Seq<char>, Seq<char>>::empty(),
    {
        Dictionary { pairs: Vec::new() }
    }

    /// Sets the property `key`, whether or not it was there before.
    pub fn insert(&mut self, key: &str, value: &str)
        ensures
            final(self).entries() == old(self).entries().push((key@, value@)),
            final(self)@ == old(self)@.insert(key@, value@),
    {
        self.pairs.push((key.to_owned(), value.to_owned()));
        proof {
            law_entry_sets_property(old(self).entries(), (key@, value@));
        }
        assert(self.entries() =~= old(self).entries().push((key@, value@)));
    }

    /// The value of the property `key`.
    pub fn get(&self, key: &str) -> (value: Option<&String>)
        ensures
            match value {
                Some(text) => self@.contains_key(key@) && text@ == self@[key@],
                None => !self@.contains_key(key@),
            },
    {
        let wanted: String = key.to_owned();
        let mut n: usize = self.pairs.len();
        let ghost entries = self.entries();
        assert(entries.take(n as int) =~= entries);
        while n > 0
            invariant
                n <= self.pairs@.len(),
                wanted@ == key@,
                entries == self.entries(),
                entries_map(entries.take(n as int)).contains_key(key@) == self@.contains_key(key@),
                self@.contains_key(key@) ==> entries_map(entries.take(n as int))[key@]
                    == self@[key@],
            decreases n,
        {
            assert(entries.take(n as int).drop_last() =~= entries.take(n - 1));
            n = n - 1;
            if self.pairs[n].0 == wanted {
                return Some(&self.pairs[n].1);
            }
        }
        None
    }

    /// The properties as key and value pairs, in the order in which they were set.
    pub fn pairs(&self) -> (pairs: &Vec<(String, String)>)
        ensures
            pair_views(pairs@) == self.entries(),
    {
        &self.pairs
    }
}

/// Why a property does not give a number.
#[derive(Clone, Copy, Debug, PartialEq, Eq, Structural)]
pub enum PropertyError {
    /// There is no such property.
    Missing,
    /// The property's value is not an unsigned decimal number of 32 bits.
    Invalid,
}

/// The number that the property `key` gives.
pub open spec fn number_of(properties: Properties, key: Seq<char>) -> Result<u32, PropertyError> {
    if !properties.contains_key(key) {
        Err(PropertyError::Missing)
    } else {
        match parsed_u32(properties[key]) {
            Some(number) => Ok(number),
            None => Err(PropertyError::Invalid),
        }
    }
}

/// The value of the property `key`, empty where there is none.
pub open spec fn text_or_empty(properties: Properties, key: Seq<char>) -> Seq<char> {
    if properties.contains_key(key) {
        properties[key]
    } else {
        Seq::empty()
    }
}

/// The value of the first of three properties that is there, empty where none is.
pub open spec fn first_text(
    properties: Properties,
    first: Seq<char>,
    second: Seq<char>,
    third: Seq<char>,
) -> Seq<char> {
    if properties.contains_key(first) {
        properties[first]
    } else if properties.contains_key(second) {
        properties[second]
    } else {
        text_or_empty(properties, third)
    }
}

impl Dictionary {
    /// The number that the property `key` gives.
    pub fn number(&self, key: &str) -> (number: Result<u32, PropertyError>)
        ensures
            number == number_of(self@, key@),
    {
        match self.get(key) {
            None => Err(PropertyError::Missing),
            Some(text) => match parse_u32(text.as_str()) {
                Some(number) => Ok(number),
                None => Err(PropertyError::Invalid),
            },
        }
    }

    /// The value of the property `key`, empty where there is none.
    pub fn get_or_empty(&self, key: &str) -> (text: String)
        ensures
            text@ == text_or_empty(self@, key@),
    {
        match self.get(key) {
            Some(text) => text.clone(),
            None => String::new(),
        }
    }

    /// The value of the first of three properties that is there, empty where none is.
    pub fn get_first(&self, first: &str, second: &str, third: &str) -> (text: String)
        ensures
            text@ == first_text(self@, first@, second@, third@),
    {
        match self.get(first) {
            Some(text) => text.clone(),
            None => match self.get(second) {
                Some(text) => text.clone(),
                None => self.get_or_empty(third),
            },
        }
    }
}

/// No entries set no property.
pub proof fn law_no_entries()
    ensures
        entries_map(Seq::empty()) == Map::<Seq<char>, Seq<char>>::empty(),
{
}

/// Pairs stand for as many entries, in the same order, each with the same key and value.
pub proof fn law_pairs_are_entries(pairs: Seq<(String, String)>)
    ensures
        pair_views(pairs).len() == pairs.len(),
        forall|i: int|
            0 <= i < pairs.len() ==> (#[trigger] pair_views(pairs)[i]).0 == pairs[i].0@
                && pair_views(pairs)[i].1 == pairs[i].1@,
{
}

/// A property gives a number exactly where it is there and its value reads as that number, and else is
/// either missing or, where it is there, invalid.
pub proof fn law_property_number(properties: Properties, key: Seq<char>, number: u32)
    ensures
        number_of(properties, key) == Ok::<u32, PropertyError>(number) <==> properties.contains_key(key)
            && parsed_u32(properties[key]) == Some(number),
        number_of(properties, key) == Err::<u32, PropertyError>(PropertyError::Missing)
            <==> !properties.contains_key(key),
        number_of(properties, key) == Err::<u32, PropertyError>(PropertyError::Invalid)
            <==> properties.contains_key(key) && parsed_u32(properties[key]) is None,
{
}

/// A property that is there gives its value as it is, whatever others are there; one that is not gives
/// an empty text.
pub proof fn law_text_or_empty(properties: Properties, key: Seq<char>, value: Seq<char>)
    ensures
        text_or_empty(properties.insert(key, value), key) == value,
        text_or_empty(properties.remove(key), key).len() == 0,
{
}

/// Of three properties, an earlier one goes before a later one, whatever the later ones hold, and where
/// it is not there the later ones decide as if it had not been asked for.
pub proof fn law_first_text(
    properties: Properties,
    first: Seq<char>,
    second: Seq<char>,
    third: Seq<char>,
    value: Seq<char>,
)
    ensures
        first_text(properties.insert(first, value), first, second, third) == value,
        !properties.contains_key(first) ==> first_text(
            properties.insert(second, value),
            first,
            second,
            third,
        ) == value,
        !properties.contains_key(first) && !properties.contains_key(second) ==> first_text(
            properties.insert(third, value),
            first,
            second,
            third,
        ) == value,
        first_text(properties.remove(first).remove(second).remove(third), first, second, third).len()
            == 0,
{
}

} // verus!
