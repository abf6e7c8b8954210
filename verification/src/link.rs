//! Links as the properties that describe them to the server.

use crate::dictionary::{
    Dictionary, Entries, Properties, PropertyError, entries_map, law_entry_sets_property,
    number_of,
};
use crate::text::{decimal, law_decimal_round_trip, parsed_u32, u32_to_text};
use vstd::prelude::*;

verus! {

/// The two ends of a link, each a port on a node.
#[derive(Clone, Copy, Debug, PartialEq, Eq, Structural)]
pub struct PipewireLink {
    pub node_from: u32,
    pub port_from: u32,
    pub node_to: u32,
    pub port_to: u32,
}

/// Which of a link's properties does not give a number, and why.
#[derive(Clone, Copy, Debug, PartialEq, Eq, Structural)]
pub enum LinkError {
    OutputNode(PropertyError),
    OutputPort(PropertyError),
    InputNode(PropertyError),
    InputPort(PropertyError),
}

/// The properties that name the two ends of `link`.
pub open spec fn end_properties(link: PipewireLink) -> Properties {
    Map::<Seq<char>, Seq<char>>::empty()
        .insert("link.output.node"@, decimal(link.node_from as nat))
        .insert("link.output.port"@, decimal(link.port_from as nat))
        .insert("link.input.node"@, decimal(link.node_to as nat))
        .insert("link.input.port"@, decimal(link.port_to as nat))
}

/// The properties with which a client asks for `link`. The link outlives the client.
pub open spec fn link_request_properties(link: PipewireLink) -> Properties {
    end_properties(link).insert("object.linger"@, "1"@)
}

/// The properties with which a client asks for `link`, as they are written down.
pub open spec fn link_request_entries(link: PipewireLink) -> Entries {
    Seq::<(Seq<char>, Seq<char>)>::empty()
        .push(("link.output.node"@, decimal(link.node_from as nat)))
        .push(("link.output.port"@, decimal(link.port_from as nat)))
        .push(("link.input.node"@, decimal(link.node_to as nat)))
        .push(("link.input.port"@, decimal(link.port_to as nat)))
        .push(("object.linger"@, "1"@))
}

/// The properties with which a client asks for `link`.
pub fn link_properties(link: PipewireLink) -> (properties: Dictionary)
    ensures
        properties.entries() == link_request_entries(link),
        properties@ == link_request_properties(link),
{
    let mut properties: Dictionary = Dictionary::new();
    let node_from: String = u32_to_text(link.node_from);
    let port_from: String = u32_to_text(link.port_from);
    let node_to: String = u32_to_text(link.node_to);
    let port_to: String = u32_to_text(link.port_to);
    properties.insert("link.output.node", node_from.as_str());
    properties.insert("link.output.port", port_from.as_str());
    properties.insert("link.input.node", node_to.as_str());
    properties.insert("link.input.port", port_to.as_str());
    properties.insert("object.linger", "1");
    properties
}

/// The link that `properties` describe; else the first property, output before input and node
/// before port, that does not give a number.
pub open spec fn described_link(properties: Properties) -> Result<PipewireLink, LinkError> {
    match number_of(properties, "link.output.node"@) {
        Err(error) => Err(LinkError::OutputNode(error)),
        Ok(node_from) => match number_of(properties, "link.output.port"@) {
            Err(error) => Err(LinkError::OutputPort(error)),
            Ok(port_from) => match number_of(properties, "link.input.node"@) {
                Err(error) => Err(LinkError::InputNode(error)),
                Ok(node_to) => match number_of(properties, "link.input.port"@) {
                    Err(error) => Err(LinkError::InputPort(error)),
                    Ok(port_to) => Ok(PipewireLink { node_from, port_from, node_to, port_to }),
                },
            },
        },
    }
}

/// The link that `properties` describe.
pub fn read_link(properties: &Dictionary) -> (link: Result<PipewireLink, LinkError>)
    ensures
        link == described_link(properties@),
{
    let node_from: u32 = match properties.number("link.output.node") {
        Ok(number) => number,
        Err(error) => return Err(LinkError::OutputNode(error)),
    };
    let port_from: u32 = match properties.number("link.output.port") {
        Ok(number) => number,
        Err(error) => return Err(LinkError::OutputPort(error)),
    };
    let node_to: u32 = match properties.number("link.input.node") {
        Ok(number) => number,
        Err(error) => return Err(LinkError::InputNode(error)),
    };
    let port_to: u32 = match properties.number("link.input.port") {
        Ok(number) => number,
        Err(error) => return Err(LinkError::InputPort(error)),
    };
    Ok(PipewireLink { node_from, port_from, node_to, port_to })
}

/// The properties that name the ends of a link describe that link, whatever other properties come
/// with them.
pub proof fn law_link_round_trip(link: PipewireLink, properties: Properties)
    requires
        end_properties(link).submap_of(properties),
    ensures
        described_link(properties) == Ok::<PipewireLink, LinkError>(link),
{
    let ends = end_properties(link);
    reveal_strlit("link.output.node");
    reveal_strlit("link.output.port");
    reveal_strlit("link.input.node");
    reveal_strlit("link.input.port");
    assert("link.output.node"@[12] != "link.output.port"@[12]);
    assert("link.input.node"@[11] != "link.input.port"@[11]);
    assert(ends.dom().contains("link.output.node"@));
    assert(ends.dom().contains("link.output.port"@));
    assert(ends.dom().contains("link.input.node"@));
    assert(ends.dom().contains("link.input.port"@));
    law_decimal_round_trip(link.node_from);
    law_decimal_round_trip(link.port_from);
    law_decimal_round_trip(link.node_to);
    law_decimal_round_trip(link.port_to);
}

/// What is written down to ask for a link amounts to the properties with which it is asked for.
pub proof fn law_request_entries_amount(link: PipewireLink)
    ensures
        entries_map(link_request_entries(link)) == link_request_properties(link),
{
    broadcast use law_entry_sets_property;

}

/// A client that asks for a link names both of its ends.
pub proof fn law_request_describes_link(link: PipewireLink)
    ensures
        end_properties(link).submap_of(link_request_properties(link)),
{
    reveal_strlit("link.output.node");
    reveal_strlit("link.output.port");
    reveal_strlit("link.input.node");
    reveal_strlit("link.input.port");
    reveal_strlit("object.linger");
    assert("object.linger"@.len() == 13);
}

/// A client asks for a link with five entries: the number of the node and of the port at the end that
/// the link leaves from, the same for the end that it leads to, and that the link outlives the client.
pub proof fn law_request_names_both_ends(link: PipewireLink)
    ensures
        link_request_entries(link).len() == 5,
        link_request_entries(link)[0].0 == "link.output.node"@,
        parsed_u32(link_request_entries(link)[0].1) == Some(link.node_from),
        link_request_entries(link)[0].1 == decimal(link.node_from as nat),
        link_request_entries(link)[1].0 == "link.output.port"@,
        parsed_u32(link_request_entries(link)[1].1) == Some(link.port_from),
        link_request_entries(link)[1].1 == decimal(link.port_from as nat),
        link_request_entries(link)[2].0 == "link.input.node"@,
        parsed_u32(link_request_entries(link)[2].1) == Some(link.node_to),
        link_request_entries(link)[2].1 == decimal(link.node_to as nat),
        link_request_entries(link)[3].0 == "link.input.port"@,
        parsed_u32(link_request_entries(link)[3].1) == Some(link.port_to),
        link_request_entries(link)[3].1 == decimal(link.port_to as nat),
        link_request_entries(link)[4].0 == "object.linger"@,
        link_request_entries(link)[4].1 == "1"@,
{
    law_decimal_round_trip(link.node_from);
    law_decimal_round_trip(link.port_from);
    law_decimal_round_trip(link.node_to);
    law_decimal_round_trip(link.port_to);
}

/// But for the ends, a client that asks for a link says nothing except that the link outlives it.
pub proof fn law_request_is_ends_and_linger(link: PipewireLink)
    ensures
        link_request_properties(link).remove("object.linger"@) == end_properties(link),
        link_request_properties(link).contains_key("object.linger"@),
        link_request_properties(link)["object.linger"@] == "1"@,
{
    reveal_strlit("link.output.node");
    reveal_strlit("link.output.port");
    reveal_strlit("link.input.node");
    reveal_strlit("link.input.port");
    reveal_strlit("object.linger");
    assert("object.linger"@.len() == 13);
    assert(!end_properties(link).contains_key("object.linger"@));
    assert(link_request_properties(link).remove("object.linger"@) =~= end_properties(link));
}

/// Properties describe a link exactly where each of its four numbers is given under the name of its
/// own.
pub proof fn law_described_link_is_named(properties: Properties, link: PipewireLink)
    ensures
        described_link(properties) == Ok::<PipewireLink, LinkError>(link) <==> {
            &&& number_of(properties, "link.output.node"@) == Ok::<u32, PropertyError>(
                link.node_from,
            )
            &&& number_of(properties, "link.output.port"@) == Ok::<u32, PropertyError>(
                link.port_from,
            )
            &&& number_of(properties, "link.input.node"@) == Ok::<u32, PropertyError>(link.node_to)
            &&& number_of(properties, "link.input.port"@) == Ok::<u32, PropertyError>(link.port_to)
        },
{
}

/// The error names the first number that is not given, where the node goes before the port and the
/// output before the input, and says why it is not.
pub proof fn law_first_error_is_named(properties: Properties, error: PropertyError)
    ensures
        described_link(properties) == Err::<PipewireLink, LinkError>(LinkError::OutputNode(error))
            <==> number_of(properties, "link.output.node"@) == Err::<u32, PropertyError>(error),
        described_link(properties) == Err::<PipewireLink, LinkError>(LinkError::OutputPort(error))
            <==> number_of(properties, "link.output.node"@) is Ok && number_of(
            properties,
            "link.output.port"@,
        ) == Err::<u32, PropertyError>(error),
        described_link(properties) == Err::<PipewireLink, LinkError>(LinkError::InputNode(error))
            <==> number_of(properties, "link.output.node"@) is Ok && number_of(
            properties,
            "link.output.port"@,
        ) is Ok && number_of(properties, "link.input.node"@) == Err::<u32, PropertyError>(error),
        described_link(properties) == Err::<PipewireLink, LinkError>(LinkError::InputPort(error))
            <==> number_of(properties, "link.output.node"@) is Ok && number_of(
            properties,
            "link.output.port"@,
        ) is Ok && number_of(properties, "link.input.node"@) is Ok && number_of(
            properties,
            "link.input.port"@,
        ) == Err::<u32, PropertyError>(error),
{
}

} // verus!
