//! The items of the PipeWire graph that are known at a time.

use std::collections::HashMap;
use vstd::prelude::*;

verus! {

broadcast use vstd::std_specs::hash::group_hash_axioms;

/// An item of the graph, stored under its id.
#[derive(Clone, Copy, Debug, PartialEq, Eq, Structural)]
pub enum Item {
    Node,
    Port {
        /// The node that the port is on.
        node_id: u32,
    },
    Link {
        /// The output port that the link leaves from.
        port_from: u32,
        /// The input port that the link leads to.
        port_to: u32,
    },
}

/// A link of the graph with its id.
#[derive(Clone, Copy, Debug, PartialEq, Eq, Structural)]
pub struct LinkEntry {
    pub id: u32,
    pub port_from: u32,
    pub port_to: u32,
}

impl LinkEntry {
    /// Whether the link leads from `port_from` to `port_to`.
    pub open spec fn joins(self, port_from: u32, port_to: u32) -> bool {
        self.port_from == port_from && self.port_to == port_to
    }

    /// The link as an item.
    pub open spec fn item(self) -> Item {
        Item::Link { port_from: self.port_from, port_to: self.port_to }
    }
}

/// The links but for the one under `id`.
pub open spec fn links_without(links: Seq<LinkEntry>, id: u32) -> Seq<LinkEntry> {
    links.filter(|entry: LinkEntry| entry.id != id)
}

/// The id of the link from `port_from` to `port_to` that was stored last.
pub open spec fn latest_link(links: Seq<LinkEntry>, port_from: u32, port_to: u32) -> Option<u32>
    decreases links.len(),
{
    if links.len() == 0 {
        None
    } else if links.last().joins(port_from, port_to) {
        Some(links.last().id)
    } else {
        latest_link(links.drop_last(), port_from, port_to)
    }
}

/// The graph as known: its items by id, and the links among them in the order in which they were
/// stored.
#[verifier::ext_equal]
pub struct Graph {
    pub items: Map<u32, Item>,
    pub links: Seq<LinkEntry>,
}

impl Graph {
    /// The graph without any item.
    pub open spec fn empty() -> Graph {
        Graph { items: Map::empty(), links: Seq::empty() }
    }

    /// Whether the links are exactly the items that are links, each listed once.
    pub open spec fn wf(self) -> bool {
        &&& forall|i: int|
            0 <= i < self.links.len() ==> self.items.contains_key((#[trigger] self.links[i]).id)
                && self.items[self.links[i].id] == self.links[i].item()
        &&& forall|i: int, j: int|
            0 <= i < j < self.links.len() ==> (#[trigger] self.links[i]).id != (
            #[trigger] self.links[j]).id
        &&& forall|id: u32| #[trigger]
            self.items.contains_key(id) && self.items[id] is Link ==> self.lists(id)
    }

    /// Whether the links list one under `id`.
    pub open spec fn lists(self, id: u32) -> bool {
        exists|i: int| 0 <= i < self.links.len() && (#[trigger] self.links[i]).id == id
    }

    /// The graph with `item` under `id`, in place of what was there.
    pub open spec fn insert(self, id: u32, item: Item) -> Graph {
        let links = links_without(self.links, id);
        Graph {
            items: self.items.insert(id, item),
            links: match item {
                Item::Link { port_from, port_to } => links.push(
                    LinkEntry { id, port_from, port_to },
                ),
                _ => links,
            },
        }
    }

    /// The graph with nothing under `id`.
    pub open spec fn remove(self, id: u32) -> Graph {
        Graph { items: self.items.remove(id), links: links_without(self.links, id) }
    }

    /// The id of a link from `port_from` to `port_to`; of several, the one that was stored last.
    pub open spec fn link_id(self, port_from: u32, port_to: u32) -> Option<u32> {
        latest_link(self.links, port_from, port_to)
    }

    /// The node that the port `port` is on.
    pub open spec fn node_of_port(self, port: u32) -> Option<u32> {
        if self.items.contains_key(port) {
            match self.items[port] {
                Item::Port { node_id } => Some(node_id),
                _ => None,
            }
        } else {
            None
        }
    }
}

/// `links_without` keeps the entries under other ids, and those only.
proof fn lemma_links_without(links: Seq<LinkEntry>, id: u32)
    ensures
        forall|i: int|
            0 <= i < links_without(links, id).len() ==> links.contains(
                #[trigger] links_without(links, id)[i],
            ) && links_without(links, id)[i].id != id,
        forall|i: int|
            0 <= i < links.len() && (#[trigger] links[i]).id != id ==> links_without(
                links,
                id,
            ).contains(links[i]),
        links_without(links, id).len() <= links.len(),
    decreases links.len(),
{
    reveal(Seq::filter);
    if links.len() > 0 {
        let rest = links.drop_last();
        let kept = links_without(rest, id);
        let all = links_without(links, id);
        lemma_links_without(rest, id);
        assert forall|i: int| 0 <= i < all.len() implies links.contains(#[trigger] all[i])
            && all[i].id != id by {
            if i < kept.len() {
                assert(all[i] == kept[i]);
                let k = choose|k: int| 0 <= k < rest.len() && rest[k] == kept[i];
                assert(links[k] == all[i]);
            } else {
                assert(links[links.len() - 1] == all[i]);
            }
        }
        assert forall|i: int| 0 <= i < links.len() && (#[trigger] links[i]).id != id implies
            all.contains(links[i]) by {
            if i < rest.len() {
                assert(rest[i] == links[i]);
                let k = choose|k: int| 0 <= k < kept.len() && kept[k] == rest[i];
                assert(all[k] == links[i]);
            } else {
                assert(all[all.len() - 1] == links[i]);
            }
        }
    }
}

/// `links_without` keeps ids apart that were apart.
proof fn lemma_links_without_distinct(links: Seq<LinkEntry>, id: u32)
    requires
        forall|i: int, j: int|
            0 <= i < j < links.len() ==> (#[trigger] links[i]).id != (#[trigger] links[j]).id,
    ensures
        forall|i: int, j: int|
            0 <= i < j < links_without(links, id).len() ==> (#[trigger] links_without(
                links,
                id,
            )[i]).id != (#[trigger] links_without(links, id)[j]).id,
    decreases links.len(),
{
    reveal(Seq::filter);
    if links.len() > 0 {
        let rest = links.drop_last();
        let kept = links_without(rest, id);
        lemma_links_without_distinct(rest, id);
        lemma_links_without(rest, id);
        if links.last().id != id {
            assert forall|i: int| 0 <= i < kept.len() implies (#[trigger] kept[i]).id
                != links.last().id by {
                let k = choose|k: int| 0 <= k < rest.len() && rest[k] == kept[i];
                assert(links[k].id != links[links.len() - 1].id);
            }
        }
    }
}

/// Where nothing is listed under `id`, `links_without` changes nothing.
proof fn lemma_links_without_absent(links: Seq<LinkEntry>, id: u32)
    requires
        forall|i: int| 0 <= i < links.len() ==> (#[trigger] links[i]).id != id,
    ensures
        links_without(links, id) == links,
    decreases links.len(),
{
    reveal(Seq::filter);
    if links.len() > 0 {
        let rest = links.drop_last();
        assert forall|i: int| 0 <= i < rest.len() implies (#[trigger] rest[i]).id != id by {
            assert(rest[i] == links[i]);
        }
        lemma_links_without_absent(rest, id);
        assert(links[links.len() - 1].id != id);
        assert(rest.push(links.last()) =~= links);
    }
}

/// Removing an item keeps the links and the items in step.
pub proof fn law_remove_keeps_wf(graph: Graph, id: u32)
    requires
        graph.wf(),
    ensures
        graph.remove(id).wf(),
{
    let after = graph.remove(id);
    lemma_links_without(graph.links, id);
    lemma_links_without_distinct(graph.links, id);
    assert forall|i: int| 0 <= i < after.links.len() implies after.items.contains_key(
        (#[trigger] after.links[i]).id,
    ) && after.items[after.links[i].id] == after.links[i].item() by {
        let k = choose|k: int| 0 <= k < graph.links.len() && graph.links[k] == after.links[i];
        assert(graph.items.contains_key(graph.links[k].id));
    }
    assert forall|other: u32| #[trigger]
        after.items.contains_key(other) && after.items[other] is Link implies after.lists(
        other,
    ) by {
        assert(graph.items.contains_key(other));
        let i = choose|i: int| 0 <= i < graph.links.len() && (#[trigger] graph.links[i]).id == other;
        let k = choose|k: int| 0 <= k < after.links.len() && after.links[k] == graph.links[i];
        assert(after.links[k].id == other);
    }
}

/// Storing an item keeps the links and the items in step.
pub proof fn law_insert_keeps_wf(graph: Graph, id: u32, item: Item)
    requires
        graph.wf(),
    ensures
        graph.insert(id, item).wf(),
{
    let removed = graph.remove(id);
    let after = graph.insert(id, item);
    law_remove_keeps_wf(graph, id);
    lemma_links_without(graph.links, id);
    assert forall|i: int| 0 <= i < after.links.len() implies after.items.contains_key(
        (#[trigger] after.links[i]).id,
    ) && after.items[after.links[i].id] == after.links[i].item() by {
        if i < removed.links.len() {
            assert(after.links[i] == removed.links[i]);
        }
    }
    assert forall|i: int, j: int| 0 <= i < j < after.links.len() implies (
    #[trigger] after.links[i]).id != (#[trigger] after.links[j]).id by {
        assert(after.links[i] == removed.links[i]);
        if j < removed.links.len() {
            assert(after.links[j] == removed.links[j]);
        }
    }
    assert forall|other: u32| #[trigger]
        after.items.contains_key(other) && after.items[other] is Link implies after.lists(
        other,
    ) by {
        if other == id {
            assert(after.links[after.links.len() - 1].id == id);
        } else {
            assert(removed.items.contains_key(other));
            let i = choose|i: int|
                0 <= i < removed.links.len() && (#[trigger] removed.links[i]).id == other;
            assert(after.links[i].id == other);
        }
    }
}

/// `latest_link` finds an entry with the two ports wherever there is one, and nothing else.
proof fn lemma_latest_link(links: Seq<LinkEntry>, port_from: u32, port_to: u32)
    ensures
        match latest_link(links, port_from, port_to) {
            Some(id) => exists|i: int|
                0 <= i < links.len() && (#[trigger] links[i]).id == id && links[i].joins(
                    port_from,
                    port_to,
                ),
            None => forall|i: int|
                0 <= i < links.len() ==> !(#[trigger] links[i]).joins(port_from, port_to),
        },
    decreases links.len(),
{
    if links.len() > 0 {
        let rest = links.drop_last();
        if links.last().joins(port_from, port_to) {
            assert(links[links.len() - 1].id == links.last().id);
        } else {
            lemma_latest_link(rest, port_from, port_to);
            match latest_link(rest, port_from, port_to) {
                Some(id) => {
                    let i = choose|i: int|
                        0 <= i < rest.len() && (#[trigger] rest[i]).id == id && rest[i].joins(
                            port_from,
                            port_to,
                        );
                    assert(links[i] == rest[i]);
                },
                None => {
                    assert forall|i: int| 0 <= i < links.len() implies !(
                    #[trigger] links[i]).joins(port_from, port_to) by {
                        if i < rest.len() {
                            assert(links[i] == rest[i]);
                        }
                    }
                },
            }
        }
    }
}

/// A link between two ports is found exactly where the graph has one, and the id that is found is
/// that of such a link.
pub proof fn law_link_id_finds_links(graph: Graph, port_from: u32, port_to: u32)
    requires
        graph.wf(),
    ensures
        graph.link_id(port_from, port_to) matches Some(id) ==> graph.items.contains_key(id)
            && graph.items[id] == (Item::Link { port_from, port_to }),
        graph.link_id(port_from, port_to) is None ==> forall|id: u32| #[trigger]
            graph.items.contains_key(id) ==> graph.items[id] != (Item::Link { port_from, port_to }),
{
    lemma_latest_link(graph.links, port_from, port_to);
    if graph.link_id(port_from, port_to) is None {
        assert forall|id: u32| #[trigger] graph.items.contains_key(id) implies graph.items[id] != (
        Item::Link { port_from, port_to }) by {
            if graph.items[id] is Link {
                let i = choose|i: int|
                    0 <= i < graph.links.len() && (#[trigger] graph.links[i]).id == id;
                assert(!graph.links[i].joins(port_from, port_to));
            }
        }
    }
}

/// Removing what is not there changes nothing.
pub proof fn law_remove_absent(graph: Graph, id: u32)
    requires
        graph.wf(),
        !graph.items.contains_key(id),
    ensures
        graph.remove(id) == graph,
{
    assert forall|i: int| 0 <= i < graph.links.len() implies (#[trigger] graph.links[i]).id
        != id by {
        assert(graph.items.contains_key(graph.links[i].id));
    }
    lemma_links_without_absent(graph.links, id);
    assert(graph.remove(id) =~= graph);
}

/// Removing an item that was stored under a new id leaves the graph as it was.
pub proof fn law_remove_undoes_insert(graph: Graph, id: u32, item: Item)
    requires
        graph.wf(),
        !graph.items.contains_key(id),
    ensures
        graph.insert(id, item).remove(id) == graph,
{
    reveal(Seq::filter);
    law_remove_absent(graph, id);
    if item is Link {
        let entry = graph.insert(id, item).links.last();
        assert(graph.links.push(entry).drop_last() =~= graph.links);
    }
    assert(graph.insert(id, item).remove(id) =~= graph);
}

/// A link that was just stored is the one found between its ports.
pub proof fn law_stored_link_is_found(graph: Graph, id: u32, port_from: u32, port_to: u32)
    ensures
        graph.insert(id, Item::Link { port_from, port_to }).link_id(port_from, port_to) == Some(id),
{
}

/// The graph as known, kept up to date as items come and go.
#[derive(Debug)]
pub struct State {
    items: HashMap<u32, Item>,
    links: Vec<LinkEntry>,
}

impl View for State {
    type V = Graph;

    closed spec fn view(&self) -> Graph {
        Graph { items: self.items@, links: self.links@ }
    }
}

impl State {
    /// A state that knows of no item.
    pub fn new() -> (state: State)
        ensures
            state@ == Graph::empty(),
            state@.wf(),
    {
        State { items: HashMap::new(), links: Vec::new() }
    }

    /// Drops the link entries under `id`.
    fn drop_links(&mut self, id: u32)
        ensures
            final(self)@ == (Graph { links: links_without(old(self)@.links, id), ..old(self)@ }),
    {
        reveal(Seq::filter);
        let mut kept: Vec<LinkEntry> = Vec::new();
        let mut i: usize = 0;
        while i < self.links.len()
            invariant
                i <= self.links@.len(),
                kept@ == links_without(self.links@.take(i as int), id),
            decreases self.links@.len() - i,
        {
            reveal(Seq::filter);
            let entry: LinkEntry = self.links[i];
            assert(self.links@.take(i + 1).drop_last() =~= self.links@.take(i as int));
            if entry.id != id {
                kept.push(entry);
            }
            i = i + 1;
        }
        assert(self.links@.take(i as int) =~= self.links@);
        self.links = kept;
    }

    /// Stores `item` under `id`, in place of what was there.
    pub fn insert(&mut self, id: u32, item: Item)
        requires
            old(self)@.wf(),
        ensures
            final(self)@ == old(self)@.insert(id, item),
            final(self)@.wf(),
    {
        proof {
            law_insert_keeps_wf(self@, id, item);
        }
        self.drop_links(id);
        if let Item::Link { port_from, port_to } = item {
            self.links.push(LinkEntry { id, port_from, port_to });
        }
        self.items.insert(id, item);
    }

    /// The item under `id`.
    pub fn get(&self, id: u32) -> (item: Option<Item>)
        ensures
            item == self@.items.get(id),
    {
        match self.items.get(&id) {
            Some(item) => Some(*item),
            None => None,
        }
    }

    /// Removes the item under `id`, and returns it where there was one.
    pub fn remove(&mut self, id: u32) -> (item: Option<Item>)
        requires
            old(self)@.wf(),
        ensures
            item == old(self)@.items.get(id),
            final(self)@ == old(self)@.remove(id),
            final(self)@.wf(),
    {
        proof {
            law_remove_keeps_wf(self@, id);
        }
        self.drop_links(id);
        let item: Option<Item> = self.items.remove(&id);
        assert(self.items@ =~= old(self)@.items.remove(id));
        item
    }

    /// The id of a link from `port_from` to `port_to`; of several, the one that was stored last.
    pub fn get_link_id(&self, port_from: u32, port_to: u32) -> (id: Option<u32>)
        ensures
            id == self@.link_id(port_from, port_to),
    {
        let mut n: usize = self.links.len();
        assert(self.links@.take(n as int) =~= self.links@);
        while n > 0
            invariant
                n <= self.links@.len(),
                latest_link(self.links@.take(n as int), port_from, port_to) == self@.link_id(
                    port_from,
                    port_to,
                ),
            decreases n,
        {
            assert(self.links@.take(n as int).drop_last() =~= self.links@.take(n - 1));
            n = n - 1;
            let entry: LinkEntry = self.links[n];
            if entry.port_from == port_from && entry.port_to == port_to {
                return Some(entry.id);
            }
        }
        None
    }

    /// The node that the port `port` is on.
    pub fn get_node_of_port(&self, port: u32) -> (node_id: Option<u32>)
        ensures
            node_id == self@.node_of_port(port),
    {
        match self.get(port) {
            Some(Item::Port { node_id }) => Some(node_id),
            _ => None,
        }
    }
}

/// At first there is no item, no link and no port.
pub proof fn law_empty_graph(id: u32, port_from: u32, port_to: u32)
    ensures
        Graph::empty().wf(),
        !Graph::empty().items.contains_key(id),
        Graph::empty().link_id(port_from, port_to) is None,
        Graph::empty().node_of_port(id) is None,
{
}

/// What is stored under an id is there afterwards, and what is under any other id stays.
pub proof fn law_insert_stores(graph: Graph, id: u32, item: Item, other: u32)
    ensures
        graph.insert(id, item).items.get(id) == Some(item),
        other != id ==> graph.insert(id, item).items.get(other) == graph.items.get(other),
{
}

/// What is removed is not there afterwards, and what is under any other id stays.
pub proof fn law_remove_takes_away(graph: Graph, id: u32, other: u32)
    ensures
        graph.remove(id).items.get(id) is None,
        other != id ==> graph.remove(id).items.get(other) == graph.items.get(other),
{
}

/// A port is on a node exactly where the graph holds it as a port of that node.
pub proof fn law_node_of_port(graph: Graph, port: u32, node_id: u32)
    ensures
        graph.node_of_port(port) == Some(node_id) <==> graph.items.get(port) == Some(
            Item::Port { node_id },
        ),
{
}

/// Leaving out a link other than the latest between two ports leaves that one the latest.
proof fn lemma_latest_link_stays(links: Seq<LinkEntry>, id: u32, port_from: u32, port_to: u32)
    requires
        latest_link(links, port_from, port_to) != Some(id),
    ensures
        latest_link(links_without(links, id), port_from, port_to) == latest_link(
            links,
            port_from,
            port_to,
        ),
    decreases links.len(),
{
    reveal(Seq::filter);
    if links.len() > 0 {
        let rest = links.drop_last();
        if !links.last().joins(port_from, port_to) {
            lemma_latest_link_stays(rest, id, port_from, port_to);
        }
        if links.last().id != id {
            assert(links_without(rest, id).push(links.last()).drop_last() =~= links_without(
                rest,
                id,
            ));
        }
    }
}

/// Removing an item other than the link that is found between two ports leaves that link to be found.
pub proof fn law_remove_leaves_other_links(graph: Graph, id: u32, port_from: u32, port_to: u32)
    requires
        graph.link_id(port_from, port_to) != Some(id),
    ensures
        graph.remove(id).link_id(port_from, port_to) == graph.link_id(port_from, port_to),
{
    lemma_latest_link_stays(graph.links, id, port_from, port_to);
}

/// Storing an item that is no link between two ports, and not in place of the one that is found there,
/// leaves that one to be found.
pub proof fn law_insert_leaves_other_links(
    graph: Graph,
    id: u32,
    item: Item,
    port_from: u32,
    port_to: u32,
)
    requires
        graph.link_id(port_from, port_to) != Some(id),
        item != (Item::Link { port_from, port_to }),
    ensures
        graph.insert(id, item).link_id(port_from, port_to) == graph.link_id(port_from, port_to),
{
    lemma_latest_link_stays(graph.links, id, port_from, port_to);
    if item is Link {
        let after = graph.insert(id, item).links;
        assert(after.drop_last() =~= links_without(graph.links, id));
    }
}

/// Where one graph has a further link after those of another, leaving out an id leaves the others in
/// their order, and the further link last, where it is not the one that is left out.
pub proof fn law_links_keep_their_order(graph: Graph, longer: Graph, entry: LinkEntry, id: u32)
    requires
        longer.links == graph.links.push(entry),
    ensures
        entry.id == id ==> longer.remove(id).links == graph.remove(id).links,
        entry.id != id ==> longer.remove(id).links == graph.remove(id).links.push(entry),
{
    reveal(Seq::filter);
    assert(graph.links.push(entry).drop_last() =~= graph.links);
}

/// A link that is stored goes last, after all links under other ids, and no other item goes among the
/// links.
pub proof fn law_stored_link_goes_last(graph: Graph, id: u32, item: Item, entry: LinkEntry)
    ensures
        item == (Item::Link { port_from: entry.port_from, port_to: entry.port_to }) && id
            == entry.id ==> graph.insert(id, item).links == graph.remove(id).links.push(entry),
        !(item is Link) ==> graph.insert(id, item).links == graph.remove(id).links,
        graph.links.len() == 0 ==> graph.remove(id).links.len() == 0,
{
    reveal(Seq::filter);
}

/// Where one graph has a further link after those of another, that link is found between its ports,
/// and between others what is found without it.
pub proof fn law_latest_link_is_found(
    graph: Graph,
    longer: Graph,
    entry: LinkEntry,
    port_from: u32,
    port_to: u32,
)
    requires
        longer.links == graph.links.push(entry),
    ensures
        port_from == entry.port_from && port_to == entry.port_to ==> longer.link_id(
            port_from,
            port_to,
        ) == Some(entry.id),
        port_from != entry.port_from || port_to != entry.port_to ==> longer.link_id(
            port_from,
            port_to,
        ) == graph.link_id(port_from, port_to),
        graph.links.len() == 0 ==> graph.link_id(port_from, port_to) is None,
{
    assert(graph.links.push(entry).drop_last() =~= graph.links);
}

} // verus!
