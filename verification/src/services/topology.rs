//! The expanded lab topology: node indices, bridge names, and the link or
//! bridge attached to a node interface.
use crate::text::{decimal_nat, push_decimal_u64, push_str_chars, str_is, string_from_chars};
use vstd::prelude::*;

verus! {

/// A point-to-point link between two node interfaces, with resolved indices.
pub struct LinkDetailed {
    pub node_a: String,
    pub node_a_idx: u16,
    pub int_a: String,
    pub int_a_idx: u8,
    pub node_b: String,
    pub node_b_idx: u16,
    pub int_b: String,
    pub int_b_idx: u8,
    pub link_idx: u16,
}

/// A node interface attached to a bridge.
pub struct BridgeLinkDetailed {
    pub node_name: String,
    pub interface_name: String,
}

/// A bridge and the node interfaces attached to it.
pub struct BridgeDetailed {
    pub bridge_name: String,
    pub links: Vec<BridgeLinkDetailed>,
}

/// Side of a link.
#[derive(Clone, Copy, PartialEq, Eq, Structural, Debug)]
pub enum PeerSide {
    A,
    B,
}

/// An interface seen from its own node, with the peer at the other end.
pub struct PeerInterface {
    pub link_index: u16,
    pub this_node: String,
    pub this_node_index: u16,
    pub this_interface: String,
    pub this_interface_index: u8,
    pub this_side: PeerSide,
    pub peer_node: String,
    pub peer_node_index: u16,
    pub peer_interface: String,
    pub peer_interface_index: u8,
    pub peer_side: PeerSide,
}

/// What a node interface is attached to.
pub enum NodeInterface {
    Peer(PeerInterface),
    Bridge { name: String },
}

/// Whether `l` attaches interface `iface` of node `node` on side A.
pub open spec fn on_side_a(l: LinkDetailed, node: Seq<char>, iface: Seq<char>) -> bool {
    l.node_a@ == node && l.int_a@ == iface
}

/// Whether `l` attaches interface `iface` of node `node` on side B.
pub open spec fn on_side_b(l: LinkDetailed, node: Seq<char>, iface: Seq<char>) -> bool {
    l.node_b@ == node && l.int_b@ == iface
}

/// Whether `l` attaches interface `iface` of node `node`.
pub open spec fn attaches(l: LinkDetailed, node: Seq<char>, iface: Seq<char>) -> bool {
    on_side_a(l, node, iface) || on_side_b(l, node, iface)
}

/// The position of the last link attaching the interface.
pub open spec fn last_attaching(links: Seq<LinkDetailed>, node: Seq<char>, iface: Seq<char>) -> Option<
    int,
>
    decreases links.len(),
{
    if links.len() == 0 {
        None
    } else if attaches(links.last(), node, iface) {
        Some(links.len() - 1)
    } else {
        last_attaching(links.drop_last(), node, iface)
    }
}

/// Whether `p` describes link `l` seen from its side A (`from_a`) or side B.
pub open spec fn describes(p: PeerInterface, l: LinkDetailed, from_a: bool) -> bool {
    &&& p.link_index == l.link_idx
    &&& if from_a {
        &&& p.this_node@ == l.node_a@ && p.this_node_index == l.node_a_idx
        &&& p.this_interface@ == l.int_a@ && p.this_interface_index == l.int_a_idx
        &&& p.this_side == PeerSide::A
        &&& p.peer_node@ == l.node_b@ && p.peer_node_index == l.node_b_idx
        &&& p.peer_interface@ == l.int_b@ && p.peer_interface_index == l.int_b_idx
        &&& p.peer_side == PeerSide::B
    } else {
        &&& p.this_node@ == l.node_b@ && p.this_node_index == l.node_b_idx
        &&& p.this_interface@ == l.int_b@ && p.this_interface_index == l.int_b_idx
        &&& p.this_side == PeerSide::B
        &&& p.peer_node@ == l.node_a@ && p.peer_node_index == l.node_a_idx
        &&& p.peer_interface@ == l.int_a@ && p.peer_interface_index == l.int_a_idx
        &&& p.peer_side == PeerSide::A
    }
}

fn peer_from(l: &LinkDetailed, from_a: bool) -> (p: PeerInterface)
    ensures
        describes(p, *l, from_a),
{
    if from_a {
        PeerInterface {
            link_index: l.link_idx,
            this_node: l.node_a.clone(),
            this_node_index: l.node_a_idx,
            this_interface: l.int_a.clone(),
            this_interface_index: l.int_a_idx,
            this_side: PeerSide::A,
            peer_node: l.node_b.clone(),
            peer_node_index: l.node_b_idx,
            peer_interface: l.int_b.clone(),
            peer_interface_index: l.int_b_idx,
            peer_side: PeerSide::B,
        }
    } else {
        PeerInterface {
            link_index: l.link_idx,
            this_node: l.node_b.clone(),
            this_node_index: l.node_b_idx,
            this_interface: l.int_b.clone(),
            this_interface_index: l.int_b_idx,
            this_side: PeerSide::B,
            peer_node: l.node_a.clone(),
            peer_node_index: l.node_a_idx,
            peer_interface: l.int_a.clone(),
            peer_interface_index: l.int_a_idx,
            peer_side: PeerSide::A,
        }
    }
}

/// The link attached to interface `interface_name` of node `node_name`, seen
/// from that node; when several links attach it, the last one counts, and a
/// link attaching it on side A is read from side A.
pub fn find_interface_link(
    node_name: &str,
    interface_name: &str,
    links_detailed: &Vec<LinkDetailed>,
) -> (r: Option<NodeInterface>)
    ensures
        match last_attaching(links_detailed@, node_name@, interface_name@) {
            None => r is None,
            Some(k) => r matches Some(NodeInterface::Peer(p)) && describes(
                p,
                links_detailed@[k],
                on_side_a(links_detailed@[k], node_name@, interface_name@),
            ),
        },
{
    let mut i = links_detailed.len();
    assert(links_detailed@.take(i as int) == links_detailed@);
    while i > 0
        invariant
            i <= links_detailed@.len(),
            last_attaching(links_detailed@, node_name@, interface_name@) == last_attaching(
                links_detailed@.take(i as int),
                node_name@,
                interface_name@,
            ),
        decreases i,
    {
        let l = &links_detailed[i - 1];
        assert(links_detailed@.take(i as int).last() == *l);
        assert(links_detailed@.take(i as int).drop_last() == links_detailed@.take(i - 1));
        let a = str_is(l.node_a.as_str(), node_name) && str_is(l.int_a.as_str(), interface_name);
        let b = str_is(l.node_b.as_str(), node_name) && str_is(l.int_b.as_str(), interface_name);
        if a || b {
            return Some(NodeInterface::Peer(peer_from(l, a)));
        }
        i = i - 1;
    }
    assert(links_detailed@.take(0) == Seq::<LinkDetailed>::empty());
    None
}

/// Whether bridge `b` attaches interface `iface` of node `node`.
pub open spec fn bridge_attaches(b: BridgeDetailed, node: Seq<char>, iface: Seq<char>) -> bool {
    exists|j: int|
        0 <= j < b.links@.len() && (#[trigger] b.links@[j]).node_name@ == node
            && b.links@[j].interface_name@ == iface
}

/// The position of the last bridge attaching the interface.
pub open spec fn last_bridge(bridges: Seq<BridgeDetailed>, node: Seq<char>, iface: Seq<char>) -> Option<
    int,
>
    decreases bridges.len(),
{
    if bridges.len() == 0 {
        None
    } else if bridge_attaches(bridges.last(), node, iface) {
        Some(bridges.len() - 1)
    } else {
        last_bridge(bridges.drop_last(), node, iface)
    }
}

fn bridge_has(b: &BridgeDetailed, node_name: &str, interface_name: &str) -> (r: bool)
    ensures
        r == bridge_attaches(*b, node_name@, interface_name@),
{
    let mut j: usize = 0;
    while j < b.links.len()
        invariant
            j <= b.links@.len(),
            forall|k: int|
                0 <= k < j ==> !((#[trigger] b.links@[k]).node_name@ == node_name@
                    && b.links@[k].interface_name@ == interface_name@),
        decreases b.links@.len() - j,
    {
        if str_is(b.links[j].node_name.as_str(), node_name) && str_is(
            b.links[j].interface_name.as_str(),
            interface_name,
        ) {
            return true;
        }
        j = j + 1;
    }
    false
}

/// The bridge attached to interface `interface_name` of node `node_name`; when
/// several bridges attach it, the last one counts.
pub fn find_bridge_interface(
    node_name: &str,
    interface_name: &str,
    bridge_connections: &Vec<BridgeDetailed>,
) -> (r: Option<NodeInterface>)
    ensures
        match last_bridge(bridge_connections@, node_name@, interface_name@) {
            None => r is None,
            Some(k) => r matches Some(NodeInterface::Bridge { name }) && name@
                == bridge_connections@[k].bridge_name@,
        },
{
    let mut i = bridge_connections.len();
    assert(bridge_connections@.take(i as int) == bridge_connections@);
    while i > 0
        invariant
            i <= bridge_connections@.len(),
            last_bridge(bridge_connections@, node_name@, interface_name@) == last_bridge(
                bridge_connections@.take(i as int),
                node_name@,
                interface_name@,
            ),
        decreases i,
    {
        let b = &bridge_connections[i - 1];
        assert(bridge_connections@.take(i as int).last() == *b);
        assert(bridge_connections@.take(i as int).drop_last() == bridge_connections@.take(i - 1));
        if bridge_has(b, node_name, interface_name) {
            return Some(NodeInterface::Bridge { name: b.bridge_name.clone() });
        }
        i = i - 1;
    }
    assert(bridge_connections@.take(0) == Seq::<BridgeDetailed>::empty());
    None
}

/// `sherpa-bridge<index>-<name>-<lab>`: the libvirt network of the bridge at
/// position `index` of the manifest.
pub open spec fn bridge_libvirt_name_of(index: usize, name: Seq<char>, lab_id: Seq<char>) -> Seq<char> {
    "sherpa-bridge"@ + decimal_nat(index as nat) + "-"@ + name + "-"@ + lab_id
}

/// The libvirt network name of the manifest bridge at position `index`.
pub fn bridge_libvirt_name(index: usize, name: &str, lab_id: &str) -> (r: String)
    ensures
        r@ == bridge_libvirt_name_of(index, name@, lab_id@),
{
    let mut out: Vec<char> = Vec::new();
    push_str_chars(&mut out, "sherpa-bridge");
    push_decimal_u64(&mut out, index as u64);
    push_str_chars(&mut out, "-");
    push_str_chars(&mut out, name);
    push_str_chars(&mut out, "-");
    push_str_chars(&mut out, lab_id);
    string_from_chars(&out)
}

/// `<prefix>s<index>-<lab>`: the host bridge device of the manifest bridge at
/// position `index` (`prefix` is the deployment's bridge prefix).
pub open spec fn bridge_device_name_of(prefix: Seq<char>, index: usize, lab_id: Seq<char>) -> Seq<char> {
    prefix + "s"@ + decimal_nat(index as nat) + "-"@ + lab_id
}

/// The host bridge device name of the manifest bridge at position `index`.
pub fn bridge_device_name(prefix: &str, index: usize, lab_id: &str) -> (r: String)
    ensures
        r@ == bridge_device_name_of(prefix@, index, lab_id@),
{
    let mut out: Vec<char> = Vec::new();
    push_str_chars(&mut out, prefix);
    push_str_chars(&mut out, "s");
    push_decimal_u64(&mut out, index as u64);
    push_str_chars(&mut out, "-");
    push_str_chars(&mut out, lab_id);
    string_from_chars(&out)
}

/// The indices of a lab's nodes, in manifest order: the node at position `p`
/// gets index `p + 1`, so indices start at 1 and no two nodes share one.
pub fn node_indices(count: usize) -> (r: Vec<u16>)
    requires
        count <= 65535,
    ensures
        r@.len() == count,
        forall|p: int| 0 <= p < count ==> #[trigger] r@[p] == p + 1,
        forall|p: int, q: int| 0 <= p < q < count ==> r@[p] != r@[q],
        forall|p: int| 0 <= p < count ==> r@[p] >= 1,
{
    let mut r: Vec<u16> = Vec::new();
    let mut p: usize = 0;
    while p < count
        invariant
            p <= count <= 65535,
            r@.len() == p,
            forall|q: int| 0 <= q < p ==> #[trigger] r@[q] == q + 1,
        decreases count - p,
    {
        r.push((p + 1) as u16);
        p = p + 1;
    }
    r
}

/// Whether position `p` holds the first node named `name`.
pub open spec fn is_first_named(names: Seq<Seq<char>>, name: Seq<char>, p: int) -> bool {
    &&& 0 <= p < names.len()
    &&& names[p] == name
    &&& forall|q: int| 0 <= q < p ==> #[trigger] names[q] != name
}

/// `Peer node not found: <name>`.
pub open spec fn peer_not_found_message(name: Seq<char>) -> Seq<char> {
    "Peer node not found: "@ + name
}

/// The index of the node at the other end of a link: that of the first node
/// named `peer` (its position plus one), or an error naming the peer when the
/// manifest has no such node.
pub fn peer_node_index(names: &Vec<String>, peer: &str) -> (r: Result<u16, String>)
    requires
        names@.len() <= 65535,
    ensures
        match r {
            Ok(i) => i >= 1 && is_first_named(names@.map_values(|s: String| s@), peer@, i - 1),
            Err(e) => e@ == peer_not_found_message(peer@) && forall|p: int|
                0 <= p < names@.len() ==> #[trigger] names@[p]@ != peer@,
        },
{
    let ghost view = names@.map_values(|s: String| s@);
    let mut p: usize = 0;
    while p < names.len()
        invariant
            p <= names@.len() <= 65535,
            view == names@.map_values(|s: String| s@),
            forall|q: int| 0 <= q < p ==> #[trigger] names@[q]@ != peer@,
        decreases names@.len() - p,
    {
        if str_is(names[p].as_str(), peer) {
            proof {
                assert(view[p as int] == peer@);
                assert forall|q: int| 0 <= q < p implies #[trigger] view[q] != peer@ by {
                    assert(names@[q]@ != peer@);
                }
                assert(is_first_named(view, peer@, p as int));
            }
            return Ok((p + 1) as u16);
        }
        p = p + 1;
    }
    let mut out: Vec<char> = Vec::new();
    push_str_chars(&mut out, "Peer node not found: ");
    push_str_chars(&mut out, peer);
    Err(string_from_chars(&out))
}

/// The positions, in order, of the links whose node is among `names`.
pub open spec fn known_positions(link_nodes: Seq<Seq<char>>, names: Seq<Seq<char>>) -> Seq<int>
    decreases link_nodes.len(),
{
    if link_nodes.len() == 0 {
        Seq::empty()
    } else {
        let p = known_positions(link_nodes.drop_last(), names);
        if names.contains(link_nodes.last()) {
            p.push(link_nodes.len() - 1)
        } else {
            p
        }
    }
}

/// The links of a manifest bridge that are kept: the positions, in order, of
/// those whose node is in the manifest (links to an unknown node are dropped).
pub fn known_bridge_links(link_nodes: &Vec<String>, names: &Vec<String>) -> (r: Vec<usize>)
    ensures
        r@.len() == known_positions(link_nodes.deep_view(), names.deep_view()).len(),
        forall|k: int|
            0 <= k < r@.len() ==> #[trigger] r@[k] == known_positions(
                link_nodes.deep_view(),
                names.deep_view(),
            )[k],
{
    let ghost all = link_nodes.deep_view();
    let ghost known = names.deep_view();
    let mut r: Vec<usize> = Vec::new();
    let mut j: usize = 0;
    while j < link_nodes.len()
        invariant
            j <= link_nodes@.len(),
            all == link_nodes.deep_view(),
            known == names.deep_view(),
            r@.len() == known_positions(all.take(j as int), known).len(),
            forall|k: int|
                0 <= k < r@.len() ==> #[trigger] r@[k] == known_positions(all.take(j as int), known)[k],
        decreases link_nodes@.len() - j,
    {
        let mut found = false;
        let mut p: usize = 0;
        while p < names.len()
            invariant
                j < link_nodes@.len(),
                p <= names@.len(),
                known == names.deep_view(),
                found == exists|q: int| 0 <= q < p && #[trigger] known[q] == link_nodes@[j as int]@,
            decreases names@.len() - p,
        {
            assert(known[p as int] == names@[p as int]@);
            if str_is(names[p].as_str(), link_nodes[j].as_str()) {
                found = true;
            }
            p = p + 1;
        }
        assert(all.take(j + 1).drop_last() == all.take(j as int));
        assert(all.take(j + 1).last() == link_nodes@[j as int]@);
        assert(found == known.contains(link_nodes@[j as int]@));
        if found {
            r.push(j);
        }
        j = j + 1;
    }
    assert(all.take(link_nodes@.len() as int) == all);
    r
}

} // verus!
