//! Runtime state detection: the state of a node from what libvirt and Docker report.
use crate::text::{chars_of, str_is, string_of_range};
use vstd::prelude::*;

verus! {

/// libvirt's `VIR_DOMAIN_RUNNING` domain state.
pub const VIR_DOMAIN_RUNNING: u32 = 1;

/// libvirt's `VIR_DOMAIN_PAUSED` domain state.
pub const VIR_DOMAIN_PAUSED: u32 = 3;

/// libvirt's `VIR_DOMAIN_SHUTOFF` domain state.
pub const VIR_DOMAIN_SHUTOFF: u32 = 5;

/// How a node runs.
#[derive(Clone, Copy, PartialEq, Eq, Structural, Debug)]
pub enum NodeKind {
    VirtualMachine,
    Container,
    Unikernel,
}

/// The state recorded for a node.
#[derive(Clone, Copy, PartialEq, Eq, Structural, Debug)]
pub enum NodeState {
    Created,
    Starting,
    Running,
    Stopped,
    Unknown,
}

/// The state Docker reports for a container.
#[derive(Clone, Copy, PartialEq, Eq, Structural, Debug)]
pub enum ContainerState {
    Empty,
    Created,
    Running,
    Paused,
    Restarting,
    Removing,
    Exited,
    Dead,
}

/// The value recorded for `name` when the entries are inserted in order into a
/// map: that of the last entry named `name`.
pub open spec fn lookup<V>(entries: Seq<(String, V)>, name: Seq<char>) -> Option<V>
    decreases entries.len(),
{
    if entries.len() == 0 {
        None
    } else if entries.last().0@ == name {
        Some(entries.last().1)
    } else {
        lookup(entries.drop_last(), name)
    }
}

fn find_vm_state(entries: &Vec<(String, u32)>, name: &str) -> (r: Option<u32>)
    ensures
        r == lookup(entries@, name@),
{
    let mut i: usize = entries.len();
    assert(entries@.take(i as int) == entries@);
    while i > 0
        invariant
            i <= entries@.len(),
            lookup(entries@, name@) == lookup(entries@.take(i as int), name@),
        decreases i,
    {
        assert(entries@.take(i as int).drop_last() == entries@.take(i - 1));
        if str_is(entries[i - 1].0.as_str(), name) {
            return Some(entries[i - 1].1);
        }
        i = i - 1;
    }
    None
}

fn find_container_state(entries: &Vec<(String, ContainerState)>, name: &str) -> (r: Option<
    ContainerState,
>)
    ensures
        r == lookup(entries@, name@),
{
    let mut i: usize = entries.len();
    assert(entries@.take(i as int) == entries@);
    while i > 0
        invariant
            i <= entries@.len(),
            lookup(entries@, name@) == lookup(entries@.take(i as int), name@),
        decreases i,
    {
        assert(entries@.take(i as int).drop_last() == entries@.take(i - 1));
        if str_is(entries[i - 1].0.as_str(), name) {
            return Some(entries[i - 1].1);
        }
        i = i - 1;
    }
    None
}

/// The node state a libvirt domain state stands for (`None`: no domain).
pub open spec fn vm_node_state(code: Option<u32>) -> NodeState {
    match code {
        None => NodeState::Stopped,
        Some(c) => if c == VIR_DOMAIN_RUNNING {
            NodeState::Running
        } else if c == VIR_DOMAIN_SHUTOFF || c == VIR_DOMAIN_PAUSED {
            NodeState::Stopped
        } else {
            NodeState::Unknown
        },
    }
}

/// The node state a container state stands for (`None`: no container).
pub open spec fn container_node_state(state: Option<ContainerState>) -> NodeState {
    match state {
        None => NodeState::Stopped,
        Some(ContainerState::Running) => NodeState::Running,
        Some(ContainerState::Exited) | Some(ContainerState::Dead) | Some(ContainerState::Paused) =>
            NodeState::Stopped,
        Some(ContainerState::Created) => NodeState::Created,
        Some(ContainerState::Restarting) => NodeState::Starting,
        Some(ContainerState::Removing) | Some(ContainerState::Empty) => NodeState::Unknown,
    }
}

/// Determines the actual state of the node whose runtime name is
/// `runtime_name` from the domain states (by domain name) and the container
/// states (by container name), each list read as the map it fills (a later
/// entry for a name replaces an earlier one): VMs and unikernels from
/// libvirt, containers from Docker; a node missing from its runtime is stopped.
pub fn detect_node_state(
    runtime_name: &str,
    kind: NodeKind,
    vm_states: &Vec<(String, u32)>,
    container_states: &Vec<(String, ContainerState)>,
) -> (r: NodeState)
    ensures
        r == match kind {
            NodeKind::Container => container_node_state(lookup(container_states@, runtime_name@)),
            _ => vm_node_state(lookup(vm_states@, runtime_name@)),
        },
{
    match kind {
        NodeKind::VirtualMachine | NodeKind::Unikernel => match find_vm_state(
            vm_states,
            runtime_name,
        ) {
            Some(code) => if code == VIR_DOMAIN_RUNNING {
                NodeState::Running
            } else if code == VIR_DOMAIN_SHUTOFF || code == VIR_DOMAIN_PAUSED {
                NodeState::Stopped
            } else {
                NodeState::Unknown
            },
            None => NodeState::Stopped,
        },
        NodeKind::Container => match find_container_state(container_states, runtime_name) {
            Some(s) => match s {
                ContainerState::Running => NodeState::Running,
                ContainerState::Exited | ContainerState::Dead => NodeState::Stopped,
                ContainerState::Created => NodeState::Created,
                ContainerState::Restarting => NodeState::Starting,
                ContainerState::Paused => NodeState::Stopped,
                ContainerState::Removing => NodeState::Unknown,
                ContainerState::Empty => NodeState::Unknown,
            },
            None => NodeState::Stopped,
        },
    }
}

/// A node its runtime does not know is stopped, whatever its kind.
pub proof fn law_absent_node_is_stopped(kind: NodeKind)
    ensures
        (match kind {
            NodeKind::Container => container_node_state(None),
            _ => vm_node_state(None),
        }) == NodeState::Stopped,
{
}

/// `s` without its leading `c` characters (what `str::trim_start_matches` returns for a char).
pub open spec fn trim_start_char(s: Seq<char>, c: char) -> Seq<char>
    decreases s.len(),
{
    if s.len() > 0 && s[0] == c {
        trim_start_char(s.drop_first(), c)
    } else {
        s
    }
}

/// The name of a container from the names Docker lists for it: the first
/// name, without the leading slashes Docker puts there; `None` when Docker
/// lists no name.
pub fn docker_container_name(names: Option<&Vec<String>>) -> (r: Option<String>)
    ensures
        match names {
            Some(ns) if ns@.len() > 0 => r matches Some(n) && n@ == trim_start_char(ns@[0]@, '/'),
            _ => r is None,
        },
{
    match names {
        Some(ns) => {
            if ns.len() == 0 {
                return None;
            }
            let v = chars_of(ns[0].as_str());
            let mut a: usize = 0;
            assert(v@.subrange(0, v@.len() as int) == v@);
            while a < v.len() && v[a] == '/'
                invariant
                    a <= v@.len(),
                    trim_start_char(v@, '/') == trim_start_char(v@.subrange(a as int, v@.len() as int), '/'),
                decreases v@.len() - a,
            {
                assert(v@.subrange(a as int, v@.len() as int).drop_first() == v@.subrange(
                    a + 1,
                    v@.len() as int,
                ));
                a = a + 1;
            }
            Some(string_of_range(&v, a, v.len()))
        },
        None => None,
    }
}

} // verus!
