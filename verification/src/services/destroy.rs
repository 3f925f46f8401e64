//! Destroying a lab: which runtime resources belong to it, which disks belong
//! to a VM, and how the outcome is reported.
use crate::services::scanner::trim_start_char;
use crate::text::{
    chars_of, contains_seq, push_str_chars, starts_with, str_contains, str_starts_with,
    string_from_chars, string_of_range,
};
use vstd::prelude::*;

verus! {

/// `Permission denied: Lab '<lab>' is owned by another user`.
pub open spec fn not_owner_message(lab_id: Seq<char>) -> Seq<char> {
    "Permission denied: Lab '"@ + lab_id + "' is owned by another user"@
}

/// The refusal to destroy a lab of another user.
pub fn not_owner_error(lab_id: &str) -> (r: String)
    ensures
        r@ == not_owner_message(lab_id@),
{
    let mut out: Vec<char> = Vec::new();
    push_str_chars(&mut out, "Permission denied: Lab '");
    push_str_chars(&mut out, lab_id);
    push_str_chars(&mut out, "' is owned by another user");
    string_from_chars(&out)
}

/// The positions of the names that hold `lab_id`, in order.
pub open spec fn lab_positions(names: Seq<Seq<char>>, lab_id: Seq<char>) -> Seq<int>
    decreases names.len(),
{
    if names.len() == 0 {
        Seq::empty()
    } else {
        let p = lab_positions(names.drop_last(), lab_id);
        if contains_seq(names.last(), lab_id) {
            p.push(names.len() - 1)
        } else {
            p
        }
    }
}

/// The resources (VMs, networks) of a lab among `names`: those whose name
/// holds the lab's id, by position and in order.
pub fn lab_resources(names: &Vec<String>, lab_id: &str) -> (r: Vec<usize>)
    ensures
        r@.len() == lab_positions(names.deep_view(), lab_id@).len(),
        forall|i: int|
            0 <= i < r@.len() ==> #[trigger] r@[i] == lab_positions(names.deep_view(), lab_id@)[i],
{
    let ghost all = names.deep_view();
    let mut out: Vec<usize> = Vec::new();
    let mut i: usize = 0;
    while i < names.len()
        invariant
            i <= names@.len(),
            all == names.deep_view(),
            out@.len() == lab_positions(all.take(i as int), lab_id@).len(),
            forall|k: int|
                0 <= k < out@.len() ==> #[trigger] out@[k] == lab_positions(
                    all.take(i as int),
                    lab_id@,
                )[k],
        decreases names@.len() - i,
    {
        assert(all.take(i + 1).drop_last() == all.take(i as int));
        assert(all.take(i + 1).last() == names@[i as int]@);
        if str_contains(names[i].as_str(), lab_id) {
            out.push(i);
        }
        i = i + 1;
    }
    assert(all.take(names@.len() as int) == all);
    out
}

/// The name of a container of the lab, given the names Docker lists for it:
/// when one of them holds the lab's id, the first name without its leading
/// slashes.
pub fn lab_container_name(names: &Vec<String>, lab_id: &str) -> (r: Option<String>)
    ensures
        match r {
            Some(n) => names@.len() > 0 && (exists|i: int|
                0 <= i < names@.len() && contains_seq(#[trigger] names@[i]@, lab_id@)) && n@
                == trim_start_char(names@[0]@, '/'),
            None => forall|i: int|
                0 <= i < names@.len() ==> !contains_seq(#[trigger] names@[i]@, lab_id@),
        },
{
    let mut i: usize = 0;
    while i < names.len()
        invariant
            i <= names@.len(),
            forall|j: int| 0 <= j < i ==> !contains_seq(#[trigger] names@[j]@, lab_id@),
        decreases names@.len() - i,
    {
        if str_contains(names[i].as_str(), lab_id) {
            let v = chars_of(names[0].as_str());
            let mut a: usize = 0;
            assert(v@.subrange(0, v@.len() as int) == v@);
            while a < v.len() && v[a] == '/'
                invariant
                    a <= v@.len(),
                    trim_start_char(v@, '/') == trim_start_char(
                        v@.subrange(a as int, v@.len() as int),
                        '/',
                    ),
                decreases v@.len() - a,
            {
                assert(v@.subrange(a as int, v@.len() as int).drop_first() == v@.subrange(
                    a + 1,
                    v@.len() as int,
                ));
                a = a + 1;
            }
            return Some(string_of_range(&v, a, v.len()));
        }
        i = i + 1;
    }
    None
}

/// The positions of the storage volumes that begin with `vm_name`, in order.
pub open spec fn disk_positions(volumes: Seq<Seq<char>>, vm_name: Seq<char>) -> Seq<int>
    decreases volumes.len(),
{
    if volumes.len() == 0 {
        Seq::empty()
    } else {
        let p = disk_positions(volumes.drop_last(), vm_name);
        if starts_with(volumes.last(), vm_name) {
            p.push(volumes.len() - 1)
        } else {
            p
        }
    }
}

/// The disks of a VM among the storage pool's volumes: those whose name
/// begins with the VM's name, by position and in order.
pub fn vm_disks(volumes: &Vec<String>, vm_name: &str) -> (r: Vec<usize>)
    ensures
        r@.len() == disk_positions(volumes.deep_view(), vm_name@).len(),
        forall|i: int|
            0 <= i < r@.len() ==> #[trigger] r@[i] == disk_positions(volumes.deep_view(), vm_name@)[i],
{
    let ghost all = volumes.deep_view();
    let mut out: Vec<usize> = Vec::new();
    let mut i: usize = 0;
    while i < volumes.len()
        invariant
            i <= volumes@.len(),
            all == volumes.deep_view(),
            out@.len() == disk_positions(all.take(i as int), vm_name@).len(),
            forall|k: int|
                0 <= k < out@.len() ==> #[trigger] out@[k] == disk_positions(
                    all.take(i as int),
                    vm_name@,
                )[k],
        decreases volumes@.len() - i,
    {
        assert(all.take(i + 1).drop_last() == all.take(i as int));
        assert(all.take(i + 1).last() == volumes@[i as int]@);
        if str_starts_with(volumes[i].as_str(), vm_name) {
            out.push(i);
        }
        i = i + 1;
    }
    assert(all.take(volumes@.len() as int) == all);
    out
}

/// The lab directory counts as deleted when it was removed or was not there.
pub fn lab_directory_deleted(existed: bool, removed: bool) -> (r: bool)
    ensures
        r == (!existed || removed),
{
    !existed || removed
}

/// The number of networks a destroy summary reports: Docker and libvirt ones.
pub fn destroyed_network_count(docker_networks: usize, libvirt_networks: usize) -> (r: usize)
    requires
        docker_networks + libvirt_networks <= usize::MAX,
    ensures
        r == docker_networks + libvirt_networks,
{
    docker_networks + libvirt_networks
}

} // verus!
