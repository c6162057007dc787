use vstd::prelude::*;
use crate::qemu::{VmError, mark_stopped, stopped};
use crate::text::{chars_of, hex_digits, hexadecimal, join_path, joined, lowercase, lowercase_of, replace_char};
use crate::vm_config::{VMConfig, VMStatus};

verus! {

/// `i` is the position of the first record with id `id`.
pub open spec fn is_first_with_id(vms: Seq<VMConfig>, id: Seq<char>, i: int) -> bool {
    0 <= i < vms.len() && vms[i].id@ == id && forall|j: int| 0 <= j < i ==> vms[j].id@ != id
}

/// Some record has id `id`.
pub open spec fn has_id(vms: Seq<VMConfig>, id: Seq<char>) -> bool {
    exists|i: int| 0 <= i < vms.len() && vms[i].id@ == id
}

/// Finds the first record with id `id`.
pub fn find_vm(vms: &Vec<VMConfig>, id: &str) -> (r: Option<usize>)
    ensures
        r matches Some(i) ==> is_first_with_id(vms@, id@, i as int),
        r is None <==> !has_id(vms@, id@),
{
    let key = String::from_str(id);
    let mut i: usize = 0;
    while i < vms.len()
        invariant
            i <= vms@.len(),
            key@ == id@,
            forall|j: int| 0 <= j < i ==> vms@[j].id@ != id@,
        decreases vms@.len() - i,
    {
        if vms[i].id == key {
            return Some(i);
        }
        i += 1;
    }
    None
}

/// The records of space `space_id`, in order.
pub open spec fn in_space(vms: Seq<VMConfig>, space_id: Seq<char>) -> Seq<VMConfig>
    decreases vms.len(),
{
    if vms.len() == 0 {
        seq![]
    } else {
        let r = in_space(vms.drop_last(), space_id);
        if vms.last().space_id@ == space_id {
            r.push(vms.last())
        } else {
            r
        }
    }
}

/// Keeps the records that belong to space `space_id`, in order.
pub fn list_vms_by_space(vms: Vec<VMConfig>, space_id: &str) -> (r: Vec<VMConfig>)
    ensures
        r@ == in_space(vms@, space_id@),
{
    let ghost all = vms@;
    let key = String::from_str(space_id);
    let mut rest = vms;
    let mut out: Vec<VMConfig> = Vec::new();
    let mut i: usize = 0;
    let n = rest.len();
    while rest.len() > 0
        invariant
            n == all.len(),
            i + rest@.len() == n,
            rest@ == all.skip(i as int),
            out@ == in_space(all.take(i as int), space_id@),
            key@ == space_id@,
        decreases rest@.len(),
    {
        let v = rest.remove(0);
        assert(all.take(i + 1).drop_last() == all.take(i as int));
        assert(all.take(i + 1).last() == v);
        if v.space_id == key {
            out.push(v);
        }
        assert(rest@ == all.skip(i + 1));
        i += 1;
    }
    assert(all.take(i as int) == all);
    out
}

/// `s` followed by `n` dashes.
pub open spec fn with_dashes(s: Seq<char>, n: nat) -> Seq<char> {
    s + Seq::new(n, |k: int| '-')
}

fn id_in_use(vms: &Vec<VMConfig>, id: &String) -> (r: bool)
    ensures
        r == has_id(vms@, id@),
{
    find_vm(vms, id.as_str()).is_some()
}

/// An id used by no record in `vms`: the lowercase hexadecimal numeral of
/// `millis`, lengthened by dashes while it collides with one.
pub fn fresh_id(vms: &Vec<VMConfig>, millis: u64) -> (r: String)
    ensures
        !has_id(vms@, r@),
        exists|n: nat| r@ == with_dashes(hex_digits(millis as nat), n),
{
    let mut longest: usize = 0;
    let mut i: usize = 0;
    while i < vms.len()
        invariant
            i <= vms@.len(),
            forall|j: int| 0 <= j < i ==> vms@[j].id@.len() <= longest,
        decreases vms@.len() - i,
    {
        let l = chars_of(vms[i].id.as_str()).len();
        if l > longest {
            longest = l;
        }
        i += 1;
    }
    let base = hexadecimal(millis);
    let mut id = hexadecimal(millis);
    let ghost mut added: nat = 0;
    assert(id@ =~= with_dashes(base@, 0));
    while id_in_use(vms, &id)
        invariant
            forall|j: int| 0 <= j < vms@.len() ==> vms@[j].id@.len() <= longest,
            id@ == with_dashes(base@, added),
            base@ == hex_digits(millis as nat),
        decreases longest + 1 - id@.len(),
    {
        let ghost j = choose|j: int| 0 <= j < vms@.len() && vms@[j].id@ == id@;
        assert(id@.len() <= longest);
        id = id.concat("-");
        proof {
            reveal_strlit("-");
            assert(id@ =~= with_dashes(base@, added + 1));
            added = added + 1;
        }
    }
    id
}

/// The disk file name for a VM called `name`: lowercase, with each space
/// turned into a dash.
pub open spec fn disk_stem(name: Seq<char>) -> Seq<char> {
    lowercase_of(name).map_values(|c: char| if c == ' ' { '-' } else { c })
}

/// Where the disk of a clone called `name` goes.
pub open spec fn clone_disk_path(config_dir: Seq<char>, name: Seq<char>) -> Seq<char> {
    joined(joined(config_dir, "disks"@), disk_stem(name) + ".qcow2"@)
}

/// A clone of a VM: its new record, and the disk file to copy to the
/// record's disk path when the source has one.
pub struct ClonePlan {
    pub config: VMConfig,
    pub copy_from: Option<String>,
}

/// Plans a clone of VM `id` named `new_name`, with an id derived from
/// `millis` that no record uses and a disk under `config_dir`. The clone
/// keeps the source's space, hardware, medium and architecture, and is stopped.
pub fn clone_vm(vms: &Vec<VMConfig>, id: &str, new_name: String, millis: u64, config_dir: &str) -> (r: Result<ClonePlan, VmError>)
    ensures
        !has_id(vms@, id@) ==> r == Err::<ClonePlan, VmError>(VmError::NotFound),
        has_id(vms@, id@) ==> (r matches Ok(p) && exists|i: int| is_first_with_id(vms@, id@, i) && {
            let s = vms@[i];
            &&& !has_id(vms@, p.config.id@)
            &&& p.config.id@ != s.id@
            &&& exists|n: nat| p.config.id@ == with_dashes(hex_digits(millis as nat), n)
            &&& p.config.name == new_name
            &&& p.config.space_id == s.space_id
            &&& p.config.cpu_cores == s.cpu_cores
            &&& p.config.ram_mb == s.ram_mb
            &&& p.config.disk_path@ == clone_disk_path(config_dir@, new_name@)
            &&& p.config.iso_path == s.iso_path
            &&& p.config.arch == s.arch
            &&& p.config.status == VMStatus::Stopped
            &&& p.config.vnc_port is None
            &&& p.config.wf()
            &&& (s.disk_path@.len() > 0 ==> p.copy_from == Some(s.disk_path))
            &&& (s.disk_path@.len() == 0 ==> p.copy_from is None)
        }),
{
    match find_vm(vms, id) {
        None => Err(VmError::NotFound),
        Some(i) => {
            let source = &vms[i];
            let new_id = fresh_id(vms, millis);
            let stem = replace_char(lowercase(new_name.as_str()).as_str(), ' ', '-');
            let disks = join_path(config_dir, "disks");
            let disk_path = join_path(disks.as_str(), stem.concat(".qcow2").as_str());
            let iso_path = match &source.iso_path {
                Some(p) => Some(p.clone()),
                None => None,
            };
            let copy_from = if source.disk_path.as_str().is_empty() {
                None
            } else {
                Some(source.disk_path.clone())
            };
            let config = VMConfig {
                id: new_id,
                name: new_name,
                space_id: source.space_id.clone(),
                cpu_cores: source.cpu_cores,
                ram_mb: source.ram_mb,
                disk_path,
                iso_path,
                arch: source.arch.clone(),
                status: VMStatus::Stopped,
                vnc_port: None,
            };
            assert(vms@[i as int].id@ == id@);
            Ok(ClonePlan { config, copy_from })
        },
    }
}

/// The disk file to remove along with a deleted record: its disk, when
/// asked for and there is one.
pub fn disk_to_delete(vm: &VMConfig, delete_disk: bool) -> (r: Option<String>)
    ensures
        delete_disk && vm.disk_path@.len() > 0 ==> r == Some(vm.disk_path),
        !(delete_disk && vm.disk_path@.len() > 0) ==> r is None,
{
    if delete_disk && !vm.disk_path.as_str().is_empty() {
        Some(vm.disk_path.clone())
    } else {
        None
    }
}

/// Marks the first record with id `id` as stopped, if there is one; the
/// other records are kept.
pub fn stop_record(vms: &mut Vec<VMConfig>, id: &str) -> (r: Option<usize>)
    ensures
        final(vms)@.len() == old(vms)@.len(),
        r matches Some(i) ==> is_first_with_id(old(vms)@, id@, i as int)
            && final(vms)@ == old(vms)@.update(i as int, stopped(old(vms)@[i as int])),
        r is None ==> !has_id(old(vms)@, id@) && final(vms)@ == old(vms)@,
{
    match find_vm(vms, id) {
        Some(i) => {
            mark_stopped(&mut vms[i]);
            Some(i)
        },
        None => None,
    }
}

} // verus!
