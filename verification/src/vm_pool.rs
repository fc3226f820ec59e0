//! The pool of pre-warmed VMs of one worker.
//!
//! The pool is a fixed row of slots. Slot `i` holds the VM `pool-vm-i`; it
//! is Ready, InUse or Resetting, and moves only along
//! Ready -> InUse -> Resetting -> Ready.

use vstd::prelude::*;
use crate::text::{decimal, join2, push_decimal};

verus! {

/// State of one VM of the pool.
#[derive(Debug, Clone, Copy, PartialEq, Eq, Structural)]
pub enum VmState {
    /// Ready to take a job.
    Ready,
    /// Running a job.
    InUse,
    /// Being cleaned after a job.
    Resetting,
}

impl VmState {
    /// The state that follows in the cycle Ready, InUse, Resetting.
    pub open spec fn successor(self) -> VmState {
        match self {
            VmState::Ready => VmState::InUse,
            VmState::InUse => VmState::Resetting,
            VmState::Resetting => VmState::Ready,
        }
    }
}

/// One VM of the pool.
#[derive(Debug)]
pub struct PooledVm {
    /// The name the hypervisor knows the VM by.
    pub name: String,
    /// The address of the VM; empty while unknown.
    pub ip: String,
    /// Where the VM stands.
    pub state: VmState,
}

/// The mathematical value of a [`PooledVm`].
pub ghost struct PooledVmView {
    pub name: Seq<char>,
    pub ip: Seq<char>,
    pub state: VmState,
}

impl View for PooledVm {
    type V = PooledVmView;

    open spec fn view(&self) -> PooledVmView {
        PooledVmView { name: self.name@, ip: self.ip@, state: self.state }
    }
}

impl Clone for PooledVm {
    fn clone(&self) -> (r: PooledVm)
        ensures
            r@ == self@,
    {
        PooledVm { name: self.name.clone(), ip: self.ip.clone(), state: self.state }
    }
}

/// The name of the VM in slot `i`.
pub open spec fn slot_name(i: nat) -> Seq<char> {
    "pool-vm-"@ + decimal(i)
}

/// The name of the VM in slot `i`: `pool-vm-` and the slot's number.
pub fn vm_name(i: u32) -> (name: String)
    ensures
        name@ == slot_name(i as nat),
{
    let mut name = String::from_str("pool-vm-");
    push_decimal(&mut name, i as u64);
    name
}

/// `k` is the first Ready slot.
pub open spec fn is_first_ready(vms: Seq<PooledVmView>, k: int) -> bool {
    &&& 0 <= k < vms.len()
    &&& vms[k].state == VmState::Ready
    &&& forall|i: int| 0 <= i < k ==> (#[trigger] vms[i]).state != VmState::Ready
}

/// Whether any slot is Ready.
pub open spec fn has_ready(vms: Seq<PooledVmView>) -> bool {
    exists|i: int| 0 <= i < vms.len() && vms[i].state == VmState::Ready
}

/// The first Ready slot, where there is one.
pub open spec fn first_ready(vms: Seq<PooledVmView>) -> int {
    choose|k: int| is_first_ready(vms, k)
}

/// The pool with slot `i` in another state.
pub open spec fn with_state(vms: Seq<PooledVmView>, i: int, state: VmState) -> Seq<PooledVmView> {
    vms.update(i, PooledVmView { state, ..vms[i] })
}

/// What an acquire returns: the first Ready slot, if any.
pub open spec fn acquire_reply(vms: Seq<PooledVmView>) -> Option<int> {
    if has_ready(vms) {
        Some(first_ready(vms))
    } else {
        None
    }
}

/// The pool after an acquire: the first Ready slot is InUse.
pub open spec fn after_acquire(vms: Seq<PooledVmView>) -> Seq<PooledVmView> {
    if has_ready(vms) {
        with_state(vms, first_ready(vms), VmState::InUse)
    } else {
        vms
    }
}

/// Whether the release of a slot may begin: the slot exists and is InUse.
pub open spec fn can_begin_release(vms: Seq<PooledVmView>, slot: int) -> bool {
    0 <= slot < vms.len() && vms[slot].state == VmState::InUse
}

/// The pool after the release of a slot began: an InUse slot is Resetting.
pub open spec fn after_begin_release(vms: Seq<PooledVmView>, slot: int) -> Seq<PooledVmView> {
    if can_begin_release(vms, slot) {
        with_state(vms, slot, VmState::Resetting)
    } else {
        vms
    }
}

/// Whether the release of a slot may finish: the slot exists and is
/// Resetting.
pub open spec fn can_finish_release(vms: Seq<PooledVmView>, slot: int) -> bool {
    0 <= slot < vms.len() && vms[slot].state == VmState::Resetting
}

/// The pool after the release of a slot finished: a Resetting slot is Ready.
pub open spec fn after_finish_release(vms: Seq<PooledVmView>, slot: int) -> Seq<PooledVmView> {
    if can_finish_release(vms, slot) {
        with_state(vms, slot, VmState::Ready)
    } else {
        vms
    }
}

/// The pool after the address of a slot was learnt.
pub open spec fn after_set_ip(vms: Seq<PooledVmView>, slot: int, ip: Seq<char>) -> Seq<
    PooledVmView,
> {
    if 0 <= slot < vms.len() {
        vms.update(slot, PooledVmView { ip, ..vms[slot] })
    } else {
        vms
    }
}

/// Slot `i` holds the VM named after it, for every slot.
pub open spec fn names_in_order(vms: Seq<PooledVmView>) -> bool {
    forall|i: int| 0 <= i < vms.len() ==> (#[trigger] vms[i]).name == slot_name(i as nat)
}

/// With a Ready slot there is a first one, and only one.
pub proof fn lemma_first_ready(vms: Seq<PooledVmView>)
    requires
        has_ready(vms),
    ensures
        is_first_ready(vms, first_ready(vms)),
        forall|k: int| is_first_ready(vms, k) ==> k == first_ready(vms),
{
    let w = choose|i: int| 0 <= i < vms.len() && vms[i].state == VmState::Ready;
    let k = lemma_ready_before(vms, w);
    assert(is_first_ready(vms, k));
    assert forall|j: int| is_first_ready(vms, j) implies j == first_ready(vms) by {
        let f = first_ready(vms);
        if j < f {
            assert(vms[j].state != VmState::Ready);
        } else if f < j {
            assert(vms[f].state != VmState::Ready);
        }
    }
}

proof fn lemma_ready_before(vms: Seq<PooledVmView>, w: int) -> (k: int)
    requires
        0 <= w < vms.len(),
        vms[w].state == VmState::Ready,
    ensures
        is_first_ready(vms, k),
    decreases w,
{
    if exists|i: int| 0 <= i < w && vms[i].state == VmState::Ready {
        let v = choose|i: int| 0 <= i < w && vms[i].state == VmState::Ready;
        lemma_ready_before(vms, v)
    } else {
        w
    }
}

/// The pool of one worker.
pub struct VmPool {
    vms: Vec<PooledVm>,
    base_image: String,
}

impl View for VmPool {
    type V = Seq<PooledVmView>;

    closed spec fn view(&self) -> Seq<PooledVmView> {
        Seq::new(self.vms@.len(), |i: int| self.vms@[i]@)
    }
}

impl VmPool {
    /// The invariant of the pool: slot `i` holds `pool-vm-i`, and the
    /// number of slots fits the numbering.
    pub open spec fn wf(&self) -> bool {
        &&& names_in_order(self@)
        &&& self@.len() <= u32::MAX
    }

    /// The image that the pool's VMs are cloned from.
    pub closed spec fn image(&self) -> Seq<char> {
        self.base_image@
    }

    /// A pool without slots, for VMs cloned from `base_image`.
    pub fn new(base_image: &str) -> (pool: VmPool)
        ensures
            pool.wf(),
            pool@ == Seq::<PooledVmView>::empty(),
            pool.image() == base_image@,
    {
        let pool = VmPool { vms: Vec::new(), base_image: String::from_str(base_image) };
        assert(pool@ =~= Seq::<PooledVmView>::empty());
        pool
    }

    /// The image that the pool's VMs are cloned from.
    pub fn base_image(&self) -> (image: &str)
        ensures
            image@ == self.image(),
    {
        self.base_image.as_str()
    }

    /// The number of slots.
    pub fn len(&self) -> (n: usize)
        ensures
            n == self@.len(),
    {
        self.vms.len()
    }

    /// Adds the next slot, Ready, for a VM that was started with the given
    /// address (empty where the address is not known yet). Returns the
    /// slot's number, or `None` where the numbering is exhausted.
    pub fn add_slot(&mut self, ip: String) -> (slot: Option<usize>)
        requires
            old(self).wf(),
        ensures
            final(self).wf(),
            final(self).image() == old(self).image(),
            match slot {
                Some(i) => i == old(self)@.len() && final(self)@ == old(self)@.push(
                    PooledVmView { name: slot_name(i as nat), ip: ip@, state: VmState::Ready },
                ),
                None => old(self)@.len() == u32::MAX && final(self)@ == old(self)@,
            },
    {
        let n = self.vms.len();
        if n >= u32::MAX as usize {
            return None;
        }
        let ghost before = self@;
        let name = vm_name(n as u32);
        self.vms.push(PooledVm { name, ip, state: VmState::Ready });
        assert(self@ =~= before.push(
            PooledVmView { name: slot_name(n as nat), ip: ip@, state: VmState::Ready },
        ));
        Some(n)
    }

    /// A copy of the record of a slot.
    pub fn get(&self, slot: usize) -> (vm: Option<PooledVm>)
        ensures
            match vm {
                Some(v) => slot < self@.len() && v@ == self@[slot as int],
                None => slot >= self@.len(),
            },
    {
        if slot < self.vms.len() {
            Some(self.vms[slot].clone())
        } else {
            None
        }
    }

    fn set_state(&mut self, slot: usize, state: VmState)
        requires
            old(self).wf(),
            slot < old(self)@.len(),
        ensures
            final(self).wf(),
            final(self).image() == old(self).image(),
            final(self)@ == with_state(old(self)@, slot as int, state),
    {
        let ghost before = self@;
        let mut vm = self.vms[slot].clone();
        vm.state = state;
        self.vms.set(slot, vm);
        assert(self@ =~= with_state(before, slot as int, state));
    }

    /// Takes the first Ready slot, in index order, and marks it InUse.
    /// Returns nothing, without waiting, where no slot is Ready.
    pub fn acquire(&mut self) -> (slot: Option<usize>)
        requires
            old(self).wf(),
        ensures
            final(self).wf(),
            final(self).image() == old(self).image(),
            final(self)@ == after_acquire(old(self)@),
            match slot {
                Some(i) => acquire_reply(old(self)@) == Some(i as int),
                None => acquire_reply(old(self)@) is None,
            },
    {
        let ghost before = self@;
        let mut i: usize = 0;
        while i < self.vms.len()
            invariant
                self.wf(),
                before == self@,
                before == old(self)@,
                self.image() == old(self).image(),
                i <= self.vms.len(),
                forall|k: int| 0 <= k < i ==> (#[trigger] before[k]).state != VmState::Ready,
            decreases self.vms.len() - i,
        {
            if self.vms[i].state == VmState::Ready {
                proof {
                    assert(before[i as int].state == VmState::Ready);
                    assert(is_first_ready(before, i as int));
                    assert(has_ready(before));
                    lemma_first_ready(before);
                }
                self.set_state(i, VmState::InUse);
                return Some(i);
            }
            i += 1;
        }
        assert(!has_ready(before));
        None
    }

    /// Whether the address of a slot is still unknown.
    pub fn needs_ip(&self, slot: usize) -> (yes: bool)
        ensures
            yes == (slot < self@.len() && self@[slot as int].ip.len() == 0),
    {
        slot < self.vms.len() && self.vms[slot].ip.as_str().is_empty()
    }

    /// Records the address of a slot's VM. An unknown slot changes nothing.
    pub fn set_ip(&mut self, slot: usize, ip: String)
        requires
            old(self).wf(),
        ensures
            final(self).wf(),
            final(self).image() == old(self).image(),
            final(self)@ == after_set_ip(old(self)@, slot as int, ip@),
    {
        if slot < self.vms.len() {
            let ghost before = self@;
            let mut vm = self.vms[slot].clone();
            vm.ip = ip;
            self.vms.set(slot, vm);
            assert(self@ =~= after_set_ip(before, slot as int, ip@));
        }
    }

    /// Begins the release of a slot: an InUse slot becomes Resetting. Any
    /// other slot is left as it is. Returns whether the release began.
    pub fn begin_release(&mut self, slot: usize) -> (began: bool)
        requires
            old(self).wf(),
        ensures
            final(self).wf(),
            final(self).image() == old(self).image(),
            final(self)@ == after_begin_release(old(self)@, slot as int),
            began == can_begin_release(old(self)@, slot as int),
    {
        if slot < self.vms.len() && self.vms[slot].state == VmState::InUse {
            self.set_state(slot, VmState::Resetting);
            true
        } else {
            false
        }
    }

    /// Finishes the release of a slot: a Resetting slot becomes Ready,
    /// whether or not the cleanup succeeded. Any other slot is left as it
    /// is. Returns whether the slot became Ready.
    pub fn finish_release(&mut self, slot: usize) -> (finished: bool)
        requires
            old(self).wf(),
        ensures
            final(self).wf(),
            final(self).image() == old(self).image(),
            final(self)@ == after_finish_release(old(self)@, slot as int),
            finished == can_finish_release(old(self)@, slot as int),
    {
        if slot < self.vms.len() && self.vms[slot].state == VmState::Resetting {
            self.set_state(slot, VmState::Ready);
            true
        } else {
            false
        }
    }

    /// Shuts the pool down: gives it up and returns the names of its VMs,
    /// in slot order, each of which is to be stopped and deleted.
    pub fn shutdown(self) -> (names: Vec<String>)
        ensures
            names@.len() == self@.len(),
            forall|i: int| 0 <= i < self@.len() ==> (#[trigger] names@[i])@ == self@[i].name,
    {
        self.vm_names()
    }

    /// The names of all VMs of the pool, in slot order.
    pub fn vm_names(&self) -> (names: Vec<String>)
        ensures
            names@.len() == self@.len(),
            forall|i: int| 0 <= i < self@.len() ==> (#[trigger] names@[i])@ == self@[i].name,
    {
        let mut names: Vec<String> = Vec::new();
        let mut i: usize = 0;
        while i < self.vms.len()
            invariant
                i <= self.vms.len(),
                names@.len() == i,
                forall|k: int| 0 <= k < i ==> (#[trigger] names@[k])@ == self@[k].name,
            decreases self.vms.len() - i,
        {
            names.push(self.vms[i].name.clone());
            i += 1;
        }
        names
    }
}

/// The login of a VM at the given address.
pub fn ssh_target(ip: &str) -> (target: String)
    ensures
        target@ == "admin@"@ + ip@,
{
    join2("admin@", ip)
}

/// The command that cleans a VM after a job.
pub fn reset_command() -> (cmd: &'static str)
    ensures
        cmd@ == "rm -rf ~/workspace ~/source.zip"@,
{
    "rm -rf ~/workspace ~/source.zip"
}

} // verus!
