//! Virtual CPUs of a guest.
use vstd::prelude::*;
use crate::environment::NUM_OF_CPUS;
use vreg::{VirtualRegisterMap, VirtualRegisterT};

pub mod vreg;

verus! {

/// State of a virtual CPU.
#[derive(PartialEq, Eq, Structural, Clone, Copy, Debug)]
pub enum VcpuStatus {
    STOPPED,
    RUNNING,
    SUSPENDED,
}

/// A virtual CPU: its number, state and virtual registers.
pub struct VirtualCpu {
    vcpuid: usize,
    status: VcpuStatus,
    pub vregs: VirtualRegisterMap,
}

impl VirtualCpu {
    pub closed spec fn spec_vcpuid(&self) -> usize {
        self.vcpuid
    }

    pub closed spec fn spec_status(&self) -> VcpuStatus {
        self.status
    }

    /// The virtual registers.
    pub closed spec fn spec_vregs(&self) -> Seq<vreg::VirtualRegister> {
        self.vregs@
    }

    /// A stopped virtual CPU numbered `vcpuid`, with no virtual register.
    pub fn new(vcpuid: usize) -> (r: Self)
        ensures
            r.spec_vcpuid() == vcpuid,
            r.spec_status() == VcpuStatus::STOPPED,
            r.spec_vregs() == Seq::<vreg::VirtualRegister>::empty(),
    {
        VirtualCpu { vcpuid, status: VcpuStatus::STOPPED, vregs: VirtualRegisterMap::new() }
    }

    pub fn get_vcpuid(&self) -> (r: usize)
        ensures
            r == self.spec_vcpuid(),
    {
        self.vcpuid
    }

    /// Adds `vreg` as virtual register `id`.
    pub fn register(&mut self, id: usize, vreg: vreg::VirtualRegisterKind)
        ensures
            final(self).spec_vcpuid() == old(self).spec_vcpuid(),
            final(self).spec_status() == old(self).spec_status(),
            final(self).spec_vregs() == old(self).spec_vregs().push(vreg::VirtualRegister { id, vreg }),
    {
        self.vregs.register(id, vreg);
    }

    /// Reads virtual register `id`; `None` when there is none.
    pub fn read(&mut self, id: usize) -> (r: Option<u64>)
        ensures
            final(self).spec_vcpuid() == old(self).spec_vcpuid(),
            final(self).spec_status() == old(self).spec_status(),
            (r is None) <==> vreg::vreg_index(old(self).spec_vregs(), id) == -1,
            final(self).spec_vregs().len() == old(self).spec_vregs().len(),
            ({
                let i = vreg::vreg_index(old(self).spec_vregs(), id);
                &&& i != -1 ==> r == Some(old(self).spec_vregs()[i].vreg.reg_value())
                &&& i != -1 ==> final(self).spec_vregs()[i].vreg.reg_value() == old(self).spec_vregs()[i].vreg.value_after_read()
                &&& i != -1 ==> final(self).spec_vregs()[i].id == id
                &&& forall|j: int| 0 <= j < old(self).spec_vregs().len() && j != i ==> final(self).spec_vregs()[j] == old(self).spec_vregs()[j]
                &&& i == -1 ==> final(self).spec_vregs() == old(self).spec_vregs()
            }),
    {
        match self.vregs.get_mut(id) {
            None => None,
            Some(r) => Some(r.read()),
        }
    }

    /// Writes virtual register `id`, if there is one.
    pub fn write(&mut self, id: usize, val: u64)
        ensures
            final(self).spec_vcpuid() == old(self).spec_vcpuid(),
            final(self).spec_status() == old(self).spec_status(),
            vreg::vreg_index(old(self).spec_vregs(), id) == -1 ==> final(self).spec_vregs() == old(self).spec_vregs(),
            final(self).spec_vregs().len() == old(self).spec_vregs().len(),
            forall|j: int|
                0 <= j < old(self).spec_vregs().len() && j != vreg::vreg_index(old(self).spec_vregs(), id)
                    ==> final(self).spec_vregs()[j] == old(self).spec_vregs()[j],
            vreg::vreg_index(old(self).spec_vregs(), id) != -1 ==> final(self).spec_vregs()[vreg::vreg_index(
                old(self).spec_vregs(),
                id,
            )].id == id,
            vreg::vreg_index(old(self).spec_vregs(), id) != -1 ==> final(self).spec_vregs()[vreg::vreg_index(
                old(self).spec_vregs(),
                id,
            )].vreg.reg_value() == old(self).spec_vregs()[vreg::vreg_index(old(self).spec_vregs(), id)].vreg.value_after_write(val),
    {
        match self.vregs.get_mut(id) {
            None => (),
            Some(r) => r.write(val),
        }
    }
}

/// The index of the first virtual CPU of `s` numbered `id`, or -1.
pub open spec fn vcpu_index(s: Seq<VirtualCpu>, id: usize) -> int
    decreases s.len(),
{
    if s.len() == 0 {
        -1
    } else if s[0].spec_vcpuid() == id {
        0
    } else if vcpu_index(s.drop_first(), id) == -1 {
        -1
    } else {
        1 + vcpu_index(s.drop_first(), id)
    }
}

proof fn lemma_vcpu_index_props(s: Seq<VirtualCpu>, id: usize)
    ensures
        ({
            let k = vcpu_index(s, id);
            &&& k == -1 || (0 <= k < s.len() && s[k].spec_vcpuid() == id)
            &&& forall|j: int| 0 <= j < s.len() && (k == -1 || j < k) ==> #[trigger] s[j].spec_vcpuid() != id
        }),
    decreases s.len(),
{
    if s.len() > 0 {
        lemma_vcpu_index_props(s.drop_first(), id);
        assert forall|j: int|
            0 <= j < s.len() && (vcpu_index(s, id) == -1 || j < vcpu_index(s, id)) implies #[trigger] s[j].spec_vcpuid()
            != id by {
            if j > 0 {
                assert(s[j] == s.drop_first()[j - 1]);
            }
        }
    }
}

/// The virtual CPUs of a guest and the virtual CPU each physical CPU runs.
pub struct VirtualCpuMap {
    vcpus: Vec<VirtualCpu>,
    p2v_cpu: [usize; NUM_OF_CPUS],
}

impl VirtualCpuMap {
    /// The virtual CPUs, in order of registration.
    pub closed spec fn vcpus(&self) -> Seq<VirtualCpu> {
        self.vcpus@
    }

    /// The virtual CPU each physical CPU runs.
    pub closed spec fn p2v(&self) -> Seq<usize> {
        self.p2v_cpu@
    }

    /// There is an entry for each physical CPU.
    pub proof fn lemma_p2v_len(&self)
        ensures
            self.p2v().len() == NUM_OF_CPUS,
    {
    }

    /// No virtual CPU; every physical CPU runs virtual CPU 0.
    pub fn new() -> (r: Self)
        ensures
            r.vcpus() == Seq::<VirtualCpu>::empty(),
            r.p2v() == Seq::new(NUM_OF_CPUS as nat, |i: int| 0usize),
    {
        let r = VirtualCpuMap { vcpus: Vec::new(), p2v_cpu: [0; NUM_OF_CPUS] };
        assert(r.p2v() =~= Seq::new(NUM_OF_CPUS as nat, |i: int| 0usize));
        r
    }

    /// Adds virtual CPU `vcpuid`, run by physical CPU `pcpuid`.
    pub fn register(&mut self, vcpuid: usize, pcpuid: usize)
        requires
            pcpuid < NUM_OF_CPUS,
        ensures
            final(self).p2v() == old(self).p2v().update(pcpuid as int, vcpuid),
            final(self).vcpus().len() == old(self).vcpus().len() + 1,
            final(self).vcpus().drop_last() == old(self).vcpus(),
            final(self).vcpus().last().spec_vcpuid() == vcpuid,
            final(self).vcpus().last().spec_status() == VcpuStatus::STOPPED,
            final(self).vcpus().last().spec_vregs() == Seq::<vreg::VirtualRegister>::empty(),
    {
        self.p2v_cpu[pcpuid] = vcpuid;
        self.vcpus.push(VirtualCpu::new(vcpuid));
        assert(self.vcpus().drop_last() =~= old(self).vcpus());
    }

    /// The virtual CPU that physical CPU `cpuid` runs.
    pub fn get_vcpuid(&self, cpuid: usize) -> (r: usize)
        requires
            cpuid < NUM_OF_CPUS,
        ensures
            r == self.p2v()[cpuid as int],
    {
        self.p2v_cpu[cpuid]
    }

    /// The number of virtual CPUs.
    pub fn get_vcpu_count(&self) -> (r: usize)
        ensures
            r == self.vcpus().len(),
    {
        self.vcpus.len()
    }

    fn find_pos(&self, vcpuid: usize) -> (r: Option<usize>)
        ensures
            vcpu_index(self.vcpus(), vcpuid) == -1 <==> r is None,
            r matches Some(i) ==> i == vcpu_index(self.vcpus(), vcpuid) && i < self.vcpus().len(),
    {
        proof {
            lemma_vcpu_index_props(self.vcpus(), vcpuid);
        }
        let mut i: usize = 0;
        while i < self.vcpus.len()
            invariant
                i <= self.vcpus.len(),
                forall|j: int| 0 <= j < i ==> #[trigger] self.vcpus()[j].spec_vcpuid() != vcpuid,
                vcpu_index(self.vcpus(), vcpuid) == -1 || (i <= vcpu_index(self.vcpus(), vcpuid) < self.vcpus().len() && self.vcpus()[vcpu_index(self.vcpus(), vcpuid)].spec_vcpuid() == vcpuid),
                forall|j: int| 0 <= j < self.vcpus().len() && (vcpu_index(self.vcpus(), vcpuid) == -1 || j < vcpu_index(self.vcpus(), vcpuid)) ==> #[trigger] self.vcpus()[j].spec_vcpuid() != vcpuid,
            decreases self.vcpus.len() - i,
        {
            if self.vcpus[i].vcpuid == vcpuid {
                assert(self.vcpus()[i as int].spec_vcpuid() == vcpuid);
                return Some(i);
            }
            i = i + 1;
        }
        None
    }

    /// Virtual CPU `vcpuid`.
    pub fn get(&self, vcpuid: usize) -> (r: Option<&VirtualCpu>)
        ensures
            vcpu_index(self.vcpus(), vcpuid) == -1 ==> r is None,
            vcpu_index(self.vcpus(), vcpuid) != -1 ==> r == Some(&self.vcpus()[vcpu_index(self.vcpus(), vcpuid)]),
    {
        self.find(vcpuid)
    }

    /// Virtual CPU `vcpuid`, to change it.
    pub fn get_mut(&mut self, vcpuid: usize) -> (r: Option<&mut VirtualCpu>)
        ensures
            final(self).p2v() == old(self).p2v(),
            vcpu_index(old(self).vcpus(), vcpuid) == -1 ==> r is None && final(self).vcpus() == old(self).vcpus(),
            vcpu_index(old(self).vcpus(), vcpuid) != -1 ==> (r matches Some(d) && *d == old(self).vcpus()[vcpu_index(
                old(self).vcpus(),
                vcpuid,
            )] && final(self).vcpus() == old(self).vcpus().update(vcpu_index(old(self).vcpus(), vcpuid), *final(d))),
    {
        self.find_mut(vcpuid)
    }

    /// The first virtual CPU numbered `vcpuid`.
    pub fn find(&self, vcpuid: usize) -> (r: Option<&VirtualCpu>)
        ensures
            vcpu_index(self.vcpus(), vcpuid) == -1 ==> r is None,
            vcpu_index(self.vcpus(), vcpuid) != -1 ==> r == Some(&self.vcpus()[vcpu_index(self.vcpus(), vcpuid)]),
    {
        match self.find_pos(vcpuid) {
            None => None,
            Some(i) => Some(&self.vcpus[i]),
        }
    }

    /// The first virtual CPU numbered `vcpuid`, to change it.
    pub fn find_mut(&mut self, vcpuid: usize) -> (r: Option<&mut VirtualCpu>)
        ensures
            final(self).p2v() == old(self).p2v(),
            vcpu_index(old(self).vcpus(), vcpuid) == -1 ==> r is None && final(self).vcpus() == old(self).vcpus(),
            vcpu_index(old(self).vcpus(), vcpuid) != -1 ==> (r matches Some(d) && *d == old(self).vcpus()[vcpu_index(
                old(self).vcpus(),
                vcpuid,
            )] && final(self).vcpus() == old(self).vcpus().update(vcpu_index(old(self).vcpus(), vcpuid), *final(d))),
    {
        match self.find_pos(vcpuid) {
            None => None,
            Some(i) => Some(&mut self.vcpus[i]),
        }
    }
}

/// A register added to a virtual CPU reads back its value.
pub fn test_vcpu() -> (r: Result<(), &'static str>)
    ensures
        r is Ok,
{
    let mut vcpu = VirtualCpu::new(0);
    let vreg = vreg::vmhartid::Vreg::new(0x128);
    vcpu.register(1, vreg::VirtualRegisterKind::HartId(vreg));
    assert(vcpu.spec_vregs()[0].id == 1);
    assert(vreg::vreg_index(vcpu.spec_vregs(), 1) == 0);
    if vcpu.read(1) == Some(0x128u64) {
        Ok(())
    } else {
        Err("Failed to read virtual register")
    }
}

} // verus!
