//! Virtual machines: virtual CPUs, guest memory, virtual devices, traps.
use vstd::prelude::*;
use crate::environment::NUM_OF_CPUS;
use vcpu::VirtualCpuMap;
use vdev::VirtualDevMap;
use vmem::{VirtualMemoryMap, VirtualMemoryArea, lemma_rfind_index, rfind_index, rfind_ok};
use trap::TrapMap;

pub mod trap;
pub mod trap_dispatcher;
pub mod vcpu;
pub mod vdev;
pub mod vmem;

verus! {

/// Size of a guest page.
pub const GUEST_PAGE_SIZE: usize = 0x1000;

/// A virtual machine: its virtual CPUs, memory, devices, traps and the root
/// of its guest page table.
pub struct VirtualMachine {
    pub cpu: VirtualCpuMap,
    pub mem: VirtualMemoryMap,
    pub dev: VirtualDevMap,
    pub trap: TrapMap,
    pub root_table: Option<usize>,
}

/// The host address that backs guest address `addr` in `area`.
pub open spec fn translate(area: VirtualMemoryArea, addr: usize) -> int {
    area.paddr + (addr - area.vaddr)
}

/// The hart mask for the virtual harts below `n` whose bit is set in
/// `vmask`: the bit of the physical CPU `v2p[i]` of each of them.
pub open spec fn hart_mask_of(v2p: Seq<usize>, vmask: usize, n: nat) -> usize
    decreases n,
{
    if n == 0 {
        0
    } else {
        let m = hart_mask_of(v2p, vmask, (n - 1) as nat);
        if vmask & (1usize << ((n - 1) as usize)) > 0 {
            m | (1usize << v2p[n - 1])
        } else {
            m
        }
    }
}

proof fn lemma_or_bit(m: usize, q: usize, p: usize)
    requires
        q < usize::BITS,
        p < usize::BITS,
    ensures
        ((m | (1usize << q)) & (1usize << p) != 0) == ((m & (1usize << p) != 0) || p == q),
{
    assert(((m | (1usize << q)) & (1usize << p) != 0) == ((m & (1usize << p) != 0) || p == q))
        by (bit_vector)
        requires
            q < usize::BITS,
            p < usize::BITS,
    ;
}

proof fn lemma_zero_bit(p: usize)
    requires
        p < usize::BITS,
    ensures
        0usize & (1usize << p) == 0,
{
    assert(0usize & (1usize << p) == 0) by (bit_vector);
}

/// Physical CPU `p` is in the hart mask exactly when some virtual hart below
/// `n` named by `vmask` runs on it.
pub proof fn lemma_hart_mask_of(v2p: Seq<usize>, vmask: usize, n: nat, p: usize)
    requires
        n <= usize::BITS,
        n <= v2p.len(),
        forall|i: int| 0 <= i < n ==> #[trigger] v2p[i] < usize::BITS,
        p < usize::BITS,
    ensures
        (hart_mask_of(v2p, vmask, n) & (1usize << p) != 0) <==> exists|i: int|
            0 <= i < n && vmask & (1usize << (i as usize)) > 0 && #[trigger] v2p[i] == p,
    decreases n,
{
    if n == 0 {
        lemma_zero_bit(p);
    } else {
        let k = (n - 1) as int;
        lemma_hart_mask_of(v2p, vmask, (n - 1) as nat, p);
        let m = hart_mask_of(v2p, vmask, (n - 1) as nat);
        if vmask & (1usize << (k as usize)) > 0 {
            lemma_or_bit(m, v2p[k], p);
        }
    }
}

impl VirtualMachine {
    /// A virtual machine with no CPU, memory, device or trap, and no page
    /// table yet.
    pub fn new() -> (r: VirtualMachine)
        ensures
            r.cpu.vcpus().len() == 0,
            r.cpu.p2v() == Seq::new(NUM_OF_CPUS as nat, |i: int| 0usize),
            r.mem@ == Seq::<VirtualMemoryArea>::empty(),
            r.dev@.len() == 0,
            r.trap@.len() == 0,
            r.root_table is None,
    {
        VirtualMachine {
            cpu: VirtualCpuMap::new(),
            mem: VirtualMemoryMap::new(),
            dev: VirtualDevMap::new(),
            trap: TrapMap::new(),
            root_table: None,
        }
    }

    /// The physical harts named by an SBI hart mask of the guest: hart `i`
    /// of the guest, for `i` below the number of virtual CPUs, is named when
    /// bit `i` of `vhart_mask` shifted left by `vhart_mask_base` is set, and
    /// then the physical CPU `v2p[i]` that runs it is set in the result. A
    /// base of `usize::MAX` (all harts) is passed on as it is.
    pub fn vhart_mask_to_hart_mask(&self, v2p: &[usize], vhart_mask: usize, vhart_mask_base: usize) -> (r: (
        usize,
        usize,
    ))
        requires
            vhart_mask_base == usize::MAX || vhart_mask_base < usize::BITS,
            self.cpu.vcpus().len() <= usize::BITS,
            self.cpu.vcpus().len() <= v2p@.len(),
            forall|i: int| 0 <= i < self.cpu.vcpus().len() ==> #[trigger] v2p@[i] < usize::BITS,
        ensures
            vhart_mask_base == usize::MAX ==> r == (0usize, usize::MAX),
            vhart_mask_base != usize::MAX ==> r == (
                hart_mask_of(v2p@, vhart_mask << vhart_mask_base, self.cpu.vcpus().len()),
                0usize,
            ),
    {
        if vhart_mask_base == usize::MAX {
            return (0, usize::MAX);
        }
        let mut hart_mask: usize = 0;
        let vmask = vhart_mask << vhart_mask_base;
        let n = self.cpu.get_vcpu_count();
        let mut i: usize = 0;
        while i < n
            invariant
                i <= n,
                n == self.cpu.vcpus().len(),
                n <= usize::BITS,
                n <= v2p@.len(),
                forall|k: int| 0 <= k < n ==> #[trigger] v2p@[k] < usize::BITS,
                hart_mask == hart_mask_of(v2p@, vmask, i as nat),
            decreases n - i,
        {
            if (vmask & (1usize << i)) > 0 {
                hart_mask = hart_mask | (1usize << v2p[i]);
            }
            i = i + 1;
        }
        (hart_mask, 0)
    }

    /// The host page to map at guest address `guest_paddr`: the address that
    /// backs it in the last registered area that holds it. `Err` when no
    /// area holds it.
    pub fn map_guest_page(&self, guest_paddr: usize) -> (r: Result<Option<usize>, &'static str>)
        requires
            rfind_ok(self.mem@, guest_paddr),
            rfind_index(self.mem@, guest_paddr) != -1 ==> translate(
                self.mem@[rfind_index(self.mem@, guest_paddr)],
                guest_paddr,
            ) <= usize::MAX,
        ensures
            rfind_index(self.mem@, guest_paddr) == -1 ==> r == Err::<Option<usize>, &'static str>(
                "Invalid guest physical address",
            ),
            rfind_index(self.mem@, guest_paddr) != -1 ==> r == Ok::<Option<usize>, &'static str>(
                Some(translate(self.mem@[rfind_index(self.mem@, guest_paddr)], guest_paddr) as usize),
            ),
    {
        proof {
            lemma_rfind_index(self.mem@, guest_paddr);
        }
        match self.mem.get(guest_paddr) {
            None => Err("Invalid guest physical address"),
            Some(m) => {
                match m.get_paddr(guest_paddr) {
                    None => Ok(None),
                    Some(r) => Ok(Some(r)),
                }
            },
        }
    }
}

/// The virtual machines, numbered from 0 in order of creation, and the one
/// each physical CPU runs.
pub struct VirtualMachineTable {
    vms: Vec<VirtualMachine>,
    cpu2vm: [usize; NUM_OF_CPUS],
}

impl VirtualMachineTable {
    pub closed spec fn vms(&self) -> Seq<VirtualMachine> {
        self.vms@
    }

    pub closed spec fn cpu_map(&self) -> Seq<usize> {
        self.cpu2vm@
    }

    pub fn new() -> (r: Self)
        ensures
            r.vms().len() == 0,
            r.cpu_map() == Seq::new(NUM_OF_CPUS as nat, |i: int| 0usize),
    {
        let r = VirtualMachineTable { vms: Vec::new(), cpu2vm: [0; NUM_OF_CPUS] };
        assert(r.cpu_map() =~= Seq::new(NUM_OF_CPUS as nat, |i: int| 0usize));
        r
    }

    /// Creates a virtual machine, makes it the one physical CPU `cpuid` runs,
    /// and returns its number.
    pub fn create(&mut self, cpuid: usize) -> (r: usize)
        requires
            cpuid < NUM_OF_CPUS,
        ensures
            r == old(self).vms().len(),
            final(self).vms().len() == old(self).vms().len() + 1,
            final(self).vms().drop_last() == old(self).vms(),
            final(self).vms().last().root_table is None,
            final(self).cpu_map() == old(self).cpu_map().update(cpuid as int, r),
    {
        let id: usize = self.vms.len();
        self.vms.push(VirtualMachine::new());
        self.cpu2vm[cpuid] = id;
        assert(self.vms().drop_last() =~= old(self).vms());
        id
    }

    /// Virtual machine `id`.
    pub fn get(&self, id: usize) -> (r: &VirtualMachine)
        requires
            id < self.vms().len(),
        ensures
            *r == self.vms()[id as int],
    {
        &self.vms[id]
    }

    /// Virtual machine `id`, to change it.
    pub fn get_mut(&mut self, id: usize) -> (r: &mut VirtualMachine)
        requires
            id < old(self).vms().len(),
        ensures
            *r == old(self).vms()[id as int],
            final(self).vms() == old(self).vms().update(id as int, *final(r)),
            final(self).cpu_map() == old(self).cpu_map(),
    {
        &mut self.vms[id]
    }

    /// The number of virtual machines.
    pub fn count(&self) -> (r: usize)
        ensures
            r == self.vms().len(),
    {
        self.vms.len()
    }

    /// The virtual machine that physical CPU `cpuid` runs.
    pub fn current_id(&self, cpuid: usize) -> (r: usize)
        requires
            cpuid < NUM_OF_CPUS,
        ensures
            r == self.cpu_map()[cpuid as int],
    {
        self.cpu2vm[cpuid]
    }

    /// Whether a virtual machine exists.
    pub fn is_ready(&self) -> (r: bool)
        ensures
            r == (self.vms().len() != 0),
    {
        self.vms.len() != 0
    }
}

/// A virtual PLIC registered in a virtual machine reads back through the
/// device map what the guest wrote to its priority register.
pub fn test_read_write_dev() -> (r: Result<(), &'static str>)
    ensures
        r is Ok,
{
    let mut vm = VirtualMachine::new();
    let mut vplic = vdev::vplic::VPlic::new();
    vplic.set_vcpu_config([0, 1]);
    let val: usize = 0x01;
    let addr: usize = 0xc00_0000;
    let env = vdev::DeviceEnv { cpuid: 0, mtime: 0, tick: 0, raw: 0 };
    vm.dev.register(0x0c00_0000, 0x0400_0000, vdev::Device::Plic(vplic));
    let ghost before = vm.dev@;
    proof {
        assert(addr & vdev::vplic::MASK == 0) by (bit_vector)
            requires
                addr == 0xc00_0000usize,
        ;
        reveal_with_fuel(vdev::vplic::last_vcpu_of, 3);
        assert(vdev::find_from(before, addr, 1) == -1);
        assert(vdev::find_index(before, addr) == 0);
    }
    match vm.dev.write(addr, val, &env) {
        None => {
            return Err("can't write virtual device");
        },
        Some(_) => {},
    }
    proof {
        vdev::lemma_map_read_after_write(before, vm.dev@, addr, val, env, env);
    }
    match vm.dev.read(addr, &env) {
        None => Err("can't read virtual device"),
        Some((x, _)) => {
            if x == val {
                Ok(())
            } else {
                Err("Invalid value")
            }
        },
    }
}

} // verus!
