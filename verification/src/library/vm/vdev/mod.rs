//! Virtual devices and the map from guest addresses to them.
//!
//! A device does not touch the machine itself: each access returns the list
//! of actions that the hypervisor performs on the real hardware, and is given
//! what the hypervisor read from it.
use vstd::prelude::*;

pub mod access_logger;
pub mod vclint;
pub mod vplic;

use access_logger::{AccessLogger, AccessRecord, AccessType};
use vclint::VClint;
use vplic::{plic_read_ok, plic_wf, plic_write_ok, ready, spec_read, spec_write, update_actions, with_pending, VPlic, VPlicState};

verus! {

/// An action on the real machine that a virtual device asks for.
#[derive(PartialEq, Eq, Structural, Clone, Copy, Debug)]
pub enum DeviceAction {
    /// Write a 32-bit word to a physical device register.
    RawWrite32 { addr: usize, val: u32 },
    /// Write a machine word to a physical device register.
    RawWrite { addr: usize, data: usize },
    /// Signal completion of interrupt `intid` to the interrupt controller of
    /// the container, when it has one.
    CompleteInterrupt { intid: u32 },
    /// Raise the virtual supervisor external interrupt of the running vCPU.
    AssertVsExternal,
    /// Lower the virtual supervisor external interrupt of the running vCPU.
    FlushVsExternal,
    /// Lower the virtual supervisor timer interrupt of the running vCPU.
    FlushVsTimer,
    /// Program the supervisor timer (SBI `set_timer`) for `stime`.
    SetTimer { stime: u64 },
}

/// What the hypervisor knows of the machine when a device is accessed.
#[derive(Clone, Copy, Debug)]
pub struct DeviceEnv {
    /// The physical CPU that makes the access.
    pub cpuid: usize,
    /// The machine timer (`mtime`).
    pub mtime: u64,
    /// The tick counter used to stamp logs.
    pub tick: usize,
    /// The value read from the physical address, for devices that forward
    /// reads.
    pub raw: usize,
}

/// The state of a virtual device, as contracts see it.
pub enum DeviceModel {
    /// A virtual PLIC.
    Plic(VPlicState),
    /// A virtual CLINT: the guest's time and its timer compare value.
    Clint { mtime: u64, compare: u64 },
    /// An access logger: whether it passes accesses through, and its log.
    Logger { path_through: bool, log: Seq<AccessRecord> },
}

/// A write of `val` at `addr` is one the device handles.
pub open spec fn model_write_ok(m: DeviceModel, addr: usize, val: usize, env: DeviceEnv) -> bool {
    match m {
        DeviceModel::Plic(s) => plic_wf(s) && plic_write_ok(s, addr, val, env.cpuid as int),
        DeviceModel::Clint { .. } => vclint::is_compare_reg(addr) ==> env.mtime + vclint::TIMER_MARGIN
            <= u64::MAX,
        DeviceModel::Logger { .. } => true,
    }
}

/// A read at `addr` is one the device handles.
pub open spec fn model_read_ok(m: DeviceModel, addr: usize, env: DeviceEnv) -> bool {
    match m {
        DeviceModel::Plic(s) => plic_wf(s) && plic_read_ok(s, addr, env.cpuid as int),
        DeviceModel::Clint { mtime, .. } => vclint::is_time_reg(addr) ==> mtime < u64::MAX,
        DeviceModel::Logger { .. } => true,
    }
}

/// The interrupt `intid` is one the device handles.
pub open spec fn model_interrupt_ok(m: DeviceModel, intid: usize, env: DeviceEnv) -> bool {
    match m {
        DeviceModel::Plic(s) => plic_wf(s) && (intid as u32) < vplic::NUM_OF_IRQS && ready(s, env.cpuid as int),
        _ => true,
    }
}

/// The device after a guest write of `val` at `addr`, and the actions it
/// asks for.
pub open spec fn model_write(m: DeviceModel, addr: usize, val: usize, env: DeviceEnv) -> (DeviceModel, Seq<
    DeviceAction,
>) {
    match m {
        DeviceModel::Plic(s) => {
            let (s2, acts) = spec_write(s, addr, val, env.cpuid as int);
            (DeviceModel::Plic(s2), acts)
        },
        DeviceModel::Clint { mtime, compare } => if vclint::is_compare_reg(addr) {
            (
                DeviceModel::Clint { mtime: vclint::deadline(env.mtime), compare: vclint::spec_low64(val) },
                seq![DeviceAction::FlushVsTimer, DeviceAction::SetTimer { stime: vclint::deadline(env.mtime) }],
            )
        } else {
            (m, Seq::empty())
        },
        DeviceModel::Logger { path_through, log } => (
            DeviceModel::Logger {
                path_through,
                log: log.push(AccessRecord { tick: env.tick, access: AccessType::Write { addr, val } }),
            },
            if path_through {
                seq![DeviceAction::RawWrite { addr, data: val }]
            } else {
                Seq::empty()
            },
        ),
    }
}

/// The value a guest read at `addr` gives, the device after it, and the
/// actions it asks for.
pub open spec fn model_read(m: DeviceModel, addr: usize, env: DeviceEnv) -> (usize, DeviceModel, Seq<
    DeviceAction,
>) {
    match m {
        DeviceModel::Plic(s) => {
            let (v, s2, acts) = spec_read(s, addr, env.cpuid as int);
            (v as usize, DeviceModel::Plic(s2), acts)
        },
        DeviceModel::Clint { mtime, compare } => if vclint::is_time_reg(addr) {
            (
                vclint::spec_word(vclint::next_tick(mtime)),
                DeviceModel::Clint { mtime: vclint::next_tick(mtime), compare },
                Seq::empty(),
            )
        } else if vclint::is_compare_reg(addr) {
            (vclint::spec_word(compare), m, Seq::empty())
        } else {
            (0, m, Seq::empty())
        },
        DeviceModel::Logger { path_through, log } => {
            let v = if path_through {
                env.raw
            } else {
                0
            };
            (
                v,
                DeviceModel::Logger {
                    path_through,
                    log: log.push(AccessRecord { tick: env.tick, access: AccessType::Read { addr, val: v } }),
                },
                Seq::empty(),
            )
        },
    }
}

/// The device after interrupt `intid`, and the actions it asks for.
pub open spec fn model_interrupt(m: DeviceModel, intid: usize, env: DeviceEnv) -> (DeviceModel, Seq<
    DeviceAction,
>) {
    match m {
        DeviceModel::Plic(s) => (
            DeviceModel::Plic(with_pending(s, intid as u32)),
            update_actions(with_pending(s, intid as u32), env.cpuid as int),
        ),
        DeviceModel::Clint { .. } => (m, Seq::empty()),
        DeviceModel::Logger { path_through, log } => (
            DeviceModel::Logger {
                path_through,
                log: log.push(AccessRecord { tick: env.tick, access: AccessType::Interrupt { intid } }),
            },
            Seq::empty(),
        ),
    }
}

/// Whether a read needs the value of the physical address.
pub open spec fn model_forwards(m: DeviceModel) -> bool {
    match m {
        DeviceModel::Logger { path_through, .. } => path_through,
        _ => false,
    }
}

/// A device that a guest reaches through memory accesses.
pub trait VirtualDeviceT {
    /// The device's state.
    spec fn model(&self) -> DeviceModel;

    fn write(&mut self, addr: usize, val: usize, env: &DeviceEnv) -> (r: Vec<DeviceAction>)
        requires
            model_write_ok(old(self).model(), addr, val, *env),
        ensures
            (final(self).model(), r@) == model_write(old(self).model(), addr, val, *env),
    ;

    fn read(&mut self, addr: usize, env: &DeviceEnv) -> (r: (usize, Vec<DeviceAction>))
        requires
            model_read_ok(old(self).model(), addr, *env),
        ensures
            (r.0, final(self).model(), r.1@) == model_read(old(self).model(), addr, *env),
    ;

    fn interrupt(&mut self, intid: usize, env: &DeviceEnv) -> (r: Vec<DeviceAction>)
        requires
            model_interrupt_ok(old(self).model(), intid, *env),
        ensures
            (final(self).model(), r@) == model_interrupt(old(self).model(), intid, *env),
    ;

    /// Whether a read needs the value of the physical address in `env.raw`.
    fn forwards_reads(&self) -> (r: bool)
        ensures
            r == model_forwards(self.model()),
    ;
}

/// The virtual devices a guest can have.
pub enum Device {
    Plic(VPlic),
    Clint(VClint),
    Logger(AccessLogger),
}

impl VirtualDeviceT for Device {
    open spec fn model(&self) -> DeviceModel {
        match self {
            Device::Plic(d) => d.model(),
            Device::Clint(d) => d.model(),
            Device::Logger(d) => d.model(),
        }
    }

    fn write(&mut self, addr: usize, val: usize, env: &DeviceEnv) -> (r: Vec<DeviceAction>) {
        match self {
            Device::Plic(d) => d.write(addr, val, env),
            Device::Clint(d) => d.write(addr, val, env),
            Device::Logger(d) => d.write(addr, val, env),
        }
    }

    fn read(&mut self, addr: usize, env: &DeviceEnv) -> (r: (usize, Vec<DeviceAction>)) {
        match self {
            Device::Plic(d) => d.read(addr, env),
            Device::Clint(d) => d.read(addr, env),
            Device::Logger(d) => d.read(addr, env),
        }
    }

    fn interrupt(&mut self, intid: usize, env: &DeviceEnv) -> (r: Vec<DeviceAction>) {
        match self {
            Device::Plic(d) => d.interrupt(intid, env),
            Device::Clint(d) => d.interrupt(intid, env),
            Device::Logger(d) => d.interrupt(intid, env),
        }
    }

    fn forwards_reads(&self) -> (r: bool) {
        match self {
            Device::Plic(d) => d.forwards_reads(),
            Device::Clint(d) => d.forwards_reads(),
            Device::Logger(d) => d.forwards_reads(),
        }
    }
}

/// A device placed at `[base, base + size)` of the guest's address space.
pub struct VirtualDevice {
    pub base: usize,
    pub size: usize,
    pub vdev: Device,
}

impl VirtualDevice {
    pub fn new(base: usize, size: usize, vdev: Device) -> (r: Self)
        ensures
            r.base == base,
            r.size == size,
            r.vdev == vdev,
    {
        VirtualDevice { base, size, vdev }
    }
}

/// `addr` falls in the range of `d`.
pub open spec fn covers(d: VirtualDevice, addr: usize) -> bool {
    d.base <= addr < d.base + d.size
}

/// The index of the first device of `s` from `i` on whose range holds
/// `addr`, or -1.
pub open spec fn find_from(s: Seq<VirtualDevice>, addr: usize, i: nat) -> int
    decreases s.len() - i,
{
    if i >= s.len() {
        -1
    } else if covers(s[i as int], addr) {
        i as int
    } else {
        find_from(s, addr, i + 1)
    }
}

/// The index of the first device of `s` whose range holds `addr`, or -1.
pub open spec fn find_index(s: Seq<VirtualDevice>, addr: usize) -> int {
    find_from(s, addr, 0)
}

/// The search for `addr` computes `base + size` without overflow for each
/// device it reaches whose base is not above `addr`.
pub open spec fn find_ok(s: Seq<VirtualDevice>, addr: usize) -> bool {
    forall|i: int|
        0 <= i < s.len() && (forall|j: int| 0 <= j < i ==> !covers(#[trigger] s[j], addr)) && s[i].base <= addr
            ==> s[i].base + s[i].size <= usize::MAX
}

/// Devices in decreasing order of base address.
pub open spec fn sorted_desc(s: Seq<VirtualDevice>) -> bool {
    forall|i: int, j: int| 0 <= i < j < s.len() ==> s[i].base >= s[j].base
}

/// Where a device of base `base` goes in `s`: after every device whose
/// base is not below it.
pub open spec fn insert_pos(s: Seq<VirtualDevice>, base: usize) -> int
    decreases s.len(),
{
    if s.len() == 0 {
        0
    } else if s[0].base >= base {
        1 + insert_pos(s.drop_first(), base)
    } else {
        0
    }
}

proof fn lemma_find_from_props(s: Seq<VirtualDevice>, addr: usize, i: nat)
    requires
        i <= s.len(),
    ensures
        ({
            let k = find_from(s, addr, i);
            &&& k == -1 || (i <= k < s.len() && covers(s[k], addr))
            &&& forall|j: int| i <= j < s.len() && (k == -1 || j < k) ==> !covers(#[trigger] s[j], addr)
        }),
    decreases s.len() - i,
{
    if i < s.len() {
        lemma_find_from_props(s, addr, i + 1);
    }
}

proof fn lemma_insert_pos_props(s: Seq<VirtualDevice>, base: usize)
    ensures
        0 <= insert_pos(s, base) <= s.len(),
        forall|j: int| 0 <= j < insert_pos(s, base) ==> #[trigger] s[j].base >= base,
        insert_pos(s, base) < s.len() ==> s[insert_pos(s, base)].base < base,
    decreases s.len(),
{
    if s.len() > 0 && s[0].base >= base {
        lemma_insert_pos_props(s.drop_first(), base);
        assert forall|j: int| 0 <= j < insert_pos(s, base) implies #[trigger] s[j].base >= base by {
            if j > 0 {
                assert(s[j] == s.drop_first()[j - 1]);
            }
        }
        if insert_pos(s, base) < s.len() {
            assert(s[insert_pos(s, base)] == s.drop_first()[insert_pos(s, base) - 1]);
        }
    }
}

/// The devices of a guest, in decreasing order of base address.
pub struct VirtualDevMap {
    map: Vec<VirtualDevice>,
}

impl View for VirtualDevMap {
    type V = Seq<VirtualDevice>;

    closed spec fn view(&self) -> Seq<VirtualDevice> {
        self.map@
    }
}

impl VirtualDevMap {
    pub fn new() -> (r: Self)
        ensures
            r@ == Seq::<VirtualDevice>::empty(),
            sorted_desc(r@),
    {
        VirtualDevMap { map: Vec::new() }
    }

    /// Adds `vdev` at `[base, base + size)`, after every device whose base
    /// is not below `base`, so that the map stays in decreasing order of base
    /// address and, among equal bases, in order of registration.
    pub fn register(&mut self, base: usize, size: usize, vdev: Device)
        ensures
            ({
                let p = insert_pos(old(self)@, base);
                &&& final(self)@ == old(self)@.insert(p, VirtualDevice { base, size, vdev })
                &&& final(self)@.len() == old(self)@.len() + 1
                &&& final(self)@[p].base == base
                &&& final(self)@[p].size == size
                &&& final(self)@[p].vdev == vdev
                &&& final(self)@.subrange(0, p) == old(self)@.subrange(0, p)
                &&& final(self)@.subrange(p + 1, final(self)@.len() as int) == old(self)@.subrange(
                    p,
                    old(self)@.len() as int,
                )
            }),
            sorted_desc(old(self)@) ==> sorted_desc(final(self)@),
    {
        let dev = VirtualDevice::new(base, size, vdev);
        let mut pos: usize = 0;
        proof {
            lemma_insert_pos_props(self@, base);
        }
        while pos < self.map.len() && self.map[pos].base >= base
            invariant
                pos <= self.map.len(),
                pos <= insert_pos(self@, base),
                0 <= insert_pos(self@, base) <= self@.len(),
                forall|j: int| 0 <= j < insert_pos(self@, base) ==> #[trigger] self@[j].base >= base,
                insert_pos(self@, base) < self@.len() ==> self@[insert_pos(self@, base)].base < base,
            decreases self.map.len() - pos,
        {
            pos = pos + 1;
        }
        let ghost old_map = self@;
        self.map.insert(pos, dev);
        proof {
            assert(self@.subrange(0, pos as int) =~= old_map.subrange(0, pos as int));
            assert(self@.subrange(pos + 1, self@.len() as int) =~= old_map.subrange(
                pos as int,
                old_map.len() as int,
            ));
            if sorted_desc(old_map) {
                assert forall|i: int, j: int| 0 <= i < j < self@.len() implies self@[i].base
                    >= self@[j].base by {
                    if i < pos && j > pos {
                        assert(self@[j] == old_map[j - 1]);
                    } else if i > pos {
                        assert(self@[i] == old_map[i - 1]);
                        assert(self@[j] == old_map[j - 1]);
                    } else if j == pos {
                    } else if i == pos {
                        assert(self@[j] == old_map[j - 1]);
                    }
                }
            }
        }
    }

    /// Removing a device is not supported: the map is left as it is.
    pub fn unregister(&mut self, base_addr: usize, size: usize, vdev: Device)
        ensures
            final(self)@ == old(self)@,
    {
    }

    fn find_pos(&self, addr: usize) -> (r: Option<usize>)
        requires
            find_ok(self@, addr),
        ensures
            find_index(self@, addr) == -1 <==> r is None,
            r matches Some(i) ==> i == find_index(self@, addr) && i < self@.len() && covers(self@[i as int], addr),
    {
        proof {
            lemma_find_from_props(self@, addr, 0);
        }
        let mut i: usize = 0;
        while i < self.map.len()
            invariant
                i <= self.map.len(),
                find_ok(self@, addr),
                forall|j: int| 0 <= j < i ==> !covers(#[trigger] self@[j], addr),
                find_index(self@, addr) == -1 || (i <= find_index(self@, addr) < self@.len() && covers(
                    self@[find_index(self@, addr)],
                    addr,
                )),
                forall|j: int|
                    0 <= j < self@.len() && (find_index(self@, addr) == -1 || j < find_index(self@, addr))
                        ==> !covers(#[trigger] self@[j], addr),
            decreases self.map.len() - i,
        {
            let e = &self.map[i];
            if e.base <= addr {
                assert(self@[i as int] == *e);
                if addr < e.base + e.size {
                    return Some(i);
                }
            }
            i = i + 1;
        }
        None
    }

    /// The first device whose range holds `addr`.
    pub fn find(&self, addr: usize) -> (r: Option<&VirtualDevice>)
        requires
            find_ok(self@, addr),
        ensures
            find_index(self@, addr) == -1 ==> r is None,
            find_index(self@, addr) != -1 ==> r == Some(&self@[find_index(self@, addr)]),
            sorted_desc(self@) && find_index(self@, addr) != -1 ==> forall|j: int|
                0 <= j < self@.len() && covers(#[trigger] self@[j], addr) ==> self@[j].base <= self@[find_index(
                    self@,
                    addr,
                )].base,
    {
        proof {
            lemma_find_from_props(self@, addr, 0);
        }
        match self.find_pos(addr) {
            None => None,
            Some(i) => {
                Some(&self.map[i])
            },
        }
    }

    /// The first device whose range holds `addr`, to change it.
    pub fn find_mut(&mut self, addr: usize) -> (r: Option<&mut VirtualDevice>)
        requires
            find_ok(old(self)@, addr),
        ensures
            find_index(old(self)@, addr) == -1 ==> r is None && final(self)@ == old(self)@,
            find_index(old(self)@, addr) != -1 ==> (r matches Some(d) && *d == old(self)@[find_index(
                old(self)@,
                addr,
            )] && final(self)@ == old(self)@.update(find_index(old(self)@, addr), *final(d))),
    {
        match self.find_pos(addr) {
            None => None,
            Some(i) => Some(&mut self.map[i]),
        }
    }

    /// The device whose range holds `addr`.
    pub fn get(&self, addr: usize) -> (r: Option<&Device>)
        requires
            find_ok(self@, addr),
        ensures
            find_index(self@, addr) == -1 ==> r is None,
            find_index(self@, addr) != -1 ==> r == Some(&self@[find_index(self@, addr)].vdev),
    {
        match self.find(addr) {
            None => None,
            Some(i) => Some(&i.vdev),
        }
    }

    /// The device whose range holds `addr`, to change it.
    pub fn get_mut(&mut self, addr: usize) -> (r: Option<&mut Device>)
        requires
            find_ok(old(self)@, addr),
        ensures
            find_index(old(self)@, addr) == -1 ==> r is None && final(self)@ == old(self)@,
            find_index(old(self)@, addr) != -1 ==> r is Some,
            r matches Some(d) ==> *d == old(self)@[find_index(old(self)@, addr)].vdev,
            r matches Some(d) ==> final(self)@[find_index(old(self)@, addr)].vdev == *final(d),
            final(self)@.len() == old(self)@.len(),
            forall|j: int|
                0 <= j < old(self)@.len() && j != find_index(old(self)@, addr) ==> final(self)@[j] == old(self)@[j],
            find_index(old(self)@, addr) != -1 ==> final(self)@[find_index(old(self)@, addr)].base == old(self)@[find_index(old(self)@, addr)].base,
            find_index(old(self)@, addr) != -1 ==> final(self)@[find_index(old(self)@, addr)].size == old(self)@[find_index(old(self)@, addr)].size,
    {
        match self.find_pos(addr) {
            None => None,
            Some(i) => Some(&mut self.map[i].vdev),
        }
    }

    /// Passes a guest write at `addr` to the device that holds it, and
    /// returns the actions it asks for; `None` when no device holds `addr`.
    pub fn write(&mut self, addr: usize, val: usize, env: &DeviceEnv) -> (r: Option<Vec<DeviceAction>>)
        requires
            find_ok(old(self)@, addr),
            find_index(old(self)@, addr) != -1 ==> model_write_ok(
                old(self)@[find_index(old(self)@, addr)].vdev.model(),
                addr,
                val,
                *env,
            ),
        ensures
            find_index(old(self)@, addr) == -1 ==> r is None && final(self)@ == old(self)@,
            find_index(old(self)@, addr) != -1 ==> ({
                let i = find_index(old(self)@, addr);
                &&& r matches Some(acts) && (final(self)@[i].vdev.model(), acts@) == model_write(
                    old(self)@[i].vdev.model(),
                    addr,
                    val,
                    *env,
                )
                &&& final(self)@.len() == old(self)@.len()
                &&& forall|j: int| 0 <= j < old(self)@.len() && j != i ==> final(self)@[j] == old(self)@[j]
                &&& final(self)@[i].base == old(self)@[i].base
                &&& final(self)@[i].size == old(self)@[i].size
            }),
    {
        match self.get_mut(addr) {
            None => None,
            Some(d) => Some(d.write(addr, val, env)),
        }
    }

    /// Passes a guest read at `addr` to the device that holds it, and
    /// returns the value and the actions it asks for; `None` when no device
    /// holds `addr`.
    pub fn read(&mut self, addr: usize, env: &DeviceEnv) -> (r: Option<(usize, Vec<DeviceAction>)>)
        requires
            find_ok(old(self)@, addr),
            find_index(old(self)@, addr) != -1 ==> model_read_ok(
                old(self)@[find_index(old(self)@, addr)].vdev.model(),
                addr,
                *env,
            ),
        ensures
            find_index(old(self)@, addr) == -1 ==> r is None && final(self)@ == old(self)@,
            find_index(old(self)@, addr) != -1 ==> ({
                let i = find_index(old(self)@, addr);
                &&& r matches Some(res) && (res.0, final(self)@[i].vdev.model(), res.1@) == model_read(
                    old(self)@[i].vdev.model(),
                    addr,
                    *env,
                )
                &&& final(self)@.len() == old(self)@.len()
                &&& forall|j: int| 0 <= j < old(self)@.len() && j != i ==> final(self)@[j] == old(self)@[j]
                &&& final(self)@[i].base == old(self)@[i].base
                &&& final(self)@[i].size == old(self)@[i].size
            }),
    {
        match self.get_mut(addr) {
            None => None,
            Some(d) => Some(d.read(addr, env)),
        }
    }
}

/// The search for an address looks at bases and sizes alone.
proof fn lemma_find_from_same(s: Seq<VirtualDevice>, t: Seq<VirtualDevice>, addr: usize, i: nat)
    requires
        s.len() == t.len(),
        forall|j: int| 0 <= j < s.len() ==> s[j].base == t[j].base && s[j].size == t[j].size,
    ensures
        find_from(s, addr, i) == find_from(t, addr, i),
    decreases s.len() - i,
{
    if i < s.len() {
        lemma_find_from_same(s, t, addr, i + 1);
    }
}

/// What a guest writes through the device map to a priority, enable or
/// threshold register of a virtual PLIC, a read through the map at the
/// same address gives back (as a 32-bit value): the write leaves the map
/// finding the same device, whose state is the one the write left.
pub proof fn lemma_map_read_after_write(
    before: Seq<VirtualDevice>,
    after: Seq<VirtualDevice>,
    addr: usize,
    val: usize,
    env: DeviceEnv,
    env2: DeviceEnv,
)
    requires
        find_ok(before, addr),
        find_index(before, addr) != -1,
        before[find_index(before, addr)].vdev.model() matches DeviceModel::Plic(s) && plic_wf(s)
            && plic_write_ok(s, addr, val, env.cpuid as int) && vplic::in_window(addr) && (vplic::in_priority(
            addr & vplic::MASK,
        ) || vplic::in_enable(addr & vplic::MASK) || (vplic::in_context(addr & vplic::MASK) && addr
            & 0xfff == 0)),
        env2.cpuid == env.cpuid,
        after.len() == before.len(),
        forall|j: int|
            0 <= j < before.len() && j != find_index(before, addr) ==> after[j] == before[j],
        after[find_index(before, addr)].base == before[find_index(before, addr)].base,
        after[find_index(before, addr)].size == before[find_index(before, addr)].size,
        after[find_index(before, addr)].vdev.model() == model_write(
            before[find_index(before, addr)].vdev.model(),
            addr,
            val,
            env,
        ).0,
    ensures
        find_ok(after, addr),
        find_index(after, addr) == find_index(before, addr),
        model_read(after[find_index(after, addr)].vdev.model(), addr, env2).0 == (val as u32) as usize,
{
    let i = find_index(before, addr);
    assert forall|j: int| 0 <= j < before.len() implies before[j].base == after[j].base && before[j].size
        == after[j].size by {
        if j != i {
            assert(after[j] == before[j]);
        }
    }
    lemma_find_from_same(before, after, addr, 0);
    assert(find_ok(after, addr)) by {
        assert forall|k: int|
            0 <= k < after.len() && (forall|j: int| 0 <= j < k ==> !covers(#[trigger] after[j], addr))
                && after[k].base <= addr implies after[k].base + after[k].size <= usize::MAX by {
            assert forall|j: int| 0 <= j < k implies !covers(#[trigger] before[j], addr) by {
                assert(!covers(after[j], addr));
            }
        }
    }
    if let DeviceModel::Plic(s) = before[i].vdev.model() {
        vplic::lemma_read_after_write(s, addr, val, env.cpuid as int);
    }
}

} // verus!
