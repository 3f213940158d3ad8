//! Virtual devices of the first design and the map from guest addresses to
//! them.
use vstd::prelude::*;

pub mod vplic;

verus! {

/// What a device of the first design asks of the machine after an access.
#[derive(PartialEq, Eq, Structural, Clone, Copy, Debug)]
pub enum IoAction {
    /// Nothing.
    NoAction,
    /// Write `val` to the physical register at `addr`.
    RawWrite32 { addr: usize, val: u32 },
}

/// What the machine gave for an access of the first design.
#[derive(Clone, Copy, Debug)]
pub struct IoInput {
    /// The value of the physical register at the address, when the device
    /// forwards the read.
    pub raw: u32,
    /// The interrupt pending at the physical interrupt controller.
    pub pending: u32,
}

/// The state of a device of the first design, as contracts see it.
pub enum IoModel {
    /// A virtual PLIC: the interrupt its claim/complete register offers.
    Plic { claim: u32 },
}

/// A guest write of `val` at `addr`: the device after it and what it asks
/// of the machine.
pub open spec fn io_write(m: IoModel, addr: usize, val: u32) -> (IoModel, IoAction) {
    match m {
        IoModel::Plic { .. } => if addr & vplic::MASK == vplic::CLAIM_COMPLETE_CONTEXT1 {
            (m, IoAction::NoAction)
        } else {
            (m, IoAction::RawWrite32 { addr, val })
        },
    }
}

/// A guest read at `addr`, given what the machine gave: the value and the
/// device after it.
pub open spec fn io_read(m: IoModel, addr: usize, input: IoInput) -> (u32, IoModel) {
    match m {
        IoModel::Plic { claim } => if addr & vplic::MASK == vplic::CLAIM_COMPLETE_CONTEXT1 {
            (claim, IoModel::Plic { claim: input.pending })
        } else {
            (input.raw, m)
        },
    }
}

/// The device after interrupt `intid`.
pub open spec fn io_interrupt(m: IoModel, intid: usize) -> IoModel {
    match m {
        IoModel::Plic { .. } => IoModel::Plic { claim: vplic::spec_low32(intid) },
    }
}

/// Whether a read at `addr` needs the physical value.
pub open spec fn io_forwards(m: IoModel, addr: usize) -> bool {
    match m {
        IoModel::Plic { .. } => addr & vplic::MASK != vplic::CLAIM_COMPLETE_CONTEXT1,
    }
}

/// A device of the first design, accessed by 32-bit words.
pub trait VirtualDevice {
    /// The device's state.
    spec fn io_model(&self) -> IoModel;

    fn write32(&mut self, addr: usize, val: u32) -> (r: IoAction)
        ensures
            (final(self).io_model(), r) == io_write(old(self).io_model(), addr, val),
    ;

    fn read32(&mut self, addr: usize, input: &IoInput) -> (r: u32)
        ensures
            (r, final(self).io_model()) == io_read(old(self).io_model(), addr, *input),
    ;

    fn interrupt(&mut self, intid: usize)
        ensures
            final(self).io_model() == io_interrupt(old(self).io_model(), intid),
    ;

    /// Whether a read at `addr` needs the physical value in `input.raw`.
    fn forwards_read(&self, addr: usize) -> (r: bool)
        ensures
            r == io_forwards(self.io_model(), addr),
    ;
}

/// A register of a device of the first design.
pub trait VirtualRegister {
    /// The value a read gives.
    spec fn reg_value(&self) -> u32;

    /// The register's value after the guest writes `val`.
    spec fn value_after_write(&self, val: u32) -> u32;

    /// The register's value after a read.
    spec fn value_after_read(&self) -> u32;

    fn write(&mut self, addr: usize, val: u32)
        ensures
            final(self).reg_value() == old(self).value_after_write(val),
    ;

    fn read(&mut self, addr: usize) -> (r: u32)
        ensures
            r == old(self).reg_value(),
            final(self).reg_value() == old(self).value_after_read(),
    ;
}

/// The devices a guest of the first design can have.
pub enum IoDevice {
    Plic(vplic::VPlic),
}

impl VirtualDevice for IoDevice {
    open spec fn io_model(&self) -> IoModel {
        match self {
            IoDevice::Plic(d) => d.io_model(),
        }
    }

    fn write32(&mut self, addr: usize, val: u32) -> (r: IoAction) {
        match self {
            IoDevice::Plic(d) => d.write32(addr, val),
        }
    }

    fn read32(&mut self, addr: usize, input: &IoInput) -> (r: u32) {
        match self {
            IoDevice::Plic(d) => d.read32(addr, input),
        }
    }

    fn interrupt(&mut self, intid: usize) {
        match self {
            IoDevice::Plic(d) => d.interrupt(intid),
        }
    }

    fn forwards_read(&self, addr: usize) -> (r: bool) {
        match self {
            IoDevice::Plic(d) => d.forwards_read(addr),
        }
    }
}

/// A device placed at `[base, base + size)`.
pub struct Io {
    pub base: usize,
    pub size: usize,
    pub vdev: IoDevice,
}

impl Io {
    pub fn new(base: usize, size: usize, vdev: IoDevice) -> (r: Self)
        ensures
            r.base == base,
            r.size == size,
            r.vdev == vdev,
    {
        Io { base, size, vdev }
    }
}

/// `addr` falls in the range of `d`.
pub open spec fn io_covers(d: Io, addr: usize) -> bool {
    d.base <= addr < d.base + d.size
}

/// The index of the first device of `s` whose range holds `addr`, or -1.
pub open spec fn io_index(s: Seq<Io>, addr: usize) -> int
    decreases s.len(),
{
    if s.len() == 0 {
        -1
    } else if io_covers(s[0], addr) {
        0
    } else if io_index(s.drop_first(), addr) == -1 {
        -1
    } else {
        1 + io_index(s.drop_first(), addr)
    }
}

/// The search for `addr` computes `base + size` without overflow for each
/// device it reaches whose base is not above `addr`.
pub open spec fn io_find_ok(s: Seq<Io>, addr: usize) -> bool {
    forall|i: int|
        0 <= i < s.len() && (forall|j: int| 0 <= j < i ==> !io_covers(#[trigger] s[j], addr)) && s[i].base <= addr
            ==> s[i].base + s[i].size <= usize::MAX
}

/// Where a device of base `base` goes in `s`: after every device whose base
/// is not below it.
pub open spec fn io_insert_pos(s: Seq<Io>, base: usize) -> int
    decreases s.len(),
{
    if s.len() == 0 {
        0
    } else if s[0].base >= base {
        1 + io_insert_pos(s.drop_first(), base)
    } else {
        0
    }
}

proof fn lemma_io_index_props(s: Seq<Io>, addr: usize)
    ensures
        ({
            let k = io_index(s, addr);
            &&& k == -1 || (0 <= k < s.len() && io_covers(s[k], addr))
            &&& forall|j: int| 0 <= j < s.len() && (k == -1 || j < k) ==> !io_covers(#[trigger] s[j], addr)
        }),
    decreases s.len(),
{
    if s.len() > 0 {
        lemma_io_index_props(s.drop_first(), addr);
        assert forall|j: int|
            0 <= j < s.len() && (io_index(s, addr) == -1 || j < io_index(s, addr)) implies !io_covers(
            #[trigger] s[j],
            addr,
        ) by {
            if j > 0 {
                assert(s[j] == s.drop_first()[j - 1]);
            }
        }
    }
}

proof fn lemma_io_insert_pos_props(s: Seq<Io>, base: usize)
    ensures
        0 <= io_insert_pos(s, base) <= s.len(),
        forall|j: int| 0 <= j < io_insert_pos(s, base) ==> #[trigger] s[j].base >= base,
        io_insert_pos(s, base) < s.len() ==> s[io_insert_pos(s, base)].base < base,
    decreases s.len(),
{
    if s.len() > 0 && s[0].base >= base {
        lemma_io_insert_pos_props(s.drop_first(), base);
        assert forall|j: int| 0 <= j < io_insert_pos(s, base) implies #[trigger] s[j].base >= base by {
            if j > 0 {
                assert(s[j] == s.drop_first()[j - 1]);
            }
        }
        if io_insert_pos(s, base) < s.len() {
            assert(s[io_insert_pos(s, base)] == s.drop_first()[io_insert_pos(s, base) - 1]);
        }
    }
}

/// Devices in decreasing order of base address.
pub struct IoMap {
    map: Vec<Io>,
}

impl View for IoMap {
    type V = Seq<Io>;

    closed spec fn view(&self) -> Seq<Io> {
        self.map@
    }
}

impl IoMap {
    pub fn new() -> (r: Self)
        ensures
            r@ == Seq::<Io>::empty(),
    {
        IoMap { map: Vec::new() }
    }

    /// Adds `dev` after every device whose base is not below its own.
    pub fn register(&mut self, dev: Io)
        ensures
            final(self)@ == old(self)@.insert(io_insert_pos(old(self)@, dev.base), dev),
    {
        proof {
            lemma_io_insert_pos_props(self@, dev.base);
        }
        let mut pos: usize = 0;
        while pos < self.map.len() && self.map[pos].base >= dev.base
            invariant
                pos <= self.map.len(),
                pos <= io_insert_pos(self@, dev.base),
                0 <= io_insert_pos(self@, dev.base) <= self@.len(),
                forall|j: int| 0 <= j < io_insert_pos(self@, dev.base) ==> #[trigger] self@[j].base >= dev.base,
                io_insert_pos(self@, dev.base) < self@.len() ==> self@[io_insert_pos(self@, dev.base)].base
                    < dev.base,
            decreases self.map.len() - pos,
        {
            pos = pos + 1;
        }
        self.map.insert(pos, dev);
    }

    fn find_pos(&self, addr: usize) -> (r: Option<usize>)
        requires
            io_find_ok(self@, addr),
        ensures
            io_index(self@, addr) == -1 <==> r is None,
            r matches Some(i) ==> i == io_index(self@, addr) && i < self@.len(),
    {
        proof {
            lemma_io_index_props(self@, addr);
        }
        let mut i: usize = 0;
        while i < self.map.len()
            invariant
                i <= self.map.len(),
                io_find_ok(self@, addr),
                forall|j: int| 0 <= j < i ==> !io_covers(#[trigger] self@[j], addr),
                io_index(self@, addr) == -1 || (i <= io_index(self@, addr) < self@.len() && io_covers(
                    self@[io_index(self@, addr)],
                    addr,
                )),
                forall|j: int|
                    0 <= j < self@.len() && (io_index(self@, addr) == -1 || j < io_index(self@, addr))
                        ==> !io_covers(#[trigger] self@[j], addr),
            decreases self.map.len() - i,
        {
            let e = &self.map[i];
            if e.base <= addr {
                assert(self@[i as int] == *e);
                if addr < e.base + e.size {
                    return Some(i);
                }
            }
            i = i + 1;
        }
        None
    }

    /// The first device whose range holds `addr`.
    pub fn find(&self, addr: usize) -> (r: Option<&Io>)
        requires
            io_find_ok(self@, addr),
        ensures
            io_index(self@, addr) == -1 ==> r is None,
            io_index(self@, addr) != -1 ==> r == Some(&self@[io_index(self@, addr)]),
    {
        match self.find_pos(addr) {
            None => None,
            Some(i) => Some(&self.map[i]),
        }
    }

    /// The first device whose range holds `addr`, to change it.
    pub fn find_mut(&mut self, addr: usize) -> (r: Option<&mut Io>)
        requires
            io_find_ok(old(self)@, addr),
        ensures
            io_index(old(self)@, addr) == -1 ==> r is None && final(self)@ == old(self)@,
            io_index(old(self)@, addr) != -1 ==> (r matches Some(d) && *d == old(self)@[io_index(old(self)@, addr)]
                && final(self)@ == old(self)@.update(io_index(old(self)@, addr), *final(d))),
    {
        match self.find_pos(addr) {
            None => None,
            Some(i) => Some(&mut self.map[i]),
        }
    }
}

/// The devices of a guest of the first design.
pub struct VirtualIoMap {
    map: IoMap,
}

impl View for VirtualIoMap {
    type V = Seq<Io>;

    closed spec fn view(&self) -> Seq<Io> {
        self.map@
    }
}

impl VirtualIoMap {
    pub fn new() -> (r: Self)
        ensures
            r@ == Seq::<Io>::empty(),
    {
        VirtualIoMap { map: IoMap::new() }
    }

    /// Adds `vdev` at `[base, base + size)`, after every device whose base is
    /// not below `base`.
    pub fn register(&mut self, base: usize, size: usize, vdev: IoDevice)
        ensures
            final(self)@ == old(self)@.insert(io_insert_pos(old(self)@, base), Io { base, size, vdev }),
            final(self)@.len() == old(self)@.len() + 1,
            final(self)@[io_insert_pos(old(self)@, base)].base == base,
            final(self)@[io_insert_pos(old(self)@, base)].size == size,
            final(self)@[io_insert_pos(old(self)@, base)].vdev == vdev,
            final(self)@.subrange(0, io_insert_pos(old(self)@, base)) == old(self)@.subrange(
                0,
                io_insert_pos(old(self)@, base),
            ),
            final(self)@.subrange(io_insert_pos(old(self)@, base) + 1, final(self)@.len() as int)
                == old(self)@.subrange(io_insert_pos(old(self)@, base), old(self)@.len() as int),
    {
        proof {
            lemma_io_insert_pos_props(self@, base);
        }
        let ghost old_map = self@;
        self.map.register(Io::new(base, size, vdev));
        proof {
            let p = io_insert_pos(old_map, base);
            assert(self@.subrange(0, p) =~= old_map.subrange(0, p));
            assert(self@.subrange(p + 1, self@.len() as int) =~= old_map.subrange(p, old_map.len() as int));
        }
    }

    /// Removing a device is not supported: the map is left as it is.
    pub fn unregister(&mut self, base_addr: usize, size: usize, vdev: IoDevice)
        ensures
            final(self)@ == old(self)@,
    {
    }

    /// The device whose range holds `addr`.
    pub fn get(&self, addr: usize) -> (r: Option<&IoDevice>)
        requires
            io_find_ok(self@, addr),
        ensures
            io_index(self@, addr) == -1 ==> r is None,
            io_index(self@, addr) != -1 ==> r == Some(&self@[io_index(self@, addr)].vdev),
    {
        match self.map.find(addr) {
            None => None,
            Some(i) => Some(&i.vdev),
        }
    }

    /// The device whose range holds `addr`, to change it.
    pub fn get_mut(&mut self, addr: usize) -> (r: Option<&mut IoDevice>)
        requires
            io_find_ok(old(self)@, addr),
        ensures
            io_index(old(self)@, addr) == -1 ==> r is None && final(self)@ == old(self)@,
            io_index(old(self)@, addr) != -1 ==> (r matches Some(d) && *d == old(self)@[io_index(
                old(self)@,
                addr,
            )].vdev),
            r matches Some(d) ==> final(self)@[io_index(old(self)@, addr)].vdev == *final(d),
            final(self)@.len() == old(self)@.len(),
            forall|j: int|
                0 <= j < old(self)@.len() && j != io_index(old(self)@, addr) ==> final(self)@[j] == old(self)@[j],
            io_index(old(self)@, addr) != -1 ==> final(self)@[io_index(old(self)@, addr)].base == old(self)@[io_index(
                old(self)@,
                addr,
            )].base && final(self)@[io_index(old(self)@, addr)].size == old(self)@[io_index(old(self)@, addr)].size,
    {
        match self.map.find_pos(addr) {
            None => None,
            Some(i) => Some(&mut self.map.map[i].vdev),
        }
    }
}

/// Reads as zero and ignores writes.
pub struct ZeroReg {
    reg: u32,
}

impl ZeroReg {
    /// The value held, which reads never show.
    pub closed spec fn value(&self) -> u32 {
        self.reg
    }

    pub fn new() -> (r: Self)
        ensures
            r.value() == 0,
    {
        ZeroReg { reg: 0 }
    }
}

impl VirtualRegister for ZeroReg {
    /// Reads give 0.
    open spec fn reg_value(&self) -> u32 {
        0
    }

    open spec fn value_after_write(&self, val: u32) -> u32 {
        0
    }

    open spec fn value_after_read(&self) -> u32 {
        0
    }

    fn write(&mut self, addr: usize, val: u32) {
    }

    fn read(&mut self, addr: usize) -> (r: u32)
        ensures
            r == 0,
    {
        0
    }
}

} // verus!
