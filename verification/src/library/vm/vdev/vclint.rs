//! Virtual CLINT: the guest's machine timer.
use vstd::prelude::*;
use super::{DeviceAction, DeviceEnv, DeviceModel, VirtualDeviceT};

verus! {

pub const MTIME_OFFSET: usize = 0xbff8;
pub const MTIMECMP_OFFSET: usize = 0x4000;
pub const BASE_ADDRESS: usize = 0x200_0000;
pub const ADDRESS_RANGE: usize = 0x1_0000;
pub const MASK: usize = 0xffff;

/// Ticks added to the machine time when the guest programs its timer, so
/// that the interrupt comes after the hypervisor's own overhead.
pub const TIMER_MARGIN: u64 = 3000;

/// The machine time at which a timer programmed at `now` fires.
pub open spec fn deadline(now: u64) -> u64 {
    (now + TIMER_MARGIN) as u64
}

/// `addr` is the guest's `mtime` register.
pub open spec fn is_time_reg(addr: usize) -> bool {
    addr & MASK == MTIME_OFFSET
}

/// `addr` is the guest's timer compare register (`mtimecmp`).
pub open spec fn is_compare_reg(addr: usize) -> bool {
    addr & MASK == MTIMECMP_OFFSET
}

/// The guest's time after one more read.
pub open spec fn next_tick(t: u64) -> u64 {
    (t + 1) as u64
}

/// `x` cut to 64 bits.
pub open spec fn spec_low64(x: usize) -> u64 {
    x as u64
}

/// `x` cut to the width of a machine word.
pub open spec fn spec_word(x: u64) -> usize {
    x as usize
}

fn low64(x: usize) -> (r: u64)
    ensures
        r == spec_low64(x),
{
    x as u64
}

fn word(x: u64) -> (r: usize)
    ensures
        r == spec_word(x),
{
    x as usize
}

/// The guest's view of `mtime` and `mtimecmp`.
pub struct VClint {
    mtime: u64,
    mtimecmp: u64,
}

impl VClint {
    pub closed spec fn spec_mtime(&self) -> u64 {
        self.mtime
    }

    pub closed spec fn spec_mtimecmp(&self) -> u64 {
        self.mtimecmp
    }

    pub fn new() -> (r: Self)
        ensures
            r.spec_mtime() == 0,
            r.spec_mtimecmp() == 0,
    {
        VClint { mtime: 0, mtimecmp: 0 }
    }

    /// `mtime` is read only for the guest.
    fn mtime_write(&mut self, addr: usize, val: u64)
        ensures
            final(self).spec_mtime() == old(self).spec_mtime(),
            final(self).spec_mtimecmp() == old(self).spec_mtimecmp(),
    {
    }

    /// The guest's time advances by one at each read.
    fn mtime_read(&mut self, addr: usize) -> (r: u64)
        requires
            old(self).spec_mtime() < u64::MAX,
        ensures
            r == old(self).spec_mtime() + 1,
            final(self).spec_mtime() == r,
            final(self).spec_mtimecmp() == old(self).spec_mtimecmp(),
    {
        self.mtime = self.mtime + 1;
        self.mtime
    }

    /// The guest programs its timer: the pending timer interrupt is lowered
    /// and the real timer is set `TIMER_MARGIN` ticks after the current
    /// machine time, which becomes the guest's time.
    fn mtimecmp_write(&mut self, addr: usize, val: u64, now: u64) -> (r: Vec<DeviceAction>)
        requires
            now + TIMER_MARGIN <= u64::MAX,
        ensures
            final(self).spec_mtimecmp() == val,
            final(self).spec_mtime() == now + TIMER_MARGIN,
            r@ == seq![DeviceAction::FlushVsTimer, DeviceAction::SetTimer { stime: deadline(now) }],
    {
        let mut r = Vec::new();
        r.push(DeviceAction::FlushVsTimer);
        let current = now + TIMER_MARGIN;
        r.push(DeviceAction::SetTimer { stime: current });
        self.mtimecmp = val;
        self.mtime = current;
        r
    }

    fn mtimecmp_read(&mut self, addr: usize) -> (r: u64)
        ensures
            r == old(self).spec_mtimecmp(),
            final(self).spec_mtime() == old(self).spec_mtime(),
            final(self).spec_mtimecmp() == old(self).spec_mtimecmp(),
    {
        self.mtimecmp
    }
}

impl VirtualDeviceT for VClint {
    open spec fn model(&self) -> DeviceModel {
        DeviceModel::Clint { mtime: self.spec_mtime(), compare: self.spec_mtimecmp() }
    }

    /// A write of `mtimecmp` programs the timer; every other write is
    /// ignored.
    fn write(&mut self, addr: usize, val: usize, env: &DeviceEnv) -> (r: Vec<DeviceAction>)
        ensures
            addr & MASK == MTIMECMP_OFFSET ==> final(self).spec_mtimecmp() == spec_low64(val) && final(self).spec_mtime()
                == env.mtime + TIMER_MARGIN && r@ == seq![
                DeviceAction::FlushVsTimer,
                DeviceAction::SetTimer { stime: deadline(env.mtime) },
            ],
            addr & MASK != MTIMECMP_OFFSET ==> final(self).spec_mtime() == old(self).spec_mtime()
                && final(self).spec_mtimecmp() == old(self).spec_mtimecmp() && r@ == Seq::<DeviceAction>::empty(),
    {
        let off = addr & MASK;
        if off == MTIME_OFFSET {
            self.mtime_write(addr, low64(val));
            Vec::new()
        } else if off == MTIMECMP_OFFSET {
            self.mtimecmp_write(addr, low64(val), env.mtime)
        } else {
            Vec::new()
        }
    }

    /// A read of `mtime` gives the guest's time, advanced by one; a read of
    /// `mtimecmp` gives its last value; other reads give 0.
    fn read(&mut self, addr: usize, env: &DeviceEnv) -> (r: (usize, Vec<DeviceAction>))
        ensures
            r.1@ == Seq::<DeviceAction>::empty(),
            final(self).spec_mtimecmp() == old(self).spec_mtimecmp(),
            addr & MASK == MTIME_OFFSET ==> final(self).spec_mtime() == old(self).spec_mtime() + 1 && r.0
                == spec_word(next_tick(old(self).spec_mtime())),
            addr & MASK == MTIMECMP_OFFSET ==> final(self).spec_mtime() == old(self).spec_mtime() && r.0
                == spec_word(old(self).spec_mtimecmp()),
            addr & MASK != MTIME_OFFSET && addr & MASK != MTIMECMP_OFFSET ==> final(self).spec_mtime() == old(self).spec_mtime() && r.0 == 0,
    {
        let off = addr & MASK;
        let ret = if off == MTIME_OFFSET {
            self.mtime_read(addr)
        } else if off == MTIMECMP_OFFSET {
            self.mtimecmp_read(addr)
        } else {
            0
        };
        (word(ret), Vec::new())
    }

    /// Interrupts are ignored.
    fn interrupt(&mut self, intid: usize, env: &DeviceEnv) -> (r: Vec<DeviceAction>)
        ensures
            final(self).spec_mtime() == old(self).spec_mtime(),
            final(self).spec_mtimecmp() == old(self).spec_mtimecmp(),
            r@ == Seq::<DeviceAction>::empty(),
    {
        Vec::new()
    }

    fn forwards_reads(&self) -> (r: bool)
        ensures
            !r,
    {
        false
    }
}

} // verus!
