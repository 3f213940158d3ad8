//! A device that logs the guest's accesses and, when passing through,
//! forwards them to the physical device at the same address.
use vstd::prelude::*;
use super::{DeviceAction, DeviceEnv, DeviceModel, VirtualDeviceT};

verus! {

/// One logged access.
#[derive(PartialEq, Eq, Structural, Clone, Copy, Debug)]
pub enum AccessType {
    Read { addr: usize, val: usize },
    Write { addr: usize, val: usize },
    Interrupt { intid: usize },
}

/// A logged access and the tick at which it was made.
#[derive(PartialEq, Eq, Structural, Clone, Copy, Debug)]
pub struct AccessRecord {
    pub tick: usize,
    pub access: AccessType,
}

pub struct AccessLogger {
    path_through: bool,
    log: Vec<AccessRecord>,
}

impl AccessLogger {
    pub closed spec fn spec_path_through(&self) -> bool {
        self.path_through
    }

    /// The accesses logged, oldest first.
    pub closed spec fn spec_log(&self) -> Seq<AccessRecord> {
        self.log@
    }

    pub fn new(path_through: bool) -> (r: Self)
        ensures
            r.spec_path_through() == path_through,
            r.spec_log() == Seq::<AccessRecord>::empty(),
    {
        AccessLogger { path_through, log: Vec::new() }
    }

    /// The accesses logged, oldest first.
    pub fn records(&self) -> (r: &Vec<AccessRecord>)
        ensures
            r@ == self.spec_log(),
    {
        &self.log
    }
}

impl VirtualDeviceT for AccessLogger {
    open spec fn model(&self) -> DeviceModel {
        DeviceModel::Logger { path_through: self.spec_path_through(), log: self.spec_log() }
    }

    /// Logs the write and, when passing through, forwards it.
    fn write(&mut self, addr: usize, val: usize, env: &DeviceEnv) -> (r: Vec<DeviceAction>)
        ensures
            final(self).spec_path_through() == old(self).spec_path_through(),
            final(self).spec_log() == old(self).spec_log().push(
                AccessRecord { tick: env.tick, access: AccessType::Write { addr, val } },
            ),
            old(self).spec_path_through() ==> r@ == seq![DeviceAction::RawWrite { addr, data: val }],
            !old(self).spec_path_through() ==> r@ == Seq::<DeviceAction>::empty(),
    {
        self.log.push(AccessRecord { tick: env.tick, access: AccessType::Write { addr, val } });
        let mut r = Vec::new();
        if self.path_through {
            r.push(DeviceAction::RawWrite { addr, data: val });
        }
        r
    }

    /// Logs the read; when passing through, the value is the one read from
    /// the physical device (`env.raw`), otherwise 0.
    fn read(&mut self, addr: usize, env: &DeviceEnv) -> (r: (usize, Vec<DeviceAction>))
        ensures
            final(self).spec_path_through() == old(self).spec_path_through(),
            r.0 == (if old(self).spec_path_through() {
                env.raw
            } else {
                0
            }),
            final(self).spec_log() == old(self).spec_log().push(
                AccessRecord { tick: env.tick, access: AccessType::Read { addr, val: r.0 } },
            ),
            r.1@ == Seq::<DeviceAction>::empty(),
    {
        if self.path_through {
            let val = env.raw;
            self.log.push(AccessRecord { tick: env.tick, access: AccessType::Read { addr, val } });
            (val, Vec::new())
        } else {
            self.log.push(AccessRecord { tick: env.tick, access: AccessType::Read { addr, val: 0 } });
            (0, Vec::new())
        }
    }

    /// Logs the interrupt.
    fn interrupt(&mut self, intid: usize, env: &DeviceEnv) -> (r: Vec<DeviceAction>)
        ensures
            final(self).spec_path_through() == old(self).spec_path_through(),
            final(self).spec_log() == old(self).spec_log().push(
                AccessRecord { tick: env.tick, access: AccessType::Interrupt { intid } },
            ),
            r@ == Seq::<DeviceAction>::empty(),
    {
        self.log.push(AccessRecord { tick: env.tick, access: AccessType::Interrupt { intid } });
        Vec::new()
    }

    /// Reads need the physical value when passing through.
    fn forwards_reads(&self) -> (r: bool)
        ensures
            r == self.spec_path_through(),
    {
        self.path_through
    }
}

} // verus!
