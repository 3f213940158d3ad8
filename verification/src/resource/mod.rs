//! Resource manager: the devices a container owns, by kind.
use vstd::prelude::*;

verus! {

/// A kind of device.
#[derive(PartialEq, Eq, Structural, Clone, Copy, Debug)]
pub enum ResourceType {
    Cpu,
    Intc,
    Timer,
    Serial,
    NoResource,
}

/// A device handed to the resource manager.
pub enum Resource<C, I, T, S> {
    Cpu(Box<C>),
    Intc(Box<I>),
    Timer(Box<T>),
    Serial(Box<S>),
    NoResource,
}

/// A device lent out by the resource manager.
pub enum BorrowResource<'a, C, I, T, S> {
    Cpu(&'a Box<C>),
    Intc(&'a Box<I>),
    Timer(&'a Box<T>),
    Serial(&'a Box<S>),
    NoResource,
}

/// A device lent out by the resource manager, to change it.
pub enum BorrowMutResource<'a, C, I, T, S> {
    Cpu(&'a mut Box<C>),
    Intc(&'a mut Box<I>),
    Timer(&'a mut Box<T>),
    Serial(&'a mut Box<S>),
    NoResource,
}

/// The devices of each kind, numbered from 0 in order of registration.
pub struct ResourceManager<C, I, T, S> {
    cpu: Vec<Box<C>>,
    intc: Vec<Box<I>>,
    timer: Vec<Box<T>>,
    serial: Vec<Box<S>>,
}

impl<C, I, T, S> ResourceManager<C, I, T, S> {
    pub closed spec fn cpus(&self) -> Seq<Box<C>> {
        self.cpu@
    }

    pub closed spec fn intcs(&self) -> Seq<Box<I>> {
        self.intc@
    }

    pub closed spec fn timers(&self) -> Seq<Box<T>> {
        self.timer@
    }

    pub closed spec fn serials(&self) -> Seq<Box<S>> {
        self.serial@
    }

    /// The number of devices of kind `devtype`; 0 for `NoResource`.
    pub open spec fn count(&self, devtype: ResourceType) -> nat {
        match devtype {
            ResourceType::Cpu => self.cpus().len(),
            ResourceType::Intc => self.intcs().len(),
            ResourceType::Timer => self.timers().len(),
            ResourceType::Serial => self.serials().len(),
            ResourceType::NoResource => 0,
        }
    }

    pub fn new() -> (r: Self)
        ensures
            r.cpus().len() == 0,
            r.intcs().len() == 0,
            r.timers().len() == 0,
            r.serials().len() == 0,
    {
        ResourceManager { cpu: Vec::new(), intc: Vec::new(), timer: Vec::new(), serial: Vec::new() }
    }

    /// Adds a device after those of its kind and returns its number; `Err`
    /// for `Resource::NoResource`.
    pub fn register(&mut self, dev: Resource<C, I, T, S>) -> (r: Result<usize, ()>)
        ensures
            match dev {
                Resource::Cpu(c) => r == Ok::<usize, ()>(old(self).cpus().len() as usize) && final(self).cpus()
                    == old(self).cpus().push(c) && final(self).intcs() == old(self).intcs() && final(self).timers()
                    == old(self).timers() && final(self).serials() == old(self).serials(),
                Resource::Intc(i) => r == Ok::<usize, ()>(old(self).intcs().len() as usize) && final(self).intcs()
                    == old(self).intcs().push(i) && final(self).cpus() == old(self).cpus() && final(self).timers()
                    == old(self).timers() && final(self).serials() == old(self).serials(),
                Resource::Timer(t) => r == Ok::<usize, ()>(old(self).timers().len() as usize) && final(self).timers() == old(self).timers().push(t) && final(self).cpus() == old(self).cpus() && final(self).intcs() == old(self).intcs() && final(self).serials() == old(self).serials(),
                Resource::Serial(s) => r == Ok::<usize, ()>(old(self).serials().len() as usize) && final(self).serials() == old(self).serials().push(s) && final(self).cpus() == old(self).cpus() && final(self).intcs() == old(self).intcs() && final(self).timers() == old(self).timers(),
                Resource::NoResource => r == Err::<usize, ()>(()) && final(self).cpus() == old(self).cpus() && final(self).intcs() == old(self).intcs() && final(self).timers() == old(self).timers() && final(self).serials() == old(self).serials(),
            },
    {
        match dev {
            Resource::Cpu(c) => {
                self.cpu.push(c);
                Ok(self.cpu.len() - 1)
            },
            Resource::Intc(i) => {
                self.intc.push(i);
                Ok(self.intc.len() - 1)
            },
            Resource::Timer(t) => {
                self.timer.push(t);
                Ok(self.timer.len() - 1)
            },
            Resource::Serial(s) => {
                self.serial.push(s);
                Ok(self.serial.len() - 1)
            },
            Resource::NoResource => Err(()),
        }
    }

    /// Device `idx` of kind `devtype`; `NoResource` when there are no more than
    /// `idx` devices of that kind, and for kind `NoResource`.
    pub fn get(&self, devtype: ResourceType, idx: usize) -> (r: BorrowResource<'_, C, I, T, S>)
        ensures
            devtype == ResourceType::NoResource || self.count(devtype) <= idx ==> r is NoResource,
            devtype == ResourceType::Cpu && idx < self.count(devtype) ==> r == BorrowResource::<C, I, T, S>::Cpu(
                &self.cpus()[idx as int],
            ),
            devtype == ResourceType::Intc && idx < self.count(devtype) ==> r == BorrowResource::<C, I, T, S>::Intc(
                &self.intcs()[idx as int],
            ),
            devtype == ResourceType::Timer && idx < self.count(devtype) ==> r == BorrowResource::<C, I, T, S>::Timer(
                &self.timers()[idx as int],
            ),
            devtype == ResourceType::Serial && idx < self.count(devtype) ==> r == BorrowResource::<
                C,
                I,
                T,
                S,
            >::Serial(&self.serials()[idx as int]),
    {
        match devtype {
            ResourceType::Cpu => {
                if self.cpu.len() <= idx {
                    BorrowResource::NoResource
                } else {
                    BorrowResource::Cpu(&self.cpu[idx])
                }
            },
            ResourceType::Intc => {
                if self.intc.len() <= idx {
                    BorrowResource::NoResource
                } else {
                    BorrowResource::Intc(&self.intc[idx])
                }
            },
            ResourceType::Timer => {
                if self.timer.len() <= idx {
                    BorrowResource::NoResource
                } else {
                    BorrowResource::Timer(&self.timer[idx])
                }
            },
            ResourceType::Serial => {
                if self.serial.len() <= idx {
                    BorrowResource::NoResource
                } else {
                    BorrowResource::Serial(&self.serial[idx])
                }
            },
            _ => BorrowResource::NoResource,
        }
    }

    /// Device `idx` of kind `devtype`, to change it; `NoResource` as for `get`.
    pub fn get_mut(&mut self, devtype: ResourceType, idx: usize) -> (r: BorrowMutResource<'_, C, I, T, S>)
        ensures
            devtype == ResourceType::NoResource || old(self).count(devtype) <= idx ==> r is NoResource && final(self).cpus()
                == old(self).cpus() && final(self).intcs() == old(self).intcs() && final(self).timers() == old(self).timers() && final(self).serials() == old(self).serials(),
            devtype == ResourceType::Cpu && idx < old(self).count(devtype) ==> (r matches BorrowMutResource::Cpu(c)
                && *c == old(self).cpus()[idx as int] && final(self).cpus() == old(self).cpus().update(
                idx as int,
                *final(c),
            ) && final(self).intcs() == old(self).intcs() && final(self).timers() == old(self).timers() && final(self).serials() == old(self).serials()),
            devtype == ResourceType::Intc && idx < old(self).count(devtype) ==> (r matches BorrowMutResource::Intc(
                i,
            ) && *i == old(self).intcs()[idx as int] && final(self).intcs() == old(self).intcs().update(
                idx as int,
                *final(i),
            ) && final(self).cpus() == old(self).cpus() && final(self).timers() == old(self).timers() && final(self).serials() == old(self).serials()),
            devtype == ResourceType::Timer && idx < old(self).count(devtype) ==> (r matches BorrowMutResource::Timer(
                t,
            ) && *t == old(self).timers()[idx as int] && final(self).timers() == old(self).timers().update(
                idx as int,
                *final(t),
            ) && final(self).cpus() == old(self).cpus() && final(self).intcs() == old(self).intcs() && final(self).serials() == old(self).serials()),
            devtype == ResourceType::Serial && idx < old(self).count(devtype) ==> (r matches BorrowMutResource::Serial(
                s,
            ) && *s == old(self).serials()[idx as int] && final(self).serials() == old(self).serials().update(
                idx as int,
                *final(s),
            ) && final(self).cpus() == old(self).cpus() && final(self).intcs() == old(self).intcs() && final(self).timers() == old(self).timers()),
    {
        match devtype {
            ResourceType::Cpu => {
                if self.cpu.len() <= idx {
                    BorrowMutResource::NoResource
                } else {
                    BorrowMutResource::Cpu(&mut self.cpu[idx])
                }
            },
            ResourceType::Intc => {
                if self.intc.len() <= idx {
                    BorrowMutResource::NoResource
                } else {
                    BorrowMutResource::Intc(&mut self.intc[idx])
                }
            },
            ResourceType::Timer => {
                if self.timer.len() <= idx {
                    BorrowMutResource::NoResource
                } else {
                    BorrowMutResource::Timer(&mut self.timer[idx])
                }
            },
            ResourceType::Serial => {
                if self.serial.len() <= idx {
                    BorrowMutResource::NoResource
                } else {
                    BorrowMutResource::Serial(&mut self.serial[idx])
                }
            },
            _ => BorrowMutResource::NoResource,
        }
    }
}

} // verus!
