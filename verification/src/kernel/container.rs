//! Containers: a kernel and the devices it owns.
use vstd::prelude::*;
use crate::environment::NUM_OF_CPUS;
use crate::kernel::{Kernel, INITIAL_HEAP};

verus! {

/// A container: its number, kernel, CPUs, interrupt controller, timer and
/// serial port.
pub struct Container<C, I, T, S> {
    pub id: usize,
    pub kernel: Kernel,
    pub cpu: Vec<Option<Box<C>>>,
    pub intc: Option<Box<I>>,
    pub timer: Option<Box<T>>,
    pub serial: Option<Box<S>>,
}

impl<C, I, T, S> Container<C, I, T, S> {
    /// Container `id`, with its kernel and no device.
    pub fn new(id: usize) -> (r: Self)
        ensures
            r.id == id,
            r.kernel.spec_heap() == INITIAL_HEAP,
            r.cpu@ == Seq::<Option<Box<C>>>::empty(),
            r.intc is None,
            r.timer is None,
            r.serial is None,
    {
        Container {
            id,
            kernel: Kernel::create_custom_kernel(id),
            cpu: Vec::new(),
            intc: None,
            serial: None,
            timer: None,
        }
    }

    /// Adds a CPU after those already there.
    pub fn register_cpu(&mut self, cpu: C)
        ensures
            final(self).cpu@ == old(self).cpu@.push(Some(Box::new(cpu))),
            final(self).id == old(self).id,
            final(self).kernel == old(self).kernel,
            final(self).intc == old(self).intc,
            final(self).timer == old(self).timer,
            final(self).serial == old(self).serial,
    {
        self.cpu.push(Some(Box::new(cpu)));
    }

    /// Sets the interrupt controller.
    pub fn register_intc(&mut self, intc: I)
        ensures
            final(self).intc == Some(Box::new(intc)),
            final(self).id == old(self).id,
            final(self).kernel == old(self).kernel,
            final(self).cpu == old(self).cpu,
            final(self).timer == old(self).timer,
            final(self).serial == old(self).serial,
    {
        self.intc = Some(Box::new(intc));
    }

    /// Sets the timer.
    pub fn register_timer(&mut self, timer: T)
        ensures
            final(self).timer == Some(Box::new(timer)),
            final(self).id == old(self).id,
            final(self).kernel == old(self).kernel,
            final(self).cpu == old(self).cpu,
            final(self).intc == old(self).intc,
            final(self).serial == old(self).serial,
    {
        self.timer = Some(Box::new(timer));
    }

    /// Sets the serial port.
    pub fn register_serial(&mut self, serial: S)
        ensures
            final(self).serial == Some(Box::new(serial)),
            final(self).id == old(self).id,
            final(self).kernel == old(self).kernel,
            final(self).cpu == old(self).cpu,
            final(self).intc == old(self).intc,
            final(self).timer == old(self).timer,
    {
        self.serial = Some(Box::new(serial));
    }
}

/// The containers, numbered from 0 in order of creation, and the container
/// each physical CPU runs.
pub struct ContainerTable<C, I, T, S> {
    containers: Vec<Option<Box<Container<C, I, T, S>>>>,
    cpu2container: [usize; NUM_OF_CPUS],
}

impl<C, I, T, S> ContainerTable<C, I, T, S> {
    /// The slots of the containers, in order of creation.
    pub closed spec fn slots(&self) -> Seq<Option<Box<Container<C, I, T, S>>>> {
        self.containers@
    }

    /// The container each physical CPU runs.
    pub closed spec fn cpu_map(&self) -> Seq<usize> {
        self.cpu2container@
    }

    /// No container; every CPU runs container 0.
    pub fn new() -> (r: Self)
        ensures
            r.slots() == Seq::<Option<Box<Container<C, I, T, S>>>>::empty(),
            r.cpu_map() == Seq::new(NUM_OF_CPUS as nat, |i: int| 0usize),
    {
        let r = ContainerTable { containers: Vec::new(), cpu2container: [0; NUM_OF_CPUS] };
        assert(r.cpu_map() =~= Seq::new(NUM_OF_CPUS as nat, |i: int| 0usize));
        r
    }

    /// Creates a container numbered by its position, and returns its number.
    pub fn add(&mut self) -> (r: usize)
        ensures
            r == old(self).slots().len(),
            final(self).slots().len() == old(self).slots().len() + 1,
            final(self).slots().drop_last() == old(self).slots(),
            final(self).slots().last() matches Some(c) && c.id == r && c.cpu@.len() == 0 && c.intc is None
                && c.timer is None && c.serial is None,
            final(self).cpu_map() == old(self).cpu_map(),
    {
        let id: usize = self.containers.len();
        self.containers.push(Some(Box::new(Container::new(id))));
        assert(self.slots().drop_last() =~= old(self).slots());
        id
    }

    /// Container `id`, if it exists.
    pub fn get(&self, id: usize) -> (r: Option<&Box<Container<C, I, T, S>>>)
        ensures
            id < self.slots().len() ==> r == match self.slots()[id as int] {
                Some(c) => Some(&c),
                None => None,
            },
            id >= self.slots().len() ==> r is None,
    {
        if id < self.containers.len() {
            match &self.containers[id] {
                Some(c) => Some(c),
                None => None,
            }
        } else {
            None
        }
    }

    /// Container `id`, to change it, if it exists.
    pub fn get_mut(&mut self, id: usize) -> (r: Option<&mut Box<Container<C, I, T, S>>>)
        ensures
            final(self).cpu_map() == old(self).cpu_map(),
            id >= old(self).slots().len() ==> r is None && final(self).slots() == old(self).slots(),
            id < old(self).slots().len() && old(self).slots()[id as int] is None ==> r is None
                && final(self).slots() == old(self).slots(),
            id < old(self).slots().len() && old(self).slots()[id as int] is Some ==> (r matches Some(c)
                && *c == old(self).slots()[id as int]->0 && final(self).slots() == old(self).slots().update(
                id as int,
                Some(*final(c)),
            )),
    {
        if id < self.containers.len() {
            if self.containers[id].is_some() {
                self.containers[id].as_mut()
            } else {
                None
            }
        } else {
            None
        }
    }

    /// The container that physical CPU `cpuid` runs.
    pub fn current_id(&self, cpuid: usize) -> (r: usize)
        requires
            cpuid < NUM_OF_CPUS,
        ensures
            r == self.cpu_map()[cpuid as int],
    {
        self.cpu2container[cpuid]
    }
}

} // verus!
