//! Containers of the hypervisor, numbered from 1.
use vstd::prelude::*;
use crate::kernel::{Kernel, INITIAL_HEAP};
use crate::resource::{Resource, ResourceManager};

verus! {

/// State of a container.
#[derive(Debug, Clone, Copy, PartialEq, Eq, Structural)]
pub enum ContainerState {
    Stopped,
    Running,
}

/// A container: its number, state, kernel and resources.
pub struct Container<C, I, T, S> {
    id: usize,
    state: ContainerState,
    pub kernel: Kernel,
    pub rm: ResourceManager<C, I, T, S>,
}

impl<C, I, T, S> Container<C, I, T, S> {
    pub closed spec fn spec_id(&self) -> usize {
        self.id
    }

    pub closed spec fn spec_state(&self) -> ContainerState {
        self.state
    }

    pub closed spec fn spec_kernel(&self) -> Kernel {
        self.kernel
    }

    pub closed spec fn spec_rm(&self) -> ResourceManager<C, I, T, S> {
        self.rm
    }

    /// A stopped container numbered `id`, with its kernel and no resource.
    pub fn new(id: usize) -> (r: Self)
        ensures
            r.spec_id() == id,
            r.spec_state() == ContainerState::Stopped,
            r.spec_kernel().spec_heap() == INITIAL_HEAP,
            r.spec_rm().cpus().len() == 0 && r.spec_rm().intcs().len() == 0 && r.spec_rm().timers().len() == 0 && r.spec_rm().serials().len()
                == 0,
    {
        Container {
            id,
            state: ContainerState::Stopped,
            kernel: Kernel::create_custom_kernel(id),
            rm: ResourceManager::new(),
        }
    }

    /// Marks the container running; its kernel is then entered.
    pub fn run(&mut self)
        ensures
            final(self).spec_state() == ContainerState::Running,
            final(self).spec_id() == old(self).spec_id(),
            final(self).spec_kernel() == old(self).spec_kernel(),
            final(self).spec_rm() == old(self).spec_rm(),
    {
        self.state = ContainerState::Running;
    }

    /// Whether the container is running.
    pub fn is_running(&self) -> (r: bool)
        ensures
            r == (self.spec_state() == ContainerState::Running),
    {
        self.state == ContainerState::Running
    }
}

/// The containers; container `id` is at index `id - 1`.
pub struct ContainerTable<C, I, T, S> {
    containers: Vec<Container<C, I, T, S>>,
}

impl<C, I, T, S> View for ContainerTable<C, I, T, S> {
    type V = Seq<Container<C, I, T, S>>;

    closed spec fn view(&self) -> Seq<Container<C, I, T, S>> {
        self.containers@
    }
}

impl<C, I, T, S> ContainerTable<C, I, T, S> {
    pub fn new() -> (r: Self)
        ensures
            r@ == Seq::<Container<C, I, T, S>>::empty(),
    {
        ContainerTable { containers: Vec::new() }
    }

    /// Creates a container and returns its number: one more than the number
    /// of containers before.
    pub fn create(&mut self) -> (r: usize)
        requires
            old(self)@.len() < usize::MAX,
        ensures
            r == old(self)@.len() + 1,
            final(self)@.len() == old(self)@.len() + 1,
            final(self)@.drop_last() == old(self)@,
            final(self)@.last().spec_id() == r,
            final(self)@.last().spec_state() == ContainerState::Stopped,
            final(self)@.last().spec_kernel().spec_heap() == INITIAL_HEAP,
            final(self)@.last().spec_rm().cpus().len() == 0,
            final(self)@.last().spec_rm().intcs().len() == 0,
            final(self)@.last().spec_rm().timers().len() == 0,
            final(self)@.last().spec_rm().serials().len() == 0,
    {
        let id: usize = Self::idx2id(self.containers.len());
        self.containers.push(Container::new(id));
        assert(self@.drop_last() =~= old(self)@);
        id
    }

    /// Container `id`.
    pub fn get(&self, id: usize) -> (r: &Container<C, I, T, S>)
        requires
            1 <= id <= self@.len(),
        ensures
            *r == self@[id - 1],
    {
        &self.containers[Self::id2idx(id)]
    }

    /// Container `id`, to change it.
    pub fn get_mut(&mut self, id: usize) -> (r: &mut Container<C, I, T, S>)
        requires
            1 <= id <= old(self)@.len(),
        ensures
            *r == old(self)@[id - 1],
            final(self)@ == old(self)@.update(id - 1, *final(r)),
    {
        let i = Self::id2idx(id);
        &mut self.containers[i]
    }

    /// Whether container `id` exists (there is no container 0).
    pub fn is_exist(&self, id: usize) -> (r: bool)
        ensures
            r == (1 <= id <= self@.len()),
    {
        id >= 1 && Self::id2idx(id) < self.containers.len()
    }

    /// The index of container `id`.
    fn id2idx(id: usize) -> (r: usize)
        requires
            id >= 1,
        ensures
            r == id - 1,
    {
        id - 1
    }

    /// The number of the container at index `idx`.
    fn idx2id(idx: usize) -> (r: usize)
        requires
            idx < usize::MAX,
        ensures
            r == idx + 1,
    {
        idx + 1
    }
}

/// Whether the current CPU, which runs container `current_id`, is in a
/// container (container numbers start at 1).
pub fn does_container_exist(current_id: usize) -> (r: bool)
    ensures
        r == (current_id != 0),
{
    current_id != 0
}

/// Whether container `id` exists and is running.
pub fn is_ready_container<C, I, T, S>(table: &ContainerTable<C, I, T, S>, id: usize) -> (r: bool)
    ensures
        r == (1 <= id <= table@.len() && table@[id - 1].spec_state() == ContainerState::Running),
{
    table.is_exist(id) && table.get(id).is_running()
}

/// Maximum number of resources per container.
pub const MAX_NUM_OF_RESOURCE: usize = 8;

/// Parameters for creating a container.
pub struct ContainerParam<C, I, T, S> {
    pub resource: ResourceParam<C, I, T, S>,
    pub kernel: KernelParam,
}

/// Resources given to a container.
pub struct ResourceParam<C, I, T, S> {
    pub resource: [Resource<C, I, T, S>; MAX_NUM_OF_RESOURCE],
}

/// The root task of a container's kernel (the address of its function) and
/// the processor that runs it.
pub struct KernelParam {
    root_task: usize,
    prcid: usize,
}

impl KernelParam {
    pub closed spec fn spec_root_task(&self) -> usize {
        self.root_task
    }

    pub closed spec fn spec_prcid(&self) -> usize {
        self.prcid
    }

    pub fn new(root_task: usize, prcid: usize) -> (r: Self)
        ensures
            r.spec_root_task() == root_task,
            r.spec_prcid() == prcid,
    {
        KernelParam { root_task, prcid }
    }
}

} // verus!
