//! System configuration, read when containers are created.
use vstd::prelude::*;

verus! {

pub const MAX_CONTAINERS: usize = 1;

/// Configuration of a container.
#[derive(Clone, Copy, Debug)]
pub struct ContainerConfig {
    /// Container number (from 1).
    pub id: usize,
    /// Number of CPUs in the container.
    pub num_of_cpus: usize,
    /// Bitmap of the cores of the container.
    pub cores: u64,
    /// Bootstrap processor of the container.
    pub bsp: usize,
}

/// Configuration of the whole system.
pub struct SystemConfig<const NUM_OF_CONTAINERS: usize> {
    pub num_of_cpus: usize,
    pub num_of_containers: usize,
    pub container: [ContainerConfig; NUM_OF_CONTAINERS],
}

/// Core `core_id` belongs to container configuration `c`.
pub open spec fn has_core(c: ContainerConfig, core_id: usize) -> bool {
    c.cores & (1u64 << (core_id as u64)) != 0
}

/// The number of the first container whose core bitmap has core `core_id`,
/// or 0 when none has it.
pub open spec fn container_id_of<const N: usize>(config: &SystemConfig<N>, core_id: usize) -> usize {
    if exists|j: int| 0 <= j < N && has_core(#[trigger] config.container@[j], core_id) {
        config.container@[choose|k: int|
            0 <= k < N && has_core(config.container@[k], core_id) && forall|j: int|
                0 <= j < k ==> !has_core(#[trigger] config.container@[j], core_id)].id
    } else {
        0
    }
}

/// The number of the first container whose core bitmap has core `core_id`,
/// or 0 when none has it.
pub fn get_container_id<const N: usize>(config: &SystemConfig<N>, core_id: usize) -> (r: usize)
    requires
        core_id < 64,
    ensures
        r == container_id_of(config, core_id),
{
    let mut i: usize = 0;
    while i < N
        invariant
            i <= N,
            core_id < 64,
            forall|j: int| 0 <= j < i ==> !has_core(#[trigger] config.container@[j], core_id),
        decreases N - i,
    {
        let c = config.container[i];
        if c.cores & (1u64 << (core_id as u64)) != 0 {
            assert(has_core(config.container@[i as int], core_id));
            let ghost k = choose|k: int| 0 <= k < N && has_core(config.container@[k], core_id) && forall|j: int|
                0 <= j < k ==> !has_core(#[trigger] config.container@[j], core_id);
            assert(k == i) by {
                if k < i {
                    assert(!has_core(config.container@[k], core_id));
                } else if k > i {
                    assert(!has_core(config.container@[i as int], core_id));
                }
            }
            return c.id;
        }
        i = i + 1;
    }
    0
}

/// The bootstrap processor of container `container_id` (numbered from 1).
pub fn get_container_bsp<const N: usize>(config: &SystemConfig<N>, container_id: usize) -> (r: usize)
    requires
        1 <= container_id <= N,
    ensures
        r == config.container@[container_id - 1].bsp,
{
    config.container[container_id - 1].bsp
}

/// The number of CPUs of the system.
pub fn get_num_of_cpus<const N: usize>(config: &SystemConfig<N>) -> (r: usize)
    ensures
        r == config.num_of_cpus,
{
    config.num_of_cpus
}

} // verus!
