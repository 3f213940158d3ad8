//! System: configuration, containers and the hypervisor.
pub mod config;
pub mod container;
pub mod hypervisor;
pub mod vm;

use vstd::prelude::*;
use config::{get_container_bsp, get_container_id, SystemConfig};

verus! {

/// What a CPU does when it enters its container.
#[derive(PartialEq, Eq, Structural, Clone, Copy, Debug)]
pub enum EnterAction {
    /// The CPU is the bootstrap processor of container `id`: it sets the
    /// container up and runs it.
    SetupAndRun(usize),
    /// Another CPU of container `id`: it waits until the container is
    /// ready, then enters it.
    WaitAndEnter(usize),
}

/// What CPU `cpu_id` does when it enters its container, by the system
/// configuration; `None` when its container is not one of the configured
/// ones (no container has the CPU, or its number is out of range).
pub fn enter_container_action<const N: usize>(config: &SystemConfig<N>, cpu_id: usize) -> (r: Option<
    EnterAction,
>)
    requires
        cpu_id < 64,
    ensures
        ({
            let id = config::container_id_of(config, cpu_id);
            &&& (id == 0 || id > N) ==> r is None
            &&& 1 <= id <= N && config.container@[id - 1].bsp == cpu_id ==> r == Some(
                EnterAction::SetupAndRun(id),
            )
            &&& 1 <= id <= N && config.container@[id - 1].bsp != cpu_id ==> r == Some(
                EnterAction::WaitAndEnter(id),
            )
        }),
{
    let id = get_container_id(config, cpu_id);
    if id == 0 || id > N {
        return None;
    }
    if get_container_bsp(config, id) == cpu_id {
        Some(EnterAction::SetupAndRun(id))
    } else {
        Some(EnterAction::WaitAndEnter(id))
    }
}

} // verus!
