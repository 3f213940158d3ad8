use violet::resource::{BorrowMutResource, BorrowResource, Resource, ResourceManager, ResourceType};
use violet::system::config::{get_container_bsp, get_container_id, get_num_of_cpus, ContainerConfig, SystemConfig};
use violet::system::container::{
    does_container_exist, is_ready_container, ContainerState, ContainerTable, KernelParam,
};
use violet::system::hypervisor::arch::riscv::sbi::{sbi_set_timer, Extension};
use violet::system::hypervisor::Hypervisor;
use violet::system::{enter_container_action, EnterAction};
use violet::kernel::heap::operator::HeapOperator;
use violet::kernel::Kernel;

struct Uart(usize);
struct Cpu;
struct Intc;
struct Timer;

fn config() -> SystemConfig<2> {
    SystemConfig {
        num_of_cpus: 4,
        num_of_containers: 2,
        container: [
            ContainerConfig { id: 1, num_of_cpus: 2, cores: 0b0011, bsp: 0 },
            ContainerConfig { id: 2, num_of_cpus: 2, cores: 0b1110, bsp: 2 },
        ],
    }
}

#[test]
fn config_container_of_core() {
    let c = config();
    assert_eq!(get_container_id(&c, 0), 1);
    assert_eq!(get_container_id(&c, 1), 1);
    // Core 1 is in both bitmaps: the first container wins.
    assert_eq!(get_container_id(&c, 2), 2);
    assert_eq!(get_container_id(&c, 3), 2);
    assert_eq!(get_container_id(&c, 4), 0);
    assert_eq!(get_container_id(&c, 63), 0);
    assert_eq!(get_container_bsp(&c, 1), 0);
    assert_eq!(get_container_bsp(&c, 2), 2);
    assert_eq!(get_num_of_cpus(&c), 4);
}

#[test]
fn test_rm() {
    let mut rm: ResourceManager<Cpu, Intc, Timer, Uart> = ResourceManager::new();
    let idx = rm.register(Resource::Serial(Box::new(Uart(0x1000_0000))));
    assert_eq!(idx, Ok(0));
    if let BorrowResource::Serial(x) = rm.get(ResourceType::Serial, 0) {
        assert_eq!(x.0, 0x1000_0000);
    } else {
        panic!("Failed to open Resource");
    }
}

#[test]
fn resource_numbers_by_kind() {
    let mut rm: ResourceManager<Cpu, Intc, Timer, Uart> = ResourceManager::new();
    assert_eq!(rm.register(Resource::Serial(Box::new(Uart(1)))), Ok(0));
    assert_eq!(rm.register(Resource::Cpu(Box::new(Cpu))), Ok(0));
    assert_eq!(rm.register(Resource::Serial(Box::new(Uart(2)))), Ok(1));
    assert_eq!(rm.register(Resource::Intc(Box::new(Intc))), Ok(0));
    assert_eq!(rm.register(Resource::Timer(Box::new(Timer))), Ok(0));
    assert_eq!(rm.register(Resource::NoResource), Err(()));
    assert!(matches!(rm.get(ResourceType::Serial, 1), BorrowResource::Serial(u) if u.0 == 2));
    assert!(matches!(rm.get(ResourceType::Cpu, 0), BorrowResource::Cpu(_)));
    assert!(matches!(rm.get(ResourceType::Intc, 0), BorrowResource::Intc(_)));
    assert!(matches!(rm.get(ResourceType::Timer, 0), BorrowResource::Timer(_)));
    // More than one past the last: nothing.
    assert!(matches!(rm.get(ResourceType::Serial, 3), BorrowResource::NoResource));
    assert!(matches!(rm.get(ResourceType::NoResource, 0), BorrowResource::NoResource));
    if let BorrowMutResource::Serial(u) = rm.get_mut(ResourceType::Serial, 0) {
        u.0 = 9;
    }
    assert!(matches!(rm.get(ResourceType::Serial, 0), BorrowResource::Serial(u) if u.0 == 9));
    assert!(matches!(rm.get_mut(ResourceType::Timer, 5), BorrowMutResource::NoResource));
}

#[test]
fn test_container() {
    let mut table: ContainerTable<Cpu, Intc, Timer, Uart> = ContainerTable::new();
    assert!(!table.is_exist(1));
    let id = table.create();
    assert_eq!(id, 1);
    assert!(table.is_exist(1));
    assert!(!is_ready_container(&table, 1));
    assert_eq!(table.get(1).kernel.heap(), violet::kernel::INITIAL_HEAP);
}

#[test]
fn container_run_and_ready() {
    let mut table: ContainerTable<Cpu, Intc, Timer, Uart> = ContainerTable::new();
    assert_eq!(table.create(), 1);
    assert_eq!(table.create(), 2);
    assert!(!is_ready_container(&table, 2));
    table.get_mut(2).run();
    assert!(is_ready_container(&table, 2));
    assert!(!is_ready_container(&table, 1));
    assert!(!is_ready_container(&table, 3));
    assert!(table.get(2).is_running());
    assert_eq!(
        table.get_mut(1).rm.register(Resource::Serial(Box::new(Uart(0x1000_0000)))),
        Ok(0)
    );
    assert!(matches!(table.get(1).rm.get(ResourceType::Serial, 0), BorrowResource::Serial(_)));
    assert_eq!(table.get(1).kernel.heap(), violet::kernel::INITIAL_HEAP);
}

#[test]
fn container_existence_of_current() {
    assert!(!does_container_exist(0));
    assert!(does_container_exist(1));
    assert_eq!(ContainerState::Running, ContainerState::Running);
    let _p = KernelParam::new(0x8000_0000, 0);
}

#[test]
fn sbi_numbers() {
    assert_eq!(sbi_set_timer(0x1234), (0, 0, 0x1234));
    assert_eq!(Extension::Base.number(), 0x10);
    assert_eq!(Extension::Timer.number(), 0x5449_4D45);
    assert_eq!(Extension::Ipi.number(), 0x73_5049);
    assert_eq!(Extension::Rfence.number(), 0x5246_4E43);
    assert_eq!(Extension::SystemShutdown.number(), 8);
    assert_eq!(Extension::ConsolePutchar.number(), 1);
}

#[test]
fn hypervisor_new() {
    let _h = Hypervisor::new();
}

#[test]
fn enter_container_decisions() {
    let c = config();
    assert_eq!(enter_container_action(&c, 0), Some(EnterAction::SetupAndRun(1)));
    assert_eq!(enter_container_action(&c, 1), Some(EnterAction::WaitAndEnter(1)));
    assert_eq!(enter_container_action(&c, 2), Some(EnterAction::SetupAndRun(2)));
    assert_eq!(enter_container_action(&c, 3), Some(EnterAction::WaitAndEnter(2)));
    assert_eq!(enter_container_action(&c, 5), None);
    let odd = SystemConfig {
        num_of_cpus: 1,
        num_of_containers: 1,
        container: [ContainerConfig { id: 4, num_of_cpus: 1, cores: 1, bsp: 0 }],
    };
    assert_eq!(enter_container_action(&odd, 0), None);
}

#[test]
fn resource_index_past_the_last_is_none() {
    let mut rm: ResourceManager<Cpu, Intc, Timer, Uart> = ResourceManager::new();
    assert_eq!(rm.register(Resource::Serial(Box::new(Uart(1)))), Ok(0));
    assert!(matches!(rm.get(ResourceType::Serial, 1), BorrowResource::NoResource));
    assert!(matches!(rm.get_mut(ResourceType::Serial, 1), BorrowMutResource::NoResource));
    assert!(matches!(rm.get(ResourceType::Cpu, 0), BorrowResource::NoResource));
}

#[test]
fn container_zero_does_not_exist() {
    let mut table: ContainerTable<Cpu, Intc, Timer, Uart> = ContainerTable::new();
    assert!(!table.is_exist(0));
    assert!(!is_ready_container(&table, 0));
    assert_eq!(table.create(), 1);
    assert!(!table.is_exist(0));
    assert!(table.is_exist(1));
    assert!(!table.is_exist(2));
}

#[test]
fn heap_selection() {
    let op = HeapOperator::new();
    assert_eq!(op.select_heap(None), violet::kernel::INITIAL_HEAP);
    assert_eq!(op.select_heap(Some(&Kernel::new(7))), 7);
}
