use violet::kernel::container::{Container, ContainerTable};
use violet::kernel::dispatcher::minimal_dispatcher::MinimalDispatcher;
use violet::kernel::event::GeneralEventNumber;
use violet::kernel::sched::fifo::FifoScheduler;
use violet::kernel::syscall::toppers::{cre_tsk, T_CTSK};
use violet::kernel::syscall::vsi::create_task;
use violet::kernel::task::{Task, DEFAULT_PRIORITY};
use violet::kernel::traits::dispatcher::TraitDispatcher;
use violet::kernel::traits::sched::TraitSched;
use violet::kernel::traits::task::TraitTask;
use violet::kernel::{main_loop_step, Kernel, INITIAL_HEAP};

#[test]
fn fifo_scheduler_order() {
    let mut s: FifoScheduler<Task> = FifoScheduler::new();
    assert!(s.next().is_none());
    s.register(Task::new(1, 0x100));
    s.register(Task::new(2, 0x200));
    assert_eq!(s.next().map(|t| t.get_entry()), Some(0x100));
    // next does not take the task off the queue.
    assert_eq!(s.next().map(|t| t.get_entry()), Some(0x100));
    s.unregister();
    assert_eq!(s.next().map(|t| t.get_entry()), Some(0x200));
    s.unregister();
    assert!(s.next().is_none());
}

#[test]
fn task_priority() {
    let mut t = Task::new(3, 0x300);
    assert_eq!(t.get_priority(), DEFAULT_PRIORITY);
    t.set_priority(5);
    assert_eq!(t.get_priority(), 5);
    assert_eq!(t.get_entry(), 0x300);
}

#[test]
fn minimal_dispatcher_enters_at_entry() {
    let d = MinimalDispatcher::new();
    let t = Task::new(1, 0x8020_0000);
    assert_eq!(d.dispatch(&t), 0x8020_0000);
}

#[test]
fn main_loop_step_runs_head_task() {
    let mut s: FifoScheduler<Task> = FifoScheduler::new();
    let d = MinimalDispatcher::new();
    assert_eq!(main_loop_step(&s, &d), None);
    s.register(Task::new(1, 0x1234));
    s.register(Task::new(2, 0x5678));
    assert_eq!(main_loop_step(&s, &d), Some(0x1234));
    assert_eq!(main_loop_step(&s, &d), Some(0x1234));
}

#[test]
fn syscalls_queue_on_the_right_processor() {
    let mut scheds: Vec<FifoScheduler<Task>> = vec![FifoScheduler::new(), FifoScheduler::new()];
    create_task(&mut scheds, 7, 0x7000, 1);
    cre_tsk(&mut scheds, 8, &T_CTSK { task: 0x8000, prcid: 0 });
    create_task(&mut scheds, 9, 0x9000, 1);
    assert_eq!(scheds[0].next().map(|t| t.get_entry()), Some(0x8000));
    assert_eq!(scheds[1].next().map(|t| t.get_entry()), Some(0x7000));
    scheds[1].unregister();
    assert_eq!(scheds[1].next().map(|t| t.get_entry()), Some(0x9000));
}

#[test]
fn event_numbers() {
    let all = [
        (GeneralEventNumber::NoneEvent, 0),
        (GeneralEventNumber::Nmi, 1),
        (GeneralEventNumber::Ipi, 2),
        (GeneralEventNumber::TimerInterrupt, 3),
        (GeneralEventNumber::ExternalInterrupt, 4),
        (GeneralEventNumber::PageFault, 5),
        (GeneralEventNumber::UnknownInstruction, 6),
        (GeneralEventNumber::GeneralEvent, 32),
    ];
    for (e, n) in all {
        assert_eq!(e.number(), n);
    }
}

#[test]
fn kernel_heap() {
    assert_eq!(Kernel::new(3).heap(), 3);
    assert_eq!(Kernel::create_custom_kernel(5).heap(), INITIAL_HEAP);
}

struct Cpu(u32);
struct Intc;
struct Timer(u64);
struct Serial;

#[test]
fn test_context() {
    let mut table: ContainerTable<Cpu, Intc, Timer, Serial> = ContainerTable::new();
    let id = table.add();
    assert_eq!(id, 0);
    let c = table.get_mut(id).expect("container just added");
    c.register_cpu(Cpu(0));
    c.register_cpu(Cpu(1));
    c.register_intc(Intc);
    c.register_timer(Timer(10_000_000));
    c.register_serial(Serial);
    let c = table.get(id).expect("container just added");
    assert_eq!(c.id, 0);
    assert_eq!(c.cpu.len(), 2);
    assert_eq!(c.cpu[1].as_ref().map(|cpu| cpu.0), Some(1));
    assert!(c.intc.is_some());
    assert_eq!(c.timer.as_ref().map(|t| t.0), Some(10_000_000));
    assert!(c.serial.is_some());
    assert!(table.get(1).is_none());
    assert_eq!(table.current_id(0), 0);
}

#[test]
fn container_table_numbers_in_order() {
    let mut table: ContainerTable<Cpu, Intc, Timer, Serial> = ContainerTable::new();
    assert_eq!(table.add(), 0);
    assert_eq!(table.add(), 1);
    assert_eq!(table.get(1).map(|c| c.id), Some(1));
    assert!(table.get(0).unwrap().intc.is_none());
    assert!(table.get_mut(2).is_none());
    let c: Container<Cpu, Intc, Timer, Serial> = Container::new(4);
    assert_eq!(c.kernel.heap(), INITIAL_HEAP);
}
