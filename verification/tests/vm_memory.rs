use violet::library::vm::vmem::{VirtualMemoryArea, VirtualMemoryMap};
use violet::library::vm::{VirtualMachine, VirtualMachineTable, GUEST_PAGE_SIZE};

#[test]
fn test_register() {
    let mut vmem = VirtualMemoryMap::new();
    let guest_paddr = 0x9000_0000;
    let real_paddr = 0x8020_0000;
    let size = 0x1000_0000;

    vmem.register(guest_paddr, real_paddr, size);
    match vmem.get(0x9000_0000) {
        None => panic!("Fail to get virtual memory"),
        Some(m) => assert_eq!(m.paddr, 0x8020_0000),
    }

    vmem.register(guest_paddr, real_paddr, size);
    assert!(vmem.get(0xa000_0000).is_none());
}

#[test]
fn test_paddr_get() {
    let mut vmem = VirtualMemoryMap::new();
    let guest_paddr = 0x9000_0000;
    let real_paddr = 0x8020_0000;
    let size = 0x1000_0000;

    vmem.register(guest_paddr, real_paddr, size);
    let m = vmem.get(guest_paddr).expect("Fail to get virtual memory");
    assert_eq!(m.get_paddr(guest_paddr + 0x1234), Some(real_paddr + 0x1234));

    let m = vmem.get(0x9000_0000).expect("Fail to get virtual memory");
    assert_eq!(m.get_paddr(0x9000_0000 - 0x1234), None);
}

#[test]
fn vmem_area_edges() {
    let area = VirtualMemoryArea::new(0x1000, 0x8000, 0x100);
    assert_eq!(area.get_paddr(0x0fff), None);
    assert_eq!(area.get_paddr(0x1000), Some(0x8000));
    assert_eq!(area.get_paddr(0x10ff), Some(0x80ff));
    assert_eq!(area.get_paddr(0x1100), None);
}

#[test]
fn vmem_later_area_takes_precedence() {
    let mut vmem = VirtualMemoryMap::new();
    vmem.register(0x1000, 0xa000, 0x1000);
    vmem.register(0x1800, 0xb000, 0x1000);
    // 0x1900 is in both areas: the one registered last wins.
    assert_eq!(vmem.find(0x1900).map(|a| a.paddr), Some(0xb000));
    // 0x1200 is only in the first one.
    assert_eq!(vmem.find(0x1200).map(|a| a.paddr), Some(0xa000));
    assert!(vmem.find(0x2800).is_none());
    assert!(vmem.find(0x0fff).is_none());
}

#[test]
fn vmem_find_mut_changes_the_area() {
    let mut vmem = VirtualMemoryMap::new();
    vmem.register(0x1000, 0xa000, 0x1000);
    vmem.register(0x4000, 0xc000, 0x1000);
    if let Some(a) = vmem.find_mut(0x1010) {
        a.paddr = 0xd000;
    }
    assert_eq!(vmem.get(0x1010).unwrap().paddr, 0xd000);
    assert_eq!(vmem.get(0x4010).unwrap().paddr, 0xc000);
    assert!(vmem.get_mut(0x3000).is_none());
}

#[test]
fn vm_test_vmem() {
    let mut vm = VirtualMachine::new();
    vm.mem.register(0x8020_0000, 0x9020_0000, 0x1000_0000);
    vm.mem.register(0x8220_0000, 0x8220_0000, 0x2_0000);
    vm.mem.register(0x8810_0000, 0x8810_0000, 0x20_0000);
    // The second area shadows part of the first one.
    assert_eq!(vm.map_guest_page(0x8220_1000), Ok(Some(0x8220_1000)));
    assert_eq!(vm.map_guest_page(0x8020_0000 + GUEST_PAGE_SIZE), Ok(Some(0x9020_1000)));
    assert_eq!(vm.map_guest_page(0x8810_0000), Ok(Some(0x8810_0000)));
}

#[test]
fn vm_map_guest_page_outside_memory() {
    let vm = VirtualMachine::new();
    assert_eq!(vm.map_guest_page(0x8000_0000), Err("Invalid guest physical address"));
}

#[test]
fn vm_new_is_empty() {
    let vm = VirtualMachine::new();
    assert!(vm.root_table.is_none());
    assert_eq!(vm.cpu.get_vcpu_count(), 0);
}

#[test]
fn vm_table_create_and_current() {
    let mut table = VirtualMachineTable::new();
    assert!(!table.is_ready());
    assert_eq!(table.current_id(0), 0);
    assert_eq!(table.current_id(1), 0);
    let first = table.create(1);
    assert_eq!(first, 0);
    let second = table.create(0);
    assert_eq!(second, 1);
    assert!(table.is_ready());
    assert_eq!(table.current_id(0), 1);
    assert_eq!(table.current_id(1), 0);
    assert!(table.get(1).root_table.is_none());
}

#[test]
fn vm_hart_mask_translation() {
    let mut vm = VirtualMachine::new();
    vm.cpu.register(0, 1);
    vm.cpu.register(1, 0);
    // vCPU 0 runs on hart 1, vCPU 1 on hart 0.
    let v2p = [1usize, 0];
    assert_eq!(vm.vhart_mask_to_hart_mask(&v2p, 0b01, 0), (0b10, 0));
    assert_eq!(vm.vhart_mask_to_hart_mask(&v2p, 0b10, 0), (0b01, 0));
    assert_eq!(vm.vhart_mask_to_hart_mask(&v2p, 0b11, 0), (0b11, 0));
    assert_eq!(vm.vhart_mask_to_hart_mask(&v2p, 0b1, 1), (0b01, 0));
    // Harts past the vCPUs are not named.
    assert_eq!(vm.vhart_mask_to_hart_mask(&v2p, 0b100, 0), (0, 0));
    assert_eq!(vm.vhart_mask_to_hart_mask(&v2p, 0b1, usize::MAX), (0, usize::MAX));
}
