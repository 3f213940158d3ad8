use violet::library::vm::vcpu::vreg::vmhartid::Vreg;
use violet::library::vm::vcpu::vreg::{VirtualRegister, VirtualRegisterKind, VirtualRegisterMap, VirtualRegisterT};
use violet::library::vm::vcpu::{VirtualCpu, VirtualCpuMap};

#[test]
fn test_vcpumap() {
    let mut map = VirtualCpuMap::new();
    map.register(1, 0);
    assert!(map.find(1).is_some(), "Fail to find vcpu");
    assert!(map.find(0).is_none(), "Find Invalid vcpu");
}

#[test]
fn test_vcpu() {
    let mut vcpu = VirtualCpu::new(0);
    let vreg = Vreg::new(0x128);
    vcpu.register(1, VirtualRegisterKind::HartId(vreg));
    assert_eq!(vcpu.read(1), Some(0x128));
}

#[test]
fn vm_test_vcpu() {
    let mut map = VirtualCpuMap::new();
    map.register(1, 0);
    let v = map.get_mut(1).expect("registered vcpu");
    assert_eq!(v.get_vcpuid(), 1);
    assert_eq!(map.get_vcpuid(0), 1);
    assert_eq!(map.get_vcpuid(1), 0);
}

#[test]
fn test_vreg() {
    let mut map = VirtualRegisterMap::new();
    let vreg = Vreg::new(0);
    map.register(1, VirtualRegisterKind::HartId(vreg));
    assert!(map.find(1).is_some(), "Fail to find vreg");
    assert!(map.find(0).is_none(), "Find Invalid vreg");
}

#[test]
fn vcpu_read_missing_register() {
    let mut vcpu = VirtualCpu::new(3);
    assert_eq!(vcpu.get_vcpuid(), 3);
    assert_eq!(vcpu.read(7), None);
    vcpu.write(7, 1);
    assert_eq!(vcpu.read(7), None);
}

#[test]
fn vcpu_hartid_ignores_writes() {
    let mut vcpu = VirtualCpu::new(2);
    vcpu.register(0x14, VirtualRegisterKind::HartId(Vreg::new(2)));
    vcpu.write(0x14, 99);
    assert_eq!(vcpu.read(0x14), Some(2));
}

#[test]
fn vcpu_first_register_of_a_number_wins() {
    let mut vcpu = VirtualCpu::new(0);
    vcpu.register(5, VirtualRegisterKind::HartId(Vreg::new(10)));
    vcpu.register(5, VirtualRegisterKind::HartId(Vreg::new(20)));
    assert_eq!(vcpu.read(5), Some(10));
}

#[test]
fn vcpumap_count_and_remap() {
    let mut map = VirtualCpuMap::new();
    assert_eq!(map.get_vcpu_count(), 0);
    map.register(0, 1);
    map.register(1, 0);
    assert_eq!(map.get_vcpu_count(), 2);
    assert_eq!(map.get_vcpuid(1), 0);
    assert_eq!(map.get_vcpuid(0), 1);
    assert_eq!(map.get(1).map(|v| v.get_vcpuid()), Some(1));
    assert!(map.get(2).is_none());
}

#[test]
fn vreg_map_get_and_unregister() {
    let mut map = VirtualRegisterMap::new();
    map.register(3, VirtualRegisterKind::HartId(Vreg::new(33)));
    map.register(4, VirtualRegisterKind::HartId(Vreg::new(44)));
    map.unregister(3, VirtualRegisterKind::HartId(Vreg::new(0)));
    assert_eq!(map.get_mut(4).map(|r| r.read()), Some(44));
    assert_eq!(map.get_mut(3).map(|r| r.read()), Some(33));
    assert!(map.get(5).is_none());
    assert_eq!(map.find_mut(4).map(|r| r.id), Some(4));
}

#[test]
fn vreg_wrapper() {
    let mut r = VirtualRegister::new(9, VirtualRegisterKind::HartId(Vreg::new(0x55)));
    assert_eq!(r.id, 9);
    assert_eq!(r.get_mut().read(), 0x55);
}

#[test]
fn vcpu_verified_register_scenario() {
    assert_eq!(violet::library::vm::vcpu::test_vcpu(), Ok(()));
}
