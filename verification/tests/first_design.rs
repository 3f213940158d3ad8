use violet::system::hypervisor::virtdev::vplic as hyp_vplic;
use violet::system::vm::vcpu::VirtualCpu;
use violet::system::vm::vdev::vplic::{
    ClaimCompReg, EnableReg, PriorityThresholdReg, VPlic, CLAIM_COMPLETE_CONTEXT1,
};
use violet::system::vm::vdev::{Io, IoAction, IoDevice, IoInput, IoMap, VirtualDevice, VirtualIoMap, VirtualRegister, ZeroReg};
use violet::system::vm::virtdev::vplic as vm_vplic;

const PLIC: usize = 0xc00_0000;

#[test]
fn first_design_read_write_dev() {
    let mut map = VirtualIoMap::new();
    map.register(PLIC, 0x400_0000, IoDevice::Plic(VPlic::new()));
    let input = IoInput { raw: 0x01, pending: 0 };
    let d = map.get_mut(PLIC).expect("can't write virtual device");
    assert_eq!(d.write32(PLIC, 0x01), IoAction::RawWrite32 { addr: PLIC, val: 0x01 });
    // Reads of physical registers give the physical value.
    assert!(d.forwards_read(PLIC));
    assert_eq!(d.read32(PLIC, &input), 0x01);
    assert!(map.get(0xbff_ffff).is_none());
    assert!(map.get(0x1000_0000).is_none());
}

#[test]
fn first_design_claim_register_is_virtual() {
    let mut p = VPlic::new();
    let claim = PLIC + CLAIM_COMPLETE_CONTEXT1;
    assert!(!p.forwards_read(claim));
    p.interrupt(10);
    assert_eq!(p.read32(claim, &IoInput { raw: 0, pending: 11 }), 10);
    assert_eq!(p.read32(claim, &IoInput { raw: 0, pending: 0 }), 11);
    assert_eq!(p.read32(claim, &IoInput { raw: 0, pending: 0 }), 0);
    assert_eq!(p.write32(claim, 10), IoAction::NoAction);
    p.set_vcpu_config([1, 0]);
}

#[test]
fn first_design_registers() {
    let mut t = PriorityThresholdReg::new();
    t.write(0, 0xff);
    assert_eq!(t.read(0), 7);
    assert_eq!(t.threshold(), 7);

    let mut e = EnableReg::new();
    e.set_vcpu_config([1, 0]);
    // Enable register of vCPU 0 goes to physical CPU 1, and back.
    assert_eq!(e.physical_addr(0x2000), 0x2080);
    assert_eq!(e.physical_addr(0x2084), 0x2084);

    let mut c = ClaimCompReg::new();
    c.write(0, 5);
    c.write(0, 5);
    assert_eq!(c.read(0), 0);
    c.write(0, 6);
    assert_eq!(c.read(0), 6);
    assert_eq!(c.read(0), 0);

    let mut z = ZeroReg::new();
    z.write(0, 9);
    assert_eq!(z.read(0), 0);
}

#[test]
fn first_design_io_map() {
    let mut m = IoMap::new();
    m.register(Io::new(0x1000, 0x100, IoDevice::Plic(VPlic::new())));
    m.register(Io::new(0x3000, 0x100, IoDevice::Plic(VPlic::new())));
    assert_eq!(m.find(0x3010).map(|d| d.base), Some(0x3000));
    assert_eq!(m.find(0x1010).map(|d| d.base), Some(0x1000));
    assert!(m.find(0x2000).is_none());
    assert!(m.find_mut(0x10ff).is_some());
    let mut v = VirtualIoMap::new();
    v.unregister(0, 0, IoDevice::Plic(VPlic::new()));
    assert!(v.get(0).is_none());
}

#[test]
fn vm_design_vplic() {
    let mut p = vm_vplic::VPlic::new();
    assert_eq!(p.write32(vm_vplic::PRIORITY_THRESHOLD, 0x1f), Some(7));
    assert_eq!(p.read32(vm_vplic::PRIORITY_THRESHOLD), 7);
    assert_eq!(p.write32(vm_vplic::CLAIM_COMPLETE, 3), None);
    assert_eq!(p.read32(vm_vplic::CLAIM_COMPLETE), 3);
    assert_eq!(p.read32(vm_vplic::CLAIM_COMPLETE), 0);
    assert_eq!(p.write32(0x2000, 3), None);
    assert_eq!(p.read32(0x2000), 0);
}

#[test]
fn hypervisor_design_vplic() {
    let mut p = hyp_vplic::VPlic::new();
    p.write32(hyp_vplic::CLAIM_COMPLETE, 4);
    assert_eq!(p.read32(hyp_vplic::CLAIM_COMPLETE), 4);
    assert_eq!(p.read32(hyp_vplic::CLAIM_COMPLETE), 0);
    p.write32(0x10, 4);
    assert_eq!(p.read32(0x10), 0);
    assert_eq!(p.read32(hyp_vplic::CLAIM_COMPLETE), 0);
}

#[test]
fn first_design_vcpu() {
    let v = VirtualCpu::new(1, 0, [7usize; 4]);
    assert_eq!(*v.enter(), [7usize; 4]);
}
