use violet::library::vm::vdev::access_logger::{AccessLogger, AccessRecord, AccessType};
use violet::library::vm::vdev::vclint::{VClint, TIMER_MARGIN};
use violet::library::vm::vdev::vplic::VPlic;
use violet::library::vm::vdev::{Device, DeviceAction, DeviceEnv, VirtualDevMap, VirtualDevice, VirtualDeviceT};

fn env(cpuid: usize) -> DeviceEnv {
    DeviceEnv { cpuid, mtime: 1000, tick: 5, raw: 0xabcd }
}

#[test]
fn test_get() {
    let mut map = VirtualDevMap::new();
    let vplic = VPlic::new();
    map.register(0x0c00_0000, 0x0400_0000, Device::Plic(vplic));
    assert!(map.get(0x0c00_0000).is_some(), "can't get virtual device");
    assert!(map.get(0x0bff_ffff).is_none(), "invalid virtual device");
    assert!(map.get(0x0fff_ffff).is_some(), "can't get virtual device");
    assert!(map.get(0x1000_0000).is_none(), "invalid virtual device");
}

#[test]
fn vm_test_read_write_dev() {
    let mut map = VirtualDevMap::new();
    let mut vplic = VPlic::new();
    vplic.set_vcpu_config([0, 1]);
    let val = 0x01;
    map.register(0x0c00_0000, 0x0400_0000, Device::Plic(vplic));
    let acts = map.write(0xc00_0000, val, &env(0)).expect("can't write virtual device");
    assert_eq!(acts[0], DeviceAction::RawWrite32 { addr: 0xc00_0000, val: 1 });
    let (x, _) = map.read(0xc00_0000, &env(0)).expect("can't read virtual device");
    assert_eq!(x, val);
}

#[test]
fn vdev_map_orders_by_base() {
    let mut map = VirtualDevMap::new();
    map.register(0x200_0000, 0x1_0000, Device::Clint(VClint::new()));
    map.register(0xc00_0000, 0x400_0000, Device::Plic(VPlic::new()));
    map.register(0x1000_0000, 0x100, Device::Logger(AccessLogger::new(false)));
    let bases: Vec<usize> = [0x1000_0000, 0xc00_0010, 0x200_4000]
        .iter()
        .map(|a| map.find(*a).expect("mapped").base)
        .collect();
    assert_eq!(bases, [0x1000_0000, 0xc00_0000, 0x200_0000]);
    assert!(map.find(0x300_0000).is_none());
    assert!(map.write(0x300_0000, 1, &env(0)).is_none());
    assert!(map.read(0x300_0000, &env(0)).is_none());
    map.unregister(0x200_0000, 0x1_0000, Device::Clint(VClint::new()));
    assert!(map.find(0x200_0000).is_some());
}

#[test]
fn vdev_device_new() {
    let d = VirtualDevice::new(0x10, 0x20, Device::Clint(VClint::new()));
    assert_eq!(d.base, 0x10);
    assert_eq!(d.size, 0x20);
    assert!(!d.vdev.forwards_reads());
}

#[test]
fn vclint_timer() {
    let mut clint = VClint::new();
    let e = env(0);
    // Reading mtime advances the guest's time by one.
    assert_eq!(clint.read(0x200_bff8, &e).0, 1);
    assert_eq!(clint.read(0x200_bff8, &e).0, 2);
    // Programming mtimecmp lowers the timer interrupt and sets the timer.
    let acts = clint.write(0x200_4000, 0x5555, &e);
    assert_eq!(
        acts,
        vec![DeviceAction::FlushVsTimer, DeviceAction::SetTimer { stime: 1000 + TIMER_MARGIN }]
    );
    assert_eq!(clint.read(0x200_4000, &e).0, 0x5555);
    assert_eq!(clint.read(0x200_bff8, &e).0, (1000 + TIMER_MARGIN + 1) as usize);
    // mtime is read only and other registers read 0.
    assert!(clint.write(0x200_bff8, 7, &e).is_empty());
    assert_eq!(clint.read(0x200_0000, &e).0, 0);
    assert!(clint.interrupt(3, &e).is_empty());
}

#[test]
fn access_logger_logs_and_forwards() {
    let mut pass = AccessLogger::new(true);
    assert!(pass.forwards_reads());
    let e = env(1);
    assert_eq!(pass.write(0x10, 0x20, &e), vec![DeviceAction::RawWrite { addr: 0x10, data: 0x20 }]);
    assert_eq!(pass.read(0x18, &e), (0xabcd, vec![]));
    assert!(pass.interrupt(4, &e).is_empty());
    assert_eq!(
        pass.records(),
        &vec![
            AccessRecord { tick: 5, access: AccessType::Write { addr: 0x10, val: 0x20 } },
            AccessRecord { tick: 5, access: AccessType::Read { addr: 0x18, val: 0xabcd } },
            AccessRecord { tick: 5, access: AccessType::Interrupt { intid: 4 } },
        ]
    );

    let mut quiet = AccessLogger::new(false);
    assert!(!quiet.forwards_reads());
    assert!(quiet.write(0x10, 0x20, &e).is_empty());
    assert_eq!(quiet.read(0x18, &e).0, 0);
    assert_eq!(quiet.records().len(), 2);
}

#[test]
fn vdev_verified_read_write_scenario() {
    assert_eq!(violet::library::vm::test_read_write_dev(), Ok(()));
}
