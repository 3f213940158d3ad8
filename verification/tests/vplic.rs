use violet::library::vm::vdev::vplic::VPlic;
use violet::library::vm::vdev::{DeviceAction, DeviceEnv, VirtualDeviceT};

const PRIORITY: usize = 0xc00_0000;
const PENDING: usize = 0xc00_1000;
const ENABLE_CTX1: usize = 0xc00_2080;
const THRESHOLD_CTX1: usize = 0xc20_1000;
const CLAIM_CTX1: usize = 0xc20_1004;

fn env(cpuid: usize) -> DeviceEnv {
    DeviceEnv { cpuid, mtime: 0, tick: 0, raw: 0 }
}

fn plic() -> VPlic {
    let mut p = VPlic::new();
    p.set_vcpu_config([0, 1]);
    p
}

#[test]
fn vplic_priority_read_after_write() {
    let mut p = plic();
    let acts = p.write(PRIORITY + 4 * 5, 3, &env(0));
    assert_eq!(acts, vec![DeviceAction::RawWrite32 { addr: PRIORITY + 20, val: 3 }, DeviceAction::FlushVsExternal]);
    assert_eq!(p.read(PRIORITY + 4 * 5, &env(0)), (3, vec![]));
    assert_eq!(p.read(PRIORITY + 4 * 6, &env(0)), (0, vec![]));
}

#[test]
fn vplic_claim_and_complete() {
    let mut p = plic();
    p.write(PRIORITY + 4 * 5, 3, &env(0));
    // Enabling is forwarded to the S-mode context of the physical CPU.
    assert_eq!(p.write(ENABLE_CTX1, 1 << 5, &env(0)), vec![DeviceAction::RawWrite32 { addr: ENABLE_CTX1, val: 1 << 5 }]);
    assert_eq!(p.read(ENABLE_CTX1, &env(0)).0, 1 << 5);
    // The device raises interrupt 5: the vCPU's external interrupt is raised.
    assert_eq!(p.interrupt(5, &env(0)), vec![DeviceAction::AssertVsExternal]);
    assert_eq!(p.read(PENDING, &env(0)).0, 1 << 5);
    // The claim takes it: no more pending, the line is lowered.
    assert_eq!(p.read(CLAIM_CTX1, &env(0)), (5, vec![DeviceAction::FlushVsExternal]));
    assert_eq!(p.read(PENDING, &env(0)).0, 0);
    // A claimed interrupt is not offered again.
    assert_eq!(p.read(CLAIM_CTX1, &env(0)), (0, vec![]));
    // Completion goes to the physical PLIC.
    assert_eq!(
        p.write(CLAIM_CTX1, 5, &env(0)),
        vec![DeviceAction::CompleteInterrupt { intid: 5 }, DeviceAction::FlushVsExternal]
    );
    // Raised again, it is offered again.
    assert_eq!(p.interrupt(5, &env(0)), vec![DeviceAction::AssertVsExternal]);
    assert_eq!(p.read(CLAIM_CTX1, &env(0)).0, 5);
}

#[test]
fn vplic_highest_priority_first() {
    let mut p = plic();
    p.write(PRIORITY + 4 * 2, 1, &env(0));
    p.write(PRIORITY + 4 * 7, 6, &env(0));
    p.write(PRIORITY + 4 * 9, 6, &env(0));
    p.write(ENABLE_CTX1, (1 << 2) | (1 << 7) | (1 << 9), &env(0));
    p.interrupt(2, &env(0));
    p.interrupt(9, &env(0));
    p.interrupt(7, &env(0));
    // Equal priorities: the lowest number first.
    assert_eq!(p.read(CLAIM_CTX1, &env(0)).0, 7);
    assert_eq!(p.read(CLAIM_CTX1, &env(0)).0, 9);
    assert_eq!(p.read(CLAIM_CTX1, &env(0)), (2, vec![DeviceAction::FlushVsExternal]));
    assert_eq!(p.read(CLAIM_CTX1, &env(0)).0, 0);
}

#[test]
fn vplic_threshold_masks() {
    let mut p = plic();
    p.write(PRIORITY + 4 * 5, 3, &env(0));
    p.write(ENABLE_CTX1, 1 << 5, &env(0));
    assert_eq!(
        p.write(THRESHOLD_CTX1, 4, &env(0)),
        vec![DeviceAction::RawWrite32 { addr: THRESHOLD_CTX1, val: 4 }, DeviceAction::FlushVsExternal]
    );
    assert_eq!(p.read(THRESHOLD_CTX1, &env(0)).0, 4);
    // Priority 3 is not above threshold 4: not offered.
    assert_eq!(p.interrupt(5, &env(0)), vec![DeviceAction::FlushVsExternal]);
    assert_eq!(p.read(CLAIM_CTX1, &env(0)).0, 0);
    // Lowering the threshold offers it.
    assert_eq!(
        p.write(THRESHOLD_CTX1, 2, &env(0)),
        vec![DeviceAction::RawWrite32 { addr: THRESHOLD_CTX1, val: 2 }, DeviceAction::AssertVsExternal]
    );
    assert_eq!(p.read(CLAIM_CTX1, &env(0)).0, 5);
}

#[test]
fn vplic_disabled_not_offered() {
    let mut p = plic();
    p.write(PRIORITY + 4 * 3, 1, &env(0));
    assert_eq!(p.interrupt(3, &env(0)), vec![DeviceAction::FlushVsExternal]);
    assert_eq!(p.read(CLAIM_CTX1, &env(0)).0, 0);
}

#[test]
fn vplic_second_vcpu_forwards_to_its_cpu() {
    let mut p = plic();
    // Context 3 is the S-mode context of vCPU 1, run by physical CPU 1.
    let enable_ctx3 = 0xc00_2000 + 3 * 0x80;
    let acts = p.write(enable_ctx3, 1, &env(1));
    assert_eq!(acts, vec![DeviceAction::RawWrite32 { addr: 0xc00_2000 + 0x100 + 0x80, val: 1 }]);
    let threshold_ctx3 = 0xc20_0000 + 3 * 0x1000;
    let acts = p.write(threshold_ctx3, 1, &env(1));
    assert_eq!(acts[0], DeviceAction::RawWrite32 { addr: 0xc20_0000 + 0x2000 + 0x1000, val: 1 });
}

#[test]
fn vplic_vm_mode_uses_m_contexts() {
    let mut p = plic();
    p.enable_vmmode();
    p.write(PRIORITY + 4, 2, &env(0));
    p.write(0xc00_2000, 1 << 1, &env(0));
    assert_eq!(p.interrupt(1, &env(0)), vec![DeviceAction::AssertVsExternal]);
    assert_eq!(p.read(0xc20_0004, &env(0)).0, 1);
}

#[test]
fn vplic_pending_writes_ignored() {
    let mut p = plic();
    assert!(p.write(PENDING, 0xffff_ffff, &env(0)).is_empty());
    assert_eq!(p.read(PENDING, &env(0)).0, 0);
    assert!(!p.forwards_reads());
}
