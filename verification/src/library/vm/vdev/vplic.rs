//! Virtual PLIC (platform-level interrupt controller).
//!
//! The guest sees a PLIC of `NUM_OF_IRQS` interrupts and two contexts (M and S
//! mode) per virtual CPU. Priorities, pending, enable, claimed bits and
//! thresholds are kept here; enable and threshold writes are also forwarded to
//! the physical PLIC for the physical CPU that runs the virtual one.
use vstd::prelude::*;
use super::{DeviceAction, DeviceEnv, DeviceModel, VirtualDeviceT};
use crate::arch::PrivilegeMode;
use crate::environment::NUM_OF_CPUS;

verus! {

pub const NUM_OF_IRQS: usize = 1024;
pub const NUM_OF_WORDS: usize = 32;
pub const NUM_OF_CONTEXTS: usize = NUM_OF_CPUS * 2;

pub const INT_PRIORITY0: usize = 0x0;
pub const INT_PRIORITY1023: usize = 0xffc;
pub const INT_PENDING0: usize = 0x1000;
pub const INT_PENDING992: usize = 0x107c;
pub const INT_ENABLE0_HART_OFFSET: usize = 0x100;
pub const INT_ENABLE0_CONTEXT_OFFSET: usize = 0x80;
pub const INT_ENABLE0_CONTEXT0: usize = 0x2000;
pub const INT_ENABLE992_CONTEXT15871: usize = 0x1f_1ffc;
pub const PRIO_THRESHOLD_HART_OFFSET: usize = 0x2000;
pub const PRIO_THRESHOLD_CONTEXT_OFFSET: usize = 0x1000;
pub const PRIO_THRESHOLD_CONTEXT0: usize = 0x20_0000;
pub const CLAIM_COMPLETE_CONTEXT_OFFSET: usize = 0x1000;
pub const CLAIM_COMPLETE_CONTEXT0: usize = 0x20_0004;
pub const CLAIM_COMPLETE_CONTEXT15871: usize = 0x3ff_f004;

pub const BASE_ADDRESS: usize = 0xC00_0000;
pub const ADDRESS_RANGE: usize = 0x400_0000;
pub const MASK: usize = 0x3ff_ffff;

/// The state of a virtual PLIC.
pub struct VPlicState {
    /// Priority of each interrupt.
    pub priority: Seq<u32>,
    /// Pending bits, 32 interrupts per word.
    pub pending: Seq<u32>,
    /// Claimed bits: word `w` of context `c` at `c * 32 + w`.
    pub claimed: Seq<u32>,
    /// Enable bits: word `w` of context `c` at `c * 32 + w`.
    pub enable: Seq<u32>,
    /// Priority threshold of each context.
    pub threshold: Seq<u32>,
    /// Physical CPU of each virtual CPU.
    pub v2p: Seq<usize>,
    /// Virtual CPU of each physical CPU.
    pub p2v: Seq<usize>,
    /// Mode of the guest's contexts that the virtual PLIC drives.
    pub mode: PrivilegeMode,
}

pub struct VPlic {
    priority: Vec<u32>,
    pending: Vec<u32>,
    claimed: Vec<u32>,
    enable: Vec<u32>,
    priority_threshold: Vec<u32>,
    v2p_cpu: Vec<usize>,
    p2v_cpu: Vec<usize>,
    mode: PrivilegeMode,
}

impl View for VPlic {
    type V = VPlicState;

    closed spec fn view(&self) -> VPlicState {
        VPlicState {
            priority: self.priority@,
            pending: self.pending@,
            claimed: self.claimed@,
            enable: self.enable@,
            threshold: self.priority_threshold@,
            v2p: self.v2p_cpu@,
            p2v: self.p2v_cpu@,
            mode: self.mode,
        }
    }
}

/// The tables have their sizes.
pub open spec fn state_wf(s: VPlicState) -> bool {
    &&& s.priority.len() == NUM_OF_IRQS
    &&& s.pending.len() == NUM_OF_WORDS
    &&& s.claimed.len() == NUM_OF_CONTEXTS * NUM_OF_WORDS
    &&& s.enable.len() == NUM_OF_CONTEXTS * NUM_OF_WORDS
    &&& s.threshold.len() == NUM_OF_CONTEXTS
    &&& s.v2p.len() == NUM_OF_CPUS
    &&& s.p2v.len() == NUM_OF_CPUS
}

/// The tables have their sizes and the contexts driven are those of M or S
/// mode.
pub open spec fn plic_wf(s: VPlicState) -> bool {
    &&& state_wf(s)
    &&& s.mode == PrivilegeMode::ModeM || s.mode == PrivilegeMode::ModeS
}

/// The interrupts of word `w` that context `ctx` may be offered: pending,
/// enabled and not claimed.
pub open spec fn candidates_word(s: VPlicState, ctx: int, w: int) -> u32 {
    (s.pending[w] & !s.claimed[ctx * 32 + w]) & s.enable[ctx * 32 + w]
}

/// Interrupt `irq` may be offered to context `ctx`.
pub open spec fn is_candidate(s: VPlicState, ctx: int, irq: int) -> bool {
    (candidates_word(s, ctx, irq / 32) & (1u32 << ((irq % 32) as u32))) > 0
}

/// The interrupt offered to context `ctx` among the first `n`, with its
/// priority: scanning upwards, a candidate replaces the current choice when
/// its priority is strictly above the current one, which starts at the
/// context's threshold with interrupt 0.
pub open spec fn best(s: VPlicState, ctx: int, n: nat) -> (int, u32)
    decreases n,
{
    if n == 0 {
        (0, s.threshold[ctx])
    } else {
        let (id, m) = best(s, ctx, (n - 1) as nat);
        let irq = n - 1;
        if is_candidate(s, ctx, irq) && s.priority[irq] > m {
            (irq, s.priority[irq])
        } else {
            (id, m)
        }
    }
}

/// The interrupt that a claim by context `ctx` gets, 0 for none.
pub open spec fn next_pending(s: VPlicState, ctx: int) -> u32 {
    best(s, ctx, NUM_OF_IRQS as nat).0 as u32
}

/// The context that physical CPU `cpuid` serves.
pub open spec fn context_of(s: VPlicState, cpuid: int) -> Option<int> {
    match s.mode {
        PrivilegeMode::ModeM => Some(s.p2v[cpuid] * 2),
        PrivilegeMode::ModeS => Some(s.p2v[cpuid] * 2 + 1),
        _ => None,
    }
}

/// After a change, the external interrupt line of the vCPU that runs on
/// `cpuid` is raised when its context has an interrupt to offer, and lowered
/// otherwise.
pub open spec fn update_actions(s: VPlicState, cpuid: int) -> Seq<DeviceAction> {
    match context_of(s, cpuid) {
        Some(ctx) => if next_pending(s, ctx) > 0 {
            seq![DeviceAction::AssertVsExternal]
        } else {
            seq![DeviceAction::FlushVsExternal]
        },
        None => Seq::empty(),
    }
}

/// The line of `cpuid` can be updated: `cpuid` runs a virtual CPU whose
/// contexts exist.
pub open spec fn ready(s: VPlicState, cpuid: int) -> bool {
    (s.mode == PrivilegeMode::ModeM || s.mode == PrivilegeMode::ModeS) ==> (0 <= cpuid < NUM_OF_CPUS
        && s.p2v[cpuid] < NUM_OF_CPUS)
}

/// `addr` is in the MMIO window of the virtual PLIC.
pub open spec fn in_window(addr: usize) -> bool {
    BASE_ADDRESS <= addr < BASE_ADDRESS + ADDRESS_RANGE
}

pub open spec fn in_priority(off: usize) -> bool {
    off <= INT_PRIORITY1023
}

pub open spec fn in_pending(off: usize) -> bool {
    INT_PENDING0 <= off <= INT_PENDING992
}

pub open spec fn in_enable(off: usize) -> bool {
    INT_ENABLE0_CONTEXT0 <= off <= INT_ENABLE992_CONTEXT15871
}

pub open spec fn in_context(off: usize) -> bool {
    PRIO_THRESHOLD_CONTEXT0 <= off <= CLAIM_COMPLETE_CONTEXT15871
}

/// Context and word of an enable register at window offset `a`.
pub open spec fn enable_ctx(a: int) -> int {
    (a - INT_ENABLE0_CONTEXT0) / (INT_ENABLE0_CONTEXT_OFFSET as int)
}

pub open spec fn enable_word(a: int) -> int {
    (a - INT_ENABLE0_CONTEXT0 - INT_ENABLE0_CONTEXT_OFFSET * enable_ctx(a)) / 4
}

/// The physical enable register written for the enable register at `a`:
/// that of the S-mode context of the physical CPU of the register's vCPU.
pub open spec fn enable_raw_addr(s: VPlicState, a: int) -> int {
    BASE_ADDRESS + INT_ENABLE0_CONTEXT0 + s.v2p[enable_ctx(a) / 2] * INT_ENABLE0_HART_OFFSET
        + INT_ENABLE0_CONTEXT_OFFSET + enable_word(a) * 4
}

pub open spec fn threshold_ctx(a: int) -> int {
    (a - PRIO_THRESHOLD_CONTEXT0) / (PRIO_THRESHOLD_CONTEXT_OFFSET as int)
}

/// The physical threshold register written for the threshold at `a`.
pub open spec fn threshold_raw_addr(s: VPlicState, a: int) -> int {
    BASE_ADDRESS + PRIO_THRESHOLD_CONTEXT0 + s.v2p[threshold_ctx(a) / 2] * PRIO_THRESHOLD_HART_OFFSET
        + PRIO_THRESHOLD_CONTEXT_OFFSET
}

pub open spec fn claim_ctx(a: int) -> int {
    (a - CLAIM_COMPLETE_CONTEXT0) / (CLAIM_COMPLETE_CONTEXT_OFFSET as int)
}

/// `s` with bit `intid` of the pending words set.
pub open spec fn with_pending(s: VPlicState, intid: u32) -> VPlicState {
    let w = (intid / 32) as int;
    VPlicState { pending: s.pending.update(w, s.pending[w] | (1u32 << (intid % 32))), ..s }
}

/// `s` with bit `intid` of the pending words cleared.
pub open spec fn without_pending(s: VPlicState, intid: u32) -> VPlicState {
    let w = (intid / 32) as int;
    VPlicState { pending: s.pending.update(w, s.pending[w] & !(1u32 << (intid % 32))), ..s }
}

/// `s` with bit `intid` of the claimed words of `ctx` set.
pub open spec fn with_claimed(s: VPlicState, intid: u32, ctx: int) -> VPlicState {
    let i = ctx * 32 + (intid / 32) as int;
    VPlicState { claimed: s.claimed.update(i, s.claimed[i] | (1u32 << (intid % 32))), ..s }
}

/// `s` with bit `intid` of the claimed words of `ctx` cleared.
pub open spec fn without_claimed(s: VPlicState, intid: u32, ctx: int) -> VPlicState {
    let i = ctx * 32 + (intid / 32) as int;
    VPlicState { claimed: s.claimed.update(i, s.claimed[i] & !(1u32 << (intid % 32))), ..s }
}

/// A guest write of `val` at `addr` is one the virtual PLIC handles.
pub open spec fn plic_write_ok(s: VPlicState, addr: usize, val: usize, cpuid: int) -> bool {
    let off = addr & MASK;
    let a = addr - BASE_ADDRESS;
    if in_priority(off) {
        in_window(addr) && ready(s, cpuid)
    } else if in_pending(off) {
        true
    } else if in_enable(off) {
        in_window(addr) && enable_ctx(a) < NUM_OF_CONTEXTS && enable_raw_addr(s, a) <= usize::MAX
    } else if in_context(off) {
        if addr & 0xfff == 0 {
            in_window(addr) && threshold_ctx(a) < NUM_OF_CONTEXTS && threshold_raw_addr(s, a) <= usize::MAX
                && ready(s, cpuid)
        } else {
            in_window(addr) && a >= CLAIM_COMPLETE_CONTEXT0 && claim_ctx(a) < NUM_OF_CONTEXTS
                && (val as u32) < NUM_OF_IRQS && ready(s, cpuid)
        }
    } else {
        true
    }
}

/// The state after a guest write of `val` at `addr`, and the actions on the
/// machine, in order.
pub open spec fn spec_write(s: VPlicState, addr: usize, val: usize, cpuid: int) -> (VPlicState, Seq<DeviceAction>) {
    let off = addr & MASK;
    let a = addr - BASE_ADDRESS;
    let v = val as u32;
    if in_priority(off) {
        let s2 = VPlicState { priority: s.priority.update(a / 4, v), ..s };
        (s2, seq![DeviceAction::RawWrite32 { addr, val: v }] + update_actions(s2, cpuid))
    } else if in_pending(off) {
        (s, Seq::empty())
    } else if in_enable(off) {
        let ctx = enable_ctx(a);
        let s2 = VPlicState { enable: s.enable.update(ctx * 32 + enable_word(a), v), ..s };
        (s2, seq![DeviceAction::RawWrite32 { addr: enable_raw_addr(s, a) as usize, val: v }])
    } else if in_context(off) {
        if addr & 0xfff == 0 {
            let s2 = VPlicState { threshold: s.threshold.update(threshold_ctx(a), v), ..s };
            (
                s2,
                seq![DeviceAction::RawWrite32 { addr: threshold_raw_addr(s, a) as usize, val: v }]
                    + update_actions(s2, cpuid),
            )
        } else {
            let s2 = without_claimed(s, v, claim_ctx(a));
            (s2, seq![DeviceAction::CompleteInterrupt { intid: v }] + update_actions(s2, cpuid))
        }
    } else {
        (s, Seq::empty())
    }
}

/// A guest read at `addr` is one the virtual PLIC handles.
pub open spec fn plic_read_ok(s: VPlicState, addr: usize, cpuid: int) -> bool {
    let off = addr & MASK;
    let a = addr - BASE_ADDRESS;
    if in_priority(off) || in_pending(off) {
        in_window(addr)
    } else if in_enable(off) {
        in_window(addr) && enable_ctx(a) < NUM_OF_CONTEXTS
    } else if in_context(off) {
        if addr & 0xfff == 0 {
            in_window(addr) && threshold_ctx(a) < NUM_OF_CONTEXTS
        } else {
            in_window(addr) && a >= CLAIM_COMPLETE_CONTEXT0 && claim_ctx(a) < NUM_OF_CONTEXTS && (next_pending(
                s,
                claim_ctx(a),
            ) != 0 ==> ready(
                s,
                cpuid,
            ))
        }
    } else {
        true
    }
}

/// The value a guest read at `addr` returns, the state after it and the
/// actions on the machine. A read of a claim register takes the interrupt
/// offered to the context: it stops being pending and becomes claimed.
pub open spec fn spec_read(s: VPlicState, addr: usize, cpuid: int) -> (u32, VPlicState, Seq<DeviceAction>) {
    let off = addr & MASK;
    let a = addr - BASE_ADDRESS;
    if in_priority(off) {
        (s.priority[a / 4], s, Seq::empty())
    } else if in_pending(off) {
        (s.pending[(a - INT_PENDING0) / 4], s, Seq::empty())
    } else if in_enable(off) {
        (s.enable[enable_ctx(a) * 32 + enable_word(a)], s, Seq::empty())
    } else if in_context(off) {
        if addr & 0xfff == 0 {
            (s.threshold[threshold_ctx(a)], s, Seq::empty())
        } else {
            let ctx = claim_ctx(a);
            let r = next_pending(s, ctx);
            if r == 0 {
                (0, s, Seq::empty())
            } else {
                let s2 = with_claimed(without_pending(s, r), r, ctx);
                (r, s2, update_actions(s2, cpuid))
            }
        }
    } else {
        (0, s, Seq::empty())
    }
}

proof fn lemma_window_offset(addr: usize)
    requires
        in_window(addr),
    ensures
        addr & MASK == addr - BASE_ADDRESS,
{
    assert(addr & 0x3ff_ffffusize == addr - 0xC00_0000usize) by (bit_vector)
        requires
            0xC00_0000usize <= addr < 0x1000_0000usize,
    ;
}

proof fn lemma_zero_word_no_candidate()
    ensures
        forall|i: u32| i < 32 ==> (0u32 & (1u32 << i)) == 0,
{
    assert(forall|i: u32| i < 32 ==> (0u32 & (1u32 << i)) == 0) by (bit_vector);
}

/// When no interrupt in `[start, start + k)` may be offered, scanning them
/// changes nothing.
proof fn lemma_best_skip(s: VPlicState, ctx: int, start: nat, k: nat)
    requires
        forall|j: int| start <= j < start + k ==> !is_candidate(s, ctx, j),
    ensures
        best(s, ctx, start + k) == best(s, ctx, start),
    decreases k,
{
    if k > 0 {
        lemma_best_skip(s, ctx, start, (k - 1) as nat);
        assert(!is_candidate(s, ctx, start + k - 1));
    }
}

proof fn lemma_best_props(s: VPlicState, ctx: int, n: nat)
    ensures
        ({
            let (id, m) = best(s, ctx, n);
            &&& m >= s.threshold[ctx]
            &&& 0 <= id && (id < n || id == 0)
            &&& (id == 0 && m == s.threshold[ctx]) || (is_candidate(s, ctx, id) && s.priority[id] == m && m
                > s.threshold[ctx])
            &&& forall|j: int| 0 <= j < n && #[trigger] is_candidate(s, ctx, j) ==> s.priority[j] <= m
            &&& forall|j: int| 0 <= j < id && #[trigger] is_candidate(s, ctx, j) ==> s.priority[j] < m
        }),
    decreases n,
{
    if n > 0 {
        lemma_best_props(s, ctx, (n - 1) as nat);
    }
}

/// A claim by a context gets the lowest-numbered interrupt of highest
/// priority among those that are pending, enabled and not claimed by the
/// context, when that priority is above the context's threshold; it gets 0
/// when there is none (0 is also the number of the first interrupt).
pub proof fn lemma_next_pending_is_max(s: VPlicState, ctx: int)
    requires
        plic_wf(s),
        0 <= ctx < NUM_OF_CONTEXTS,
    ensures
        ({
            let r = next_pending(s, ctx) as int;
            let thr = s.threshold[ctx];
            &&& 0 <= r < NUM_OF_IRQS
            &&& forall|j: int|
                0 <= j < NUM_OF_IRQS && #[trigger] is_candidate(s, ctx, j) && s.priority[j] > thr
                    ==> is_candidate(s, ctx, r) && s.priority[j] <= s.priority[r] && s.priority[r] > thr
            &&& r != 0 ==> is_candidate(s, ctx, r) && s.priority[r] > thr
            &&& forall|j: int|
                0 <= j < r && #[trigger] is_candidate(s, ctx, j) ==> s.priority[j] < s.priority[r]
        }),
{
    lemma_best_props(s, ctx, NUM_OF_IRQS as nat);
    let (id, m) = best(s, ctx, NUM_OF_IRQS as nat);
    assert(next_pending(s, ctx) as int == id);
}

/// Bit `b` of `(p & !(c | (1 << b))) & e` is clear.
proof fn lemma_claimed_bit_masks(p: u32, c: u32, e: u32, b: u32)
    requires
        b < 32,
    ensures
        ((p & !(c | (1u32 << b))) & e) & (1u32 << b) == 0,
{
    assert(((p & !(c | (1u32 << b))) & e) & (1u32 << b) == 0) by (bit_vector)
        requires
            b < 32,
    ;
}

/// An interrupt that a context has claimed is not offered to it again before
/// it is completed: after a claim read returns `r`, `r` is no longer a
/// candidate of that context.
pub proof fn lemma_claimed_not_offered_again(s: VPlicState, addr: usize, cpuid: int)
    requires
        plic_wf(s),
        plic_read_ok(s, addr, cpuid),
        in_context(addr & MASK),
        addr & 0xfff != 0,
        next_pending(s, claim_ctx(addr - BASE_ADDRESS)) != 0,
    ensures
        ({
            let (r, s2, acts) = spec_read(s, addr, cpuid);
            let ctx = claim_ctx(addr - BASE_ADDRESS);
            r == next_pending(s, ctx) && !is_candidate(s2, ctx, r as int)
        }),
{
    lemma_window_offset(addr);
    let ctx = claim_ctx(addr - BASE_ADDRESS);
    let r = next_pending(s, ctx);
    lemma_next_pending_is_max(s, ctx);
    let s1 = without_pending(s, r);
    let s2 = with_claimed(s1, r, ctx);
    let w = (r / 32) as int;
    let b = r % 32;
    assert(r as int / 32 == w);
    assert((r as int % 32) as u32 == b);
    lemma_claimed_bit_masks(s2.pending[w], s1.claimed[ctx * 32 + w], s2.enable[ctx * 32 + w], b);
    assert(s2.claimed[ctx * 32 + w] == s1.claimed[ctx * 32 + w] | (1u32 << b));
}

/// Completing an interrupt clears its claimed bit in the context of the
/// completion register, and nothing else but that bit changes.
pub proof fn lemma_complete_unclaims(s: VPlicState, addr: usize, val: usize, cpuid: int)
    requires
        plic_wf(s),
        plic_write_ok(s, addr, val, cpuid),
        in_context(addr & MASK),
        addr & 0xfff != 0,
    ensures
        ({
            let (s2, acts) = spec_write(s, addr, val, cpuid);
            let ctx = claim_ctx(addr - BASE_ADDRESS);
            let v = val as u32;
            let i = ctx * 32 + (v / 32) as int;
            &&& s2.claimed[i] & (1u32 << (v % 32)) == 0
            &&& s2 == without_claimed(s, v, ctx)
            &&& acts[0] == DeviceAction::CompleteInterrupt { intid: v }
        }),
{
    lemma_window_offset(addr);
    let ctx = claim_ctx(addr - BASE_ADDRESS);
    let v = val as u32;
    let i = ctx * 32 + (v / 32) as int;
    let c = s.claimed[i];
    let b = v % 32;
    assert((c & !(1u32 << b)) & (1u32 << b) == 0) by (bit_vector);
}

/// What a guest writes to a priority, enable or threshold register it reads
/// back, as a 32-bit value, and the read changes nothing.
pub proof fn lemma_read_after_write(s: VPlicState, addr: usize, val: usize, cpuid: int)
    requires
        plic_wf(s),
        plic_write_ok(s, addr, val, cpuid),
        in_window(addr),
        in_priority(addr & MASK) || in_enable(addr & MASK) || (in_context(addr & MASK) && addr
            & 0xfff == 0),
    ensures
        ({
            let (s2, acts) = spec_write(s, addr, val, cpuid);
            let (r, s3, acts2) = spec_read(s2, addr, cpuid);
            r == val as u32 && s3 == s2 && acts2 == Seq::<DeviceAction>::empty()
        }),
{
    lemma_window_offset(addr);
    let a = addr - BASE_ADDRESS;
    let off = addr & MASK;
    if in_enable(off) && !in_priority(off) {
        let ctx = enable_ctx(a);
        assert(0 <= enable_word(a) < 32) by (nonlinear_arith)
            requires
                ctx == (a - 0x2000) / 0x80,
                enable_word(a) == (a - 0x2000 - 0x80 * ctx) / 4,
                a >= 0x2000,
        ;
    }
}

/// An access at an offset that holds no register (such as the gap
/// `0x1080..=0x1fff` after the pending words) reads 0, ignores writes, and
/// changes nothing.
pub proof fn lemma_unmapped_access(s: VPlicState, addr: usize, val: usize, cpuid: int)
    requires
        ({
            let off = addr & MASK;
            !in_priority(off) && !in_pending(off) && !in_enable(off) && !in_context(off)
        }),
    ensures
        spec_read(s, addr, cpuid) == (0u32, s, Seq::<DeviceAction>::empty()),
        spec_write(s, addr, val, cpuid) == (s, Seq::<DeviceAction>::empty()),
{
}

/// A guest write to an enable register of context `ctx` sets that register
/// alone, and is forwarded to the same enable word, at the same offset in the
/// context's enable block, of the S-mode context of the physical CPU that
/// runs the register's vCPU.
pub proof fn lemma_enable_write_forwarded(s: VPlicState, addr: usize, val: usize, cpuid: int)
    requires
        plic_wf(s),
        plic_write_ok(s, addr, val, cpuid),
        in_window(addr),
        in_enable(addr & MASK),
    ensures
        ({
            let (s2, acts) = spec_write(s, addr, val, cpuid);
            let rel = addr - BASE_ADDRESS - INT_ENABLE0_CONTEXT0;
            let ctx = rel / 0x80;
            let word = (rel % 0x80) / 4;
            &&& 0 <= word < NUM_OF_WORDS
            &&& acts == seq![
                DeviceAction::RawWrite32 {
                    addr: (BASE_ADDRESS + INT_ENABLE0_CONTEXT0 + s.v2p[ctx / 2] * 0x100 + 0x80 + word * 4) as usize,
                    val: val as u32,
                },
            ]
            &&& s2.enable == s.enable.update(ctx * 32 + word, val as u32)
            &&& s2.priority == s.priority && s2.pending == s.pending && s2.claimed == s.claimed
            &&& s2.threshold == s.threshold
        }),
{
    lemma_window_offset(addr);
    let a = addr - BASE_ADDRESS;
    let rel = a - INT_ENABLE0_CONTEXT0;
    assert(rel - 0x80 * (rel / 0x80) == rel % 0x80) by (nonlinear_arith)
        requires
            rel >= 0,
    ;
    assert(enable_word(a) == (rel % 0x80) / 4);
}

/// The interrupt line updated after a change is that of the vCPU that the
/// physical CPU runs: its S-mode context decides when the guest's S-mode
/// contexts are driven, its M-mode context when the M-mode ones are. The line
/// is raised exactly when that context has an interrupt to offer.
pub proof fn lemma_update_follows_running_vcpu(s: VPlicState, cpuid: int)
    requires
        plic_wf(s),
        ready(s, cpuid),
    ensures
        s.mode == PrivilegeMode::ModeS ==> update_actions(s, cpuid) == (if next_pending(s, 2 * s.p2v[cpuid] + 1)
            != 0 {
            seq![DeviceAction::AssertVsExternal]
        } else {
            seq![DeviceAction::FlushVsExternal]
        }),
        s.mode == PrivilegeMode::ModeM ==> update_actions(s, cpuid) == (if next_pending(s, 2 * s.p2v[cpuid]) != 0 {
            seq![DeviceAction::AssertVsExternal]
        } else {
            seq![DeviceAction::FlushVsExternal]
        }),
{
}

/// Bit `irq % 32` of pending word `irq / 32`: interrupt `irq` is pending.
pub open spec fn is_pending(s: VPlicState, irq: int) -> bool {
    s.pending[irq / 32] & (1u32 << ((irq % 32) as u32)) != 0
}

/// Bits `b` and `k` of a word with bit `b` set.
proof fn lemma_set_bit(p: u32, b: u32, k: u32)
    requires
        b < 32,
        k < 32,
    ensures
        ((p | (1u32 << b)) & (1u32 << k) != 0) <==> (p & (1u32 << k) != 0 || b == k),
{
    assert(((p | (1u32 << b)) & (1u32 << k) != 0) <==> (p & (1u32 << k) != 0 || b == k)) by (bit_vector)
        requires
            b < 32,
            k < 32,
    ;
}

/// A device interrupt makes the interrupt itself pending and no other: after
/// it, interrupt `irq` is pending exactly when it was before or is `intid`,
/// and only the pending words change.
pub proof fn lemma_interrupt_sets_own_pending(s: VPlicState, intid: u32)
    requires
        state_wf(s),
        intid < NUM_OF_IRQS,
    ensures
        ({
            let s2 = with_pending(s, intid);
            &&& is_pending(s2, intid as int)
            &&& forall|irq: int|
                0 <= irq < NUM_OF_IRQS ==> (#[trigger] is_pending(s2, irq) <==> is_pending(s, irq) || irq
                    == intid)
            &&& s2.pending.len() == s.pending.len()
            &&& s2.priority == s.priority && s2.claimed == s.claimed && s2.enable == s.enable
            &&& s2.threshold == s.threshold && s2.v2p == s.v2p && s2.p2v == s.p2v && s2.mode == s.mode
        }),
{
    let s2 = with_pending(s, intid);
    let w = (intid / 32) as int;
    let b = intid % 32;
    assert forall|irq: int| 0 <= irq < NUM_OF_IRQS implies (#[trigger] is_pending(s2, irq) <==> is_pending(s, irq)
        || irq == intid) by {
        let k = (irq % 32) as u32;
        if irq / 32 == w {
            lemma_set_bit(s.pending[w], b, k);
            assert(b == k <==> irq == intid);
        }
    }
    lemma_set_bit(s.pending[w], b, b);
}

/// Bits `b` and `k` of the candidates of a word whose pending bit `b` is set.
proof fn lemma_set_bit_candidates(p: u32, c: u32, e: u32, b: u32, k: u32)
    requires
        b < 32,
        k < 32,
    ensures
        b != k ==> ((((p | (1u32 << b)) & !c) & e) & (1u32 << k)) == (((p & !c) & e) & (1u32 << k)),
        (c & (1u32 << b)) == 0 && (e & (1u32 << b)) != 0 ==> ((((p | (1u32 << b)) & !c) & e) & (1u32 << b)) > 0,
{
    assert(b != k ==> ((((p | (1u32 << b)) & !c) & e) & (1u32 << k)) == (((p & !c) & e) & (1u32 << k)))
        by (bit_vector)
        requires
            b < 32,
            k < 32,
    ;
    assert((c & (1u32 << b)) == 0 && (e & (1u32 << b)) != 0 ==> ((((p | (1u32 << b)) & !c) & e) & (1u32 << b))
        > 0) by (bit_vector)
        requires
            b < 32,
    ;
}

/// A device interrupt that a context enables and has not claimed, with a
/// priority above the context's threshold and above that of every other
/// interrupt the context may be offered, is what the context's next claim
/// gets.
pub proof fn lemma_interrupt_then_claim(s: VPlicState, intid: u32, ctx: int)
    requires
        plic_wf(s),
        0 < intid < NUM_OF_IRQS,
        0 <= ctx < NUM_OF_CONTEXTS,
        s.enable[ctx * 32 + (intid / 32) as int] & (1u32 << (intid % 32)) != 0,
        s.claimed[ctx * 32 + (intid / 32) as int] & (1u32 << (intid % 32)) == 0,
        s.priority[intid as int] > s.threshold[ctx],
        forall|j: int|
            0 <= j < NUM_OF_IRQS && j != intid && #[trigger] is_candidate(s, ctx, j) ==> s.priority[j]
                < s.priority[intid as int],
    ensures
        next_pending(with_pending(s, intid), ctx) == intid,
{
    let s2 = with_pending(s, intid);
    let w = (intid / 32) as int;
    let b = intid % 32;
    assert((intid as int % 32) as u32 == b);
    assert forall|j: int| 0 <= j < NUM_OF_IRQS && j != intid implies (#[trigger] is_candidate(s2, ctx, j)
        <==> is_candidate(s, ctx, j)) by {
        let k = (j % 32) as u32;
        if j / 32 == w {
            lemma_set_bit_candidates(s.pending[w], s.claimed[ctx * 32 + w], s.enable[ctx * 32 + w], b, k);
            assert(b != k);
        }
    }
    lemma_set_bit_candidates(s.pending[w], s.claimed[ctx * 32 + w], s.enable[ctx * 32 + w], b, b);
    assert(is_candidate(s2, ctx, intid as int));
    lemma_next_pending_is_max(s2, ctx);
}

/// A guest write to the threshold register of context `ctx` sets that
/// threshold alone, and is forwarded to the S-mode threshold register of the
/// physical CPU that runs the context's vCPU.
pub proof fn lemma_threshold_write_forwarded(s: VPlicState, addr: usize, val: usize, cpuid: int)
    requires
        plic_wf(s),
        plic_write_ok(s, addr, val, cpuid),
        in_window(addr),
        in_context(addr & MASK),
        addr & 0xfff == 0,
    ensures
        ({
            let (s2, acts) = spec_write(s, addr, val, cpuid);
            let ctx = (addr - BASE_ADDRESS - PRIO_THRESHOLD_CONTEXT0) / 0x1000;
            &&& acts[0] == DeviceAction::RawWrite32 {
                addr: (BASE_ADDRESS + PRIO_THRESHOLD_CONTEXT0 + s.v2p[ctx / 2] * 0x2000 + 0x1000) as usize,
                val: val as u32,
            }
            &&& s2.threshold == s.threshold.update(ctx, val as u32)
            &&& s2.priority == s.priority && s2.pending == s.pending && s2.claimed == s.claimed
            &&& s2.enable == s.enable
        }),
{
    lemma_window_offset(addr);
}

/// Bit `irq % 32` of claimed word `irq / 32` of context `ctx`: the context
/// has claimed interrupt `irq` and not completed it.
pub open spec fn is_claimed(s: VPlicState, ctx: int, irq: int) -> bool {
    s.claimed[ctx * 32 + irq / 32] & (1u32 << ((irq % 32) as u32)) != 0
}

/// Bits `b` and `k` of a word with bit `b` cleared.
proof fn lemma_clear_bit(p: u32, b: u32, k: u32)
    requires
        b < 32,
        k < 32,
    ensures
        ((p & !(1u32 << b)) & (1u32 << k) != 0) <==> (p & (1u32 << k) != 0 && b != k),
{
    assert(((p & !(1u32 << b)) & (1u32 << k) != 0) <==> (p & (1u32 << k) != 0 && b != k)) by (bit_vector)
        requires
            b < 32,
            k < 32,
    ;
}

/// A claim read that gets interrupt `r` takes it from the pending ones and
/// marks it claimed by the reading context: no other pending or claimed bit
/// changes, nor any priority, enable bit or threshold.
pub proof fn lemma_claim_moves_pending_to_claimed(s: VPlicState, addr: usize, cpuid: int)
    requires
        plic_wf(s),
        plic_read_ok(s, addr, cpuid),
        in_context(addr & MASK),
        addr & 0xfff != 0,
        next_pending(s, claim_ctx(addr - BASE_ADDRESS)) != 0,
    ensures
        ({
            let (r, s2, acts) = spec_read(s, addr, cpuid);
            let ctx = (addr - BASE_ADDRESS - CLAIM_COMPLETE_CONTEXT0) / 0x1000;
            &&& r == next_pending(s, ctx)
            &&& forall|irq: int|
                0 <= irq < NUM_OF_IRQS ==> (#[trigger] is_pending(s2, irq) <==> is_pending(s, irq) && irq != r)
            &&& forall|c: int, irq: int|
                0 <= c < NUM_OF_CONTEXTS && 0 <= irq < NUM_OF_IRQS ==> (#[trigger] is_claimed(s2, c, irq) <==> (
                is_claimed(s, c, irq) || (c == ctx && irq == r)))
            &&& s2.priority == s.priority && s2.enable == s.enable && s2.threshold == s.threshold
            &&& s2.pending.len() == s.pending.len() && s2.claimed.len() == s.claimed.len()
        }),
{
    lemma_window_offset(addr);
    let ctx = claim_ctx(addr - BASE_ADDRESS);
    let r = next_pending(s, ctx);
    lemma_next_pending_is_max(s, ctx);
    let s1 = without_pending(s, r);
    let s2 = with_claimed(s1, r, ctx);
    let w = (r / 32) as int;
    let b = r % 32;
    assert(r as int / 32 == w);
    assert((r as int % 32) as u32 == b);
    assert forall|irq: int| 0 <= irq < NUM_OF_IRQS implies (#[trigger] is_pending(s2, irq) <==> is_pending(s, irq)
        && irq != r) by {
        let k = (irq % 32) as u32;
        if irq / 32 == w {
            lemma_clear_bit(s.pending[w], b, k);
            assert(b == k <==> irq == r);
        }
    }
    assert forall|c: int, irq: int| 0 <= c < NUM_OF_CONTEXTS && 0 <= irq < NUM_OF_IRQS implies (
    #[trigger] is_claimed(s2, c, irq) <==> (is_claimed(s, c, irq) || (c == ctx && irq == r))) by {
        let k = (irq % 32) as u32;
        if c * 32 + irq / 32 == ctx * 32 + w {
            assert(c == ctx && irq / 32 == w);
            lemma_set_bit(s.claimed[ctx * 32 + w], b, k);
            assert(b == k <==> irq == r);
        }
    }
}

impl VPlic {
    /// The virtual PLIC after reset: nothing pending, claimed or enabled,
    /// priorities and thresholds 0, no CPU mapped, S-mode contexts.
    pub fn new() -> (r: Self)
        ensures
            r@.priority == Seq::new(NUM_OF_IRQS as nat, |i: int| 0u32),
            r@.pending == Seq::new(NUM_OF_WORDS as nat, |i: int| 0u32),
            r@.claimed == Seq::new((NUM_OF_CONTEXTS * NUM_OF_WORDS) as nat, |i: int| 0u32),
            r@.enable == Seq::new((NUM_OF_CONTEXTS * NUM_OF_WORDS) as nat, |i: int| 0u32),
            r@.threshold == Seq::new(NUM_OF_CONTEXTS as nat, |i: int| 0u32),
            r@.v2p == Seq::new(NUM_OF_CPUS as nat, |i: int| 0usize),
            r@.p2v == Seq::new(NUM_OF_CPUS as nat, |i: int| usize::MAX),
            r@.mode == PrivilegeMode::ModeS,
    {
        let r = VPlic {
            priority: vec![0u32; NUM_OF_IRQS],
            pending: vec![0u32; NUM_OF_WORDS],
            claimed: vec![0u32; NUM_OF_CONTEXTS * NUM_OF_WORDS],
            enable: vec![0u32; NUM_OF_CONTEXTS * NUM_OF_WORDS],
            priority_threshold: vec![0u32; NUM_OF_CONTEXTS],
            v2p_cpu: vec![0usize; NUM_OF_CPUS],
            p2v_cpu: vec![usize::MAX; NUM_OF_CPUS],
            mode: PrivilegeMode::ModeS,
        };
        assert(r@.priority =~= Seq::new(NUM_OF_IRQS as nat, |i: int| 0u32));
        assert(r@.pending =~= Seq::new(NUM_OF_WORDS as nat, |i: int| 0u32));
        assert(r@.claimed =~= Seq::new((NUM_OF_CONTEXTS * NUM_OF_WORDS) as nat, |i: int| 0u32));
        assert(r@.enable =~= Seq::new((NUM_OF_CONTEXTS * NUM_OF_WORDS) as nat, |i: int| 0u32));
        assert(r@.threshold =~= Seq::new(NUM_OF_CONTEXTS as nat, |i: int| 0u32));
        assert(r@.v2p =~= Seq::new(NUM_OF_CPUS as nat, |i: int| 0usize));
        assert(r@.p2v =~= Seq::new(NUM_OF_CPUS as nat, |i: int| usize::MAX));
        r
    }

    /// Maps virtual CPU `i` to physical CPU `v2p_cpu[i]`, and each physical
    /// CPU below `NUM_OF_CPUS` that some virtual CPU is mapped to back to the
    /// highest such virtual CPU.
    pub fn set_vcpu_config(&mut self, v2p_cpu: [usize; NUM_OF_CPUS])
        requires
            plic_wf(old(self)@),
        ensures
            final(self)@.v2p == v2p_cpu@,
            forall|p: int|
                0 <= p < NUM_OF_CPUS ==> #[trigger] final(self)@.p2v[p] == last_vcpu_of(
                    v2p_cpu@,
                    p,
                    NUM_OF_CPUS as nat,
                    old(self)@.p2v[p],
                ),
            final(self)@.p2v.len() == NUM_OF_CPUS,
            final(self)@.priority == old(self)@.priority,
            final(self)@.pending == old(self)@.pending,
            final(self)@.claimed == old(self)@.claimed,
            final(self)@.enable == old(self)@.enable,
            final(self)@.threshold == old(self)@.threshold,
            final(self)@.mode == old(self)@.mode,
    {
        let mut i: usize = 0;
        while i < NUM_OF_CPUS
            invariant
                0 <= i <= NUM_OF_CPUS,
                self.v2p_cpu@.len() == NUM_OF_CPUS,
                forall|j: int| 0 <= j < i ==> self.v2p_cpu@[j] == v2p_cpu@[j],
                plic_wf(self@),
                self.p2v_cpu@ == old(self)@.p2v,
                self@.priority == old(self)@.priority,
                self@.pending == old(self)@.pending,
                self@.claimed == old(self)@.claimed,
                self@.enable == old(self)@.enable,
                self@.threshold == old(self)@.threshold,
                self@.mode == old(self)@.mode,
            decreases NUM_OF_CPUS - i,
        {
            self.v2p_cpu.set(i, v2p_cpu[i]);
            i = i + 1;
        }
        assert(self.v2p_cpu@ =~= v2p_cpu@);
        let mut idx: usize = 0;
        while idx < NUM_OF_CPUS
            invariant
                0 <= idx <= NUM_OF_CPUS,
                self.v2p_cpu@ == v2p_cpu@,
                plic_wf(self@),
                forall|p: int|
                    0 <= p < NUM_OF_CPUS ==> #[trigger] self.p2v_cpu@[p] == last_vcpu_of(
                        v2p_cpu@,
                        p,
                        idx as nat,
                        old(self)@.p2v[p],
                    ),
                self@.priority == old(self)@.priority,
                self@.pending == old(self)@.pending,
                self@.claimed == old(self)@.claimed,
                self@.enable == old(self)@.enable,
                self@.threshold == old(self)@.threshold,
                self@.mode == old(self)@.mode,
            decreases NUM_OF_CPUS - idx,
        {
            let pidx = self.v2p_cpu[idx];
            if pidx < NUM_OF_CPUS {
                self.p2v_cpu.set(pidx, idx);
            }
            idx = idx + 1;
        }
    }

    /// Drives the M-mode contexts of the guest, for a guest that runs in
    /// virtual machine mode.
    pub fn enable_vmmode(&mut self)
        ensures
            final(self)@ == (VPlicState { mode: PrivilegeMode::ModeM, ..old(self)@ }),
    {
        self.mode = PrivilegeMode::ModeM;
    }

    fn priority_write(&mut self, addr: usize, val: u32, cpuid: usize) -> (r: Vec<DeviceAction>)
        requires
            plic_wf(old(self)@),
            in_window(addr),
            addr - BASE_ADDRESS <= INT_PRIORITY1023,
            ready(old(self)@, cpuid as int),
        ensures
            (final(self)@, r@) == spec_write(old(self)@, addr, val as usize, cpuid as int),
    {
        proof {
            lemma_window_offset(addr);
        }
        let idx = (addr - BASE_ADDRESS) / 4;
        self.priority.set(idx, val);
        let mut r = Vec::new();
        r.push(DeviceAction::RawWrite32 { addr, val });
        let mut u = self.update_state(cpuid);
        r.append(&mut u);
        assert(r@ =~= seq![DeviceAction::RawWrite32 { addr, val }] + update_actions(self@, cpuid as int));
        r
    }

    fn priority_read(&mut self, addr: usize) -> (r: u32)
        requires
            plic_wf(old(self)@),
            in_window(addr),
            addr - BASE_ADDRESS <= INT_PRIORITY1023,
        ensures
            r == old(self)@.priority[(addr - BASE_ADDRESS) / 4],
            final(self)@ == old(self)@,
    {
        let idx = (addr - BASE_ADDRESS) / 4;
        self.priority[idx]
    }

    /// The pending bits are read only.
    fn pending_write(&mut self, addr: usize, val: u32)
        ensures
            final(self)@ == old(self)@,
    {
    }

    fn pending_read(&mut self, addr: usize) -> (r: u32)
        requires
            plic_wf(old(self)@),
            in_window(addr),
            INT_PENDING0 <= addr - BASE_ADDRESS <= INT_PENDING992,
        ensures
            r == old(self)@.pending[(addr - BASE_ADDRESS - INT_PENDING0) / 4],
            final(self)@ == old(self)@,
    {
        let word_idx = (addr - BASE_ADDRESS - INT_PENDING0) / 4;
        self.pending[word_idx]
    }

    fn enable_write(&mut self, addr: usize, val: u32) -> (r: Vec<DeviceAction>)
        requires
            plic_wf(old(self)@),
            in_window(addr),
            in_enable((addr - BASE_ADDRESS) as usize),
            enable_ctx(addr - BASE_ADDRESS) < NUM_OF_CONTEXTS,
            enable_raw_addr(old(self)@, addr - BASE_ADDRESS) <= usize::MAX,
        ensures
            final(self)@ == (VPlicState {
                enable: old(self)@.enable.update(
                    enable_ctx(addr - BASE_ADDRESS) * 32 + enable_word(addr - BASE_ADDRESS),
                    val,
                ),
                ..old(self)@
            }),
            r@ == seq![
                DeviceAction::RawWrite32 {
                    addr: enable_raw_addr(old(self)@, addr - BASE_ADDRESS) as usize,
                    val,
                },
            ],
    {
        let context = (addr - BASE_ADDRESS - INT_ENABLE0_CONTEXT0) / INT_ENABLE0_CONTEXT_OFFSET;
        let vcpuid = context / 2;
        let word_idx = (addr - BASE_ADDRESS - INT_ENABLE0_CONTEXT0 - INT_ENABLE0_CONTEXT_OFFSET * context) / 4;
        let raw = BASE_ADDRESS + INT_ENABLE0_CONTEXT0 + self.v2p_cpu[vcpuid] * INT_ENABLE0_HART_OFFSET
            + INT_ENABLE0_CONTEXT_OFFSET + word_idx * 4;
        self.enable.set(context * 32 + word_idx, val);
        let mut r = Vec::new();
        r.push(DeviceAction::RawWrite32 { addr: raw, val });
        r
    }

    fn enable_read(&mut self, addr: usize) -> (r: u32)
        requires
            plic_wf(old(self)@),
            in_window(addr),
            in_enable((addr - BASE_ADDRESS) as usize),
            enable_ctx(addr - BASE_ADDRESS) < NUM_OF_CONTEXTS,
        ensures
            r == old(self)@.enable[enable_ctx(addr - BASE_ADDRESS) * 32 + enable_word(addr - BASE_ADDRESS)],
            final(self)@ == old(self)@,
    {
        let context = (addr - BASE_ADDRESS - INT_ENABLE0_CONTEXT0) / INT_ENABLE0_CONTEXT_OFFSET;
        let word_idx = (addr - BASE_ADDRESS - INT_ENABLE0_CONTEXT0 - INT_ENABLE0_CONTEXT_OFFSET * context) / 4;
        self.enable[context * 32 + word_idx]
    }

    fn priority_threshold_write(&mut self, addr: usize, val: u32, cpuid: usize) -> (r: Vec<DeviceAction>)
        requires
            plic_wf(old(self)@),
            in_window(addr),
            PRIO_THRESHOLD_CONTEXT0 <= addr - BASE_ADDRESS,
            threshold_ctx(addr - BASE_ADDRESS) < NUM_OF_CONTEXTS,
            threshold_raw_addr(old(self)@, addr - BASE_ADDRESS) <= usize::MAX,
            ready(old(self)@, cpuid as int),
        ensures
            ({
                let s2 = VPlicState {
                    threshold: old(self)@.threshold.update(threshold_ctx(addr - BASE_ADDRESS), val),
                    ..old(self)@
                };
                &&& final(self)@ == s2
                &&& r@ == seq![
                    DeviceAction::RawWrite32 {
                        addr: threshold_raw_addr(old(self)@, addr - BASE_ADDRESS) as usize,
                        val,
                    },
                ] + update_actions(s2, cpuid as int)
            }),
    {
        let context = (addr - BASE_ADDRESS - PRIO_THRESHOLD_CONTEXT0) / PRIO_THRESHOLD_CONTEXT_OFFSET;
        let vcpuid = context / 2;
        let raw = BASE_ADDRESS + PRIO_THRESHOLD_CONTEXT0 + self.v2p_cpu[vcpuid] * PRIO_THRESHOLD_HART_OFFSET
            + PRIO_THRESHOLD_CONTEXT_OFFSET;
        self.priority_threshold.set(context, val);
        let mut r = Vec::new();
        r.push(DeviceAction::RawWrite32 { addr: raw, val });
        let mut u = self.update_state(cpuid);
        r.append(&mut u);
        r
    }

    fn priority_threshold_read(&mut self, addr: usize) -> (r: u32)
        requires
            plic_wf(old(self)@),
            in_window(addr),
            PRIO_THRESHOLD_CONTEXT0 <= addr - BASE_ADDRESS,
            threshold_ctx(addr - BASE_ADDRESS) < NUM_OF_CONTEXTS,
        ensures
            r == old(self)@.threshold[threshold_ctx(addr - BASE_ADDRESS)],
            final(self)@ == old(self)@,
    {
        let context = (addr - BASE_ADDRESS - PRIO_THRESHOLD_CONTEXT0) / PRIO_THRESHOLD_CONTEXT_OFFSET;
        self.priority_threshold[context]
    }

    fn claim_comp_write(&mut self, addr: usize, val: u32, cpuid: usize) -> (r: Vec<DeviceAction>)
        requires
            plic_wf(old(self)@),
            in_window(addr),
            CLAIM_COMPLETE_CONTEXT0 <= addr - BASE_ADDRESS,
            claim_ctx(addr - BASE_ADDRESS) < NUM_OF_CONTEXTS,
            val < NUM_OF_IRQS,
            ready(old(self)@, cpuid as int),
        ensures
            ({
                let s2 = without_claimed(old(self)@, val, claim_ctx(addr - BASE_ADDRESS));
                &&& final(self)@ == s2
                &&& r@ == seq![DeviceAction::CompleteInterrupt { intid: val }] + update_actions(s2, cpuid as int)
            }),
    {
        let mut r = Vec::new();
        r.push(DeviceAction::CompleteInterrupt { intid: val });
        let context = (addr - BASE_ADDRESS - CLAIM_COMPLETE_CONTEXT0) / CLAIM_COMPLETE_CONTEXT_OFFSET;
        self.clear_claimed(val, context);
        let mut u = self.update_state(cpuid);
        r.append(&mut u);
        r
    }

    fn claim_comp_read(&mut self, addr: usize, cpuid: usize) -> (r: (u32, Vec<DeviceAction>))
        requires
            plic_wf(old(self)@),
            in_window(addr),
            CLAIM_COMPLETE_CONTEXT0 <= addr - BASE_ADDRESS,
            claim_ctx(addr - BASE_ADDRESS) < NUM_OF_CONTEXTS,
            next_pending(old(self)@, claim_ctx(addr - BASE_ADDRESS)) != 0 ==> ready(old(self)@, cpuid as int),
        ensures
            ({
                let ctx = claim_ctx(addr - BASE_ADDRESS);
                let n = next_pending(old(self)@, ctx);
                &&& r.0 == n
                &&& n == 0 ==> final(self)@ == old(self)@ && r.1@ == Seq::<DeviceAction>::empty()
                &&& n != 0 ==> {
                    let s2 = with_claimed(without_pending(old(self)@, n), n, ctx);
                    final(self)@ == s2 && r.1@ == update_actions(s2, cpuid as int)
                }
            }),
            plic_wf(final(self)@),
    {
        let context = (addr - BASE_ADDRESS - CLAIM_COMPLETE_CONTEXT0) / CLAIM_COMPLETE_CONTEXT_OFFSET;
        let result = self.get_next_pending(context);
        if result == 0 {
            return (0, Vec::new());
        }
        self.clear_pending(result);
        self.set_claimed(result, context);
        let u = self.update_state(cpuid);
        (result, u)
    }

    fn claim_comp_int(&mut self, intid: u32, cpuid: usize) -> (r: Vec<DeviceAction>)
        requires
            plic_wf(old(self)@),
            intid < NUM_OF_IRQS,
            ready(old(self)@, cpuid as int),
        ensures
            final(self)@ == with_pending(old(self)@, intid),
            r@ == update_actions(with_pending(old(self)@, intid), cpuid as int),
    {
        self.set_pending(intid);
        self.update_state(cpuid)
    }

    fn set_pending(&mut self, intid: u32)
        requires
            plic_wf(old(self)@),
            intid < NUM_OF_IRQS,
        ensures
            final(self)@ == with_pending(old(self)@, intid),
    {
        let word_idx = (intid / 32) as usize;
        let word_bit = intid % 32;
        let w = self.pending[word_idx] | (1u32 << word_bit);
        self.pending.set(word_idx, w);
    }

    fn clear_pending(&mut self, intid: u32)
        requires
            plic_wf(old(self)@),
            intid < NUM_OF_IRQS,
        ensures
            final(self)@ == without_pending(old(self)@, intid),
    {
        let word_idx = (intid / 32) as usize;
        let word_bit = intid % 32;
        let w = self.pending[word_idx] & !(1u32 << word_bit);
        self.pending.set(word_idx, w);
    }

    fn set_claimed(&mut self, intid: u32, context: usize)
        requires
            plic_wf(old(self)@),
            intid < NUM_OF_IRQS,
            context < NUM_OF_CONTEXTS,
        ensures
            final(self)@ == with_claimed(old(self)@, intid, context as int),
    {
        let word_idx = (intid / 32) as usize;
        let word_bit = intid % 32;
        let i = context * 32 + word_idx;
        let w = self.claimed[i] | (1u32 << word_bit);
        self.claimed.set(i, w);
    }

    fn clear_claimed(&mut self, intid: u32, context: usize)
        requires
            plic_wf(old(self)@),
            intid < NUM_OF_IRQS,
            context < NUM_OF_CONTEXTS,
        ensures
            final(self)@ == without_claimed(old(self)@, intid, context as int),
    {
        let word_idx = (intid / 32) as usize;
        let word_bit = intid % 32;
        let i = context * 32 + word_idx;
        let w = self.claimed[i] & !(1u32 << word_bit);
        self.claimed.set(i, w);
    }

    /// The interrupt to offer to `context`: among the pending, enabled,
    /// unclaimed ones, the lowest-numbered one of highest priority, if that
    /// priority is above the context's threshold; 0 otherwise.
    fn get_next_pending(&self, context: usize) -> (r: u32)
        requires
            plic_wf(self@),
            context < NUM_OF_CONTEXTS,
        ensures
            r == next_pending(self@, context as int),
            r < NUM_OF_IRQS,
    {
        let ghost s = self@;
        let ghost ctx = context as int;
        let mut intid: usize = 0;
        let mut max_prio = self.priority_threshold[context];
        let mut word_idx: usize = 0;
        while word_idx < NUM_OF_WORDS
            invariant
                s == self@,
                plic_wf(s),
                ctx == context,
                context < NUM_OF_CONTEXTS,
                word_idx <= NUM_OF_WORDS,
                best(s, ctx, (word_idx * 32) as nat) == (intid as int, max_prio),
                intid < NUM_OF_IRQS,
            decreases NUM_OF_WORDS - word_idx,
        {
            let pending = self.pending[word_idx];
            let claimed = self.claimed[context * 32 + word_idx];
            let enable = self.enable[context * 32 + word_idx];
            let candidates = (pending & !claimed) & enable;
            proof {
                assert(candidates == candidates_word(s, ctx, word_idx as int));
            }
            if candidates == 0 {
                proof {
                    lemma_zero_word_no_candidate();
                    assert forall|j: int| word_idx * 32 <= j < word_idx * 32 + 32 implies !is_candidate(
                        s,
                        ctx,
                        j,
                    ) by {
                        assert(j / 32 == word_idx as int);
                        assert((j % 32) < 32);
                        assert((0u32 & (1u32 << ((j % 32) as u32))) == 0);
                    }
                    lemma_best_skip(s, ctx, (word_idx * 32) as nat, 32);
                }
            } else {
                let mut i: usize = 0;
                while i < 32
                    invariant
                        s == self@,
                        state_wf(s),
                        ctx == context,
                        context < NUM_OF_CONTEXTS,
                        word_idx < NUM_OF_WORDS,
                        i <= 32,
                        candidates == candidates_word(s, ctx, word_idx as int),
                        best(s, ctx, (word_idx * 32 + i) as nat) == (intid as int, max_prio),
                        intid < NUM_OF_IRQS,
                    decreases 32 - i,
                {
                    let irq = word_idx * 32 + i;
                    let is_enabled = (candidates & (1u32 << (i as u32))) > 0;
                    let prio = self.priority[irq];
                    proof {
                        assert(irq as int / 32 == word_idx as int);
                        assert(irq as int % 32 == i as int);
                        assert(is_enabled == is_candidate(s, ctx, irq as int));
                    }
                    if is_enabled && prio > max_prio {
                        intid = irq;
                        max_prio = prio;
                    }
                    i = i + 1;
                }
            }
            word_idx = word_idx + 1;
        }
        intid as u32
    }

    /// The line update for the vCPU that runs on `cpuid`.
    fn update_state(&self, cpuid: usize) -> (r: Vec<DeviceAction>)
        requires
            plic_wf(self@),
            ready(self@, cpuid as int),
        ensures
            r@ == update_actions(self@, cpuid as int),
    {
        let context = match self.mode {
            PrivilegeMode::ModeM => self.p2v_cpu[cpuid] * 2,
            PrivilegeMode::ModeS => self.p2v_cpu[cpuid] * 2 + 1,
            _ => {
                return Vec::new();
            },
        };
        let intid = self.get_next_pending(context);
        let mut r = Vec::new();
        if intid > 0 {
            r.push(DeviceAction::AssertVsExternal);
        } else {
            r.push(DeviceAction::FlushVsExternal);
        }
        r
    }
}

impl VirtualDeviceT for VPlic {
    open spec fn model(&self) -> DeviceModel {
        DeviceModel::Plic(self@)
    }

    /// A guest write: see `spec_write`.
    fn write(&mut self, addr: usize, val: usize, env: &DeviceEnv) -> (r: Vec<DeviceAction>)
        ensures
            (final(self)@, r@) == spec_write(old(self)@, addr, val, env.cpuid as int),
            plic_wf(final(self)@),
    {
        let off = addr & MASK;
        let v = val as u32;
        if off <= INT_PRIORITY1023 {
            proof {
                lemma_window_offset(addr);
            }
            self.priority_write(addr, v, env.cpuid)
        } else if INT_PENDING0 <= off && off <= INT_PENDING992 {
            self.pending_write(addr, v);
            Vec::new()
        } else if INT_ENABLE0_CONTEXT0 <= off && off <= INT_ENABLE992_CONTEXT15871 {
            proof {
                lemma_window_offset(addr);
            }
            self.enable_write(addr, v)
        } else if PRIO_THRESHOLD_CONTEXT0 <= off && off <= CLAIM_COMPLETE_CONTEXT15871 {
            proof {
                lemma_window_offset(addr);
            }
            if addr & 0x0fff == 0 {
                self.priority_threshold_write(addr, v, env.cpuid)
            } else {
                self.claim_comp_write(addr, v, env.cpuid)
            }
        } else {
            Vec::new()
        }
    }

    /// A guest read: see `spec_read`.
    fn read(&mut self, addr: usize, env: &DeviceEnv) -> (r: (usize, Vec<DeviceAction>))
        ensures
            ({
                let (v, s2, acts) = spec_read(old(self)@, addr, env.cpuid as int);
                r.0 == v as usize && final(self)@ == s2 && r.1@ == acts
            }),
            plic_wf(final(self)@),
    {
        let off = addr & MASK;
        if off <= INT_PRIORITY1023 {
            proof {
                lemma_window_offset(addr);
            }
            (self.priority_read(addr) as usize, Vec::new())
        } else if INT_PENDING0 <= off && off <= INT_PENDING992 {
            proof {
                lemma_window_offset(addr);
            }
            (self.pending_read(addr) as usize, Vec::new())
        } else if INT_ENABLE0_CONTEXT0 <= off && off <= INT_ENABLE992_CONTEXT15871 {
            proof {
                lemma_window_offset(addr);
            }
            (self.enable_read(addr) as usize, Vec::new())
        } else if PRIO_THRESHOLD_CONTEXT0 <= off && off <= CLAIM_COMPLETE_CONTEXT15871 {
            proof {
                lemma_window_offset(addr);
            }
            if addr & 0x0fff == 0 {
                (self.priority_threshold_read(addr) as usize, Vec::new())
            } else {
                let (v, acts) = self.claim_comp_read(addr, env.cpuid);
                (v as usize, acts)
            }
        } else {
            (0, Vec::new())
        }
    }

    /// A device interrupt `intid` becomes pending.
    fn interrupt(&mut self, intid: usize, env: &DeviceEnv) -> (r: Vec<DeviceAction>)
        ensures
            final(self)@ == with_pending(old(self)@, intid as u32),
            r@ == update_actions(with_pending(old(self)@, intid as u32), env.cpuid as int),
            plic_wf(final(self)@),
    {
        self.claim_comp_int(intid as u32, env.cpuid)
    }

    /// Reads are served from the virtual registers.
    fn forwards_reads(&self) -> (r: bool)
        ensures
            !r,
    {
        false
    }
}

/// The virtual CPU mapped to physical CPU `p` by `v2p[0..n]`: the highest
/// index that maps to it, or `dflt` when none does.
pub open spec fn last_vcpu_of(v2p: Seq<usize>, p: int, n: nat, dflt: usize) -> usize
    decreases n,
{
    if n == 0 {
        dflt
    } else if v2p[n - 1] == p {
        (n - 1) as usize
    } else {
        last_vcpu_of(v2p, p, (n - 1) as nat, dflt)
    }
}

} // verus!
