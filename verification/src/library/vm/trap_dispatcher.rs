//! Trap dispatcher: a chain of handlers kept in order of priority, each with
//! an optional matcher that decides whether it runs.
use vstd::prelude::*;

verus! {

/// Trap handler priority; `High` runs first.
#[derive(Copy, Clone, Debug, PartialEq, Eq, Structural)]
pub enum TrapPriority {
    High,
    Normal,
    Low,
}

/// The rank of a priority: 0 runs first.
pub open spec fn spec_rank(p: TrapPriority) -> u8 {
    match p {
        TrapPriority::High => 0,
        TrapPriority::Normal => 1,
        TrapPriority::Low => 2,
    }
}

fn rank(p: TrapPriority) -> (r: u8)
    ensures
        r == spec_rank(p),
{
    match p {
        TrapPriority::High => 0,
        TrapPriority::Normal => 1,
        TrapPriority::Low => 2,
    }
}

/// What a handler tells the dispatcher.
#[derive(Copy, Clone, PartialEq, Eq, Structural, Debug)]
pub enum TrapResult {
    /// The trap is handled: stop the chain.
    Handled,
    /// Pass the trap on to the next handler.
    Continue,
}

/// What a handler is told of a trap.
pub struct TrapContext<'a> {
    pub cause: usize,
    pub regs: &'a [usize],
}

/// A handler with its priority and optional matcher.
pub struct TrapHandlerEntry<M, H> {
    pub priority: TrapPriority,
    pub matcher: Option<M>,
    pub handler: H,
}

/// Handlers in order of priority, and in order of registration among equal
/// priorities.
pub open spec fn sorted_by_rank<M, H>(s: Seq<TrapHandlerEntry<M, H>>) -> bool {
    forall|i: int, j: int| 0 <= i < j < s.len() ==> spec_rank(s[i].priority) <= spec_rank(s[j].priority)
}

/// Where a handler of priority `p` goes in `s`: after every handler whose
/// priority is not lower.
pub open spec fn rank_insert_pos<M, H>(s: Seq<TrapHandlerEntry<M, H>>, p: TrapPriority) -> int
    decreases s.len(),
{
    if s.len() == 0 {
        0
    } else if spec_rank(s[0].priority) <= spec_rank(p) {
        1 + rank_insert_pos(s.drop_first(), p)
    } else {
        0
    }
}

proof fn lemma_rank_insert_pos_props<M, H>(s: Seq<TrapHandlerEntry<M, H>>, p: TrapPriority)
    ensures
        0 <= rank_insert_pos(s, p) <= s.len(),
        forall|j: int| 0 <= j < rank_insert_pos(s, p) ==> spec_rank(#[trigger] s[j].priority) <= spec_rank(p),
        rank_insert_pos(s, p) < s.len() ==> spec_rank(s[rank_insert_pos(s, p)].priority) > spec_rank(p),
    decreases s.len(),
{
    if s.len() > 0 && spec_rank(s[0].priority) <= spec_rank(p) {
        lemma_rank_insert_pos_props(s.drop_first(), p);
        assert forall|j: int| 0 <= j < rank_insert_pos(s, p) implies spec_rank(#[trigger] s[j].priority) <= spec_rank(
            p,
        ) by {
            if j > 0 {
                assert(s[j] == s.drop_first()[j - 1]);
            }
        }
        if rank_insert_pos(s, p) < s.len() {
            assert(s[rank_insert_pos(s, p)] == s.drop_first()[rank_insert_pos(s, p) - 1]);
        }
    }
}

/// The handler of entry `e` runs for `ctx` and may return `res`.
pub open spec fn may_run_with<M: Fn(&TrapContext) -> bool, H: Fn(&TrapContext) -> TrapResult>(
    e: TrapHandlerEntry<M, H>,
    ctx: &TrapContext,
    res: TrapResult,
) -> bool {
    (match e.matcher {
        Some(m) => call_ensures(m, (ctx,), true),
        None => true,
    }) && call_ensures(e.handler, (ctx,), res)
}

/// The matcher of entry `e` may reject `ctx`.
pub open spec fn may_skip<M: Fn(&TrapContext) -> bool, H>(e: TrapHandlerEntry<M, H>, ctx: &TrapContext) -> bool {
    match e.matcher {
        Some(m) => call_ensures(m, (ctx,), false),
        None => false,
    }
}

/// The matcher and the handler of `e` accept `ctx`.
pub open spec fn callable<M: Fn(&TrapContext) -> bool, H: Fn(&TrapContext) -> TrapResult>(
    e: TrapHandlerEntry<M, H>,
    ctx: &TrapContext,
) -> bool {
    (match e.matcher {
        Some(m) => call_requires(m, (ctx,)),
        None => true,
    }) && call_requires(e.handler, (ctx,))
}

/// Manages a chain of handlers with priority and optional matcher.
pub struct TrapDispatcher<M, H> {
    handlers: Vec<TrapHandlerEntry<M, H>>,
}

impl<M, H> View for TrapDispatcher<M, H> {
    type V = Seq<TrapHandlerEntry<M, H>>;

    closed spec fn view(&self) -> Seq<TrapHandlerEntry<M, H>> {
        self.handlers@
    }
}

impl<M: Fn(&TrapContext) -> bool, H: Fn(&TrapContext) -> TrapResult> TrapDispatcher<M, H> {
    pub fn new() -> (r: Self)
        ensures
            r@ == Seq::<TrapHandlerEntry<M, H>>::empty(),
    {
        TrapDispatcher { handlers: Vec::new() }
    }

    /// Adds a handler after every handler whose priority is not lower, so
    /// that the chain stays in order of priority and, among equal
    /// priorities, in order of registration.
    pub fn register(&mut self, priority: TrapPriority, matcher: Option<M>, handler: H)
        ensures
            ({
                let p = rank_insert_pos(old(self)@, priority);
                &&& final(self)@ == old(self)@.insert(
                    p,
                    TrapHandlerEntry { priority, matcher, handler },
                )
            }),
            sorted_by_rank(old(self)@) ==> sorted_by_rank(final(self)@),
    {
        proof {
            lemma_rank_insert_pos_props(self@, priority);
        }
        let r = rank(priority);
        let mut pos: usize = 0;
        while pos < self.handlers.len() && rank(self.handlers[pos].priority) <= r
            invariant
                r == spec_rank(priority),
                pos <= self.handlers.len(),
                pos <= rank_insert_pos(self@, priority),
                0 <= rank_insert_pos(self@, priority) <= self@.len(),
                forall|j: int| 0 <= j < rank_insert_pos(self@, priority) ==> spec_rank(#[trigger] self@[j].priority) <= r,
                rank_insert_pos(self@, priority) < self@.len() ==> spec_rank(
                    self@[rank_insert_pos(self@, priority)].priority,
                ) > r,
            decreases self.handlers.len() - pos,
        {
            pos = pos + 1;
        }
        let ghost old_h = self@;
        self.handlers.insert(pos, TrapHandlerEntry { priority, matcher, handler });
        proof {
            if sorted_by_rank(old_h) {
                assert forall|i: int, j: int| 0 <= i < j < self@.len() implies spec_rank(self@[i].priority)
                    <= spec_rank(self@[j].priority) by {
                    if i < pos && j > pos {
                        assert(self@[j] == old_h[j - 1]);
                    } else if i > pos {
                        assert(self@[i] == old_h[i - 1]);
                        assert(self@[j] == old_h[j - 1]);
                    } else if i == pos {
                        assert(self@[j] == old_h[j - 1]);
                    }
                }
            }
        }
    }

    /// Runs the chain for `ctx`: each handler whose matcher accepts the trap
    /// (or that has none) runs, in order, until one returns `Handled`.
    pub fn dispatch(&self, ctx: &TrapContext) -> (r: TrapResult)
        requires
            forall|i: int| 0 <= i < self@.len() ==> callable(#[trigger] self@[i], ctx),
        ensures
            r == TrapResult::Handled ==> exists|i: int|
                0 <= i < self@.len() && may_run_with(#[trigger] self@[i], ctx, TrapResult::Handled) && forall|
                    k: int,
                |
                    0 <= k < i ==> may_skip(#[trigger] self@[k], ctx) || may_run_with(
                        self@[k],
                        ctx,
                        TrapResult::Continue,
                    ),
            r == TrapResult::Continue ==> forall|i: int|
                0 <= i < self@.len() ==> may_skip(#[trigger] self@[i], ctx) || may_run_with(
                    self@[i],
                    ctx,
                    TrapResult::Continue,
                ),
    {
        let mut i: usize = 0;
        while i < self.handlers.len()
            invariant
                i <= self@.len(),
                forall|k: int| 0 <= k < self@.len() ==> callable(#[trigger] self@[k], ctx),
                forall|k: int|
                    0 <= k < i ==> may_skip(#[trigger] self@[k], ctx) || may_run_with(
                        self@[k],
                        ctx,
                        TrapResult::Continue,
                    ),
            decreases self@.len() - i,
        {
            let entry = &self.handlers[i];
            assert(callable(self@[i as int], ctx));
            let matched = match &entry.matcher {
                Some(matcher) => matcher(ctx),
                None => true,
            };
            if matched {
                match (entry.handler)(ctx) {
                    TrapResult::Handled => {
                        assert(may_run_with(self@[i as int], ctx, TrapResult::Handled));
                        return TrapResult::Handled;
                    },
                    TrapResult::Continue => {
                        assert(may_run_with(self@[i as int], ctx, TrapResult::Continue));
                    },
                }
            } else {
                assert(may_skip(self@[i as int], ctx));
            }
            i = i + 1;
        }
        TrapResult::Continue
    }
}

} // verus!
