//! The traps a virtual machine handles.
use vstd::prelude::*;

verus! {

/// A trap vector and the address of its handler.
#[derive(PartialEq, Eq, Structural, Clone, Copy, Debug)]
pub struct Trap {
    id: usize,
    func: usize,
}

impl Trap {
    pub closed spec fn spec_id(&self) -> usize {
        self.id
    }

    pub closed spec fn spec_func(&self) -> usize {
        self.func
    }

    pub fn new(id: usize, func: usize) -> (r: Self)
        ensures
            r.spec_id() == id,
            r.spec_func() == func,
    {
        Trap { id, func }
    }
}

/// The traps registered for a virtual machine, in order of registration.
pub struct TrapMap {
    map: Vec<Trap>,
}

impl View for TrapMap {
    type V = Seq<Trap>;

    closed spec fn view(&self) -> Seq<Trap> {
        self.map@
    }
}

impl TrapMap {
    pub fn new() -> (r: Self)
        ensures
            r@ == Seq::<Trap>::empty(),
    {
        TrapMap { map: Vec::new() }
    }

    /// Records that vector `id` is handled by the function at `func`, and
    /// tells whether the vector could be set up: `enabled` is whether
    /// enabling it succeeded, `registered` whether registering `func` for it
    /// then succeeded (only looked at when enabling did).
    pub fn register_trap(&mut self, id: usize, func: usize, enabled: bool, registered: bool) -> (r: Result<(), ()>)
        ensures
            final(self)@.len() == old(self)@.len() + 1,
            final(self)@.drop_last() == old(self)@,
            final(self)@.last().spec_id() == id,
            final(self)@.last().spec_func() == func,
            r is Ok <==> enabled && registered,
    {
        self.map.push(Trap::new(id, func));
        assert(self@.drop_last() =~= old(self)@);
        if !enabled {
            return Err(());
        }
        if registered {
            Ok(())
        } else {
            Err(())
        }
    }

    /// Records each pair `(id, func)` of `traps`, in order, until one fails
    /// to be set up: `outcomes[k]` tells, as for `register_trap`, how
    /// setting up `traps[k]` went. The failing pair is recorded; those after
    /// it are not. `Ok` when every pair was set up.
    pub fn register_traps(&mut self, traps: &[(usize, usize)], outcomes: &[(bool, bool)]) -> (r: Result<(), ()>)
        requires
            outcomes@.len() == traps@.len(),
        ensures
            ({
                let n = (final(self)@.len() - old(self)@.len()) as int;
                &&& 0 <= n <= traps@.len()
                &&& final(self)@.subrange(0, old(self)@.len() as int) == old(self)@
                &&& forall|k: int|
                    0 <= k < n ==> #[trigger] final(self)@[old(self)@.len() + k].spec_id() == traps@[k].0
                        && final(self)@[old(self)@.len() + k].spec_func() == traps@[k].1
                &&& r is Ok ==> n == traps@.len() && forall|k: int| 0 <= k < n ==> !trap_failed(#[trigger] outcomes@[k])
                &&& r is Err ==> n >= 1 && trap_failed(outcomes@[n - 1]) && forall|k: int|
                    0 <= k < n - 1 ==> !trap_failed(#[trigger] outcomes@[k])
            }),
    {
        let mut i: usize = 0;
        while i < traps.len()
            invariant
                i <= traps@.len(),
                outcomes@.len() == traps@.len(),
                self@.len() == old(self)@.len() + i,
                self@.subrange(0, old(self)@.len() as int) == old(self)@,
                forall|k: int|
                    0 <= k < i ==> #[trigger] self@[old(self)@.len() + k].spec_id() == traps@[k].0
                        && self@[old(self)@.len() + k].spec_func() == traps@[k].1,
                forall|k: int| 0 <= k < i ==> !trap_failed(#[trigger] outcomes@[k]),
            decreases traps@.len() - i,
        {
            let (id, func) = traps[i];
            let (enabled, registered) = outcomes[i];
            let ghost prev = self@;
            let res = self.register_trap(id, func, enabled, registered);
            proof {
                assert(self@.subrange(0, old(self)@.len() as int) =~= old(self)@) by {
                    assert forall|k: int| 0 <= k < old(self)@.len() implies self@[k] == old(self)@[k] by {
                        assert(self@[k] == self@.drop_last()[k]);
                        assert(prev[k] == prev.subrange(0, old(self)@.len() as int)[k]);
                    }
                }
                assert forall|k: int| 0 <= k < i + 1 implies #[trigger] self@[old(self)@.len() + k].spec_id()
                    == traps@[k].0 && self@[old(self)@.len() + k].spec_func() == traps@[k].1 by {
                    if k < i {
                        assert(self@[old(self)@.len() + k] == self@.drop_last()[old(self)@.len() + k]);
                    }
                }
            }
            if res.is_err() {
                return Err(());
            }
            i = i + 1;
        }
        Ok(())
    }
}

/// Setting up a trap vector failed: enabling it, or registering its
/// handler.
pub open spec fn trap_failed(o: (bool, bool)) -> bool {
    !(o.0 && o.1)
}

} // verus!
