//! Virtual registers of a virtual CPU.
use vstd::prelude::*;

pub mod vmhartid;

verus! {

/// A register that a guest reads and writes through the hypervisor.
pub trait VirtualRegisterT {
    /// The value a read gives.
    spec fn reg_value(&self) -> u64;

    /// The register's value after the guest writes `val`.
    spec fn value_after_write(&self, val: u64) -> u64;

    /// The register's value after a read (some registers change when read).
    spec fn value_after_read(&self) -> u64;

    fn write(&mut self, val: u64)
        ensures
            final(self).reg_value() == old(self).value_after_write(val),
    ;

    fn read(&mut self) -> (r: u64)
        ensures
            r == old(self).reg_value(),
            final(self).reg_value() == old(self).value_after_read(),
    ;
}

/// The virtual registers a virtual CPU can have.
pub enum VirtualRegisterKind {
    /// The guest's hart number (`mhartid`).
    HartId(vmhartid::Vreg),
}

impl VirtualRegisterT for VirtualRegisterKind {
    open spec fn reg_value(&self) -> u64 {
        match self {
            VirtualRegisterKind::HartId(r) => r.reg_value(),
        }
    }

    open spec fn value_after_write(&self, val: u64) -> u64 {
        match self {
            VirtualRegisterKind::HartId(r) => r.value_after_write(val),
        }
    }

    open spec fn value_after_read(&self) -> u64 {
        match self {
            VirtualRegisterKind::HartId(r) => r.value_after_read(),
        }
    }

    fn write(&mut self, val: u64) {
        match self {
            VirtualRegisterKind::HartId(r) => r.write(val),
        }
    }

    fn read(&mut self) -> (r: u64) {
        match self {
            VirtualRegisterKind::HartId(r) => r.read(),
        }
    }
}

/// A virtual register and its number.
pub struct VirtualRegister {
    pub id: usize,
    pub vreg: VirtualRegisterKind,
}

impl VirtualRegister {
    pub fn new(id: usize, vreg: VirtualRegisterKind) -> (r: Self)
        ensures
            r.id == id,
            r.vreg == vreg,
    {
        VirtualRegister { id, vreg }
    }

    /// The register.
    pub fn get(&self) -> (r: &VirtualRegisterKind)
        ensures
            *r == self.vreg,
    {
        &self.vreg
    }

    /// The register, to change it.
    pub fn get_mut(&mut self) -> (r: &mut VirtualRegisterKind)
        ensures
            *r == old(self).vreg,
            final(self).vreg == *final(r),
            final(self).id == old(self).id,
    {
        &mut self.vreg
    }
}

/// The index of the first register of `s` numbered `id`, or -1.
pub open spec fn vreg_index(s: Seq<VirtualRegister>, id: usize) -> int
    decreases s.len(),
{
    if s.len() == 0 {
        -1
    } else if s[0].id == id {
        0
    } else if vreg_index(s.drop_first(), id) == -1 {
        -1
    } else {
        1 + vreg_index(s.drop_first(), id)
    }
}

proof fn lemma_vreg_index_props(s: Seq<VirtualRegister>, id: usize)
    ensures
        ({
            let k = vreg_index(s, id);
            &&& k == -1 || (0 <= k < s.len() && s[k].id == id)
            &&& forall|j: int| 0 <= j < s.len() && (k == -1 || j < k) ==> #[trigger] s[j].id != id
        }),
    decreases s.len(),
{
    if s.len() > 0 {
        lemma_vreg_index_props(s.drop_first(), id);
        assert forall|j: int|
            0 <= j < s.len() && (vreg_index(s, id) == -1 || j < vreg_index(s, id)) implies #[trigger] s[j].id
            != id by {
            if j > 0 {
                assert(s[j] == s.drop_first()[j - 1]);
            }
        }
    }
}

/// The virtual registers of a virtual CPU, in order of registration.
pub struct VirtualRegisterMap {
    map: Vec<VirtualRegister>,
}

impl View for VirtualRegisterMap {
    type V = Seq<VirtualRegister>;

    closed spec fn view(&self) -> Seq<VirtualRegister> {
        self.map@
    }
}

impl VirtualRegisterMap {
    pub fn new() -> (r: Self)
        ensures
            r@ == Seq::<VirtualRegister>::empty(),
    {
        VirtualRegisterMap { map: Vec::new() }
    }

    /// Adds `vreg` as register `id`, after the registers already there.
    pub fn register(&mut self, id: usize, vreg: VirtualRegisterKind)
        ensures
            final(self)@ == old(self)@.push(VirtualRegister { id, vreg }),
            final(self)@.len() == old(self)@.len() + 1,
            final(self)@.last().id == id,
            final(self)@.last().vreg == vreg,
            final(self)@.drop_last() == old(self)@,
    {
        self.map.push(VirtualRegister::new(id, vreg));
        assert(self@.drop_last() =~= old(self)@);
    }

    /// Removing a register is not supported: the map is left as it is.
    pub fn unregister(&mut self, id: usize, vreg: VirtualRegisterKind)
        ensures
            final(self)@ == old(self)@,
    {
    }

    fn find_pos(&self, id: usize) -> (r: Option<usize>)
        ensures
            vreg_index(self@, id) == -1 <==> r is None,
            r matches Some(i) ==> i == vreg_index(self@, id) && i < self@.len(),
    {
        proof {
            lemma_vreg_index_props(self@, id);
        }
        let mut i: usize = 0;
        while i < self.map.len()
            invariant
                i <= self.map.len(),
                forall|j: int| 0 <= j < i ==> #[trigger] self@[j].id != id,
                vreg_index(self@, id) == -1 || (i <= vreg_index(self@, id) < self@.len() && self@[vreg_index(self@, id)].id == id),
                forall|j: int| 0 <= j < self@.len() && (vreg_index(self@, id) == -1 || j < vreg_index(self@, id)) ==> #[trigger] self@[j].id != id,
            decreases self.map.len() - i,
        {
            if self.map[i].id == id {
                return Some(i);
            }
            i = i + 1;
        }
        None
    }

    /// Register `id`.
    pub fn get(&self, id: usize) -> (r: Option<&VirtualRegisterKind>)
        ensures
            vreg_index(self@, id) == -1 ==> r is None,
            vreg_index(self@, id) != -1 ==> r == Some(&self@[vreg_index(self@, id)].vreg),
    {
        match self.find(id) {
            None => None,
            Some(r) => Some(r.get()),
        }
    }

    /// Register `id`, to change it.
    pub fn get_mut(&mut self, id: usize) -> (r: Option<&mut VirtualRegisterKind>)
        ensures
            vreg_index(old(self)@, id) == -1 ==> r is None && final(self)@ == old(self)@,
            vreg_index(old(self)@, id) != -1 ==> r is Some,
            r matches Some(d) ==> *d == old(self)@[vreg_index(old(self)@, id)].vreg,
            r matches Some(d) ==> final(self)@[vreg_index(old(self)@, id)].vreg == *final(d),
            final(self)@.len() == old(self)@.len(),
            forall|j: int|
                0 <= j < old(self)@.len() && j != vreg_index(old(self)@, id) ==> final(self)@[j] == old(self)@[j],
            vreg_index(old(self)@, id) != -1 ==> final(self)@[vreg_index(old(self)@, id)].id == id,
    {
        proof {
            lemma_vreg_index_props(self@, id);
        }
        match self.find_pos(id) {
            None => None,
            Some(i) => Some(&mut self.map[i].vreg),
        }
    }

    /// The first register numbered `id`.
    pub fn find(&self, id: usize) -> (r: Option<&VirtualRegister>)
        ensures
            vreg_index(self@, id) == -1 ==> r is None,
            vreg_index(self@, id) != -1 ==> r == Some(&self@[vreg_index(self@, id)]),
    {
        match self.find_pos(id) {
            None => None,
            Some(i) => Some(&self.map[i]),
        }
    }

    /// The first register numbered `id`, to change it.
    pub fn find_mut(&mut self, id: usize) -> (r: Option<&mut VirtualRegister>)
        ensures
            vreg_index(old(self)@, id) == -1 ==> r is None && final(self)@ == old(self)@,
            vreg_index(old(self)@, id) != -1 ==> (r matches Some(d) && *d == old(self)@[vreg_index(
                old(self)@,
                id,
            )] && final(self)@ == old(self)@.update(vreg_index(old(self)@, id), *final(d))),
    {
        match self.find_pos(id) {
            None => None,
            Some(i) => Some(&mut self.map[i]),
        }
    }
}

} // verus!
