//! Guest memory: areas of guest physical addresses backed by host memory.
use vstd::prelude::*;

verus! {

/// Guest addresses `[vaddr, vaddr + size)` backed by host addresses from
/// `paddr`.
#[derive(Clone, Copy, Debug)]
pub struct VirtualMemoryArea {
    pub vaddr: usize,
    pub paddr: usize,
    pub size: usize,
}

/// `addr` falls in `area`.
pub open spec fn area_covers(area: VirtualMemoryArea, addr: usize) -> bool {
    area.vaddr <= addr < area.vaddr + area.size
}

impl VirtualMemoryArea {
    pub fn new(vaddr: usize, paddr: usize, size: usize) -> (r: Self)
        ensures
            r == (VirtualMemoryArea { vaddr, paddr, size }),
    {
        VirtualMemoryArea { vaddr, paddr, size }
    }

    /// The host address that backs guest address `vaddr`, if the area holds
    /// it.
    pub fn get_paddr(&self, vaddr: usize) -> (r: Option<usize>)
        requires
            vaddr >= self.vaddr ==> self.vaddr + self.size <= usize::MAX,
            area_covers(*self, vaddr) ==> self.paddr + (vaddr - self.vaddr) <= usize::MAX,
        ensures
            area_covers(*self, vaddr) ==> r == Some((self.paddr + (vaddr - self.vaddr)) as usize),
            !area_covers(*self, vaddr) ==> r is None,
    {
        if vaddr < self.vaddr || self.vaddr + self.size <= vaddr {
            return None;
        }
        Some(self.paddr + (vaddr - self.vaddr))
    }
}

/// The index of the last area of `s[0..n]` that holds `addr`, or -1.
pub open spec fn rfind_below(s: Seq<VirtualMemoryArea>, addr: usize, n: nat) -> int
    decreases n,
{
    if n == 0 {
        -1
    } else if area_covers(s[n - 1], addr) {
        n - 1
    } else {
        rfind_below(s, addr, (n - 1) as nat)
    }
}

/// The index of the last area of `s` that holds `addr`, or -1: areas
/// registered later take precedence.
pub open spec fn rfind_index(s: Seq<VirtualMemoryArea>, addr: usize) -> int {
    rfind_below(s, addr, s.len())
}

/// The search for `addr`, from the last area down, computes `vaddr + size`
/// without overflow for each area it reaches whose start is not above `addr`.
pub open spec fn rfind_ok(s: Seq<VirtualMemoryArea>, addr: usize) -> bool {
    forall|i: int|
        0 <= i < s.len() && (forall|j: int| i < j < s.len() ==> !area_covers(#[trigger] s[j], addr)) && s[i].vaddr
            <= addr ==> s[i].vaddr + s[i].size <= usize::MAX
}

proof fn lemma_rfind_below_props(s: Seq<VirtualMemoryArea>, addr: usize, n: nat)
    requires
        n <= s.len(),
    ensures
        ({
            let k = rfind_below(s, addr, n);
            &&& k == -1 || (0 <= k < n && area_covers(s[k], addr))
            &&& forall|j: int| k < j < n ==> !area_covers(#[trigger] s[j], addr)
        }),
    decreases n,
{
    if n > 0 {
        lemma_rfind_below_props(s, addr, (n - 1) as nat);
    }
}

/// The search for `addr` finds an area that holds it, and no area registered
/// after that one holds it; or it finds none, and no area holds it.
pub proof fn lemma_rfind_index(s: Seq<VirtualMemoryArea>, addr: usize)
    ensures
        ({
            let k = rfind_index(s, addr);
            &&& k == -1 || (0 <= k < s.len() && area_covers(s[k], addr))
            &&& forall|j: int| k < j < s.len() ==> !area_covers(#[trigger] s[j], addr)
        }),
{
    lemma_rfind_below_props(s, addr, s.len());
}

/// The memory areas of a guest, in order of registration.
pub struct VirtualMemoryMap {
    map: Vec<VirtualMemoryArea>,
}

impl View for VirtualMemoryMap {
    type V = Seq<VirtualMemoryArea>;

    closed spec fn view(&self) -> Seq<VirtualMemoryArea> {
        self.map@
    }
}

impl VirtualMemoryMap {
    pub fn new() -> (r: Self)
        ensures
            r@ == Seq::<VirtualMemoryArea>::empty(),
    {
        VirtualMemoryMap { map: Vec::new() }
    }

    /// Adds the area of `size` bytes from guest address `vaddr`, backed from
    /// host address `paddr`.
    pub fn register(&mut self, vaddr: usize, paddr: usize, size: usize)
        ensures
            final(self)@ == old(self)@.push(VirtualMemoryArea { vaddr, paddr, size }),
    {
        self.map.push(VirtualMemoryArea::new(vaddr, paddr, size));
    }

    fn rfind_pos(&self, addr: usize) -> (r: Option<usize>)
        requires
            rfind_ok(self@, addr),
        ensures
            rfind_index(self@, addr) == -1 <==> r is None,
            r matches Some(i) ==> i == rfind_index(self@, addr) && i < self@.len(),
    {
        proof {
            lemma_rfind_below_props(self@, addr, self@.len());
        }
        let mut n: usize = self.map.len();
        while n > 0
            invariant
                n <= self@.len(),
                rfind_ok(self@, addr),
                forall|j: int| n <= j < self@.len() ==> !area_covers(#[trigger] self@[j], addr),
                rfind_index(self@, addr) == rfind_below(self@, addr, n as nat),
            decreases n,
        {
            let e = &self.map[n - 1];
            if e.vaddr <= addr && addr < e.vaddr + e.size {
                return Some(n - 1);
            }
            n = n - 1;
        }
        None
    }

    /// The area that holds guest address `addr`.
    pub fn get(&self, addr: usize) -> (r: Option<&VirtualMemoryArea>)
        requires
            rfind_ok(self@, addr),
        ensures
            rfind_index(self@, addr) == -1 ==> r is None,
            rfind_index(self@, addr) != -1 ==> r == Some(&self@[rfind_index(self@, addr)]),
    {
        self.find(addr)
    }

    /// The area that holds guest address `addr`, to change it.
    pub fn get_mut(&mut self, addr: usize) -> (r: Option<&mut VirtualMemoryArea>)
        requires
            rfind_ok(old(self)@, addr),
        ensures
            rfind_index(old(self)@, addr) == -1 ==> r is None && final(self)@ == old(self)@,
            rfind_index(old(self)@, addr) != -1 ==> (r matches Some(d) && *d == old(self)@[rfind_index(
                old(self)@,
                addr,
            )] && final(self)@ == old(self)@.update(rfind_index(old(self)@, addr), *final(d))),
    {
        self.find_mut(addr)
    }

    /// The last registered area that holds guest address `addr`.
    pub fn find(&self, addr: usize) -> (r: Option<&VirtualMemoryArea>)
        requires
            rfind_ok(self@, addr),
        ensures
            rfind_index(self@, addr) == -1 ==> r is None,
            rfind_index(self@, addr) != -1 ==> r == Some(&self@[rfind_index(self@, addr)]),
    {
        match self.rfind_pos(addr) {
            None => None,
            Some(i) => Some(&self.map[i]),
        }
    }

    /// The last registered area that holds guest address `addr`, to change
    /// it.
    pub fn find_mut(&mut self, addr: usize) -> (r: Option<&mut VirtualMemoryArea>)
        requires
            rfind_ok(old(self)@, addr),
        ensures
            rfind_index(old(self)@, addr) == -1 ==> r is None && final(self)@ == old(self)@,
            rfind_index(old(self)@, addr) != -1 ==> (r matches Some(d) && *d == old(self)@[rfind_index(
                old(self)@,
                addr,
            )] && final(self)@ == old(self)@.update(rfind_index(old(self)@, addr), *final(d))),
    {
        match self.rfind_pos(addr) {
            None => None,
            Some(i) => Some(&mut self.map[i]),
        }
    }
}

/// After an area is registered, the addresses it holds resolve to it, and
/// every other address resolves as before.
pub proof fn lemma_register_shadows(s: Seq<VirtualMemoryArea>, area: VirtualMemoryArea, addr: usize)
    ensures
        area_covers(area, addr) ==> rfind_index(s.push(area), addr) == s.len(),
        !area_covers(area, addr) ==> rfind_index(s.push(area), addr) == rfind_index(s, addr),
{
    let t = s.push(area);
    if !area_covers(area, addr) {
        lemma_rfind_below_same(s, t, addr, s.len());
    }
}

proof fn lemma_rfind_below_same(s: Seq<VirtualMemoryArea>, t: Seq<VirtualMemoryArea>, addr: usize, n: nat)
    requires
        n <= s.len(),
        n <= t.len(),
        forall|j: int| 0 <= j < n ==> s[j] == t[j],
    ensures
        rfind_below(s, addr, n) == rfind_below(t, addr, n),
    decreases n,
{
    if n > 0 {
        lemma_rfind_below_same(s, t, addr, (n - 1) as nat);
    }
}

} // verus!
