use vstd::prelude::*;

verus! {

/// The bounds of a stack region: `start` inclusive, `end` exclusive.
pub struct RawStack {
    pub start: usize,
    pub end: usize,
}

impl RawStack {
    pub open spec fn wf(&self) -> bool {
        self.start <= self.end
    }

    pub open spec fn spec_len(&self) -> nat {
        (self.end - self.start) as nat
    }

    pub fn len(&self) -> (r: usize)
        requires
            self.wf(),
        ensures
            r == self.spec_len(),
    {
        self.end - self.start
    }
}

/// An owned region used as the native call stack of one unit of work.
/// `raw` gives its bounds as offsets into the buffer that backs it.
pub struct Stack {
    pub raw: RawStack,
    mem: Vec<u8>,
}

pub open spec fn all_zero(s: Seq<u8>) -> bool {
    forall|i: int| 0 <= i < s.len() ==> s[i] == 0u8
}

/// Relies on Vec::capacity: the number of elements the vector holds room for,
/// never less than its length.
#[verifier::external_body]
fn capacity_of(v: &Vec<u8>) -> (r: usize)
    ensures
        r >= v@.len(),
{
    v.capacity()
}

/// Extends `a` with zeros to exactly `cap` bytes and takes it over as a stack.
pub fn fill_to(a: Vec<u8>, cap: usize) -> (r: Stack)
    requires
        a@.len() <= cap,
    ensures
        r.wf(),
        r@.len() == cap,
        r@.subrange(0, a@.len() as int) == a@,
        all_zero(r@.subrange(a@.len() as int, r@.len() as int)),
{
    let mut a = a;
    let ghost a0 = a@;
    while a.len() != cap
        invariant
            a0.len() <= a@.len() <= cap,
            a@.subrange(0, a0.len() as int) == a0,
            all_zero(a@.subrange(a0.len() as int, a@.len() as int)),
        decreases cap - a@.len(),
    {
        let ghost prev = a@;
        a.push(0);
        assert(a@.subrange(0, a0.len() as int) =~= a0);
        assert forall|i: int| 0 <= i < a@.len() - a0.len() implies
            #[trigger] a@.subrange(a0.len() as int, a@.len() as int)[i] == 0u8 by {
            if a0.len() + i < prev.len() {
                assert(prev.subrange(a0.len() as int, prev.len() as int)[i] == 0u8);
            }
        };
    }
    let end = a.len();
    Stack { raw: RawStack { start: 0, end }, mem: a }
}

impl Stack {
    pub closed spec fn view(&self) -> Seq<u8> {
        self.mem@
    }

    pub closed spec fn wf(&self) -> bool {
        self.raw.start == 0 && self.raw.end == self.mem@.len()
    }

    /// Takes over the buffer `a` as a stack, filling the room it has spare
    /// with zeros so that the whole allocation belongs to the region.
    pub fn new(a: Vec<u8>) -> (r: Self)
        ensures
            r.wf(),
            r@.len() >= a@.len(),
            r@.subrange(0, a@.len() as int) == a@,
            all_zero(r@.subrange(a@.len() as int, r@.len() as int)),
    {
        let cap = capacity_of(&a);
        fill_to(a, cap)
    }

    /// A zero-filled stack of exactly `size` bytes.
    pub fn zeroed(size: usize) -> (r: Self)
        requires
            size <= isize::MAX,
        ensures
            r.wf(),
            r@.len() == size,
            all_zero(r@),
    {
        let mut mem: Vec<u8> = Vec::with_capacity(size);
        while mem.len() < size
            invariant
                mem@.len() <= size,
                all_zero(mem@),
            decreases size - mem@.len(),
        {
            mem.push(0);
        }
        Stack { raw: RawStack { start: 0, end: size }, mem }
    }

    pub fn len(&self) -> (r: usize)
        requires
            self.wf(),
        ensures
            r == self@.len(),
    {
        self.raw.end - self.raw.start
    }

    /// The region's bytes, handed to the stack-switch engine to record
    /// frames into and replay them from.
    pub fn region_mut(&mut self) -> (r: &mut [u8])
        ensures
            r@ == old(self)@,
            final(r)@ == final(self)@,
    {
        self.mem.as_mut_slice()
    }

    pub fn as_bytes(&self) -> (r: &[u8])
        ensures
            r@ == self@,
    {
        self.mem.as_slice()
    }
}

} // verus!
