//! Argument and return slots of one command invocation, and the record of
//! mapping requests made while serving it.
use vstd::prelude::*;

verus! {

/// Number of argument slots.
pub const ARG_SLOTS: usize = 4;

/// Number of return slots.
pub const RET_SLOTS: usize = 4;

/// Arguments and return values of one command.
#[derive(Debug)]
pub struct Context {
    arg: Vec<u64>,
    ret: Vec<u64>,
}

impl Context {
    /// The argument slots.
    pub closed spec fn args(&self) -> Seq<u64> {
        self.arg@
    }

    /// The return slots.
    pub closed spec fn rets(&self) -> Seq<u64> {
        self.ret@
    }

    pub open spec fn wf(&self) -> bool {
        self.args().len() == ARG_SLOTS && self.rets().len() == RET_SLOTS
    }

    /// A context whose slots are all zero.
    pub fn new() -> (r: Context)
        ensures
            r.wf(),
            r.args() == Seq::new(ARG_SLOTS as nat, |i: int| 0u64),
            r.rets() == Seq::new(RET_SLOTS as nat, |i: int| 0u64),
    {
        let r = Context { arg: vec![0u64; ARG_SLOTS], ret: vec![0u64; RET_SLOTS] };
        assert(r.arg@ =~= Seq::new(ARG_SLOTS as nat, |i: int| 0u64));
        assert(r.ret@ =~= Seq::new(RET_SLOTS as nat, |i: int| 0u64));
        r
    }

    /// A context carrying the arguments `a`, which may be fewer than the
    /// slots; the rest are zero. `None` where there are more.
    pub fn with_args(a: &Vec<u64>) -> (r: Option<Context>)
        ensures
            r is Some <==> a@.len() <= ARG_SLOTS,
            r matches Some(c) ==> c.wf() && c.rets() == Seq::new(RET_SLOTS as nat, |i: int| 0u64)
                && (forall|i: int| 0 <= i < a@.len() ==> #[trigger] c.args()[i] == a@[i])
                && (forall|i: int| a@.len() <= i < ARG_SLOTS ==> #[trigger] c.args()[i] == 0),
    {
        if a.len() > ARG_SLOTS {
            return None;
        }
        let mut c = Context::new();
        let mut i: usize = 0;
        while i < a.len()
            invariant
                a@.len() <= ARG_SLOTS,
                i <= a@.len(),
                c.wf(),
                c.rets() == Seq::new(RET_SLOTS as nat, |i: int| 0u64),
                forall|j: int| 0 <= j < i ==> #[trigger] c.args()[j] == a@[j],
                forall|j: int| i <= j < ARG_SLOTS ==> #[trigger] c.args()[j] == 0,
            decreases a@.len() - i,
        {
            c.arg.set(i, a[i]);
            i = i + 1;
        }
        Some(c)
    }

    /// Argument slot `i`.
    pub fn arg(&self, i: usize) -> (r: u64)
        requires
            self.wf(),
            i < ARG_SLOTS,
        ensures
            r == self.args()[i as int],
    {
        self.arg[i]
    }

    /// Return slot `i`.
    pub fn ret(&self, i: usize) -> (r: u64)
        requires
            self.wf(),
            i < RET_SLOTS,
        ensures
            r == self.rets()[i as int],
    {
        self.ret[i]
    }

    /// Writes `v` into return slot `i`.
    pub fn set_ret(&mut self, i: usize, v: u64)
        requires
            old(self).wf(),
            i < RET_SLOTS,
        ensures
            final(self).wf(),
            final(self).args() == old(self).args(),
            final(self).rets() == old(self).rets().update(i as int, v),
    {
        self.ret.set(i, v);
    }
}

/// One request to the memory-mapping service.
#[derive(PartialEq, Eq, Structural, Clone, Copy, Debug)]
pub enum MapOp {
    /// Map the page at this address, writable or not.
    Install(u64, bool),
    /// Unmap the page at this address.
    Remove(u64),
}

/// The mapping requests issued, in order, for the platform layer to apply.
#[derive(Debug)]
pub struct MemoryMap {
    ops: Vec<MapOp>,
}

impl View for MemoryMap {
    type V = Seq<MapOp>;

    closed spec fn view(&self) -> Seq<MapOp> {
        self.ops@
    }
}

impl MemoryMap {
    pub fn new() -> (r: MemoryMap)
        ensures
            r@ == Seq::<MapOp>::empty(),
    {
        MemoryMap { ops: Vec::new() }
    }

    /// Requests that the page at `addr` be mapped.
    pub fn map(&mut self, addr: u64, writable: bool)
        ensures
            final(self)@ == old(self)@.push(MapOp::Install(addr, writable)),
    {
        self.ops.push(MapOp::Install(addr, writable));
    }

    /// Requests that the page at `addr` be unmapped.
    pub fn unmap(&mut self, addr: u64)
        ensures
            final(self)@ == old(self)@.push(MapOp::Remove(addr)),
    {
        self.ops.push(MapOp::Remove(addr));
    }

    /// The number of requests issued.
    pub fn len(&self) -> (r: usize)
        ensures
            r == self@.len(),
    {
        self.ops.len()
    }

    /// Request `i`.
    pub fn get(&self, i: usize) -> (r: MapOp)
        requires
            i < self@.len(),
        ensures
            r == self@[i as int],
    {
        self.ops[i]
    }
}

} // verus!
