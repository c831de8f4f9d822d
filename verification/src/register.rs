//! Integer and floating-point register files.

use vstd::prelude::*;

verus! {

/// The 32 integer registers. Register 0 is hardwired to zero: writes to
/// it are discarded, so its slot always holds 0.
pub struct Registers {
    pub regs: Vec<u64>,
}

impl Registers {
    /// Well-formed: 32 slots and a zero in slot 0.
    pub open spec fn wf(&self) -> bool {
        &&& self.regs@.len() == 32
        &&& self.regs@[0] == 0
    }

    pub open spec fn view(&self) -> Seq<u64> {
        self.regs@
    }

    pub fn new() -> (r: Registers)
        ensures
            r.wf(),
            r@ == Seq::new(32, |i: int| 0u64),
    {
        let mut regs: Vec<u64> = Vec::new();
        let mut i: usize = 0;
        while i < 32
            invariant
                i <= 32,
                regs@ =~= Seq::new(i as nat, |j: int| 0u64),
            decreases 32 - i,
        {
            regs.push(0);
            i = i + 1;
        }
        proof {
            assert(regs@ =~= Seq::new(32, |i: int| 0u64));
        }
        Registers { regs }
    }

    /// Write `value` to register `index`; a write to register 0 is
    /// silently discarded.
    pub fn set(&mut self, index: usize, value: u64)
        requires
            old(self).wf(),
            index < 32,
        ensures
            final (self).wf(),
            index != 0 ==> final (self)@ == old(self)@.update(index as int, value),
            index == 0 ==> final (self)@ == old(self)@,
    {
        if index == 0 {
            return ;
        }
        self.regs[index] = value;
        proof {
            assert(self.regs@ =~= old(self).regs@.update(index as int, value));
        }
    }

    /// Read register `index`; register 0 always reads as zero.
    pub fn get(&self, index: usize) -> (r: u64)
        requires
            self.wf(),
            index < 32,
        ensures
            r == self@[index as int],
            index == 0 ==> r == 0,
    {
        self.regs[index]
    }
}

/// Register x0 reads as zero after any sequence of writes: writes to it
/// are discarded by `set`, so a well-formed file always yields 0 there.
pub proof fn lemma_x0_reads_zero(rs: Registers)
    requires
        rs.wf(),
    ensures
        rs@[0] == 0,
{
}

/// The 32 floating-point registers; no slot is special.
pub struct FRegisters {
    pub regs: Vec<u64>,
}

impl FRegisters {
    pub open spec fn wf(&self) -> bool {
        self.regs@.len() == 32
    }

    pub open spec fn view(&self) -> Seq<u64> {
        self.regs@
    }

    pub fn new() -> (r: FRegisters)
        ensures
            r.wf(),
            r@ == Seq::new(32, |i: int| 0u64),
    {
        let mut regs: Vec<u64> = Vec::new();
        let mut i: usize = 0;
        while i < 32
            invariant
                i <= 32,
                regs@ =~= Seq::new(i as nat, |j: int| 0u64),
            decreases 32 - i,
        {
            regs.push(0);
            i = i + 1;
        }
        proof {
            assert(regs@ =~= Seq::new(32, |i: int| 0u64));
        }
        FRegisters { regs }
    }

    pub fn set(&mut self, index: usize, value: u64)
        requires
            old(self).wf(),
            index < 32,
        ensures
            final (self).wf(),
            final (self)@ == old(self)@.update(index as int, value),
    {
        self.regs[index] = value;
        proof {
            assert(self.regs@ =~= old(self).regs@.update(index as int, value));
        }
    }

    pub fn get(&self, index: usize) -> (r: u64)
        requires
            self.wf(),
            index < 32,
        ensures
            r == self@[index as int],
    {
        self.regs[index]
    }
}

} // verus!
