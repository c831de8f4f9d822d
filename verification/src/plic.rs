//! The platform-level interrupt controller: per-source priorities,
//! pending and enable words, per-context thresholds, and the
//! claim/complete protocol.

use vstd::prelude::*;
use crate::csr::CsrRegistry;
use crate::trap::Exception;

verus! {

pub const PLIC_START: u64 = 0x0C00_0000;

pub const PLIC_END: u64 = 0x0C00_0000 + 0x3FF_FFFF;

pub const PLIC_SOURCE_PRIORITY_START: u64 = 0x0C00_0000 + 0x000004;

pub const PLIC_SOURCE_PRIORITY_END: u64 = 0x0C00_0000 + 0x000FFF;

pub const PLIC_PENDING_START: u64 = 0x0C00_0000 + 0x001000;

pub const PLIC_PENDING_END: u64 = 0x0C00_0000 + 0x00107F;

pub const PLIC_SOURCE_ENABLE_START: u64 = 0x0C00_0000 + 0x002000;

pub const PLIC_SOURCE_ENABLE_END: u64 = 0x0C00_0000 + 0x1F1FFF;

pub const PLIC_THRESHOLD_CLAIM_COMPLETE_START: u64 = 0x0C00_0000 + 0x200000;

pub const PLIC_THRESHOLD_CLAIM_COMPLETE_END: u64 = 0x0C00_0000 + 0x3FF_FFFF;

/// Interrupt sources tracked (source 0 is reserved).
pub const INTERRUPT_COUNT: u32 = 64;

/// A machine/supervisor pair of per-context state.
pub struct Pair<T> {
    pub machine: T,
    pub supervisor: T,
}

impl<T> Pair<T> {
    /// The machine half for index 0, the supervisor half for index 1.
    pub fn at(&self, index: usize) -> (r: &T)
        requires
            index < 2,
        ensures
            index == 0 ==> r == &self.machine,
            index == 1 ==> r == &self.supervisor,
    {
        if index == 0 {
            &self.machine
        } else {
            &self.supervisor
        }
    }

    /// Mutable access to the half selected as in `at`.
    pub fn at_mut(&mut self, index: usize) -> (r: &mut T)
        requires
            index < 2,
        ensures
            index == 0 ==> *r == old(self).machine && *final (self) == (Pair {
                machine: *final (r),
                supervisor: old(self).supervisor,
            }),
            index == 1 ==> *r == old(self).supervisor && *final (self) == (Pair {
                machine: old(self).machine,
                supervisor: *final (r),
            }),
    {
        if index == 0 {
            &mut self.machine
        } else {
            &mut self.supervisor
        }
    }
}

/// One hart's two contexts (machine and supervisor) of PLIC state.
pub struct Plic {
    pub priorities: Vec<u32>,
    pub pending: Vec<u32>,
    pub enable: Pair<Vec<u32>>,
    pub threshold: Pair<u32>,
    pub claimed: Pair<Vec<bool>>,
    pub update: bool,
}

/// Source `i` is enabled, pending, unclaimed, and its priority beats
/// both the context's threshold and `best` so far.
pub open spec fn spec_plic_beats(p: &Plic, context: int, i: int, best: u32) -> bool {
    let enable = if context == 0 {
        p.enable.machine@
    } else {
        p.enable.supervisor@
    };
    let threshold = if context == 0 {
        p.threshold.machine
    } else {
        p.threshold.supervisor
    };
    let claimed = if context == 0 {
        p.claimed.machine@
    } else {
        p.claimed.supervisor@
    };
    &&& enable[i / 32] & (1u32 << ((i % 32) as u32)) != 0
    &&& p.pending@[i / 32] & (1u32 << ((i % 32) as u32)) != 0
    &&& !claimed[i]
    &&& p.priorities@[i] > threshold
    &&& p.priorities@[i] > best
}

/// The scan of sources `i..64` that yields the highest-priority ready
/// source, starting from the best candidate found so far.
pub open spec fn spec_plic_scan(p: &Plic, context: int, i: int, irq: u32, best: u32) -> u32
    decreases 64 - i,
{
    if i >= 64 {
        irq
    } else if spec_plic_beats(p, context, i, best) {
        spec_plic_scan(p, context, i + 1, i as u32, p.priorities@[i])
    } else {
        spec_plic_scan(p, context, i + 1, irq, best)
    }
}

/// The highest-priority enabled, pending, unclaimed source above the
/// context's threshold; 0 when there is none.
pub open spec fn spec_plic_highest(p: &Plic, context: int) -> u32 {
    spec_plic_scan(p, context, 1, 0, 0)
}

impl Plic {
    pub open spec fn wf(&self) -> bool {
        &&& self.priorities@.len() == 1024
        &&& self.pending@.len() == 32
        &&& self.enable.machine@.len() == 32
        &&& self.enable.supervisor@.len() == 32
        &&& self.claimed.machine@.len() == 1024
        &&& self.claimed.supervisor@.len() == 1024
    }

    pub fn new() -> (r: Plic)
        ensures
            r.wf(),
            r.priorities@ == Seq::new(1024, |i: int| 0u32),
            r.pending@ == Seq::new(32, |i: int| 0u32),
            r.enable.machine@ == Seq::new(32, |i: int| 0u32),
            r.enable.supervisor@ == Seq::new(32, |i: int| 0u32),
            r.threshold.machine == 0 && r.threshold.supervisor == 0,
            r.claimed.machine@ == Seq::new(1024, |i: int| false),
            r.claimed.supervisor@ == Seq::new(1024, |i: int| false),
            !r.update,
    {
        let mut priorities: Vec<u32> = Vec::new();
        let mut i: usize = 0;
        while i < 1024
            invariant
                i <= 1024,
                priorities@ =~= Seq::new(i as nat, |j: int| 0u32),
            decreases 1024 - i,
        {
            priorities.push(0);
            i = i + 1;
        }
        let mut pending: Vec<u32> = Vec::new();
        let mut j: usize = 0;
        while j < 32
            invariant
                j <= 32,
                pending@ =~= Seq::new(j as nat, |k: int| 0u32),
            decreases 32 - j,
        {
            pending.push(0);
            j = j + 1;
        }
        let mut em: Vec<u32> = Vec::new();
        let mut es: Vec<u32> = Vec::new();
        let mut k: usize = 0;
        while k < 32
            invariant
                k <= 32,
                em@ =~= Seq::new(k as nat, |j: int| 0u32),
                es@ =~= Seq::new(k as nat, |j: int| 0u32),
            decreases 32 - k,
        {
            em.push(0);
            es.push(0);
            k = k + 1;
        }
        let mut cm: Vec<bool> = Vec::new();
        let mut cs: Vec<bool> = Vec::new();
        let mut l: usize = 0;
        while l < 1024
            invariant
                l <= 1024,
                cm@ =~= Seq::new(l as nat, |j: int| false),
                cs@ =~= Seq::new(l as nat, |j: int| false),
            decreases 1024 - l,
        {
            cm.push(false);
            cs.push(false);
            l = l + 1;
        }
        proof {
            assert(priorities@ =~= Seq::new(1024, |i: int| 0u32));
            assert(pending@ =~= Seq::new(32, |i: int| 0u32));
            assert(em@ =~= Seq::new(32, |i: int| 0u32));
            assert(es@ =~= Seq::new(32, |i: int| 0u32));
            assert(cm@ =~= Seq::new(1024, |i: int| false));
            assert(cs@ =~= Seq::new(1024, |i: int| false));
        }
        Plic {
            priorities,
            pending,
            enable: Pair { machine: em, supervisor: es },
            threshold: Pair { machine: 0, supervisor: 0 },
            claimed: Pair { machine: cm, supervisor: cs },
            update: false,
        }
    }

    /// Raise (or explicitly not raise) external source `irq`: sets the
    /// pending bit when `enable` is true and marks the controller for
    /// re-evaluation.
    pub fn irq(&mut self, irq: u32, enable: bool)
        requires
            old(self).wf(),
            irq < 1024,
        ensures
            final (self).wf(),
            final (self).pending@ == old(self).pending@.update(
                irq as int / 32,
                old(self).pending@[irq as int / 32] | ((if enable {
                    1u32
                } else {
                    0u32
                }) << (irq % 32)),
            ),
            final (self).update,
            final (self).priorities@ == old(self).priorities@,
            final (self).enable == old(self).enable,
            final (self).threshold == old(self).threshold,
            final (self).claimed == old(self).claimed,
    {
        let index = (irq / 32) as usize;
        let offset = irq % 32;
        let bit: u32 = (if enable {
            1u32
        } else {
            0u32
        }) << offset;
        let merged = self.pending[index] | bit;
        self.pending[index] = merged;
        self.update = true;
        proof {
            assert(self.pending@ =~= old(self).pending@.update(
                irq as int / 32,
                old(self).pending@[irq as int / 32] | ((if enable {
                    1u32
                } else {
                    0u32
                }) << (irq % 32)),
            ));
        }
    }

    /// Mark `irq` as completed for `context`, making it claimable again.
    pub fn complete(&mut self, context: usize, irq: u32)
        requires
            old(self).wf(),
            context < 2,
            irq < 1024,
        ensures
            final (self).wf(),
            context == 0 ==> final (self).claimed.machine@ == old(self).claimed.machine@.update(
                irq as int,
                false,
            ) && final (self).claimed.supervisor@ == old(self).claimed.supervisor@,
            context == 1 ==> final (self).claimed.supervisor@
                == old(self).claimed.supervisor@.update(irq as int, false) && final (
            self).claimed.machine@ == old(self).claimed.machine@,
            final (self).pending@ == old(self).pending@,
            final (self).priorities@ == old(self).priorities@,
            final (self).enable.machine@ == old(self).enable.machine@,
            final (self).enable.supervisor@ == old(self).enable.supervisor@,
    {
        let slot = self.claimed.at_mut(context);
        slot[irq as usize] = false;
    }

    /// Claim the highest ready source for `context`: its pending bit is
    /// cleared and it is marked claimed; returns the source (0 if none).
    pub fn claim(&mut self, context: usize) -> (r: u32)
        requires
            old(self).wf(),
            context < 2,
        ensures
            final (self).wf(),
            r == spec_plic_highest(old(self), context as int),
            r < 1024,
            final (self).pending@ == old(self).pending@.update(
                r as int / 32,
                old(self).pending@[r as int / 32] & !(1u32 << (r % 32)),
            ),
            context == 0 ==> final (self).claimed.machine@ == old(self).claimed.machine@.update(
                r as int,
                true,
            ) && final (self).claimed.supervisor@ == old(self).claimed.supervisor@,
            context == 1 ==> final (self).claimed.supervisor@
                == old(self).claimed.supervisor@.update(r as int, true) && final (
            self).claimed.machine@ == old(self).claimed.machine@,
            final (self).priorities@ == old(self).priorities@,
            final (self).enable == old(self).enable,
            final (self).threshold == old(self).threshold,
    {
        let irq = self.highest_irq(context);
        let index = (irq / 32) as usize;
        let offset = irq % 32;
        let cleared = self.pending[index] & !(1u32 << offset);
        self.pending[index] = cleared;
        let slot = self.claimed.at_mut(context);
        slot[irq as usize] = true;
        irq
    }

    /// The highest-priority enabled, pending, unclaimed source above
    /// this context's threshold, or 0 when no source qualifies.
    pub fn highest_irq(&self, context: usize) -> (r: u32)
        requires
            self.wf(),
            context < 2,
        ensures
            r == spec_plic_highest(self, context as int),
            r < 64,
    {
        let mut irq: u32 = 0;
        let mut priority: u32 = 0;
        let mut i: usize = 1;
        while i < 64
            invariant
                self.wf(),
                context < 2,
                1 <= i <= 64,
                irq < 64,
                spec_plic_scan(self, context as int, 1, 0, 0) == spec_plic_scan(
                    self,
                    context as int,
                    i as int,
                    irq,
                    priority,
                ),
            decreases 64 - i,
        {
            let index = i / 32;
            let offset = (i % 32) as u32;
            let en = self.enable.at(context);
            let th = *self.threshold.at(context);
            let cl = self.claimed.at(context);
            if en[index] & (1u32 << offset) != 0 && self.pending[index] & (1u32 << offset) != 0
                && !cl[i] && self.priorities[i] > th && self.priorities[i] > priority {
                irq = i as u32;
                priority = self.priorities[i];
            }
            i = i + 1;
        }
        irq
    }

    /// Read one 32-bit PLIC register: a source priority, a pending
    /// word, an enable word, a context threshold, or a claim (which
    /// consumes the returned source). Misaligned reads fault.
    pub fn read32(&mut self, address: u64) -> (r: Result<u32, Exception>)
        requires
            old(self).wf(),
        ensures
            final (self).wf(),
            address % 4 != 0 ==> r == Err::<u32, Exception>(
                Exception::LoadAddressMisaligned(address),
            ) && *final (self) == *old(self),
            address % 4 == 0 && PLIC_SOURCE_PRIORITY_START <= address
                <= PLIC_SOURCE_PRIORITY_END ==> r == Ok::<u32, Exception>(
                old(self).priorities@[(address - PLIC_START) as int / 4],
            ) && *final (self) == *old(self),
            address % 4 == 0 && PLIC_PENDING_START <= address <= PLIC_PENDING_END ==> r == Ok::<
                u32,
                Exception,
            >(old(self).pending@[(address - PLIC_PENDING_START) as int / 4]) && *final (self)
                == *old(self),
    {
        if address % 4 != 0 {
            return Err(Exception::LoadAddressMisaligned(address));
        }
        if PLIC_SOURCE_PRIORITY_START <= address && address <= PLIC_SOURCE_PRIORITY_END {
            Ok(self.priorities[((address - PLIC_START) / 4) as usize])
        } else if PLIC_PENDING_START <= address && address <= PLIC_PENDING_END {
            Ok(self.pending[((address - PLIC_PENDING_START) / 4) as usize])
        } else if PLIC_SOURCE_ENABLE_START <= address && address <= PLIC_SOURCE_ENABLE_END {
            let offset = address - PLIC_SOURCE_ENABLE_START;
            let context = (offset / 0x80) as usize;
            let item = ((offset % 0x80) / 4) as usize;
            if context < 2 && item < 32 {
                let en = self.enable.at(context);
                Ok(en[item])
            } else {
                Err(Exception::LoadAccessFault(address))
            }
        } else if PLIC_THRESHOLD_CLAIM_COMPLETE_START <= address && address
            <= PLIC_THRESHOLD_CLAIM_COMPLETE_END {
            let offset = address - PLIC_THRESHOLD_CLAIM_COMPLETE_START;
            let context = (offset / 0x1000) as usize;
            let item = (offset % 0x1000) / 4;
            if context >= 2 {
                return Err(Exception::LoadAccessFault(address));
            }
            if item == 0 {
                Ok(*self.threshold.at(context))
            } else if item == 1 {
                let irq = self.claim(context);
                self.update = true;
                Ok(irq)
            } else {
                Err(Exception::LoadAccessFault(address))
            }
        } else {
            Err(Exception::LoadAccessFault(address))
        }
    }

    /// Write one 32-bit PLIC register: a source priority, an enable
    /// word, a context threshold, or a completion. Misaligned writes
    /// fault.
    pub fn write32(&mut self, address: u64, data: u32) -> (r: Result<(), Exception>)
        requires
            old(self).wf(),
        ensures
            final (self).wf(),
            address % 4 != 0 ==> r == Err::<(), Exception>(
                Exception::StoreAMOAddressMisaligned(address),
            ) && *final (self) == *old(self),
            address % 4 == 0 && PLIC_SOURCE_PRIORITY_START <= address
                <= PLIC_SOURCE_PRIORITY_END ==> r == Ok::<(), Exception>(()) && final (
            self).priorities@ == old(self).priorities@.update(
                (address - PLIC_START) as int / 4,
                data,
            ),
    {
        if address % 4 != 0 {
            return Err(Exception::StoreAMOAddressMisaligned(address));
        }
        if PLIC_SOURCE_PRIORITY_START <= address && address <= PLIC_SOURCE_PRIORITY_END {
            let i = ((address - PLIC_START) / 4) as usize;
            self.priorities[i] = data;
            Ok(())
        } else if PLIC_SOURCE_ENABLE_START <= address && address <= PLIC_SOURCE_ENABLE_END {
            let offset = address - PLIC_SOURCE_ENABLE_START;
            let context = (offset / 0x80) as usize;
            let item = ((offset % 0x80) / 4) as usize;
            if context < 2 && item < 32 {
                let slot = self.enable.at_mut(context);
                slot[item] = data;
                Ok(())
            } else {
                Err(Exception::StoreAMOAccessFault(address))
            }
        } else if PLIC_THRESHOLD_CLAIM_COMPLETE_START <= address && address
            <= PLIC_THRESHOLD_CLAIM_COMPLETE_END {
            let offset = address - PLIC_THRESHOLD_CLAIM_COMPLETE_START;
            let context = (offset / 0x1000) as usize;
            let item = (offset % 0x1000) / 4;
            if context >= 2 {
                return Err(Exception::StoreAMOAccessFault(address));
            }
            if item == 0 {
                let slot = self.threshold.at_mut(context);
                *slot = data;
                Ok(())
            } else if item == 1 {
                if data < 1024 {
                    self.complete(context, data);
                }
                Ok(())
            } else {
                Err(Exception::StoreAMOAccessFault(address))
            }
        } else {
            Err(Exception::StoreAMOAccessFault(address))
        }
    }

    /// Re-evaluate pending sources after a change and drive MIP.MEIP
    /// and MIP.SEIP accordingly.
    pub fn step(&mut self, csr: &mut CsrRegistry)
        requires
            old(self).wf(),
            old(csr).wf(),
        ensures
            final (self).wf(),
            final (csr).wf(),
            !final (self).update,
            old(self).update ==> final (csr)@ == ({
                let meip = spec_plic_highest(old(self), 0) != 0;
                let after_meip = old(csr)@.update(
                    crate::csr::MIP as int,
                    if meip {
                        old(csr)@[crate::csr::MIP as int] | (1u64 << 11)
                    } else {
                        old(csr)@[crate::csr::MIP as int] & !(1u64 << 11)
                    },
                );
                after_meip.update(
                    crate::csr::MIP as int,
                    if meip {
                        after_meip[crate::csr::MIP as int] | (1u64 << 9)
                    } else {
                        after_meip[crate::csr::MIP as int] & !(1u64 << 9)
                    },
                )
            }),
            !old(self).update ==> final (csr)@ == old(csr)@ && *final (self) == *old(self),
    {
        if self.update {
            let ip = self.highest_irq(0) != 0;
            self.update = false;
            csr.write_mip_bit(11, ip);
            csr.write_mip_bit(9, ip);
        }
    }
}

} // verus!
