//! Physical RAM: little-endian byte storage with word/doubleword
//! accessors, read-modify-write atomics, and the reservation set used
//! by load-reserved / store-conditional.

use vstd::prelude::*;

verus! {

/// Bytes of RAM.
pub const MEMORY_SIZE: usize = 0x100000;

/// First physical address RAM answers to.
pub const MEMORY_START: u64 = 0x8000_0000;

/// Last physical address RAM answers to.
pub const MEMORY_END: u64 = 0x8000_0000 + 0x100000 - 1;

/// RAM plus the hart-local reservation set. Any store through this type
/// invalidates all reservations, which is what makes a store-conditional
/// after an intervening store fail.
pub struct Memory {
    pub mem: Vec<u8>,
    pub reservation: Vec<u64>,
}

/// The RAM offset of a physical address.
pub open spec fn ram_at(a: u64) -> int {
    a - MEMORY_START
}

pub open spec fn spec_read_u8(m: Seq<u8>, a: u64) -> u8 {
    m[ram_at(a)]
}

pub open spec fn spec_read_u16(m: Seq<u8>, a: u64) -> u16 {
    (m[ram_at(a)] as u16) | ((m[ram_at(a) + 1] as u16) << 8)
}

pub open spec fn spec_read_u32(m: Seq<u8>, a: u64) -> u32 {
    (m[ram_at(a)] as u32) | ((m[ram_at(a) + 1] as u32) << 8) | ((m[ram_at(a) + 2] as u32) << 16) | (
    (m[ram_at(a) + 3] as u32) << 24)
}

pub open spec fn spec_read_u64(m: Seq<u8>, a: u64) -> u64 {
    (m[ram_at(a)] as u64) | ((m[ram_at(a) + 1] as u64) << 8) | ((m[ram_at(a) + 2] as u64) << 16) | (
    (m[ram_at(a) + 3] as u64) << 24) | ((m[ram_at(a) + 4] as u64) << 32) | ((m[ram_at(a) + 5]
        as u64) << 40) | ((m[ram_at(a) + 6] as u64) << 48) | ((m[ram_at(a) + 7] as u64) << 56)
}

pub open spec fn spec_write_u8(m: Seq<u8>, a: u64, v: u8) -> Seq<u8> {
    m.update(ram_at(a), v)
}

pub open spec fn spec_write_u16(m: Seq<u8>, a: u64, v: u16) -> Seq<u8> {
    m.update(ram_at(a), v as u8).update(ram_at(a) + 1, (v >> 8) as u8)
}

pub open spec fn spec_write_u32(m: Seq<u8>, a: u64, v: u32) -> Seq<u8> {
    m.update(ram_at(a), v as u8).update(ram_at(a) + 1, (v >> 8) as u8).update(
        ram_at(a) + 2,
        (v >> 16) as u8,
    ).update(ram_at(a) + 3, (v >> 24) as u8)
}

pub open spec fn spec_write_u64(m: Seq<u8>, a: u64, v: u64) -> Seq<u8> {
    m.update(ram_at(a), v as u8).update(ram_at(a) + 1, (v >> 8) as u8).update(
        ram_at(a) + 2,
        (v >> 16) as u8,
    ).update(ram_at(a) + 3, (v >> 24) as u8).update(ram_at(a) + 4, (v >> 32) as u8).update(
        ram_at(a) + 5,
        (v >> 40) as u8,
    ).update(ram_at(a) + 6, (v >> 48) as u8).update(ram_at(a) + 7, (v >> 56) as u8)
}

/// `a..a+width` lies wholly inside RAM.
pub open spec fn ram_range(a: u64, width: u64) -> bool {
    MEMORY_START <= a && a + width - 1 <= MEMORY_END
}

impl Memory {
    pub open spec fn wf(&self) -> bool {
        self.mem@.len() == MEMORY_SIZE
    }

    pub open spec fn view(&self) -> Seq<u8> {
        self.mem@
    }

    /// The addresses currently reserved by load-reserved.
    pub open spec fn reservations(&self) -> Seq<u64> {
        self.reservation@
    }

    /// Fresh RAM, zero-filled, with no reservations.
    pub fn new() -> (r: Memory)
        ensures
            r.wf(),
            r@ == Seq::new(MEMORY_SIZE as nat, |i: int| 0u8),
            r.reservations() == Seq::<u64>::empty(),
    {
        let mut mem: Vec<u8> = Vec::new();
        let mut i: usize = 0;
        while i < MEMORY_SIZE
            invariant
                i <= MEMORY_SIZE,
                mem@ =~= Seq::new(i as nat, |j: int| 0u8),
            decreases MEMORY_SIZE - i,
        {
            mem.push(0);
            i = i + 1;
        }
        proof {
            assert(mem@ =~= Seq::new(MEMORY_SIZE as nat, |i: int| 0u8));
        }
        Memory { mem, reservation: Vec::new() }
    }

    /// Record a reservation for `address`.
    pub fn lock_addr(&mut self, address: u64)
        requires
            old(self).wf(),
        ensures
            final (self).wf(),
            final (self)@ == old(self)@,
            final (self).reservations() == old(self).reservations().push(address),
    {
        self.reservation.push(address);
    }

    /// Whether `address` is reserved; the whole set is cleared either
    /// way, so a store-conditional consumes every reservation.
    pub fn unlock_addr(&mut self, address: u64) -> (r: bool)
        requires
            old(self).wf(),
        ensures
            final (self).wf(),
            final (self)@ == old(self)@,
            r == old(self).reservations().contains(address),
            final (self).reservations() == Seq::<u64>::empty(),
    {
        let mut found = false;
        let mut i: usize = 0;
        let n = self.reservation.len();
        while i < n
            invariant
                i <= n,
                n == self.reservation@.len(),
                found == exists|j: int| 0 <= j < i && self.reservation@[j] == address,
            decreases n - i,
        {
            if self.reservation[i] == address {
                found = true;
            }
            i = i + 1;
        }
        self.reservation.clear();
        found
    }

    pub fn read8(&self, address: u64) -> (r: u8)
        requires
            self.wf(),
            ram_range(address, 1),
        ensures
            r == spec_read_u8(self@, address),
    {
        self.mem[(address - MEMORY_START) as usize]
    }

    pub fn read16(&self, address: u64) -> (r: u16)
        requires
            self.wf(),
            ram_range(address, 2),
        ensures
            r == spec_read_u16(self@, address),
    {
        let o = (address - MEMORY_START) as usize;
        (self.mem[o] as u16) | ((self.mem[o + 1] as u16) << 8)
    }

    pub fn read32(&self, address: u64) -> (r: u32)
        requires
            self.wf(),
            ram_range(address, 4),
        ensures
            r == spec_read_u32(self@, address),
    {
        let o = (address - MEMORY_START) as usize;
        (self.mem[o] as u32) | ((self.mem[o + 1] as u32) << 8) | ((self.mem[o + 2] as u32) << 16)
            | ((self.mem[o + 3] as u32) << 24)
    }

    pub fn read64(&self, address: u64) -> (r: u64)
        requires
            self.wf(),
            ram_range(address, 8),
        ensures
            r == spec_read_u64(self@, address),
    {
        let o = (address - MEMORY_START) as usize;
        (self.mem[o] as u64) | ((self.mem[o + 1] as u64) << 8) | ((self.mem[o + 2] as u64) << 16)
            | ((self.mem[o + 3] as u64) << 24) | ((self.mem[o + 4] as u64) << 32) | ((self.mem[o
            + 5] as u64) << 40) | ((self.mem[o + 6] as u64) << 48) | ((self.mem[o + 7] as u64)
            << 56)
    }

    pub fn write8(&mut self, address: u64, data: u8)
        requires
            old(self).wf(),
            ram_range(address, 1),
        ensures
            final (self).wf(),
            final (self)@ == spec_write_u8(old(self)@, address, data),
            final (self).reservations() == Seq::<u64>::empty(),
    {
        let o = (address - MEMORY_START) as usize;
        self.mem[o] = data;
        self.reservation.clear();
    }

    pub fn write16(&mut self, address: u64, data: u16)
        requires
            old(self).wf(),
            ram_range(address, 2),
        ensures
            final (self).wf(),
            final (self)@ == spec_write_u16(old(self)@, address, data),
            final (self).reservations() == Seq::<u64>::empty(),
    {
        let o = (address - MEMORY_START) as usize;
        #[verifier::truncate]
        let b0 = data as u8;
        #[verifier::truncate]
        let b1 = (data >> 8) as u8;
        self.mem[o] = b0;
        self.mem[o + 1] = b1;
        self.reservation.clear();
    }

    pub fn write32(&mut self, address: u64, data: u32)
        requires
            old(self).wf(),
            ram_range(address, 4),
        ensures
            final (self).wf(),
            final (self)@ == spec_write_u32(old(self)@, address, data),
            final (self).reservations() == Seq::<u64>::empty(),
    {
        let o = (address - MEMORY_START) as usize;
        #[verifier::truncate]
        let b0 = data as u8;
        #[verifier::truncate]
        let b1 = (data >> 8) as u8;
        #[verifier::truncate]
        let b2 = (data >> 16) as u8;
        #[verifier::truncate]
        let b3 = (data >> 24) as u8;
        self.mem[o] = b0;
        self.mem[o + 1] = b1;
        self.mem[o + 2] = b2;
        self.mem[o + 3] = b3;
        self.reservation.clear();
    }

    pub fn write64(&mut self, address: u64, data: u64)
        requires
            old(self).wf(),
            ram_range(address, 8),
        ensures
            final (self).wf(),
            final (self)@ == spec_write_u64(old(self)@, address, data),
            final (self).reservations() == Seq::<u64>::empty(),
    {
        let o = (address - MEMORY_START) as usize;
        #[verifier::truncate]
        let b0 = data as u8;
        #[verifier::truncate]
        let b1 = (data >> 8) as u8;
        #[verifier::truncate]
        let b2 = (data >> 16) as u8;
        #[verifier::truncate]
        let b3 = (data >> 24) as u8;
        #[verifier::truncate]
        let b4 = (data >> 32) as u8;
        #[verifier::truncate]
        let b5 = (data >> 40) as u8;
        #[verifier::truncate]
        let b6 = (data >> 48) as u8;
        #[verifier::truncate]
        let b7 = (data >> 56) as u8;
        self.mem[o] = b0;
        self.mem[o + 1] = b1;
        self.mem[o + 2] = b2;
        self.mem[o + 3] = b3;
        self.mem[o + 4] = b4;
        self.mem[o + 5] = b5;
        self.mem[o + 6] = b6;
        self.mem[o + 7] = b7;
        self.reservation.clear();
    }
}

impl Memory {
    /// Swap: store `val`, return the prior word.
    pub fn atomic_swap32(&mut self, address: u64, val: u32) -> (r: u32)
        requires
            old(self).wf(),
            ram_range(address, 4),
        ensures
            final (self).wf(),
            r == spec_read_u32(old(self)@, address),
            final (self)@ == spec_write_u32(old(self)@, address, val),
            final (self).reservations() == Seq::<u64>::empty(),
    {
        let origin = self.read32(address);
        self.write32(address, val);
        origin
    }

    pub fn atomic_swap64(&mut self, address: u64, val: u64) -> (r: u64)
        requires
            old(self).wf(),
            ram_range(address, 8),
        ensures
            final (self).wf(),
            r == spec_read_u64(old(self)@, address),
            final (self)@ == spec_write_u64(old(self)@, address, val),
            final (self).reservations() == Seq::<u64>::empty(),
    {
        let origin = self.read64(address);
        self.write64(address, val);
        origin
    }

    /// Fetch-add with wraparound, returning the prior word.
    pub fn atomic_add32(&mut self, address: u64, val: u32) -> (r: u32)
        requires
            old(self).wf(),
            ram_range(address, 4),
        ensures
            final (self).wf(),
            r == spec_read_u32(old(self)@, address),
            final (self)@ == spec_write_u32(
                old(self)@,
                address,
                vstd::wrapping::u32_specs::wrapping_add(spec_read_u32(old(self)@, address), val),
            ),
            final (self).reservations() == Seq::<u64>::empty(),
    {
        let origin = self.read32(address);
        self.write32(address, origin.wrapping_add(val));
        origin
    }

    pub fn atomic_add64(&mut self, address: u64, val: u64) -> (r: u64)
        requires
            old(self).wf(),
            ram_range(address, 8),
        ensures
            final (self).wf(),
            r == spec_read_u64(old(self)@, address),
            final (self)@ == spec_write_u64(
                old(self)@,
                address,
                vstd::wrapping::u64_specs::wrapping_add(spec_read_u64(old(self)@, address), val),
            ),
            final (self).reservations() == Seq::<u64>::empty(),
    {
        let origin = self.read64(address);
        self.write64(address, origin.wrapping_add(val));
        origin
    }

    pub fn atomic_xor32(&mut self, address: u64, val: u32) -> (r: u32)
        requires
            old(self).wf(),
            ram_range(address, 4),
        ensures
            final (self).wf(),
            r == spec_read_u32(old(self)@, address),
            final (self)@ == spec_write_u32(
                old(self)@,
                address,
                spec_read_u32(old(self)@, address) ^ val,
            ),
            final (self).reservations() == Seq::<u64>::empty(),
    {
        let origin = self.read32(address);
        self.write32(address, origin ^ val);
        origin
    }

    pub fn atomic_xor64(&mut self, address: u64, val: u64) -> (r: u64)
        requires
            old(self).wf(),
            ram_range(address, 8),
        ensures
            final (self).wf(),
            r == spec_read_u64(old(self)@, address),
            final (self)@ == spec_write_u64(
                old(self)@,
                address,
                spec_read_u64(old(self)@, address) ^ val,
            ),
            final (self).reservations() == Seq::<u64>::empty(),
    {
        let origin = self.read64(address);
        self.write64(address, origin ^ val);
        origin
    }

    pub fn atomic_and32(&mut self, address: u64, val: u32) -> (r: u32)
        requires
            old(self).wf(),
            ram_range(address, 4),
        ensures
            final (self).wf(),
            r == spec_read_u32(old(self)@, address),
            final (self)@ == spec_write_u32(
                old(self)@,
                address,
                spec_read_u32(old(self)@, address) & val,
            ),
            final (self).reservations() == Seq::<u64>::empty(),
    {
        let origin = self.read32(address);
        self.write32(address, origin & val);
        origin
    }

    pub fn atomic_and64(&mut self, address: u64, val: u64) -> (r: u64)
        requires
            old(self).wf(),
            ram_range(address, 8),
        ensures
            final (self).wf(),
            r == spec_read_u64(old(self)@, address),
            final (self)@ == spec_write_u64(
                old(self)@,
                address,
                spec_read_u64(old(self)@, address) & val,
            ),
            final (self).reservations() == Seq::<u64>::empty(),
    {
        let origin = self.read64(address);
        self.write64(address, origin & val);
        origin
    }

    pub fn atomic_or32(&mut self, address: u64, val: u32) -> (r: u32)
        requires
            old(self).wf(),
            ram_range(address, 4),
        ensures
            final (self).wf(),
            r == spec_read_u32(old(self)@, address),
            final (self)@ == spec_write_u32(
                old(self)@,
                address,
                spec_read_u32(old(self)@, address) | val,
            ),
            final (self).reservations() == Seq::<u64>::empty(),
    {
        let origin = self.read32(address);
        self.write32(address, origin | val);
        origin
    }

    pub fn atomic_or64(&mut self, address: u64, val: u64) -> (r: u64)
        requires
            old(self).wf(),
            ram_range(address, 8),
        ensures
            final (self).wf(),
            r == spec_read_u64(old(self)@, address),
            final (self)@ == spec_write_u64(
                old(self)@,
                address,
                spec_read_u64(old(self)@, address) | val,
            ),
            final (self).reservations() == Seq::<u64>::empty(),
    {
        let origin = self.read64(address);
        self.write64(address, origin | val);
        origin
    }

    /// Signed fetch-min over the word's two's-complement reading.
    pub fn atomic_min_i32(&mut self, address: u64, val: i32) -> (r: i32)
        requires
            old(self).wf(),
            ram_range(address, 4),
        ensures
            final (self).wf(),
            r == (spec_read_u32(old(self)@, address) as i32),
            final (self)@ == spec_write_u32(
                old(self)@,
                address,
                (if (spec_read_u32(old(self)@, address) as i32) < val {
                    spec_read_u32(old(self)@, address)
                } else {
                    val as u32
                }),
            ),
            final (self).reservations() == Seq::<u64>::empty(),
    {
        #[verifier::truncate]
        let origin = self.read32(address) as i32;
        #[verifier::truncate]
        let stored = (if origin < val {
            origin
        } else {
            val
        }) as u32;
        proof {
            crate::util::lemma_sign_cast_u32(spec_read_u32(old(self)@, address));
        }
        self.write32(address, stored);
        origin
    }

    pub fn atomic_min_i64(&mut self, address: u64, val: i64) -> (r: i64)
        requires
            old(self).wf(),
            ram_range(address, 8),
        ensures
            final (self).wf(),
            r == (spec_read_u64(old(self)@, address) as i64),
            final (self)@ == spec_write_u64(
                old(self)@,
                address,
                (if (spec_read_u64(old(self)@, address) as i64) < val {
                    spec_read_u64(old(self)@, address)
                } else {
                    val as u64
                }),
            ),
            final (self).reservations() == Seq::<u64>::empty(),
    {
        #[verifier::truncate]
        let origin = self.read64(address) as i64;
        #[verifier::truncate]
        let stored = (if origin < val {
            origin
        } else {
            val
        }) as u64;
        proof {
            crate::util::lemma_sign_cast_u64(spec_read_u64(old(self)@, address));
        }
        self.write64(address, stored);
        origin
    }

    pub fn atomic_max_i32(&mut self, address: u64, val: i32) -> (r: i32)
        requires
            old(self).wf(),
            ram_range(address, 4),
        ensures
            final (self).wf(),
            r == (spec_read_u32(old(self)@, address) as i32),
            final (self)@ == spec_write_u32(
                old(self)@,
                address,
                (if (spec_read_u32(old(self)@, address) as i32) > val {
                    spec_read_u32(old(self)@, address)
                } else {
                    val as u32
                }),
            ),
            final (self).reservations() == Seq::<u64>::empty(),
    {
        #[verifier::truncate]
        let origin = self.read32(address) as i32;
        #[verifier::truncate]
        let stored = (if origin > val {
            origin
        } else {
            val
        }) as u32;
        proof {
            crate::util::lemma_sign_cast_u32(spec_read_u32(old(self)@, address));
        }
        self.write32(address, stored);
        origin
    }

    pub fn atomic_max_i64(&mut self, address: u64, val: i64) -> (r: i64)
        requires
            old(self).wf(),
            ram_range(address, 8),
        ensures
            final (self).wf(),
            r == (spec_read_u64(old(self)@, address) as i64),
            final (self)@ == spec_write_u64(
                old(self)@,
                address,
                (if (spec_read_u64(old(self)@, address) as i64) > val {
                    spec_read_u64(old(self)@, address)
                } else {
                    val as u64
                }),
            ),
            final (self).reservations() == Seq::<u64>::empty(),
    {
        #[verifier::truncate]
        let origin = self.read64(address) as i64;
        #[verifier::truncate]
        let stored = (if origin > val {
            origin
        } else {
            val
        }) as u64;
        proof {
            crate::util::lemma_sign_cast_u64(spec_read_u64(old(self)@, address));
        }
        self.write64(address, stored);
        origin
    }

    pub fn atomic_min_u32(&mut self, address: u64, val: u32) -> (r: u32)
        requires
            old(self).wf(),
            ram_range(address, 4),
        ensures
            final (self).wf(),
            r == spec_read_u32(old(self)@, address),
            final (self)@ == spec_write_u32(
                old(self)@,
                address,
                (if spec_read_u32(old(self)@, address) < val {
                    spec_read_u32(old(self)@, address)
                } else {
                    val
                }),
            ),
            final (self).reservations() == Seq::<u64>::empty(),
    {
        let origin = self.read32(address);
        let stored = if origin < val {
            origin
        } else {
            val
        };
        self.write32(address, stored);
        origin
    }

    pub fn atomic_min_u64(&mut self, address: u64, val: u64) -> (r: u64)
        requires
            old(self).wf(),
            ram_range(address, 8),
        ensures
            final (self).wf(),
            r == spec_read_u64(old(self)@, address),
            final (self)@ == spec_write_u64(
                old(self)@,
                address,
                (if spec_read_u64(old(self)@, address) < val {
                    spec_read_u64(old(self)@, address)
                } else {
                    val
                }),
            ),
            final (self).reservations() == Seq::<u64>::empty(),
    {
        let origin = self.read64(address);
        let stored = if origin < val {
            origin
        } else {
            val
        };
        self.write64(address, stored);
        origin
    }

    pub fn atomic_max_u32(&mut self, address: u64, val: u32) -> (r: u32)
        requires
            old(self).wf(),
            ram_range(address, 4),
        ensures
            final (self).wf(),
            r == spec_read_u32(old(self)@, address),
            final (self)@ == spec_write_u32(
                old(self)@,
                address,
                (if spec_read_u32(old(self)@, address) > val {
                    spec_read_u32(old(self)@, address)
                } else {
                    val
                }),
            ),
            final (self).reservations() == Seq::<u64>::empty(),
    {
        let origin = self.read32(address);
        let stored = if origin > val {
            origin
        } else {
            val
        };
        self.write32(address, stored);
        origin
    }

    pub fn atomic_max_u64(&mut self, address: u64, val: u64) -> (r: u64)
        requires
            old(self).wf(),
            ram_range(address, 8),
        ensures
            final (self).wf(),
            r == spec_read_u64(old(self)@, address),
            final (self)@ == spec_write_u64(
                old(self)@,
                address,
                (if spec_read_u64(old(self)@, address) > val {
                    spec_read_u64(old(self)@, address)
                } else {
                    val
                }),
            ),
            final (self).reservations() == Seq::<u64>::empty(),
    {
        let origin = self.read64(address);
        let stored = if origin > val {
            origin
        } else {
            val
        };
        self.write64(address, stored);
        origin
    }
}

/// Writing a 32-bit value and reading it back at the same address
/// yields the value: the atomic round trip at word width.
pub proof fn lemma_write_read_u32(m: Seq<u8>, a: u64, v: u32)
    requires
        m.len() == MEMORY_SIZE,
        ram_range(a, 4),
    ensures
        spec_read_u32(spec_write_u32(m, a, v), a) == v,
{
    let b0 = v as u8;
    let b1 = (v >> 8) as u8;
    let b2 = (v >> 16) as u8;
    let b3 = (v >> 24) as u8;
    assert((b0 as u32) | ((b1 as u32) << 8) | ((b2 as u32) << 16) | ((b3 as u32) << 24) == v)
        by (bit_vector)
        requires
            b0 == v as u8,
            b1 == (v >> 8) as u8,
            b2 == (v >> 16) as u8,
            b3 == (v >> 24) as u8,
    ;
}

/// Writing a 64-bit value and reading it back at the same address
/// yields the value: the atomic round trip at doubleword width.
pub proof fn lemma_write_read_u64(m: Seq<u8>, a: u64, v: u64)
    requires
        m.len() == MEMORY_SIZE,
        ram_range(a, 8),
    ensures
        spec_read_u64(spec_write_u64(m, a, v), a) == v,
{
    let b0 = v as u8;
    let b1 = (v >> 8) as u8;
    let b2 = (v >> 16) as u8;
    let b3 = (v >> 24) as u8;
    let b4 = (v >> 32) as u8;
    let b5 = (v >> 40) as u8;
    let b6 = (v >> 48) as u8;
    let b7 = (v >> 56) as u8;
    assert((b0 as u64) | ((b1 as u64) << 8) | ((b2 as u64) << 16) | ((b3 as u64) << 24) | ((
    b4 as u64) << 32) | ((b5 as u64) << 40) | ((b6 as u64) << 48) | ((b7 as u64) << 56) == v)
        by (bit_vector)
        requires
            b0 == v as u8,
            b1 == (v >> 8) as u8,
            b2 == (v >> 16) as u8,
            b3 == (v >> 24) as u8,
            b4 == (v >> 32) as u8,
            b5 == (v >> 40) as u8,
            b6 == (v >> 48) as u8,
            b7 == (v >> 56) as u8,
    ;
}

/// Load-reserved / store-conditional, at the reservation set:
/// a reservation taken and not disturbed is found by the release that
/// consumes it, while any intervening store (which empties the set)
/// makes the release fail.
pub proof fn lemma_lr_sc(rsv: Seq<u64>, a: u64)
    ensures
        rsv.push(a).contains(a),
        !Seq::<u64>::empty().contains(a),
{
    assert(rsv.push(a)[rsv.len() as int] == a);
}

} // verus!
