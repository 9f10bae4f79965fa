//! The register store that every driver operation runs against.
//!
//! Memory-mapped hardware registers are modelled as a total function from
//! 32-bit word addresses to 32-bit values; an address that was never
//! written reads as zero, matching the reset state of the registers the
//! drivers touch. The store is deliberately dumb: a write records exactly
//! the value written and nothing else, so that each driver contract states
//! the precise sequence-free effect of its read-modify-write steps.

use vstd::prelude::*;

verus! {

/// What the bank holds at `addr`, reading the entry list front to back;
/// an address with no entry reads as zero.
spec fn entry_lookup(s: Seq<(u32, u32)>, addr: u32) -> u32
    decreases s.len(),
{
    if s.len() == 0 {
        0u32
    } else if s[0].0 == addr {
        s[0].1
    } else {
        entry_lookup(s.drop_first(), addr)
    }
}

proof fn lemma_lookup_no_match(s: Seq<(u32, u32)>, addr: u32)
    requires
        forall|k: int| 0 <= k < s.len() ==> (#[trigger] s[k]).0 != addr,
    ensures
        entry_lookup(s, addr) == 0u32,
    decreases s.len(),
{
    if s.len() > 0 {
        assert(s[0].0 != addr);
        lemma_lookup_no_match(s.drop_first(), addr);
    }
}

proof fn lemma_lookup_first_match(s: Seq<(u32, u32)>, addr: u32, i: int)
    requires
        0 <= i < s.len(),
        s[i].0 == addr,
        forall|k: int| 0 <= k < i ==> (#[trigger] s[k]).0 != addr,
    ensures
        entry_lookup(s, addr) == s[i].1,
    decreases i,
{
    if i > 0 {
        assert(s[0].0 != addr);
        lemma_lookup_first_match(s.drop_first(), addr, i - 1);
    }
}

proof fn lemma_lookup_update(s: Seq<(u32, u32)>, addr: u32, value: u32, i: int, a: u32)
    requires
        0 <= i < s.len(),
        s[i].0 == addr,
        forall|k: int| 0 <= k < i ==> (#[trigger] s[k]).0 != addr,
    ensures
        entry_lookup(s.update(i, (addr, value)), a) == if a == addr {
            value
        } else {
            entry_lookup(s, a)
        },
    decreases i,
{
    let t = s.update(i, (addr, value));
    if i == 0 {
        if a != addr {
            assert(t.drop_first() =~= s.drop_first());
        }
    } else {
        assert(s[0].0 != addr);
        assert(t[0] == s[0]);
        if a != s[0].0 {
            assert(t.drop_first() =~= s.drop_first().update(i - 1, (addr, value)));
            lemma_lookup_update(s.drop_first(), addr, value, i - 1, a);
        }
    }
}

proof fn lemma_lookup_push(s: Seq<(u32, u32)>, addr: u32, value: u32, a: u32)
    requires
        forall|k: int| 0 <= k < s.len() ==> (#[trigger] s[k]).0 != addr,
    ensures
        entry_lookup(s.push((addr, value)), a) == if a == addr {
            value
        } else {
            entry_lookup(s, a)
        },
    decreases s.len(),
{
    let t = s.push((addr, value));
    if s.len() == 0 {
        assert(t[0] == (addr, value));
        if a != addr {
            assert(t.drop_first() =~= Seq::<(u32, u32)>::empty());
            assert(entry_lookup(t, a) == entry_lookup(t.drop_first(), a));
            assert(entry_lookup(Seq::<(u32, u32)>::empty(), a) == 0u32);
        }
    } else {
        assert(t[0] == s[0]);
        assert(s[0].0 != addr);
        if a != s[0].0 {
            assert(t.drop_first() =~= s.drop_first().push((addr, value)));
            lemma_lookup_push(s.drop_first(), addr, value, a);
        }
    }
}

/// A simulated bank of 32-bit registers, keyed by word address.
///
/// The drivers take the bank by mutable reference and promise, address by
/// address, how the stored values after the call relate to the values
/// before it.
pub struct RegisterBank {
    entries: Vec<(u32, u32)>,
}

impl RegisterBank {
    /// The 32-bit value the bank holds at `addr`.
    pub closed spec fn reg(&self, addr: u32) -> u32 {
        entry_lookup(self.entries@, addr)
    }

    /// A fresh bank in which every register reads as zero.
    pub fn new() -> (bank: RegisterBank)
        ensures
            forall|a: u32| bank.reg(a) == 0u32,
    {
        let bank = RegisterBank { entries: Vec::new() };
        proof {
            assert forall|a: u32| bank.reg(a) == 0u32 by {
                assert(bank.entries@.len() == 0);
            }
        }
        bank
    }

    /// Read the register at `addr`.
    pub fn read32(&self, addr: u32) -> (v: u32)
        ensures
            v == self.reg(addr),
    {
        let n: usize = self.entries.len();
        let mut i: usize = 0;
        while i < n
            invariant
                n == self.entries.len(),
                i <= n,
                forall|k: int| 0 <= k < i ==> (#[trigger] self.entries@[k]).0 != addr,
            decreases n - i,
        {
            if self.entries[i].0 == addr {
                proof {
                    lemma_lookup_first_match(self.entries@, addr, i as int);
                }
                return self.entries[i].1;
            }
            i = i + 1;
        }
        proof {
            lemma_lookup_no_match(self.entries@, addr);
        }
        0u32
    }

    /// Write `value` to the register at `addr`, leaving every other
    /// register as it was.
    pub fn write32(&mut self, addr: u32, value: u32)
        ensures
            forall|a: u32|
                #[trigger] final(self).reg(a) == if a == addr {
                    value
                } else {
                    old(self).reg(a)
                },
    {
        let n: usize = self.entries.len();
        let mut i: usize = 0;
        while i < n
            invariant
                n == self.entries.len(),
                self.entries@ == old(self).entries@,
                i <= n,
                forall|k: int| 0 <= k < i ==> (#[trigger] self.entries@[k]).0 != addr,
            decreases n - i,
        {
            if self.entries[i].0 == addr {
                self.entries[i] = (addr, value);
                proof {
                    assert forall|a: u32|
                        self.reg(a) == if a == addr {
                            value
                        } else {
                            old(self).reg(a)
                        } by {
                        lemma_lookup_update(old(self).entries@, addr, value, i as int, a);
                    }
                }
                return;
            }
            i = i + 1;
        }
        self.entries.push((addr, value));
        proof {
            assert forall|a: u32|
                self.reg(a) == if a == addr {
                    value
                } else {
                    old(self).reg(a)
                } by {
                lemma_lookup_push(old(self).entries@, addr, value, a);
            }
        }
    }

    /// Read-modify-write: OR `mask` into the register at `addr`.
    pub fn set_bits(&mut self, addr: u32, mask: u32)
        ensures
            forall|a: u32|
                #[trigger] final(self).reg(a) == if a == addr {
                    old(self).reg(addr) | mask
                } else {
                    old(self).reg(a)
                },
    {
        let v: u32 = self.read32(addr);
        self.write32(addr, v | mask);
    }

    /// Read-modify-write: clear every bit of `mask` in the register at
    /// `addr`.
    pub fn clear_bits(&mut self, addr: u32, mask: u32)
        ensures
            forall|a: u32|
                #[trigger] final(self).reg(a) == if a == addr {
                    old(self).reg(addr) & !mask
                } else {
                    old(self).reg(a)
                },
    {
        let v: u32 = self.read32(addr);
        self.write32(addr, v & !mask);
    }
}

} // verus!
