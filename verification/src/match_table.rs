//! Source address match table.
//!
//! The table holds two disjoint sets — short addresses and extended
//! addresses — plus one enable flag, and decides the frame-pending bit for
//! acknowledgments sent in response to data request commands: when the
//! feature is disabled, frame pending is always set; when enabled, it is set
//! iff the requester's address is present in the relevant set. Insertion is
//! idempotent and removal of a non-member is a no-op, never an error.

use vstd::prelude::*;
use crate::radio::{OTExtAddress, OTShortAddress};

verus! {

/// Number of occurrences of `a` in `s`.
pub open spec fn count_short(s: Seq<u16>, a: u16) -> nat
    decreases s.len(),
{
    if s.len() == 0 {
        0
    } else {
        count_short(s.drop_last(), a) + if s.last() == a { 1nat } else { 0nat }
    }
}

/// Source address match table: short and extended address sets with an
/// enable flag. Well-formed tables hold each address at most once.
pub struct SourceAddressMatchTable {
    /// Whether the source address match feature is enabled
    pub enabled: bool,
    /// The short addresses with a pending frame
    pub short_addrs: Vec<OTShortAddress>,
    /// The extended addresses with a pending frame
    pub ext_addrs: Vec<OTExtAddress>,
}

impl SourceAddressMatchTable {
    /// Both address vectors hold no duplicate entries.
    pub open spec fn wf(&self) -> bool {
        &&& forall|i: int, j: int|
            0 <= i < j < self.short_addrs@.len() ==> self.short_addrs@[i] != self.short_addrs@[j]
        &&& forall|i: int, j: int|
            0 <= i < j < self.ext_addrs@.len() ==> self.ext_addrs@[i]@ != self.ext_addrs@[j]@
    }

    /// The set of short addresses held.
    pub open spec fn short_set(&self) -> Set<u16> {
        Set::new(|a: u16| self.short_addrs@.contains(a))
    }

    /// The set of extended addresses held, each as its byte sequence.
    pub open spec fn ext_set(&self) -> Set<Seq<u8>> {
        Set::new(
            |a: Seq<u8>|
                exists|i: int| 0 <= i < self.ext_addrs@.len() && self.ext_addrs@[i]@ == a,
        )
    }

    /// Creates an empty, disabled table.
    pub fn new() -> (t: Self)
        ensures
            t.wf(),
            !t.enabled,
            t.short_set() == Set::<u16>::empty(),
            t.ext_set() == Set::<Seq<u8>>::empty(),
            t.short_addrs@.len() == 0,
            t.ext_addrs@.len() == 0,
    {
        let t = SourceAddressMatchTable {
            enabled: false,
            short_addrs: Vec::new(),
            ext_addrs: Vec::new(),
        };
        proof {
            assert(t.short_set() =~= Set::<u16>::empty());
            assert(t.ext_set() =~= Set::<Seq<u8>>::empty());
        }
        t
    }

    /// Enables or disables the source address match feature.
    pub fn enable(&mut self, enabled: bool)
        ensures
            *final(self) == (Self { enabled, ..*old(self) }),
    {
        self.enabled = enabled;
    }

    /// Returns whether `address` is in the short address set.
    pub fn contains_short(&self, address: OTShortAddress) -> (r: bool)
        ensures
            r == self.short_set().contains(address),
    {
        let mut i: usize = 0;
        while i < self.short_addrs.len()
            invariant
                i <= self.short_addrs@.len(),
                forall|k: int| 0 <= k < i ==> self.short_addrs@[k] != address,
            decreases self.short_addrs@.len() - i,
        {
            if self.short_addrs[i] == address {
                return true;
            }
            i += 1;
        }
        false
    }

    /// Returns whether `address` is in the extended address set.
    pub fn contains_ext(&self, address: &OTExtAddress) -> (r: bool)
        ensures
            r == self.ext_set().contains(address@),
    {
        let mut i: usize = 0;
        while i < self.ext_addrs.len()
            invariant
                i <= self.ext_addrs@.len(),
                forall|k: int| 0 <= k < i ==> self.ext_addrs@[k]@ != address@,
            decreases self.ext_addrs@.len() - i,
        {
            if ext_addr_eq(&self.ext_addrs[i], address) {
                return true;
            }
            i += 1;
        }
        false
    }

    /// Adds `address` to the short address set. Idempotent: adding a member
    /// again leaves the table unchanged.
    pub fn add_short(&mut self, address: OTShortAddress)
        requires
            old(self).wf(),
        ensures
            final(self).wf(),
            final(self).short_set() == old(self).short_set().insert(address),
            final(self).enabled == old(self).enabled,
            final(self).ext_addrs@ == old(self).ext_addrs@,
            old(self).short_set().contains(address) ==> *final(self) == *old(self),
            !old(self).short_set().contains(address) ==> final(self).short_addrs@
                == old(self).short_addrs@.push(address),
    {
        if !self.contains_short(address) {
            self.short_addrs.push(address);
            proof {
                let n = self.short_addrs@.len() - 1;
                assert(self.short_addrs@[n] == address);
                assert forall|a: u16|
                    old(self).short_set().insert(address).contains(a)
                    implies self.short_set().contains(a) by {
                    if a == address {
                        assert(self.short_addrs@[n] == a);
                    } else {
                        let k = choose|k: int|
                            0 <= k < old(self).short_addrs@.len()
                                && old(self).short_addrs@[k] == a;
                        assert(self.short_addrs@[k] == a);
                    }
                }
                assert(self.short_set() =~= old(self).short_set().insert(address));
            }
        } else {
            proof {
                assert(self.short_set() =~= old(self).short_set().insert(address));
            }
        }
    }

    /// Adds `address` to the extended address set. Idempotent: adding a
    /// member again leaves the table unchanged.
    pub fn add_ext(&mut self, address: OTExtAddress)
        requires
            old(self).wf(),
        ensures
            final(self).wf(),
            final(self).ext_set() == old(self).ext_set().insert(address@),
            final(self).enabled == old(self).enabled,
            final(self).short_addrs@ == old(self).short_addrs@,
            old(self).ext_set().contains(address@) ==> *final(self) == *old(self),
            !old(self).ext_set().contains(address@) ==> final(self).ext_addrs@
                == old(self).ext_addrs@.push(address),
    {
        if !self.contains_ext(&address) {
            self.ext_addrs.push(address);
            proof {
                let n = self.ext_addrs@.len() - 1;
                assert(self.ext_addrs@[n]@ == address@);
                assert forall|a: Seq<u8>|
                    old(self).ext_set().insert(address@).contains(a)
                    implies self.ext_set().contains(a) by {
                    if a == address@ {
                        assert(self.ext_addrs@[n]@ == a);
                    } else {
                        let k = choose|k: int|
                            0 <= k < old(self).ext_addrs@.len() && old(self).ext_addrs@[k]@ == a;
                        assert(self.ext_addrs@[k]@ == a);
                    }
                }
                assert(self.ext_set() =~= old(self).ext_set().insert(address@));
            }
        } else {
            proof {
                assert(self.ext_set() =~= old(self).ext_set().insert(address@));
            }
        }
    }

    /// Removes `address` from the short address set. Removing a non-member
    /// succeeds as a no-op.
    pub fn clear_short(&mut self, address: OTShortAddress)
        requires
            old(self).wf(),
        ensures
            final(self).wf(),
            final(self).short_set() == old(self).short_set().remove(address),
            final(self).enabled == old(self).enabled,
            final(self).ext_addrs@ == old(self).ext_addrs@,
            !old(self).short_set().contains(address) ==> *final(self) == *old(self),
    {
        let mut i: usize = 0;
        while i < self.short_addrs.len()
            invariant
                i <= self.short_addrs@.len(),
                old(self).wf(),
                forall|k: int| 0 <= k < i ==> self.short_addrs@[k] != address,
                *self == *old(self),
            decreases self.short_addrs@.len() - i,
        {
            if self.short_addrs[i] == address {
                self.short_addrs.remove(i);
                proof {
                    let orig = old(self).short_addrs@;
                    let removed = self.short_addrs@;
                    assert(removed == orig.remove(i as int));
                    assert forall|a: u16| removed.contains(a)
                        implies old(self).short_set().remove(address).contains(a) by {
                        let k = choose|k: int| 0 <= k < removed.len() && removed[k] == a;
                        if k < i {
                            assert(orig[k] == a);
                        } else {
                            assert(orig[k + 1] == a);
                        }
                        assert(a != address) by {
                            if k < i {
                                assert(orig[k] != address);
                            } else {
                                assert(k + 1 < orig.len());
                                assert(orig[i as int] == address);
                                assert(orig[i as int] != orig[k + 1]);
                            }
                        }
                    }
                    assert forall|a: u16| old(self).short_set().remove(address).contains(a)
                        implies removed.contains(a) by {
                        let k = choose|k: int| 0 <= k < orig.len() && orig[k] == a;
                        if k < i {
                            assert(removed[k] == a);
                        } else if k == i {
                            assert(false);
                        } else {
                            assert(removed[k - 1] == a);
                        }
                    }
                    assert(self.short_set() =~= old(self).short_set().remove(address));
                    assert forall|p: int, q: int| 0 <= p < q < removed.len()
                        implies removed[p] != removed[q] by {
                        let op: int = if p < i { p } else { p + 1 };
                        let oq: int = if q < i { q } else { q + 1 };
                        assert(removed[p] == orig[op]);
                        assert(removed[q] == orig[oq]);
                        assert(0 <= op < oq < orig.len());
                        assert(orig[op] != orig[oq]);
                    }
                }
                return;
            }
            i += 1;
        }
        proof {
            assert(self.short_set() =~= old(self).short_set().remove(address));
        }
    }

    /// Removes `address` from the extended address set. Removing a
    /// non-member succeeds as a no-op.
    pub fn clear_ext(&mut self, address: &OTExtAddress)
        requires
            old(self).wf(),
        ensures
            final(self).wf(),
            final(self).ext_set() == old(self).ext_set().remove(address@),
            final(self).enabled == old(self).enabled,
            final(self).short_addrs@ == old(self).short_addrs@,
            !old(self).ext_set().contains(address@) ==> *final(self) == *old(self),
    {
        let mut i: usize = 0;
        while i < self.ext_addrs.len()
            invariant
                i <= self.ext_addrs@.len(),
                old(self).wf(),
                forall|k: int| 0 <= k < i ==> self.ext_addrs@[k]@ != address@,
                *self == *old(self),
            decreases self.ext_addrs@.len() - i,
        {
            if ext_addr_eq(&self.ext_addrs[i], address) {
                self.ext_addrs.remove(i);
                proof {
                    let orig = old(self).ext_addrs@;
                    let removed = self.ext_addrs@;
                    assert(removed == orig.remove(i as int));
                    assert forall|a: Seq<u8>| self.ext_set().contains(a)
                        implies old(self).ext_set().remove(address@).contains(a) by {
                        let k = choose|k: int| 0 <= k < removed.len() && removed[k]@ == a;
                        if k < i {
                            assert(orig[k]@ == a);
                        } else {
                            assert(orig[k + 1]@ == a);
                        }
                        assert(a != address@) by {
                            if k < i {
                                assert(orig[k]@ != address@);
                            } else {
                                assert(k + 1 < orig.len());
                                assert(orig[i as int]@ == address@);
                                assert(orig[i as int]@ != orig[k + 1]@);
                            }
                        }
                    }
                    assert forall|a: Seq<u8>| old(self).ext_set().remove(address@).contains(a)
                        implies self.ext_set().contains(a) by {
                        let k = choose|k: int| 0 <= k < orig.len() && orig[k]@ == a;
                        if k < i {
                            assert(removed[k]@ == a);
                        } else if k == i {
                            assert(false);
                        } else {
                            assert(removed[k - 1]@ == a);
                        }
                    }
                    assert(self.ext_set() =~= old(self).ext_set().remove(address@));
                    assert forall|p: int, q: int| 0 <= p < q < removed.len()
                        implies removed[p]@ != removed[q]@ by {
                        let op: int = if p < i { p } else { p + 1 };
                        let oq: int = if q < i { q } else { q + 1 };
                        assert(removed[p] == orig[op]);
                        assert(removed[q] == orig[oq]);
                        assert(0 <= op < oq < orig.len());
                        assert(orig[op]@ != orig[oq]@);
                    }
                }
                return;
            }
            i += 1;
        }
        proof {
            assert(self.ext_set() =~= old(self).ext_set().remove(address@));
        }
    }

    /// Empties the short address set.
    pub fn clear_all_short(&mut self)
        requires
            old(self).wf(),
        ensures
            final(self).wf(),
            final(self).short_set() == Set::<u16>::empty(),
            final(self).short_addrs@.len() == 0,
            final(self).enabled == old(self).enabled,
            final(self).ext_addrs@ == old(self).ext_addrs@,
    {
        self.short_addrs.clear();
        proof {
            assert(self.short_set() =~= Set::<u16>::empty());
        }
    }

    /// Empties the extended address set.
    pub fn clear_all_ext(&mut self)
        requires
            old(self).wf(),
        ensures
            final(self).wf(),
            final(self).ext_set() == Set::<Seq<u8>>::empty(),
            final(self).ext_addrs@.len() == 0,
            final(self).enabled == old(self).enabled,
            final(self).short_addrs@ == old(self).short_addrs@,
    {
        self.ext_addrs.clear();
        proof {
            assert(self.ext_set() =~= Set::<Seq<u8>>::empty());
        }
    }

    /// Decides the frame-pending bit for an ack to a data request from a
    /// child with short address `address`: always set when the feature is
    /// disabled, otherwise set iff the address is in the short set.
    pub fn frame_pending_short(&self, address: OTShortAddress) -> (r: bool)
        ensures
            r == (!self.enabled || self.short_set().contains(address)),
    {
        !self.enabled || self.contains_short(address)
    }

    /// Decides the frame-pending bit for an ack to a data request from a
    /// child with extended address `address`: always set when the feature is
    /// disabled, otherwise set iff the address is in the extended set.
    pub fn frame_pending_ext(&self, address: &OTExtAddress) -> (r: bool)
        ensures
            r == (!self.enabled || self.ext_set().contains(address@)),
    {
        !self.enabled || self.contains_ext(address)
    }
}

/// Compares two extended addresses byte for byte.
pub fn ext_addr_eq(a: &OTExtAddress, b: &OTExtAddress) -> (r: bool)
    ensures
        r == (a@ == b@),
{
    let r = a[0] == b[0] && a[1] == b[1] && a[2] == b[2] && a[3] == b[3] && a[4] == b[4]
        && a[5] == b[5] && a[6] == b[6] && a[7] == b[7];
    proof {
        if r {
            assert(a@ =~= b@);
        }
    }
    r
}

/// A well-formed table holds a member short address exactly once: however
/// often an address was added, exactly one entry for it remains.
pub proof fn lemma_member_short_entry_unique(t: SourceAddressMatchTable, a: u16)
    requires
        t.wf(),
        t.short_set().contains(a),
    ensures
        count_short(t.short_addrs@, a) == 1,
{
    let k = choose|k: int| 0 <= k < t.short_addrs@.len() && t.short_addrs@[k] == a;
    lemma_count_short_unique(t.short_addrs@, a, k);
}

/// Helper for [`lemma_member_short_entry_unique`]: a duplicate-free sequence
/// holding `a` at position `k` holds it exactly once.
proof fn lemma_count_short_unique(s: Seq<u16>, a: u16, k: int)
    requires
        forall|i: int, j: int| 0 <= i < j < s.len() ==> s[i] != s[j],
        0 <= k < s.len(),
        s[k] == a,
    ensures
        count_short(s, a) == 1,
    decreases s.len(),
{
    if k == s.len() - 1 {
        lemma_count_short_absent(s.drop_last(), a);
    } else {
        assert(s.drop_last()[k] == a);
        lemma_count_short_unique(s.drop_last(), a, k);
    }
}

/// A sequence without `a` counts zero occurrences of it.
proof fn lemma_count_short_absent(s: Seq<u16>, a: u16)
    requires
        forall|i: int| 0 <= i < s.len() ==> s[i] != a,
    ensures
        count_short(s, a) == 0,
    decreases s.len(),
{
    if s.len() > 0 {
        lemma_count_short_absent(s.drop_last(), a);
    }
}

} // verus!
