//! Extranonce prefix allocation.
//!
//! A factory hands out non-overlapping extranonce prefixes to the channels
//! sharing one 32-byte extranonce space. A prefix is a fixed static part
//! followed by a big-endian allocation counter that advances on every
//! issue and is never reused, so no two issued prefixes are ever equal.

use vstd::prelude::*;

verus! {

use crate::target::pow;
use crate::FULL_EXTRANONCE_LEN;

/// Failures of the extranonce prefix factories.
#[derive(Clone, Copy, PartialEq, Eq, Structural, Debug)]
pub enum ExtranoncePrefixFactoryError {
    /// The state guarding a factory was unusable.
    LockError,
    /// A static prefix alone would overflow the extranonce space.
    PrefixTooLong,
    /// The requested partition does not fit the 32-byte extranonce space.
    FailedToCreateExtendedExtranonce,
    /// The space is exhausted, or the requested rollable length cannot be served.
    FailedToCreateExtranoncePrefix,
}

/// Value of a big-endian byte sequence as an unsigned integer.
pub open spec fn be_val(s: Seq<u8>) -> int
    decreases s.len(),
{
    if s.len() == 0 {
        0
    } else {
        256 * be_val(s.drop_last()) + s.last()
    }
}

/// A big-endian byte sequence's value is below 256^len.
proof fn lemma_be_val_bound(s: Seq<u8>)
    ensures
        0 <= be_val(s) < pow(256, s.len() as nat),
    decreases s.len(),
{
    if s.len() == 0 {
    } else {
        lemma_be_val_bound(s.drop_last());
        lemma_pow_unfold_be(s.len() as nat);
        assert(256 * be_val(s.drop_last()) <= 256 * (pow(256, (s.len() - 1) as nat) - 1))
            by (nonlinear_arith)
            requires
                be_val(s.drop_last()) <= pow(256, (s.len() - 1) as nat) - 1,
        ;
    }
}

/// `pow(256, e) == 256 * pow(256, e - 1)` for positive `e`, stated so callers
/// get the product on the low side, matching `be_val`'s unfolding.
proof fn lemma_pow_unfold_be(e: nat)
    requires
        e >= 1,
    ensures
        pow(256, e) == 256 * pow(256, (e - 1) as nat),
        pow(256, e) >= 256,
        pow(256, (e - 1) as nat) >= 1,
{
    lemma_pow_pos(e);
    lemma_pow_pos((e - 1) as nat);
    assert(256 * pow(256, (e - 1) as nat) >= 256 * 1) by (nonlinear_arith)
        requires
            pow(256, (e - 1) as nat) >= 1,
    ;
}

/// Powers of 256 are positive.
proof fn lemma_pow_pos(e: nat)
    ensures
        pow(256, e) >= 1,
    decreases e,
{
    if e > 0 {
        lemma_pow_pos((e - 1) as nat);
        assert(256 * pow(256, (e - 1) as nat) >= 1) by (nonlinear_arith)
            requires
                pow(256, (e - 1) as nat) >= 1,
        ;
    }
}

/// Two equal-length big-endian sequences with equal values are equal.
pub proof fn lemma_be_val_injective(a: Seq<u8>, b: Seq<u8>)
    requires
        a.len() == b.len(),
        be_val(a) == be_val(b),
    ensures
        a == b,
    decreases a.len(),
{
    if a.len() == 0 {
        assert(a =~= b);
    } else {
        lemma_be_val_bound(a.drop_last());
        lemma_be_val_bound(b.drop_last());
        assert(a.last() == b.last() && be_val(a.drop_last()) == be_val(b.drop_last()))
            by (nonlinear_arith)
            requires
                256 * be_val(a.drop_last()) + a.last() == 256 * be_val(b.drop_last()) + b.last(),
                0 <= a.last() < 256,
                0 <= b.last() < 256,
                be_val(a.drop_last()) >= 0,
                be_val(b.drop_last()) >= 0,
        ;
        lemma_be_val_injective(a.drop_last(), b.drop_last());
        assert(a =~= a.drop_last().push(a.last()));
        assert(b =~= b.drop_last().push(b.last()));
        assert(a =~= b);
    }
}

/// An all-`0xff` sequence holds the largest value of its length.
proof fn lemma_be_val_all_ff(s: Seq<u8>)
    requires
        forall|i: int| 0 <= i < s.len() ==> s[i] == 0xffu8,
    ensures
        be_val(s) == pow(256, s.len() as nat) - 1,
    decreases s.len(),
{
    if s.len() > 0 {
        lemma_be_val_all_ff(s.drop_last());
        lemma_pow_unfold_be(s.len() as nat);
    }
}

/// `be_val` of a concatenation: the head is shifted by the tail's length.
proof fn lemma_be_val_concat(a: Seq<u8>, b: Seq<u8>)
    ensures
        be_val(a + b) == be_val(a) * pow(256, b.len() as nat) + be_val(b),
    decreases b.len(),
{
    if b.len() == 0 {
        assert(a + b =~= a);
    } else {
        lemma_be_val_concat(a, b.drop_last());
        assert((a + b).drop_last() =~= a + b.drop_last());
        assert((a + b).last() == b.last());
        lemma_pow_unfold_be(b.len() as nat);
        assert(256 * (be_val(a) * pow(256, (b.len() - 1) as nat) + be_val(b.drop_last())) == be_val(
            a) * (256 * pow(256, (b.len() - 1) as nat)) + 256 * be_val(b.drop_last()))
            by (nonlinear_arith);
    }
}

/// Increments a big-endian counter in place.
///
/// Returns `true` when the counter was already at its maximum; the counter
/// is then left at zero and the caller must stop issuing.
fn incr_be(c: &mut Vec<u8>) -> (overflow: bool)
    ensures
        final(c)@.len() == old(c)@.len(),
        !overflow ==> be_val(final(c)@) == be_val(old(c)@) + 1,
        overflow ==> be_val(old(c)@) == pow(256, old(c)@.len() as nat) - 1,
{
    let ghost orig = c@;
    let n = c.len();
    let mut i: usize = n;
    loop
        invariant
            i <= n,
            n == c@.len(),
            n == orig.len(),
            orig == old(c)@,
            c@.subrange(0, i as int) == orig.subrange(0, i as int),
            forall|k: int| i <= k < n ==> c@[k] == 0u8,
            forall|k: int| i <= k < n ==> orig[k] == 0xffu8,
        decreases i,
    {
        if i == 0 {
            proof {
                assert(orig.subrange(0, 0) =~= Seq::<u8>::empty());
                lemma_be_val_all_ff(orig);
            }
            return true;
        }
        i = i - 1;
        let b = c[i];
        proof {
            assert(c@.subrange(0, i + 1)[i as int] == orig.subrange(0, i + 1)[i as int]);
            assert(b == orig[i as int]);
        }
        if b == 0xff {
            c.set(i, 0);
            proof {
                assert(c@.subrange(0, i as int) =~= orig.subrange(0, i as int));
            }
        } else {
            c.set(i, b + 1);
            proof {
                let head = orig.subrange(0, i as int);
                let tail = orig.subrange(i + 1, n as int);
                // the starting value splits as head ++ [b] ++ all-ff tail
                assert(orig =~= head + seq![b] + tail);
                lemma_be_val_concat(head + seq![b], tail);
                lemma_be_val_concat(head, seq![b]);
                lemma_be_val_all_ff(tail);
                // the new value splits as head ++ [b + 1] ++ all-zero tail
                let nb: u8 = (b + 1) as u8;
                let ztail = c@.subrange(i + 1, n as int);
                assert(c@ =~= head + seq![nb] + ztail);
                lemma_be_val_concat(head + seq![nb], ztail);
                lemma_be_val_concat(head, seq![nb]);
                lemma_be_val_zeros(ztail);
                assert(pow(256, 1) == 256 * pow(256, 0));
                lemma_be_val_single(b);
                lemma_be_val_single(nb);
                let p = pow(256, tail.len() as nat);
                assert(ztail.len() == tail.len());
                assert((be_val(head) * 256 + nb) * p == (be_val(head) * 256 + b) * p + p)
                    by (nonlinear_arith)
                    requires
                        nb == b + 1,
                ;
            }
            return false;
        }
    }
}

/// A one-byte sequence holds just that byte's value.
proof fn lemma_be_val_single(b: u8)
    ensures
        be_val(seq![b]) == b,
{
    reveal_with_fuel(be_val, 2);
    assert(seq![b].len() == 1);
    assert(seq![b].drop_last() =~= Seq::<u8>::empty());
    assert(be_val(seq![b].drop_last()) == 0);
    assert(seq![b].last() == b);
}

/// An all-zero sequence has value zero.
proof fn lemma_be_val_zeros(s: Seq<u8>)
    requires
        forall|i: int| 0 <= i < s.len() ==> s[i] == 0u8,
    ensures
        be_val(s) == 0,
    decreases s.len(),
{
    if s.len() > 0 {
        lemma_be_val_zeros(s.drop_last());
    }
}

/// Allocates unique extranonce prefixes for Extended channels.
///
/// The 32-byte extranonce space is split into the static prefix, an
/// allocation range of `allocation_size` counter bytes, and the remainder,
/// which the mining device may roll.
pub struct Sv2ExtranoncePrefixFactoryExtended {
    static_prefix: Vec<u8>,
    counter: Vec<u8>,
    exhausted: bool,
}

impl Sv2ExtranoncePrefixFactoryExtended {
    /// The fixed static part of every prefix this factory issues.
    pub closed spec fn static_part(&self) -> Seq<u8> {
        self.static_prefix@
    }

    /// The number of counter bytes in every issued prefix.
    pub closed spec fn allocation_size(&self) -> nat {
        self.counter@.len()
    }

    /// How many prefixes this factory has issued so far.
    pub closed spec fn issued(&self) -> int {
        if self.exhausted {
            pow(256, self.counter@.len() as nat)
        } else {
            be_val(self.counter@)
        }
    }

    /// The factory's partition fits the 32-byte extranonce space.
    pub closed spec fn wf(&self) -> bool {
        self.static_prefix@.len() + self.counter@.len() <= FULL_EXTRANONCE_LEN
    }

    /// Creates a factory whose prefixes use `allocation_size` counter bytes
    /// after the optional static prefix.
    ///
    /// Fails exactly when the static prefix plus the allocation range would
    /// exceed the 32-byte extranonce space.
    pub fn new(allocation_size: u32, static_prefix: Option<Vec<u8>>) -> (r: Result<
        Self,
        ExtranoncePrefixFactoryError,
    >)
        ensures
            match r {
                Ok(f) => {
                    &&& f.wf()
                    &&& f.issued() == 0
                    &&& f.allocation_size() == allocation_size
                    &&& match static_prefix {
                        Some(p) => f.static_part() == p@
                            && p@.len() + allocation_size <= FULL_EXTRANONCE_LEN,
                        None => f.static_part() == Seq::<u8>::empty() && allocation_size
                            <= FULL_EXTRANONCE_LEN,
                    }
                },
                Err(e) => {
                    &&& e == ExtranoncePrefixFactoryError::FailedToCreateExtendedExtranonce
                    &&& match static_prefix {
                        Some(p) => p@.len() + allocation_size > FULL_EXTRANONCE_LEN,
                        None => allocation_size > FULL_EXTRANONCE_LEN,
                    }
                },
            },
    {
        let sp: Vec<u8> = match static_prefix {
            Some(p) => p,
            None => Vec::new(),
        };
        if allocation_size as usize > FULL_EXTRANONCE_LEN || sp.len() > FULL_EXTRANONCE_LEN
            - allocation_size as usize {
            return Err(ExtranoncePrefixFactoryError::FailedToCreateExtendedExtranonce);
        }
        let mut counter: Vec<u8> = Vec::new();
        let mut i: usize = 0;
        while i < allocation_size as usize
            invariant
                counter@.len() == i,
                i <= allocation_size,
                forall|k: int| 0 <= k < i ==> counter@[k] == 0u8,
            decreases allocation_size - i,
        {
            counter.push(0);
            i = i + 1;
        }
        proof {
            lemma_be_val_zeros(counter@);
        }
        Ok(
            Sv2ExtranoncePrefixFactoryExtended {
                static_prefix: sp,
                counter,
                exhausted: false,
            },
        )
    }

    /// Issues the next unused prefix, guaranteeing at least
    /// `min_required_len` rollable bytes remain after it.
    ///
    /// Fails exactly when too few rollable bytes would remain or the
    /// allocation range is exhausted; the factory is unchanged on failure.
    pub fn next_extranonce_prefix(&mut self, min_required_len: u32) -> (r: Result<
        Vec<u8>,
        ExtranoncePrefixFactoryError,
    >)
        requires
            old(self).wf(),
        ensures
            final(self).wf(),
            final(self).static_part() == old(self).static_part(),
            final(self).allocation_size() == old(self).allocation_size(),
            match r {
                Ok(p) => {
                    &&& old(self).issued() < pow(256, old(self).allocation_size())
                    &&& min_required_len + old(self).static_part().len() + old(
                        self,
                    ).allocation_size() <= FULL_EXTRANONCE_LEN
                    &&& final(self).issued() == old(self).issued() + 1
                    &&& p@.len() == old(self).static_part().len() + old(self).allocation_size()
                    &&& p@.subrange(0, old(self).static_part().len() as int) == old(
                        self,
                    ).static_part()
                    &&& be_val(
                        p@.subrange(old(self).static_part().len() as int, p@.len() as int),
                    ) == old(self).issued()
                },
                Err(e) => {
                    &&& e == ExtranoncePrefixFactoryError::FailedToCreateExtranoncePrefix
                    &&& *final(self) == *old(self)
                    &&& (old(self).issued() >= pow(256, old(self).allocation_size())
                        || min_required_len + old(self).static_part().len() + old(
                        self,
                    ).allocation_size() > FULL_EXTRANONCE_LEN)
                },
            },
    {
        let prefix_len = self.static_prefix.len() + self.counter.len();
        if min_required_len as usize > FULL_EXTRANONCE_LEN - prefix_len {
            return Err(ExtranoncePrefixFactoryError::FailedToCreateExtranoncePrefix);
        }
        if self.exhausted {
            proof {
                lemma_pow_pos(self.counter@.len() as nat);
            }
            return Err(ExtranoncePrefixFactoryError::FailedToCreateExtranoncePrefix);
        }
        let mut prefix: Vec<u8> = Vec::new();
        let mut i: usize = 0;
        while i < self.static_prefix.len()
            invariant
                i <= self.static_prefix@.len(),
                prefix@ == self.static_prefix@.subrange(0, i as int),
            decreases self.static_prefix@.len() - i,
        {
            let b = self.static_prefix[i];
            prefix.push(b);
            i = i + 1;
            proof {
                assert(prefix@ =~= self.static_prefix@.subrange(0, i as int));
            }
        }
        proof {
            assert(self.static_prefix@.subrange(0, self.static_prefix@.len() as int)
                =~= self.static_prefix@);
        }
        let mut j: usize = 0;
        let ghost sp_len = self.static_prefix@.len() as int;
        while j < self.counter.len()
            invariant
                j <= self.counter@.len(),
                sp_len == self.static_prefix@.len(),
                prefix@.len() == sp_len + j,
                prefix@.subrange(0, sp_len) == self.static_prefix@,
                prefix@.subrange(sp_len, prefix@.len() as int) == self.counter@.subrange(
                    0,
                    j as int,
                ),
            decreases self.counter@.len() - j,
        {
            let b = self.counter[j];
            prefix.push(b);
            j = j + 1;
            proof {
                assert(prefix@.subrange(0, sp_len) =~= self.static_prefix@);
                assert(prefix@.subrange(sp_len, prefix@.len() as int) =~= self.counter@.subrange(
                    0,
                    j as int,
                ));
            }
        }
        proof {
            assert(self.counter@.subrange(0, self.counter@.len() as int) =~= self.counter@);
            lemma_be_val_bound(self.counter@);
        }
        let overflow = incr_be(&mut self.counter);
        if overflow {
            self.exhausted = true;
        }
        Ok(prefix)
    }
}

/// Allocates unique extranonce prefixes for Standard channels, which roll no
/// extranonce themselves: a single counter byte follows the static prefix.
pub struct Sv2ExtranoncePrefixFactoryStandard {
    inner: Sv2ExtranoncePrefixFactoryExtended,
}

impl Sv2ExtranoncePrefixFactoryStandard {
    /// The fixed static part of every prefix this factory issues.
    pub closed spec fn static_part(&self) -> Seq<u8> {
        self.inner.static_part()
    }

    /// How many prefixes this factory has issued so far.
    pub closed spec fn issued(&self) -> int {
        self.inner.issued()
    }

    /// The factory's partition fits the 32-byte extranonce space.
    pub closed spec fn wf(&self) -> bool {
        self.inner.wf() && self.inner.allocation_size() == 1
    }

    /// Creates a factory issuing one-counter-byte prefixes.
    ///
    /// Fails exactly when the static prefix plus the single allocation byte
    /// would exceed the 32-byte extranonce space.
    pub fn new(static_prefix: Option<Vec<u8>>) -> (r: Result<
        Self,
        ExtranoncePrefixFactoryError,
    >)
        ensures
            match r {
                Ok(f) => {
                    &&& f.wf()
                    &&& f.issued() == 0
                    &&& match static_prefix {
                        Some(p) => f.static_part() == p@ && p@.len() + 1 <= FULL_EXTRANONCE_LEN,
                        None => f.static_part() == Seq::<u8>::empty(),
                    }
                },
                Err(e) => {
                    &&& e == ExtranoncePrefixFactoryError::FailedToCreateExtendedExtranonce
                    &&& match static_prefix {
                        Some(p) => p@.len() + 1 > FULL_EXTRANONCE_LEN,
                        None => false,
                    }
                },
            },
    {
        match Sv2ExtranoncePrefixFactoryExtended::new(1, static_prefix) {
            Ok(inner) => Ok(Sv2ExtranoncePrefixFactoryStandard { inner }),
            Err(e) => Err(e),
        }
    }

    /// Issues the next unused prefix.
    ///
    /// Fails exactly when the 256 single-byte allocations are exhausted; the
    /// factory is unchanged on failure.
    pub fn next_extranonce_prefix(&mut self) -> (r: Result<
        Vec<u8>,
        ExtranoncePrefixFactoryError,
    >)
        requires
            old(self).wf(),
        ensures
            final(self).wf(),
            final(self).static_part() == old(self).static_part(),
            match r {
                Ok(p) => {
                    &&& old(self).issued() < 256
                    &&& final(self).issued() == old(self).issued() + 1
                    &&& p@.len() == old(self).static_part().len() + 1
                    &&& p@.subrange(0, old(self).static_part().len() as int) == old(
                        self,
                    ).static_part()
                    &&& p@.last() == old(self).issued()
                },
                Err(e) => {
                    &&& e == ExtranoncePrefixFactoryError::FailedToCreateExtranoncePrefix
                    &&& *final(self) == *old(self)
                    &&& old(self).issued() >= 256
                },
            },
    {
        let r = self.inner.next_extranonce_prefix(0);
        proof {
            assert(pow(256, 1) == 256 * pow(256, 0));
        }
        match r {
            Ok(p) => {
                proof {
                    let tail = p@.subrange(
                        old(self).static_part().len() as int,
                        p@.len() as int,
                    );
                    assert(tail.len() == 1);
                    assert(tail.drop_last() =~= Seq::<u8>::empty());
                    assert(be_val(tail.drop_last()) == 0);
                    assert(be_val(tail) == tail.last());
                    assert(p@.last() == tail.last());
                    assert(pow(256, 1) == 256 * pow(256, 0));
                }
                Ok(p)
            },
            Err(e) => Err(e),
        }
    }
}

} // verus!
