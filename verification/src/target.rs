//! 256-bit mining targets: byte conversions, ordering, and the derivation of a
//! channel target from a device's expected hashes-per-share workload.
//!
//! A target is a 256-bit unsigned value; a lower value demands more work from
//! the miner. On the wire a target travels as 32 little-endian bytes.

use vstd::prelude::*;

verus! {

use vstd::arithmetic::div_mod::lemma_fundamental_div_mod;
use vstd::arithmetic::div_mod::lemma_fundamental_div_mod_converse;

/// Number of bytes in a serialized 256-bit target.
pub const TARGET_LEN: usize = 32;

/// A 256-bit unsigned value held as four 64-bit limbs, least significant first.
#[derive(Clone, Copy, PartialEq, Eq, Structural, Debug)]
pub struct Target {
    pub l0: u64,
    pub l1: u64,
    pub l2: u64,
    pub l3: u64,
}

/// Value of a little-endian byte sequence as an unsigned integer.
pub open spec fn le_val(s: Seq<u8>) -> int
    decreases s.len(),
{
    if s.len() == 0 {
        0
    } else {
        s[0] + 256 * le_val(s.drop_first())
    }
}

/// 2^64 as an integer.
pub open spec fn pow2_64() -> int {
    0x1_0000_0000_0000_0000
}

/// 2^256 as an integer.
pub open spec fn pow2_256() -> int {
    pow2_64() * pow2_64() * pow2_64() * pow2_64()
}

/// `pow(b, e)`: exponentiation for specifications.
pub open spec fn pow(b: int, e: nat) -> int
    decreases e,
{
    if e == 0 {
        1
    } else {
        b * pow(b, (e - 1) as nat)
    }
}

impl Target {
    /// The numeric value of this target.
    pub open spec fn val(self) -> int {
        self.l0 + self.l1 * pow2_64() + self.l2 * (pow2_64() * pow2_64()) + self.l3 * (pow2_64()
            * pow2_64() * pow2_64())
    }

    /// The all-zero target.
    pub open spec fn is_zero(self) -> bool {
        self.l0 == 0 && self.l1 == 0 && self.l2 == 0 && self.l3 == 0
    }
}

/// The values of the small powers of 256 that the byte conversions use.
proof fn lemma_pow256_small()
    ensures
        pow(256, 7) == 0x1_0000_0000_0000_00,
        pow(256, 8) == 0x1_0000_0000_0000_0000,
{
    assert(pow(256, 0) == 1);
    assert(pow(256, 1) == 256);
    assert(pow(256, 2) == 0x1_0000);
    assert(pow(256, 3) == 0x1_0000_00);
    assert(pow(256, 4) == 0x1_0000_0000);
    assert(pow(256, 5) == 0x1_0000_0000_00);
    assert(pow(256, 6) == 0x1_0000_0000_0000);
    assert(pow(256, 7) == 0x1_0000_0000_0000_00);
    assert(pow(256, 8) == 0x1_0000_0000_0000_0000);
}

/// `pow` of a positive base is positive.
proof fn lemma_pow_positive(b: int, e: nat)
    requires
        b >= 1,
    ensures
        pow(b, e) >= 1,
    decreases e,
{
    if e > 0 {
        lemma_pow_positive(b, (e - 1) as nat);
        assert(b * pow(b, (e - 1) as nat) >= 1) by (nonlinear_arith)
            requires
                b >= 1,
                pow(b, (e - 1) as nat) >= 1,
        ;
    }
}

/// `pow` is monotone in the exponent for bases of at least one.
proof fn lemma_pow_increases(b: int, e1: nat, e2: nat)
    requires
        b >= 1,
        e1 <= e2,
    ensures
        pow(b, e1) <= pow(b, e2),
    decreases e2,
{
    if e1 < e2 {
        lemma_pow_increases(b, e1, (e2 - 1) as nat);
        lemma_pow_positive(b, (e2 - 1) as nat);
        assert(b * pow(b, (e2 - 1) as nat) >= pow(b, (e2 - 1) as nat)) by (nonlinear_arith)
            requires
                b >= 1,
                pow(b, (e2 - 1) as nat) >= 1,
        ;
    }
}

/// `le_val` of a concatenation splits at the boundary.
proof fn lemma_le_val_concat(a: Seq<u8>, b: Seq<u8>)
    ensures
        le_val(a + b) == le_val(a) + pow(256, a.len() as nat) * le_val(b),
    decreases a.len(),
{
    if a.len() == 0 {
        assert(a + b =~= b);
        assert(le_val(a) == 0);
        assert(pow(256, a.len() as nat) == 1);
    } else {
        lemma_le_val_concat(a.drop_first(), b);
        assert((a + b).drop_first() =~= a.drop_first() + b);
        assert(le_val(a + b) == (a + b)[0] + 256 * le_val((a + b).drop_first()));
        assert((a + b)[0] == a[0]);
        assert(a.drop_first().len() == a.len() - 1);
        assert(pow(256, a.len() as nat) == 256 * pow(256, (a.len() - 1) as nat));
        assert(256 * (le_val(a.drop_first()) + pow(256, (a.len() - 1) as nat) * le_val(b)) == 256
            * le_val(a.drop_first()) + pow(256, a.len() as nat) * le_val(b)) by (nonlinear_arith)
            requires
                pow(256, a.len() as nat) == 256 * pow(256, (a.len() - 1) as nat),
        ;
        assert(le_val(a) == a[0] + 256 * le_val(a.drop_first()));
    }
}

/// A little-endian byte sequence's value is below 256^len.
proof fn lemma_le_val_bound(s: Seq<u8>)
    ensures
        0 <= le_val(s) < pow(256, s.len() as nat),
    decreases s.len(),
{
    if s.len() == 0 {
    } else {
        lemma_le_val_bound(s.drop_first());
        assert(s[0] < 256);
        assert(256 * le_val(s.drop_first()) <= 256 * (pow(256, (s.len() - 1) as nat) - 1))
            by (nonlinear_arith)
            requires
                le_val(s.drop_first()) <= pow(256, (s.len() - 1) as nat) - 1,
        ;
    }
}

/// A little-endian byte sequence's value is never negative.
pub proof fn lemma_le_val_nonneg(s: Seq<u8>)
    ensures
        le_val(s) >= 0,
{
    lemma_le_val_bound(s);
}

/// Appending a byte adds its place value at 256^len.
proof fn lemma_le_val_snoc(s: Seq<u8>, b: u8)
    ensures
        le_val(s.push(b)) == le_val(s) + pow(256, s.len() as nat) * b,
{
    let single = seq![b];
    assert(le_val(single) == b + 256 * le_val(single.drop_first()));
    assert(single.drop_first() =~= Seq::<u8>::empty());
    lemma_le_val_concat(s, single);
    assert(s.push(b) =~= s + single);
}

/// Reads the eight bytes at `off` as a little-endian 64-bit limb.
fn u64_from_le(bytes: &Vec<u8>, off: usize) -> (r: u64)
    requires
        off + 8 <= bytes@.len(),
    ensures
        r == le_val(bytes@.subrange(off as int, off + 8)),
{
    let mut acc: u64 = 0;
    let blen = bytes.len();
    let ghost s = bytes@.subrange(off as int, off + 8);
    proof {
        assert(s.subrange(8, 8) =~= Seq::<u8>::empty());
    }
    let mut j: usize = 0;
    while j < 8
        invariant
            j <= 8,
            blen == bytes@.len(),
            off + 8 <= bytes@.len(),
            s == bytes@.subrange(off as int, off + 8),
            acc == le_val(s.subrange(8 - j, 8)),
            acc < pow(256, j as nat),
        decreases 8 - j,
    {
        let b = bytes[off + 7 - j];
        proof {
            let k = 7 - j as int;
            assert(s.subrange(k, 8).drop_first() =~= s.subrange(k + 1, 8));
            assert(s.subrange(k, 8)[0] == bytes@[off + k]);
            lemma_pow256_small();
            lemma_pow_positive(256, j as nat);
            lemma_pow_increases(256, j as nat, 7);
            assert(pow(256, (j + 1) as nat) == 256 * pow(256, j as nat));
            assert(256 * acc + b < 256 * pow(256, j as nat)) by (nonlinear_arith)
                requires
                    acc < pow(256, j as nat),
                    b < 256,
                    acc >= 0,
                    pow(256, j as nat) >= 1,
            ;
        }
        acc = b as u64 + 256 * acc;
        j = j + 1;
    }
    proof {
        assert(s.subrange(0, 8) =~= s);
    }
    acc
}

/// Writes a 64-bit limb as eight little-endian bytes appended to `out`.
fn u64_to_le(out: &mut Vec<u8>, v0: u64)
    ensures
        final(out)@.len() == old(out)@.len() + 8,
        final(out)@.subrange(0, old(out)@.len() as int) == old(out)@,
        le_val(final(out)@.subrange(old(out)@.len() as int, final(out)@.len() as int)) == v0,
{
    let ghost n = out@.len() as int;
    let ghost orig = out@;
    let mut v: u64 = v0;
    proof {
        lemma_pow256_small();
        assert(out@.subrange(n, n) =~= Seq::<u8>::empty());
        assert(out@.subrange(0, n) =~= orig);
    }
    let mut j: usize = 0;
    while j < 8
        invariant
            j <= 8,
            out@.len() == n + j,
            n == orig.len(),
            out@.subrange(0, n) == orig,
            le_val(out@.subrange(n, n + j)) + v * pow(256, j as nat) == v0,
            v < pow(256, (8 - j) as nat),
        decreases 8 - j,
    {
        let b: u8 = (v % 256) as u8;
        let ghost pre = out@;
        let ghost vd = (v / 256) as int;
        out.push(b);
        v = v / 256;
        j = j + 1;
        proof {
            assert(out@ == pre.push(b));
            assert(out@.subrange(0, n) =~= pre.subrange(0, n));
            let tail_pre = pre.subrange(n, n + j - 1);
            lemma_le_val_snoc(tail_pre, b);
            assert(out@.subrange(n, n + j) =~= tail_pre.push(b));
            lemma_fundamental_div_mod(old_v_int(vd, b), 256);
            assert(pow(256, j as nat) == 256 * pow(256, (j - 1) as nat));
            assert(tail_pre.len() == j - 1);
            // old v == 256 * vd + b, so its place value splits into b here plus vd one up
            assert(pow(256, (j - 1) as nat) * b + vd * (256 * pow(256, (j - 1) as nat)) == (256
                * vd + b) * pow(256, (j - 1) as nat)) by (nonlinear_arith);
            assert(vd * pow(256, j as nat) == vd * (256 * pow(256, (j - 1) as nat)));
            // bound on the remaining value
            assert(pow(256, (8 - j + 1) as nat) == 256 * pow(256, (8 - j) as nat));
            assert(vd < pow(256, (8 - j) as nat)) by (nonlinear_arith)
                requires
                    256 * vd + b < 256 * pow(256, (8 - j) as nat),
                    vd >= 0,
                    b >= 0,
            ;
        }
    }
    proof {
        assert(pow(256, 0) == 1);
        assert(out@.subrange(n, n + 8) =~= out@.subrange(n, out@.len() as int));
    }
}

/// The integer a limb had before a division step: `256 * vd + b`.
spec fn old_v_int(vd: int, b: u8) -> int {
    256 * vd + b
}

impl Target {
    /// Builds a target from 32 little-endian bytes.
    pub fn from_le_bytes(bytes: &Vec<u8>) -> (r: Target)
        requires
            bytes@.len() == TARGET_LEN,
        ensures
            r.val() == le_val(bytes@),
    {
        let l0 = u64_from_le(bytes, 0);
        let l1 = u64_from_le(bytes, 8);
        let l2 = u64_from_le(bytes, 16);
        let l3 = u64_from_le(bytes, 24);
        let r = Target { l0, l1, l2, l3 };
        proof {
            lemma_target_le_decompose(bytes@, r);
        }
        r
    }

    /// Serializes this target as 32 little-endian bytes.
    pub fn to_le_bytes(&self) -> (r: Vec<u8>)
        ensures
            r@.len() == TARGET_LEN,
            le_val(r@) == self.val(),
    {
        let mut out: Vec<u8> = Vec::new();
        u64_to_le(&mut out, self.l0);
        let ghost s0 = out@;
        u64_to_le(&mut out, self.l1);
        let ghost s1 = out@;
        u64_to_le(&mut out, self.l2);
        let ghost s2 = out@;
        u64_to_le(&mut out, self.l3);
        proof {
            assert(s1.subrange(0, 8) == s0);
            assert(s2.subrange(0, 16) == s1);
            assert(out@.subrange(0, 24) == s2);
            assert(s0.subrange(0, 8) =~= s0);
            assert(le_val(s0) == self.l0);
            assert(out@.subrange(0, 8) =~= s0);
            assert(out@.subrange(8, 16) =~= s1.subrange(8, 16));
            assert(out@.subrange(16, 24) =~= s2.subrange(16, 24));
            assert(out@.subrange(24, 32) == out@.subrange(24, out@.len() as int));
            lemma_target_le_decompose(out@, *self);
        }
        out
    }

    /// True iff `self` is numerically smaller than or equal to `other`.
    pub fn le(&self, other: &Target) -> (r: bool)
        ensures
            r == (self.val() <= other.val()),
    {
        proof {
            lemma_limb_order(*self, *other);
            lemma_limb_order(*other, *self);
        }
        if self.l3 != other.l3 {
            self.l3 < other.l3
        } else if self.l2 != other.l2 {
            self.l2 < other.l2
        } else if self.l1 != other.l1 {
            self.l1 < other.l1
        } else {
            self.l0 <= other.l0
        }
    }

    /// The smaller of two targets.
    pub fn min_of(&self, other: &Target) -> (r: Target)
        ensures
            r.val() == if self.val() <= other.val() {
                self.val()
            } else {
                other.val()
            },
            r == *self || r == *other,
    {
        if self.le(other) {
            *self
        } else {
            *other
        }
    }

    /// True iff every limb is zero, which is exactly a zero numeric value.
    pub fn is_zero_target(&self) -> (r: bool)
        ensures
            r == self.is_zero(),
            r == (self.val() == 0),
    {
        proof {
            lemma_limb_order(*self, *self);
        }
        self.l0 == 0 && self.l1 == 0 && self.l2 == 0 && self.l3 == 0
    }
}

/// A 32-byte little-endian sequence's value splits into the four limb reads.
proof fn lemma_target_le_decompose(s: Seq<u8>, t: Target)
    requires
        s.len() == 32,
        t.l0 == le_val(s.subrange(0, 8)),
        t.l1 == le_val(s.subrange(8, 16)),
        t.l2 == le_val(s.subrange(16, 24)),
        t.l3 == le_val(s.subrange(24, 32)),
    ensures
        t.val() == le_val(s),
{
    let a = s.subrange(0, 8);
    let b = s.subrange(8, 16);
    let c = s.subrange(16, 24);
    let d = s.subrange(24, 32);
    assert(s =~= a + (b + (c + d)));
    lemma_le_val_concat(b, c + d);
    lemma_le_val_concat(c, d);
    lemma_le_val_concat(a, b + (c + d));
    lemma_pow256_small();
    assert((b + (c + d)).len() == 24);
    assert(le_val(s) == le_val(a) + pow2_64() * (le_val(b) + pow2_64() * (le_val(c) + pow2_64()
        * le_val(d))));
    assert(pow2_64() * (le_val(b) + pow2_64() * (le_val(c) + pow2_64() * le_val(d))) == le_val(b)
        * pow2_64() + le_val(c) * (pow2_64() * pow2_64()) + le_val(d) * (pow2_64() * pow2_64()
        * pow2_64())) by (nonlinear_arith);
}

/// The lexicographic order of limbs (most significant first) is the numeric order.
proof fn lemma_limb_order(a: Target, b: Target)
    ensures
        a.l3 < b.l3 ==> a.val() < b.val(),
        a.l3 == b.l3 && a.l2 < b.l2 ==> a.val() < b.val(),
        a.l3 == b.l3 && a.l2 == b.l2 && a.l1 < b.l1 ==> a.val() < b.val(),
        a.l3 == b.l3 && a.l2 == b.l2 && a.l1 == b.l1 && a.l0 <= b.l0 ==> a.val() <= b.val(),
        a.val() >= 0,
        a.val() == 0 ==> a.is_zero(),
{
    let p1 = pow2_64();
    let p2 = pow2_64() * pow2_64();
    let p3 = pow2_64() * pow2_64() * pow2_64();
    assert(p2 == 0x1_0000_0000_0000_0000_0000_0000_0000_0000);
    assert(p3 == 0x1_0000_0000_0000_0000_0000_0000_0000_0000_0000_0000_0000_0000);
    if a.l3 < b.l3 {
        assert(a.l3 * p3 + p3 <= b.l3 * p3) by (nonlinear_arith)
            requires
                a.l3 < b.l3,
                p3 >= 1,
        ;
    } else if a.l3 == b.l3 && a.l2 < b.l2 {
        assert(a.l2 * p2 + p2 <= b.l2 * p2) by (nonlinear_arith)
            requires
                a.l2 < b.l2,
                p2 >= 1,
        ;
    } else if a.l3 == b.l3 && a.l2 == b.l2 && a.l1 < b.l1 {
        assert(a.l1 * p1 + p1 <= b.l1 * p1) by (nonlinear_arith)
            requires
                a.l1 < b.l1,
                p1 >= 1,
        ;
    }
}

/// A division step's quotient fits in one limb when the dividend is below `d * 2^64`.
proof fn lemma_quot_bound(cur: int, d: int)
    requires
        d >= 1,
        0 <= cur,
        cur < d * pow2_64(),
    ensures
        0 <= cur / d < pow2_64(),
        cur == d * (cur / d) + cur % d,
        0 <= cur % d < d,
{
    lemma_fundamental_div_mod(cur, d);
    if cur / d >= pow2_64() {
        assert(d * (cur / d) >= d * pow2_64()) by (nonlinear_arith)
            requires
                cur / d >= pow2_64(),
                d >= 1,
        ;
    }
    if cur / d < 0 {
        assert(d * (cur / d) <= d * -1) by (nonlinear_arith)
            requires
                cur / d <= -1,
                d >= 1,
        ;
    }
}

/// Derives a channel target from the expected number of hashes per share.
///
/// Models a miner as drawing hash values uniformly: if a share is wanted every
/// `hs` hashes, the target is `floor(2^256 / (hs + 1)) - 1`, so that about one
/// in `hs + 1` hash values falls at or below it.
pub fn hash_rate_to_target(hs: u64) -> (r: Target)
    requires
        hs >= 1,
    ensures
        r.val() == pow2_256() / (hs + 1) - 1,
{
    let d: u128 = hs as u128 + 1;
    // long division of 2^256 (limbs [1, 0, 0, 0, 0], most significant first) by d
    let cur1: u128 = 0x1_0000_0000_0000_0000u128;  // a remainder of 1, shifted one limb
    proof {
        assert(cur1 < d * pow2_64()) by (nonlinear_arith)
            requires
                d >= 2,
                cur1 == pow2_64(),
        ;
        lemma_quot_bound(cur1 as int, d as int);
    }
    let q1: u64 = (cur1 / d) as u64;
    let rem1: u128 = cur1 % d;
    proof {
        assert(rem1 * pow2_64() < d * pow2_64()) by (nonlinear_arith)
            requires
                rem1 < d,
                rem1 >= 0,
        ;
        lemma_quot_bound(rem1 as int * pow2_64(), d as int);
    }
    let cur2: u128 = rem1 * 0x1_0000_0000_0000_0000u128;
    let q2: u64 = (cur2 / d) as u64;
    let rem2: u128 = cur2 % d;
    proof {
        assert(rem2 * pow2_64() < d * pow2_64()) by (nonlinear_arith)
            requires
                rem2 < d,
                rem2 >= 0,
        ;
        lemma_quot_bound(rem2 as int * pow2_64(), d as int);
    }
    let cur3: u128 = rem2 * 0x1_0000_0000_0000_0000u128;
    let q3: u64 = (cur3 / d) as u64;
    let rem3: u128 = cur3 % d;
    proof {
        assert(rem3 * pow2_64() < d * pow2_64()) by (nonlinear_arith)
            requires
                rem3 < d,
                rem3 >= 0,
        ;
        lemma_quot_bound(rem3 as int * pow2_64(), d as int);
    }
    let cur4: u128 = rem3 * 0x1_0000_0000_0000_0000u128;
    let q4: u64 = (cur4 / d) as u64;
    let rem4: u128 = cur4 % d;
    let ghost p1 = pow2_64();
    let ghost q = q1 * p1 * p1 * p1 + q2 * p1 * p1 + q3 * p1 + q4;
    proof {
        // chain the four limb steps into 2^256 == q * d + rem4
        assert(p1 == d * q1 + rem1);
        assert(rem1 * p1 == d * q2 + rem2);
        assert(rem2 * p1 == d * q3 + rem3);
        assert(rem3 * p1 == d * q4 + rem4);
        assert(p1 * p1 * p1 * p1 == (q1 * p1 * p1 * p1 + q2 * p1 * p1 + q3 * p1 + q4) * d + rem4)
            by (nonlinear_arith)
            requires
                p1 == d * q1 + rem1,
                rem1 * p1 == d * q2 + rem2,
                rem2 * p1 == d * q3 + rem3,
                rem3 * p1 == d * q4 + rem4,
        ;
        assert(pow2_256() == q * d + rem4);
        lemma_fundamental_div_mod_converse(pow2_256(), d as int, q, rem4 as int);
        assert(q == pow2_256() / (d as int));
        // q >= 1: were q zero, 2^256 would equal rem4 < d <= 2^64
        assert(q1 * p1 * p1 * p1 >= 0 && q2 * p1 * p1 >= 0 && q3 * p1 >= 0) by (nonlinear_arith)
            requires
                q1 >= 0,
                q2 >= 0,
                q3 >= 0,
                p1 >= 0,
        ;
        if q == 0 {
            assert(q * d == 0) by (nonlinear_arith)
                requires
                    q == 0,
            ;
            assert(pow2_256() == rem4);
            assert(pow2_256() > 0x1_0000_0000_0000_0000_0000i128);
        }
        assert(q >= 1);
    }
    // subtract one from the four-limb quotient, rippling a borrow upward
    let (l0, borrow0) = if q4 >= 1 {
        (q4 - 1, false)
    } else {
        (u64::MAX, true)
    };
    let (l1, borrow1) = if !borrow0 {
        (q3, false)
    } else if q3 >= 1 {
        (q3 - 1, false)
    } else {
        (u64::MAX, true)
    };
    let (l2, borrow2) = if !borrow1 {
        (q2, false)
    } else if q2 >= 1 {
        (q2 - 1, false)
    } else {
        (u64::MAX, true)
    };
    proof {
        if borrow2 {
            assert(q == q1 * p1 * p1 * p1);
            assert(q1 >= 1) by (nonlinear_arith)
                requires
                    q == q1 * p1 * p1 * p1,
                    q >= 1,
                    p1 >= 1,
                    q1 >= 0,
            ;
        }
    }
    let l3 = if !borrow2 {
        q1
    } else {
        q1 - 1
    };
    let r = Target { l0, l1, l2, l3 };
    proof {
        let p2 = p1 * p1;
        let p3 = p1 * p1 * p1;
        assert(p2 == 0x1_0000_0000_0000_0000_0000_0000_0000_0000);
        assert(p3 == 0x1_0000_0000_0000_0000_0000_0000_0000_0000_0000_0000_0000_0000);
        assert(r.val() == l0 + l1 * p1 + l2 * p2 + l3 * p3);
        assert(q == q4 + q3 * p1 + q2 * p2 + q1 * p3) by (nonlinear_arith)
            requires
                q == q1 * p1 * p1 * p1 + q2 * p1 * p1 + q3 * p1 + q4,
                p2 == p1 * p1,
                p3 == p1 * p1 * p1,
        ;
        assert(r.val() == q - 1);
    }
    r
}

} // verus!
