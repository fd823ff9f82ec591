//! Arbitrary-precision natural numbers, as the contract uses them for EGLD
//! amounts and limits.
//!
//! A number is a little-endian sequence of 64-bit limbs. Its meaning is the
//! natural number `sum limb[i] * 2^(64 i)`; trailing zero limbs are allowed
//! and do not change the value.
use vstd::prelude::*;

verus! {

/// The radix of one limb: 2^64.
pub open spec fn limb_base() -> nat {
    0x1_0000_0000_0000_0000nat
}

/// `limb_base()` raised to the power `k`.
pub open spec fn base_pow(k: nat) -> nat
    decreases k,
{
    if k == 0 {
        1
    } else {
        limb_base() * base_pow((k - 1) as nat)
    }
}

/// The limb at position `i`, reading missing limbs as zero.
pub open spec fn limb_at(s: Seq<u64>, i: int) -> nat {
    if 0 <= i < s.len() {
        s[i] as nat
    } else {
        0
    }
}

/// The value of the lowest `k` limbs of `s`.
pub open spec fn prefix_value(s: Seq<u64>, k: nat) -> nat
    decreases k,
{
    if k == 0 {
        0
    } else {
        prefix_value(s, (k - 1) as nat) + limb_at(s, k - 1) * base_pow((k - 1) as nat)
    }
}

/// The natural number that a little-endian limb sequence denotes.
pub open spec fn limbs_value(s: Seq<u64>) -> nat {
    prefix_value(s, s.len())
}

pub proof fn lemma_base_pow_positive(k: nat)
    ensures
        base_pow(k) > 0,
    decreases k,
{
    if k > 0 {
        lemma_base_pow_positive((k - 1) as nat);
        let p = base_pow((k - 1) as nat);
        assert(limb_base() * p > 0) by (nonlinear_arith)
            requires
                p > 0,
                limb_base() > 0,
        ;
    }
}

/// The lowest `k` limbs denote a number below `limb_base()^k`.
pub proof fn lemma_prefix_value_bound(s: Seq<u64>, k: nat)
    ensures
        prefix_value(s, k) < base_pow(k),
    decreases k,
{
    if k > 0 {
        let j = (k - 1) as nat;
        lemma_prefix_value_bound(s, j);
        lemma_base_pow_positive(j);
        let p = base_pow(j);
        let l = limb_at(s, j as int);
        let v = prefix_value(s, j);
        assert(l < limb_base());
        assert(v + l * p < limb_base() * p) by (nonlinear_arith)
            requires
                v < p,
                l < limb_base(),
                p > 0,
        ;
    }
}

/// Limbs beyond the end of the sequence add nothing.
pub proof fn lemma_prefix_value_beyond(s: Seq<u64>, k: nat)
    requires
        k >= s.len(),
    ensures
        prefix_value(s, k) == limbs_value(s),
    decreases k,
{
    if k > s.len() {
        lemma_prefix_value_beyond(s, (k - 1) as nat);
        assert(limb_at(s, k - 1) == 0);
        assert(prefix_value(s, k) == prefix_value(s, (k - 1) as nat) + 0 * base_pow((k - 1) as nat));
    }
}

/// Two sequences that agree on their lowest `k` limbs have the same prefix value.
pub proof fn lemma_prefix_value_agree(s: Seq<u64>, t: Seq<u64>, k: nat)
    requires
        forall|i: int| 0 <= i < k ==> limb_at(s, i) == limb_at(t, i),
    ensures
        prefix_value(s, k) == prefix_value(t, k),
    decreases k,
{
    if k > 0 {
        lemma_prefix_value_agree(s, t, (k - 1) as nat);
    }
}

/// An arbitrary-precision natural number.
pub struct BigUint {
    limbs: Vec<u64>,
}

impl View for BigUint {
    type V = nat;

    closed spec fn view(&self) -> nat {
        limbs_value(self.limbs@)
    }
}

impl BigUint {
    /// The number zero.
    pub fn zero() -> (r: BigUint)
        ensures
            r@ == 0,
    {
        BigUint { limbs: Vec::new() }
    }

    /// The number `v`.
    pub fn from_u64(v: u64) -> (r: BigUint)
        ensures
            r@ == v as nat,
    {
        let mut limbs: Vec<u64> = Vec::new();
        limbs.push(v);
        let r = BigUint { limbs };
        proof {
            assert(base_pow(0) == 1);
            assert(limb_at(limbs@, 0) == v);
            assert(prefix_value(limbs@, 1) == prefix_value(limbs@, 0) + limb_at(limbs@, 0) * base_pow(0));
        }
        r
    }

    /// The number `v`.
    pub fn from_u128(v: u128) -> (r: BigUint)
        ensures
            r@ == v as nat,
    {
        let lo: u64 = (v % 0x1_0000_0000_0000_0000u128) as u64;
        let hi: u64 = (v / 0x1_0000_0000_0000_0000u128) as u64;
        let mut limbs: Vec<u64> = Vec::new();
        limbs.push(lo);
        limbs.push(hi);
        let r = BigUint { limbs };
        proof {
            let s = limbs@;
            assert(base_pow(0) == 1);
            assert(base_pow(1) == limb_base() * base_pow(0));
            assert(limb_at(s, 0) == lo);
            assert(limb_at(s, 1) == hi);
            assert(prefix_value(s, 1) == prefix_value(s, 0) + limb_at(s, 0) * base_pow(0));
            assert(prefix_value(s, 2) == prefix_value(s, 1) + limb_at(s, 1) * base_pow(1));
            assert(v == lo + hi * limb_base());
        }
        r
    }

    /// The number whose little-endian 64-bit limbs are `limbs`.
    pub fn from_limbs(limbs: Vec<u64>) -> (r: BigUint)
        ensures
            r@ == limbs_value(limbs@),
    {
        BigUint { limbs }
    }

    /// The little-endian 64-bit limbs of this number, without trailing zero
    /// limbs (so zero has none). Only one such sequence denotes a number.
    pub fn to_limbs(&self) -> (r: Vec<u64>)
        ensures
            limbs_value(r@) == self@,
            r@.len() == 0 || r@.last() != 0,
    {
        let mut r = self.copy_limbs();
        while r.len() > 0 && r[r.len() - 1] == 0
            invariant
                limbs_value(r@) == self@,
            decreases r.len(),
        {
            let ghost before = r@;
            r.pop();
            proof {
                let k = r@.len();
                assert forall|j: int| 0 <= j < k implies limb_at(r@, j) == limb_at(before, j) by {}
                lemma_prefix_value_agree(r@, before, k);
                assert(limb_at(before, k as int) == 0);
                assert(prefix_value(before, k + 1) == prefix_value(before, k) + limb_at(before, k as int)
                    * base_pow(k));
            }
        }
        r
    }

    fn copy_limbs(&self) -> (r: Vec<u64>)
        ensures
            r@ == self.limbs@,
    {
        let mut r: Vec<u64> = Vec::new();
        let mut i: usize = 0;
        while i < self.limbs.len()
            invariant
                i <= self.limbs.len(),
                r@ == self.limbs@.subrange(0, i as int),
            decreases self.limbs.len() - i,
        {
            r.push(self.limbs[i]);
            i = i + 1;
        }
        assert(r@ =~= self.limbs@);
        r
    }

    /// A second number equal to this one.
    pub fn copy(&self) -> (r: BigUint)
        ensures
            r@ == self@,
    {
        BigUint { limbs: self.copy_limbs() }
    }

    fn limb(&self, i: usize) -> (r: u64)
        ensures
            r as nat == limb_at(self.limbs@, i as int),
    {
        if i < self.limbs.len() {
            self.limbs[i]
        } else {
            0
        }
    }

    /// The sum of two numbers. It never overflows.
    pub fn add(&self, other: &BigUint) -> (r: BigUint)
        ensures
            r@ == self@ + other@,
    {
        let n: usize = if self.limbs.len() >= other.limbs.len() {
            self.limbs.len()
        } else {
            other.limbs.len()
        };
        let mut r: Vec<u64> = Vec::new();
        let mut carry: u64 = 0;
        let mut i: usize = 0;
        while i < n
            invariant
                i <= n,
                n >= self.limbs.len(),
                n >= other.limbs.len(),
                r.len() == i,
                carry <= 1,
                prefix_value(r@, i as nat) + carry * base_pow(i as nat) == prefix_value(self.limbs@, i as nat)
                    + prefix_value(other.limbs@, i as nat),
            decreases n - i,
        {
            let x: u64 = self.limb(i);
            let y: u64 = other.limb(i);
            let sum: u128 = x as u128 + y as u128 + carry as u128;
            let lo: u64 = (sum % 0x1_0000_0000_0000_0000u128) as u64;
            let next_carry: u64 = (sum / 0x1_0000_0000_0000_0000u128) as u64;
            let ghost old_r = r@;
            r.push(lo);
            proof {
                let k = i as nat;
                let p = base_pow(k);
                assert forall|j: int| 0 <= j < k implies limb_at(r@, j) == limb_at(old_r, j) by {}
                lemma_prefix_value_agree(r@, old_r, k);
                assert(limb_at(r@, k as int) == lo);
                assert(prefix_value(r@, k + 1) == prefix_value(r@, k) + limb_at(r@, k as int) * base_pow(k));
                assert(prefix_value(self.limbs@, k + 1) == prefix_value(self.limbs@, k) + limb_at(self.limbs@, k as int) * base_pow(k));
                assert(prefix_value(other.limbs@, k + 1) == prefix_value(other.limbs@, k) + limb_at(other.limbs@, k as int) * base_pow(k));
                assert(base_pow(k + 1) == limb_base() * base_pow(k));
                assert(sum == lo + next_carry * limb_base());
                assert(lo * p + next_carry * (limb_base() * p) == (x + y + carry) * p)
                    by (nonlinear_arith)
                    requires
                        sum == lo + next_carry * limb_base(),
                        sum == x + y + carry,
                ;
                assert((x + y + carry) * p == x * p + y * p + carry * p) by (nonlinear_arith);
                assert(prefix_value(r@, k + 1) + next_carry * base_pow(k + 1) == prefix_value(self.limbs@, k + 1)
                    + prefix_value(other.limbs@, k + 1));
            }
            carry = next_carry;
            i = i + 1;
        }
        proof {
            lemma_prefix_value_beyond(self.limbs@, n as nat);
            lemma_prefix_value_beyond(other.limbs@, n as nat);
        }
        if carry == 1 {
            let ghost old_r = r@;
            r.push(1);
            proof {
                let k = n as nat;
                assert forall|j: int| 0 <= j < k implies limb_at(r@, j) == limb_at(old_r, j) by {}
                lemma_prefix_value_agree(r@, old_r, k);
                assert(limb_at(r@, k as int) == 1);
                assert(prefix_value(r@, k + 1) == prefix_value(r@, k) + limb_at(r@, k as int) * base_pow(k));
            }
        }
        BigUint { limbs: r }
    }

    /// Whether this number is at most `other`.
    pub fn le(&self, other: &BigUint) -> (r: bool)
        ensures
            r == (self@ <= other@),
    {
        let n: usize = if self.limbs.len() >= other.limbs.len() {
            self.limbs.len()
        } else {
            other.limbs.len()
        };
        proof {
            lemma_prefix_value_beyond(self.limbs@, n as nat);
            lemma_prefix_value_beyond(other.limbs@, n as nat);
        }
        let mut i: usize = n;
        while i > 0
            invariant
                i <= n,
                n >= self.limbs.len(),
                n >= other.limbs.len(),
                self@ == prefix_value(self.limbs@, n as nat),
                other@ == prefix_value(other.limbs@, n as nat),
                prefix_value(self.limbs@, n as nat) - prefix_value(self.limbs@, i as nat) == prefix_value(
                    other.limbs@,
                    n as nat,
                ) - prefix_value(other.limbs@, i as nat),
            decreases i,
        {
            let j: usize = i - 1;
            let x: u64 = self.limb(j);
            let y: u64 = other.limb(j);
            let ghost k = j as nat;
            let ghost p = base_pow(k);
            let ghost va = prefix_value(self.limbs@, k);
            let ghost vb = prefix_value(other.limbs@, k);
            proof {
                lemma_prefix_value_bound(self.limbs@, k);
                lemma_prefix_value_bound(other.limbs@, k);
                assert(prefix_value(self.limbs@, k + 1) == prefix_value(self.limbs@, k) + limb_at(self.limbs@, k as int) * base_pow(k));
                assert(prefix_value(other.limbs@, k + 1) == prefix_value(other.limbs@, k) + limb_at(other.limbs@, k as int) * base_pow(k));
                assert(i as nat == k + 1);
                assert(x as nat == limb_at(self.limbs@, k as int));
                assert(y as nat == limb_at(other.limbs@, k as int));
                assert(prefix_value(self.limbs@, i as nat) == va + x * p);
                assert(prefix_value(other.limbs@, i as nat) == vb + y * p);
            }
            if x < y {
                proof {
                    assert(va + x * p < vb + y * p) by (nonlinear_arith)
                        requires
                            va < p,
                            x < y,
                    ;
                    assert(prefix_value(self.limbs@, i as nat) == va + x * p);
                    assert(prefix_value(other.limbs@, i as nat) == vb + y * p);
                }
                return true;
            }
            if x > y {
                proof {
                    assert(vb + y * p < va + x * p) by (nonlinear_arith)
                        requires
                            vb < p,
                            y < x,
                    ;
                    assert(prefix_value(self.limbs@, i as nat) == va + x * p);
                    assert(prefix_value(other.limbs@, i as nat) == vb + y * p);
                }
                return false;
            }
            i = j;
        }
        true
    }
}

} // verus!
