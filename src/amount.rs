//! 256-bit unsigned amounts held as 32 big-endian bytes.
use vstd::arithmetic::div_mod::{lemma_fundamental_div_mod, lemma_fundamental_div_mod_converse};
use vstd::prelude::*;

verus! {

broadcast use vstd::array::group_array_axioms;

/// `256^n`.
pub open spec fn pow256(n: nat) -> nat
    decreases n,
{
    if n == 0 {
        1
    } else {
        256 * pow256((n - 1) as nat)
    }
}

/// The unsigned integer that `s` spells in big-endian order.
pub open spec fn be_value(s: Seq<u8>) -> nat
    decreases s.len(),
{
    if s.len() == 0 {
        0
    } else {
        be_value(s.drop_last()) * 256 + s.last() as nat
    }
}

/// The largest value an amount can hold, `2^256 - 1`.
pub open spec fn max_value() -> nat {
    (pow256(32) - 1) as nat
}

/// The largest amount, written out.
pub proof fn lemma_max_value()
    ensures
        max_value() == 0xffff_ffff_ffff_ffff_ffff_ffff_ffff_ffff_ffff_ffff_ffff_ffff_ffff_ffff_ffff_ffff,
{
    reveal_with_fuel(pow256, 33);
}

pub proof fn lemma_pow256_positive(n: nat)
    ensures
        pow256(n) >= 1,
    decreases n,
{
    if n > 0 {
        lemma_pow256_positive((n - 1) as nat);
    }
}

/// A byte string of length `n` spells a number below `256^n`.
pub proof fn lemma_be_value_bound(s: Seq<u8>)
    ensures
        be_value(s) < pow256(s.len()),
    decreases s.len(),
{
    if s.len() > 0 {
        let t = s.drop_last();
        lemma_be_value_bound(t);
        let v = be_value(t);
        let p = pow256(t.len());
        let b = s.last() as nat;
        assert(v * 256 + b < 256 * p) by (nonlinear_arith)
            requires
                v < p,
                b < 256,
        ;
    }
}

/// Reading `a` then `b` is reading `a`, shifted by the length of `b`, plus `b`.
pub proof fn lemma_be_value_concat(a: Seq<u8>, b: Seq<u8>)
    ensures
        be_value(a + b) == be_value(a) * pow256(b.len()) + be_value(b),
    decreases b.len(),
{
    if b.len() == 0 {
        assert(a + b =~= a);
        assert(be_value(b) == 0);
        assert(pow256(0) == 1);
    } else {
        let b1 = b.drop_last();
        assert((a + b).drop_last() =~= a + b1);
        assert((a + b).last() == b.last());
        lemma_be_value_concat(a, b1);
        let va = be_value(a);
        let p = pow256(b1.len());
        let v1 = be_value(b1);
        let l = b.last() as nat;
        assert((va * p + v1) * 256 + l == va * (256 * p) + (v1 * 256 + l)) by (nonlinear_arith);
        assert(be_value(a + b) == be_value(a + b1) * 256 + l);
        assert(be_value(b) == v1 * 256 + l);
        assert(pow256(b.len()) == 256 * p);
    }
}

/// A string of zero bytes spells zero.
pub proof fn lemma_be_value_zeros(s: Seq<u8>)
    requires
        forall|i: int| 0 <= i < s.len() ==> s[i] == 0,
    ensures
        be_value(s) == 0,
    decreases s.len(),
{
    if s.len() > 0 {
        lemma_be_value_zeros(s.drop_last());
    }
}

/// The suffix from `i - 1` is byte `i - 1`, shifted, plus the suffix from `i`.
pub proof fn lemma_be_value_suffix(s: Seq<u8>, i: int)
    requires
        1 <= i <= s.len(),
    ensures
        be_value(s.subrange(i - 1, s.len() as int)) == s[i - 1] as nat * pow256(
            (s.len() - i) as nat,
        ) + be_value(s.subrange(i, s.len() as int)),
{
    let head = seq![s[i - 1]];
    let tail = s.subrange(i, s.len() as int);
    assert(s.subrange(i - 1, s.len() as int) =~= head + tail);
    lemma_be_value_concat(head, tail);
    assert(head.drop_last() =~= Seq::<u8>::empty());
    assert(be_value(Seq::<u8>::empty()) == 0);
    assert(be_value(head) == s[i - 1] as nat);
}

/// The prefix up to `i + 1` is the prefix up to `i`, shifted by one byte, plus byte `i`.
pub proof fn lemma_be_value_prefix(s: Seq<u8>, i: int)
    requires
        0 <= i < s.len(),
    ensures
        be_value(s.subrange(0, i + 1)) == be_value(s.subrange(0, i)) * 256 + s[i] as nat,
{
    assert(s.subrange(0, i + 1).drop_last() =~= s.subrange(0, i));
}

/// One step of a carry chain: a digit written with its carry keeps the sum.
proof fn lemma_carry_step(x: nat, p: nat)
    ensures
        (x % 256) * p + (x / 256) * (256 * p) == x * p,
{
    let lo = x % 256;
    let hi = x / 256;
    lemma_fundamental_div_mod(x as int, 256);
    assert(x == lo + 256 * hi);
    assert(lo * p + hi * (256 * p) == (lo + 256 * hi) * p) by (nonlinear_arith);
}

/// A string of `0xff` bytes spells the largest number of its length.
pub proof fn lemma_be_value_all_ones(s: Seq<u8>)
    requires
        forall|i: int| 0 <= i < s.len() ==> s[i] == 0xff,
    ensures
        be_value(s) == pow256(s.len()) - 1,
    decreases s.len(),
{
    if s.len() > 0 {
        lemma_be_value_all_ones(s.drop_last());
        lemma_pow256_positive((s.len() - 1) as nat);
    }
}

/// An unsigned integer below `2^256`, wide enough for any token quantity.
#[derive(Clone, Copy, Debug, PartialEq, Eq)]
pub struct Amount {
    /// The value in big-endian order.
    pub bytes: [u8; 32],
}

impl Amount {
    /// The number this amount stands for.
    pub open spec fn value(self) -> nat {
        be_value(self.bytes@)
    }

    pub proof fn lemma_value_bound(self)
        ensures
            self.value() <= max_value(),
    {
        lemma_be_value_bound(self.bytes@);
    }

    /// The amount zero.
    pub fn zero() -> (r: Amount)
        ensures
            r.value() == 0,
    {
        let r = Amount { bytes: [0u8; 32] };
        proof {
            lemma_be_value_zeros(r.bytes@);
        }
        r
    }
}

impl Amount {
    /// The largest amount, `2^256 - 1`.
    pub fn max() -> (r: Amount)
        ensures
            r.value() == max_value(),
    {
        let r = Amount { bytes: [0xffu8; 32] };
        proof {
            lemma_be_value_all_ones(r.bytes@);
        }
        r
    }

    /// Reads the first 32 bytes of `s` as a big-endian integer.
    pub fn from_be_slice(s: &[u8]) -> (r: Amount)
        requires
            s@.len() >= 32,
        ensures
            r.value() == be_value(s@.subrange(0, 32)),
    {
        let mut bytes = [0u8; 32];
        let mut i: usize = 0;
        while i < 32
            invariant
                i <= 32,
                s@.len() >= 32,
                bytes@.len() == 32,
                forall|j: int| 0 <= j < i ==> bytes@[j] == s@[j],
            decreases 32 - i,
        {
            bytes[i] = s[i];
            i = i + 1;
        }
        assert(bytes@ =~= s@.subrange(0, 32));
        Amount { bytes }
    }

    /// The amount `n`.
    pub fn from_u64(n: u64) -> (r: Amount)
        ensures
            r.value() == n as nat,
    {
        let mut bytes = [0u8; 32];
        let mut x: u64 = n;
        let mut k: usize = 0;
        proof {
            assert(be_value(bytes@.subrange(32, 32)) == 0);
            assert(pow256(0) == 1);
            assert(pow256(8) == 0x1_0000_0000_0000_0000) by {
                reveal_with_fuel(pow256, 9);
            }
        }
        while k < 8
            invariant
                k <= 8,
                bytes@.len() == 32,
                forall|j: int| 0 <= j < 32 - k ==> bytes@[j] == 0,
                be_value(bytes@.subrange(32 - k, 32)) + x as nat * pow256(k as nat) == n as nat,
                (x as nat) < pow256((8 - k) as nat),
            decreases 8 - k,
        {
            let i: usize = 31 - k;
            let ghost before = bytes@;
            bytes[i] = (x % 256) as u8;
            proof {
                let p = pow256(k as nat);
                assert(bytes@.subrange(i + 1, 32) =~= before.subrange(i + 1, 32));
                lemma_be_value_suffix(bytes@, i + 1);
                lemma_carry_step(x as nat, p);
                assert(pow256((k + 1) as nat) == 256 * p);
                assert(pow256((8 - k) as nat) == 256 * pow256((8 - k - 1) as nat));
            }
            x = x / 256;
            k = k + 1;
        }
        proof {
            assert(pow256(0) == 1);
            lemma_be_value_zeros(bytes@.subrange(0, 24));
            lemma_be_value_concat(bytes@.subrange(0, 24), bytes@.subrange(24, 32));
            assert(bytes@.subrange(0, 24) + bytes@.subrange(24, 32) =~= bytes@);
        }
        Amount { bytes }
    }

    /// `self + other`, or `None` where the sum does not fit in 256 bits.
    pub fn checked_add(&self, other: &Amount) -> (r: Option<Amount>)
        ensures
            r is Some <==> self.value() + other.value() <= max_value(),
            r matches Some(s) ==> s.value() == self.value() + other.value(),
    {
        let mut out = [0u8; 32];
        let mut carry: u16 = 0;
        let mut i: usize = 32;
        proof {
            assert(be_value(out@.subrange(32, 32)) == 0);
            assert(be_value(self.bytes@.subrange(32, 32)) == 0);
            assert(pow256(0) == 1);
        }
        while i > 0
            invariant
                i <= 32,
                carry <= 1,
                out@.len() == 32,
                self.bytes@.len() == 32,
                other.bytes@.len() == 32,
                be_value(out@.subrange(i as int, 32)) + carry as nat * pow256((32 - i) as nat)
                    == be_value(self.bytes@.subrange(i as int, 32)) + be_value(
                    other.bytes@.subrange(i as int, 32),
                ),
            decreases i,
        {
            let j: usize = i - 1;
            let cur: u16 = self.bytes[j] as u16 + other.bytes[j] as u16 + carry;
            let ghost before = out@;
            out[j] = (cur % 256) as u8;
            proof {
                let p = pow256((32 - i) as nat);
                assert(out@.subrange(i as int, 32) =~= before.subrange(i as int, 32));
                lemma_be_value_suffix(out@, i as int);
                lemma_be_value_suffix(self.bytes@, i as int);
                lemma_be_value_suffix(other.bytes@, i as int);
                lemma_carry_step(cur as nat, p);
                assert(pow256((32 - j) as nat) == 256 * p);
                let x = self.bytes@[j as int] as nat;
                let y = other.bytes@[j as int] as nat;
                assert((x + y + carry as nat) * p == x * p + y * p + carry as nat * p)
                    by (nonlinear_arith);
            }
            carry = cur / 256;
            i = j;
        }
        proof {
            assert(out@.subrange(0, 32) =~= out@);
            assert(self.bytes@.subrange(0, 32) =~= self.bytes@);
            assert(other.bytes@.subrange(0, 32) =~= other.bytes@);
            lemma_be_value_bound(out@);
        }
        if carry == 0 {
            Some(Amount { bytes: out })
        } else {
            None
        }
    }

    /// `self * m`, or `None` where the product does not fit in 256 bits.
    pub fn checked_mul_small(&self, m: u8) -> (r: Option<Amount>)
        ensures
            r is Some <==> self.value() * m <= max_value(),
            r matches Some(s) ==> s.value() == self.value() * m,
    {
        let mut out = [0u8; 32];
        let mut carry: u16 = 0;
        let mut i: usize = 32;
        proof {
            assert(be_value(out@.subrange(32, 32)) == 0);
            assert(be_value(self.bytes@.subrange(32, 32)) == 0);
            assert(pow256(0) == 1);
        }
        while i > 0
            invariant
                i <= 32,
                carry < 256,
                out@.len() == 32,
                self.bytes@.len() == 32,
                be_value(out@.subrange(i as int, 32)) + carry as nat * pow256((32 - i) as nat)
                    == be_value(self.bytes@.subrange(i as int, 32)) * m,
            decreases i,
        {
            let j: usize = i - 1;
            assert(self.bytes@[j as int] as nat * m as nat <= 255 * 255) by (nonlinear_arith)
                requires
                    self.bytes@[j as int] < 256,
                    m < 256,
            ;
            let cur: u16 = self.bytes[j] as u16 * m as u16 + carry;
            let ghost before = out@;
            out[j] = (cur % 256) as u8;
            proof {
                let p = pow256((32 - i) as nat);
                assert(out@.subrange(i as int, 32) =~= before.subrange(i as int, 32));
                lemma_be_value_suffix(out@, i as int);
                lemma_be_value_suffix(self.bytes@, i as int);
                lemma_carry_step(cur as nat, p);
                assert(pow256((32 - j) as nat) == 256 * p);
                let x = self.bytes@[j as int] as nat;
                let rest = be_value(self.bytes@.subrange(i as int, 32));
                assert((x * m + carry as nat) * p + rest * m == (x * p + rest) * m + carry as nat * p)
                    by (nonlinear_arith);
            }
            carry = cur / 256;
            i = j;
        }
        proof {
            assert(out@.subrange(0, 32) =~= out@);
            assert(self.bytes@.subrange(0, 32) =~= self.bytes@);
            lemma_be_value_bound(out@);
            lemma_pow256_positive(32);
            let c = carry as nat;
            let p = pow256(32);
            assert(c > 0 ==> c * p >= p) by (nonlinear_arith);
        }
        if carry == 0 {
            Some(Amount { bytes: out })
        } else {
            None
        }
    }

    /// `self / d`, rounded down.
    pub fn div_small(&self, d: u8) -> (r: Amount)
        requires
            d > 0,
        ensures
            r.value() == self.value() / d as nat,
    {
        let mut q = [0u8; 32];
        let mut rem: u16 = 0;
        let mut i: usize = 0;
        proof {
            assert(be_value(q@.subrange(0, 0)) == 0);
            assert(be_value(self.bytes@.subrange(0, 0)) == 0);
        }
        while i < 32
            invariant
                i <= 32,
                d > 0,
                rem < d,
                q@.len() == 32,
                self.bytes@.len() == 32,
                be_value(self.bytes@.subrange(0, i as int)) == be_value(q@.subrange(0, i as int))
                    * d + rem,
            decreases 32 - i,
        {
            let cur: u16 = rem * 256 + self.bytes[i] as u16;
            let ghost before = q@;
            let digit: u16 = cur / d as u16;
            assert(digit < 256) by {
                lemma_fundamental_div_mod(cur as int, d as int);
                assert(cur < 256 * d);
                assert(cur == d * digit + cur % (d as u16));
                assert(digit < 256) by (nonlinear_arith)
                    requires
                        d * digit <= cur,
                        cur < 256 * d,
                        d > 0,
                ;
            }
            q[i] = digit as u8;
            proof {
                assert(q@.subrange(0, i as int) =~= before.subrange(0, i as int));
                lemma_be_value_prefix(self.bytes@, i as int);
                lemma_be_value_prefix(q@, i as int);
                lemma_fundamental_div_mod(cur as int, d as int);
                let qq = be_value(before.subrange(0, i as int));
                let r2 = (cur % (d as u16)) as nat;
                assert((qq * d + rem) * 256 + self.bytes@[i as int] == (qq * 256 + digit) * d + r2)
                    by (nonlinear_arith)
                    requires
                        cur == rem * 256 + self.bytes@[i as int],
                        cur == digit * d + r2,
                ;
            }
            rem = cur % d as u16;
            i = i + 1;
        }
        proof {
            assert(q@.subrange(0, 32) =~= q@);
            assert(self.bytes@.subrange(0, 32) =~= self.bytes@);
            lemma_fundamental_div_mod_converse(
                self.value() as int,
                d as int,
                be_value(q@) as int,
                rem as int,
            );
        }
        Amount { bytes: q }
    }
}

} // verus!
