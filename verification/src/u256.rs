//! Unsigned 256-bit values, stored as four 64-bit limbs (least significant
//! first). The round scheduler uses them for heartbeat-challenge seeds and
//! online targets; the slashing path compares them in the hit test.
use vstd::prelude::*;
use vstd::arithmetic::div_mod::{
    lemma_fundamental_div_mod, lemma_fundamental_div_mod_converse, lemma_multiply_divide_lt,
};
use vstd::arithmetic::mul::{lemma_mul_inequality, lemma_mul_upper_bound};

verus! {

/// A 256-bit unsigned integer; `w0` is the least significant limb.
#[derive(Clone, Copy, Debug, PartialEq, Eq, Structural)]
pub struct U256 {
    pub w0: u64,
    pub w1: u64,
    pub w2: u64,
    pub w3: u64,
}

/// The largest value a `U256` can hold, as a mathematical integer.
pub open spec fn max_u256() -> int {
    0xffffffffffffffffffffffffffffffffffffffffffffffffffffffffffffffffint
}

impl U256 {
    /// The mathematical value of this 256-bit integer.
    pub open spec fn as_nat(self) -> int {
        self.w0 + 0x10000000000000000 * self.w1 + 0x100000000000000000000000000000000int * self.w2
            + 0x1000000000000000000000000000000000000000000000000int * self.w3
    }

    pub open spec fn spec_xor(self, other: U256) -> U256 {
        U256 {
            w0: self.w0 ^ other.w0,
            w1: self.w1 ^ other.w1,
            w2: self.w2 ^ other.w2,
            w3: self.w3 ^ other.w3,
        }
    }

    pub fn zero() -> (r: U256)
        ensures
            r == (U256 { w0: 0, w1: 0, w2: 0, w3: 0 }),
            r.as_nat() == 0,
    {
        U256 { w0: 0, w1: 0, w2: 0, w3: 0 }
    }

    /// Bitwise exclusive or, limb by limb.
    pub fn xor(self, other: U256) -> (r: U256)
        ensures
            r == self.spec_xor(other),
    {
        U256 {
            w0: self.w0 ^ other.w0,
            w1: self.w1 ^ other.w1,
            w2: self.w2 ^ other.w2,
            w3: self.w3 ^ other.w3,
        }
    }

    /// Numeric comparison, decided lexicographically from the most
    /// significant limb down.
    pub fn le(self, other: U256) -> (r: bool)
        ensures
            r == (self.as_nat() <= other.as_nat()),
    {
        proof {
            lemma_limb_order(self, other);
        }
        if self.w3 != other.w3 {
            self.w3 < other.w3
        } else if self.w2 != other.w2 {
            self.w2 < other.w2
        } else if self.w1 != other.w1 {
            self.w1 < other.w1
        } else {
            self.w0 <= other.w0
        }
    }

    /// Reads a big-endian 256-bit value, as the chain encodes hashes.
    pub fn from_be_bytes(bytes: &[u8; 32]) -> (r: U256)
        ensures
            r == spec_from_be_bytes(bytes@),
    {
        U256 {
            w3: be_limb(bytes, 0),
            w2: be_limb(bytes, 8),
            w1: be_limb(bytes, 16),
            w0: be_limb(bytes, 24),
        }
    }
}

/// The big-endian 64-bit word held in `s[i..i + 8]`.
pub open spec fn be_word(s: Seq<u8>, i: int) -> int {
    s[i] * 0x100000000000000 + s[i + 1] * 0x1000000000000 + s[i + 2] * 0x10000000000 + s[i + 3]
        * 0x100000000 + s[i + 4] * 0x1000000 + s[i + 5] * 0x10000 + s[i + 6] * 0x100 + s[i + 7]
}

/// The `U256` that a 32-byte big-endian encoding denotes.
pub open spec fn spec_from_be_bytes(s: Seq<u8>) -> U256 {
    U256 {
        w3: be_word(s, 0) as u64,
        w2: be_word(s, 8) as u64,
        w1: be_word(s, 16) as u64,
        w0: be_word(s, 24) as u64,
    }
}

fn be_limb(bytes: &[u8; 32], i: usize) -> (r: u64)
    requires
        i + 8 <= 32,
    ensures
        r == be_word(bytes@, i as int),
{
    let mut acc: u64 = bytes[i] as u64;
    acc = acc * 0x100 + bytes[i + 1] as u64;
    acc = acc * 0x100 + bytes[i + 2] as u64;
    acc = acc * 0x100 + bytes[i + 3] as u64;
    acc = acc * 0x100 + bytes[i + 4] as u64;
    acc = acc * 0x100 + bytes[i + 5] as u64;
    acc = acc * 0x100 + bytes[i + 6] as u64;
    acc = acc * 0x100 + bytes[i + 7] as u64;
    acc
}

/// Numeric order of `U256` values follows the lexicographic order of their
/// limbs, most significant first.
proof fn lemma_limb_order(a: U256, b: U256)
    ensures
        a.w3 < b.w3 ==> a.as_nat() < b.as_nat(),
        a.w3 == b.w3 && a.w2 < b.w2 ==> a.as_nat() < b.as_nat(),
        a.w3 == b.w3 && a.w2 == b.w2 && a.w1 < b.w1 ==> a.as_nat() < b.as_nat(),
        a.w3 == b.w3 && a.w2 == b.w2 && a.w1 == b.w1 ==> (a.as_nat() <= b.as_nat() <==> a.w0
            <= b.w0),
{
}

/// Distinct values differ in some limb, so their exclusive or is non-zero.
pub proof fn lemma_xor_zero(a: U256, b: U256)
    ensures
        a.spec_xor(b).as_nat() == 0 <==> a == b,
{
    let x0 = a.w0;
    let y0 = b.w0;
    let x1 = a.w1;
    let y1 = b.w1;
    let x2 = a.w2;
    let y2 = b.w2;
    let x3 = a.w3;
    let y3 = b.w3;
    assert(x0 ^ y0 == 0 <==> x0 == y0) by (bit_vector);
    assert(x1 ^ y1 == 0 <==> x1 == y1) by (bit_vector);
    assert(x2 ^ y2 == 0 <==> x2 == y2) by (bit_vector);
    assert(x3 ^ y3 == 0 <==> x3 == y3) by (bit_vector);
}

/// `floor(MAX / n) * m`: the threshold under which a uniformly random
/// 256-bit value falls with probability about `m / n`. The caller must keep
/// `m` within `n`, as the round statistics do by construction; outside that
/// range the ratio would exceed one and the product would overflow.
pub fn u256_target(m: u64, n: u64) -> (r: U256)
    requires
        1 <= n,
        m <= n,
    ensures
        r.as_nat() == (max_u256() / n as int) * m as int,
{
    let nn: u128 = n as u128;
    // Long division of MAX by n, one 64-bit limb at a time.
    let (q3, r3) = div_step(0, nn);
    let (q2, r2) = div_step(r3, nn);
    let (q1, r1) = div_step(r2, nn);
    let (q0, r0) = div_step(r1, nn);

    let ghost quot: int = q0 + 0x10000000000000000 * q1 + 0x100000000000000000000000000000000int * q2
        + 0x1000000000000000000000000000000000000000000000000int * q3;
    proof {
        lemma_quotient_correct(
            n as int,
            q3 as int,
            q2 as int,
            q1 as int,
            q0 as int,
            r3 as int,
            r2 as int,
            r1 as int,
            r0 as int,
        );
        assert(quot == max_u256() / n as int);
    }

    // Multiply the quotient by m, carrying between limbs.
    let (p0, d0) = mul_step(q0, m, 0);
    let (p1, d1) = mul_step(q1, m, d0);
    let (p2, d2) = mul_step(q2, m, d1);
    let (p3, d3) = mul_step(q3, m, d2);

    let r = U256 { w0: p0, w1: p1, w2: p2, w3: p3 };
    proof {
        lemma_product_limbs(
            quot,
            m as int,
            q3 as int,
            q2 as int,
            q1 as int,
            q0 as int,
            d3 as int,
            d2 as int,
            d1 as int,
            d0 as int,
            p3 as int,
            p2 as int,
            p1 as int,
            p0 as int,
        );
        // quot * m cannot exceed MAX because m <= n.
        lemma_mul_inequality(m as int, n as int, quot);
        assert(quot * n as int <= max_u256());
        assert(d3 == 0);
    }
    r
}

/// The limb-wise long division above really computed `MAX / n`.
proof fn lemma_quotient_correct(
    n: int,
    q3: int,
    q2: int,
    q1: int,
    q0: int,
    r3: int,
    r2: int,
    r1: int,
    r0: int,
)
    requires
        1 <= n,
        0xffffffffffffffff == q3 * n + r3,
        r3 * 0x10000000000000000 + 0xffffffffffffffff == q2 * n + r2,
        r2 * 0x10000000000000000 + 0xffffffffffffffff == q1 * n + r1,
        r1 * 0x10000000000000000 + 0xffffffffffffffff == q0 * n + r0,
        0 <= r3 < n,
        0 <= r2 < n,
        0 <= r1 < n,
        0 <= r0 < n,
    ensures
        q0 + 0x10000000000000000 * q1 + 0x100000000000000000000000000000000int * q2
            + 0x1000000000000000000000000000000000000000000000000int * q3 == max_u256() / n,
        (q0 + 0x10000000000000000 * q1 + 0x100000000000000000000000000000000int * q2
            + 0x1000000000000000000000000000000000000000000000000int * q3) * n + r0 == max_u256(),
{
    let b: int = 0x10000000000000000;
    let quot = q0 + b * q1 + b * b * q2 + b * b * b * q3;
    assert(quot * n + r0 == max_u256()) by (nonlinear_arith)
        requires
            0xffffffffffffffff == q3 * n + r3,
            r3 * b + 0xffffffffffffffff == q2 * n + r2,
            r2 * b + 0xffffffffffffffff == q1 * n + r1,
            r1 * b + 0xffffffffffffffff == q0 * n + r0,
            b == 0x10000000000000000,
            quot == q0 + b * q1 + b * b * q2 + b * b * b * q3,
    {
        assert(max_u256() == ((0xffffffffffffffff * b + 0xffffffffffffffff) * b
            + 0xffffffffffffffff) * b + 0xffffffffffffffff);
    }
    lemma_fundamental_div_mod_converse(max_u256(), n, quot, r0);
}

/// The carrying multiplication above really computed `quot * m`, with the
/// final carry collecting everything past the 256th bit.
proof fn lemma_product_limbs(
    quot: int,
    m: int,
    q3: int,
    q2: int,
    q1: int,
    q0: int,
    d3: int,
    d2: int,
    d1: int,
    d0: int,
    p3: int,
    p2: int,
    p1: int,
    p0: int,
)
    requires
        quot == q0 + 0x10000000000000000 * q1 + 0x100000000000000000000000000000000int * q2
            + 0x1000000000000000000000000000000000000000000000000int * q3,
        q0 * m == d0 * 0x10000000000000000 + p0,
        q1 * m + d0 == d1 * 0x10000000000000000 + p1,
        q2 * m + d1 == d2 * 0x10000000000000000 + p2,
        q3 * m + d2 == d3 * 0x10000000000000000 + p3,
    ensures
        quot * m == p0 + 0x10000000000000000 * p1 + 0x100000000000000000000000000000000int * p2
            + 0x1000000000000000000000000000000000000000000000000int * p3
            + 0x10000000000000000000000000000000000000000000000000000000000000000int * d3,
{
    let b: int = 0x10000000000000000;
    assert(quot * m == p0 + b * p1 + b * b * p2 + b * b * b * p3 + b * b * b * b * d3)
        by (nonlinear_arith)
        requires
            quot == q0 + b * q1 + b * b * q2 + b * b * b * q3,
            q0 * m == d0 * b + p0,
            q1 * m + d0 == d1 * b + p1,
            q2 * m + d1 == d2 * b + p2,
            q3 * m + d2 == d3 * b + p3,
            b == 0x10000000000000000,
    ;
}

/// One limb of the long division: divides `rem * 2^64 + (2^64 - 1)` by `nn`,
/// giving the next quotient limb and the running remainder.
fn div_step(rem: u128, nn: u128) -> (res: (u64, u128))
    requires
        1 <= nn <= 0xffffffffffffffff,
        rem < nn,
    ensures
        res.0 * nn + res.1 == rem * 0x10000000000000000 + 0xffffffffffffffff,
        res.1 < nn,
{
    let c: u128 = rem * 0x10000000000000000 + 0xffffffffffffffff;
    proof {
        assert(c < nn * 0x10000000000000000);
        lemma_multiply_divide_lt(c as int, nn as int, 0x10000000000000000);
        lemma_fundamental_div_mod(c as int, nn as int);
    }
    let q: u64 = (c / nn) as u64;
    let r: u128 = c % nn;
    proof {
        assert(q == c as int / nn as int);
        assert(q * nn + r == c);
    }
    (q, r)
}

/// One limb of the carrying multiplication: computes `q * m + carry` and
/// splits it into a low limb and the next carry.
fn mul_step(q: u64, m: u64, carry: u64) -> (res: (u64, u64))
    ensures
        q * m + carry == res.1 * 0x10000000000000000 + res.0,
{
    proof {
        lemma_mul_upper_bound(q as int, 0xffffffffffffffff, m as int, 0xffffffffffffffff);
    }
    let t: u128 = q as u128 * m as u128 + carry as u128;
    proof {
        assert(t < 0x10000000000000000 * 0x10000000000000000);
        lemma_multiply_divide_lt(t as int, 0x10000000000000000, 0x10000000000000000);
        lemma_fundamental_div_mod(t as int, 0x10000000000000000);
    }
    let p: u64 = (t % 0x10000000000000000) as u64;
    let d: u64 = (t / 0x10000000000000000) as u64;
    proof {
        assert(d == t as int / 0x10000000000000000);
        assert(d * 0x10000000000000000 + p == t);
    }
    (p, d)
}

} // verus!
