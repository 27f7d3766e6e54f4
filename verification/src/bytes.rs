//! Little-endian byte strings as unsigned integers.
//!
//! Randomness blocks, gamma encodings and discretized input values are all
//! fixed-width little-endian byte strings.  This module gives them a single
//! mathematical reading, `le_nat`, and verified arithmetic on it: comparison,
//! xor, multiply-and-add by a machine word, division by a machine word,
//! subtraction, and capped division by another byte string.

use vstd::prelude::*;

verus! {

use vstd::arithmetic::div_mod::{
    lemma_fundamental_div_mod,
    lemma_fundamental_div_mod_converse,
};
use vstd::arithmetic::mul::{
    lemma_mul_inequality,
    lemma_mul_is_distributive_add,
    lemma_mul_is_distributive_add_other_way,
};

/// 256 raised to the power `n`: the number of values of an `n`-byte string.
pub open spec fn pow256(n: nat) -> nat
    decreases n,
{
    if n == 0 {
        1
    } else {
        256 * pow256((n - 1) as nat)
    }
}

/// The unsigned integer a little-endian byte string stands for.
pub open spec fn le_nat(s: Seq<u8>) -> nat
    decreases s.len(),
{
    if s.len() == 0 {
        0
    } else {
        (s[0] + 256 * le_nat(s.drop_first())) as nat
    }
}

pub broadcast proof fn lemma_pow256_pos(n: nat)
    ensures
        #[trigger] pow256(n) >= 1,
    decreases n,
{
    if n > 0 {
        lemma_pow256_pos((n - 1) as nat);
    }
}

pub proof fn lemma_pow256_add(m: nat, n: nat)
    ensures
        pow256(m + n) == pow256(m) * pow256(n),
    decreases m,
{
    if m == 0 {
        assert(pow256(0 + n) == 1 * pow256(n));
    } else {
        lemma_pow256_add((m - 1) as nat, n);
        assert(pow256(m + n) == 256 * (pow256((m - 1) as nat) * pow256(n)));
        assert(256 * (pow256((m - 1) as nat) * pow256(n)) == (256 * pow256((m - 1) as nat))
            * pow256(n)) by (nonlinear_arith);
    }
}

/// A byte string's value is below `pow256` of its length.
pub proof fn lemma_le_nat_bound(s: Seq<u8>)
    ensures
        le_nat(s) < pow256(s.len()),
    decreases s.len(),
{
    if s.len() > 0 {
        lemma_le_nat_bound(s.drop_first());
        assert(le_nat(s) == s[0] + 256 * le_nat(s.drop_first()));
        assert(256 * le_nat(s.drop_first()) <= 256 * (pow256((s.len() - 1) as nat) - 1))
            by (nonlinear_arith)
            requires
                le_nat(s.drop_first()) <= pow256((s.len() - 1) as nat) - 1,
        ;
    }
}

/// Concatenation splits the value: the first part is the low digits.
pub proof fn lemma_le_nat_concat(a: Seq<u8>, b: Seq<u8>)
    ensures
        le_nat(a + b) == le_nat(a) + pow256(a.len()) * le_nat(b),
    decreases a.len(),
{
    if a.len() == 0 {
        assert(a + b =~= b);
        assert(le_nat(a + b) == 0 + 1 * le_nat(b));
    } else {
        lemma_le_nat_concat(a.drop_first(), b);
        assert((a + b).drop_first() =~= a.drop_first() + b);
        assert(le_nat(a + b) == a[0] + 256 * (le_nat(a.drop_first()) + pow256(
            (a.len() - 1) as nat,
        ) * le_nat(b)));
        assert(256 * (le_nat(a.drop_first()) + pow256((a.len() - 1) as nat) * le_nat(b)) == 256
            * le_nat(a.drop_first()) + (256 * pow256((a.len() - 1) as nat)) * le_nat(b))
            by (nonlinear_arith);
    }
}

/// Splitting at `i`: low `i` bytes plus the rest scaled by `pow256(i)`.
pub proof fn lemma_le_nat_split(s: Seq<u8>, i: int)
    requires
        0 <= i <= s.len(),
    ensures
        le_nat(s) == le_nat(s.take(i)) + pow256(i as nat) * le_nat(s.skip(i)),
{
    assert(s =~= s.take(i) + s.skip(i));
    lemma_le_nat_concat(s.take(i), s.skip(i));
}

/// Appending one byte adds it as the new top digit.
pub proof fn lemma_le_nat_snoc(s: Seq<u8>, x: u8)
    ensures
        le_nat(s.push(x)) == le_nat(s) + pow256(s.len()) * (x as nat),
{
    assert(s.push(x) =~= s + seq![x]);
    lemma_le_nat_concat(s, seq![x]);
    assert(le_nat(seq![x]) == x + 256 * le_nat(seq![x].drop_first()));
    assert(seq![x].drop_first() =~= Seq::<u8>::empty());
}

/// A string of zero bytes stands for zero.
pub proof fn lemma_le_nat_zeros(s: Seq<u8>)
    requires
        forall|i: int| 0 <= i < s.len() ==> s[i] == 0,
    ensures
        le_nat(s) == 0,
    decreases s.len(),
{
    if s.len() > 0 {
        lemma_le_nat_zeros(s.drop_first());
    }
}

/// A string of `0xff` bytes stands for `pow256(len) - 1`, the largest value.
pub proof fn lemma_le_nat_ones(s: Seq<u8>)
    requires
        forall|i: int| 0 <= i < s.len() ==> s[i] == 255,
    ensures
        le_nat(s) == pow256(s.len()) - 1,
    decreases s.len(),
{
    if s.len() > 0 {
        lemma_le_nat_ones(s.drop_first());
        assert(le_nat(s) == 255 + 256 * (pow256((s.len() - 1) as nat) - 1));
    }
}

/// The `len`-byte little-endian spelling of `n % pow256(len)`.
pub open spec fn nat_to_le_bytes(n: nat, len: nat) -> Seq<u8>
    decreases len,
{
    if len == 0 {
        Seq::empty()
    } else {
        seq![(n % 256) as u8] + nat_to_le_bytes(n / 256, (len - 1) as nat)
    }
}

/// `nat_to_le_bytes` spells values below `pow256(len)` exactly.
pub proof fn lemma_nat_to_le_bytes(n: nat, len: nat)
    ensures
        nat_to_le_bytes(n, len).len() == len,
        n < pow256(len) ==> le_nat(nat_to_le_bytes(n, len)) == n,
    decreases len,
{
    if len > 0 {
        lemma_nat_to_le_bytes(n / 256, (len - 1) as nat)
;
        let s = nat_to_le_bytes(n, len);
        assert(s.drop_first() =~= nat_to_le_bytes(n / 256, (len - 1) as nat));
        if n < pow256(len) {
            assert(n / 256 < pow256((len - 1) as nat)) by (nonlinear_arith)
                requires
                    n < 256 * pow256((len - 1) as nat),
            ;
            assert(le_nat(s) == n % 256 + 256 * (n / 256));
            assert(n == 256 * (n / 256) + n % 256) by (nonlinear_arith);
        }
    }
}

/// A byte string with a nonzero byte stands for a positive value.
pub proof fn lemma_le_nat_nonzero(s: Seq<u8>, i: int)
    requires
        0 <= i < s.len(),
        s[i] != 0,
    ensures
        le_nat(s) >= 1,
{
    lemma_le_nat_split(s, i);
    assert(s.skip(i)[0] == s[i]);
    assert(le_nat(s.skip(i)) >= 1);
    lemma_pow256_pos(i as nat);
    assert(pow256(i as nat) * le_nat(s.skip(i)) >= 1) by (nonlinear_arith)
        requires
            pow256(i as nat) >= 1,
            le_nat(s.skip(i)) >= 1,
    ;
}

/// Padding with zero bytes on the high end keeps the value.
pub proof fn lemma_le_nat_pad(a: Seq<u8>, z: Seq<u8>)
    requires
        forall|i: int| 0 <= i < z.len() ==> z[i] == 0,
    ensures
        le_nat(a + z) == le_nat(a),
{
    lemma_le_nat_concat(a, z);
    lemma_le_nat_zeros(z);
}

/// A vector of `n` zero bytes.
pub fn zero_bytes(n: usize) -> (r: Vec<u8>)
    ensures
        r@.len() == n,
        forall|i: int| 0 <= i < n ==> r@[i] == 0,
        le_nat(r@) == 0,
{
    let r: Vec<u8> = vec![0u8; n];
    proof {
        lemma_le_nat_zeros(r@);
    }
    r
}

/// A vector of `n` bytes all `0xff`: the largest `n`-byte value.
pub fn max_bytes(n: usize) -> (r: Vec<u8>)
    ensures
        r@.len() == n,
        le_nat(r@) == pow256(n as nat) - 1,
{
    let r: Vec<u8> = vec![255u8; n];
    proof {
        lemma_le_nat_ones(r@);
    }
    r
}

/// `a` extended with zero bytes up to length `n`; the value is unchanged.
pub fn pad_bytes(a: &Vec<u8>, n: usize) -> (r: Vec<u8>)
    requires
        a@.len() <= n,
    ensures
        r@.len() == n,
        le_nat(r@) == le_nat(a@),
        r@.take(a@.len() as int) == a@,
{
    let mut r: Vec<u8> = Vec::new();
    r.extend_from_slice(a.as_slice());
    while r.len() < n
        invariant
            a@.len() <= r@.len() <= n,
            r@.take(a@.len() as int) =~= a@,
            forall|i: int| a@.len() <= i < r@.len() ==> r@[i] == 0,
        decreases n - r@.len(),
    {
        r.push(0u8);
    }
    proof {
        assert(r@ =~= a@ + r@.skip(a@.len() as int));
        lemma_le_nat_pad(a@, r@.skip(a@.len() as int));
    }
    r
}

/// A copy of `v[i..j]` as its own vector.
pub fn sub_vec(v: &Vec<u8>, i: usize, j: usize) -> (r: Vec<u8>)
    requires
        i <= j <= v@.len(),
    ensures
        r@ == v@.subrange(i as int, j as int),
{
    let mut r: Vec<u8> = Vec::new();
    let mut t: usize = i;
    while t < j
        invariant
            i <= t <= j <= v@.len(),
            r@ =~= v@.subrange(i as int, t as int),
        decreases j - t,
    {
        r.push(v[t]);
        t = t + 1;
    }
    proof {
        assert(r@ =~= v@.subrange(i as int, j as int));
    }
    r
}

/// Pointwise exclusive or of two equal-length byte strings.
pub open spec fn xor_seq(a: Seq<u8>, b: Seq<u8>) -> Seq<u8> {
    Seq::new(a.len(), |i: int| a[i] ^ b[i])
}

/// Bytewise exclusive or, as the circuits combine client and server randomness.
pub fn xor_bytes(a: &Vec<u8>, b: &Vec<u8>) -> (r: Vec<u8>)
    requires
        a@.len() == b@.len(),
    ensures
        r@ == xor_seq(a@, b@),
{
    let mut r: Vec<u8> = Vec::new();
    let mut i: usize = 0;
    while i < a.len()
        invariant
            i <= a@.len(),
            a@.len() == b@.len(),
            r@ =~= xor_seq(a@, b@).take(i as int),
        decreases a@.len() - i,
    {
        r.push(a[i] ^ b[i]);
        i = i + 1;
    }
    proof {
        assert(r@ =~= xor_seq(a@, b@));
    }
    r
}

/// Equal-length byte strings with the same value are the same string.
pub proof fn lemma_le_nat_injective(a: Seq<u8>, b: Seq<u8>)
    requires
        a.len() == b.len(),
        le_nat(a) == le_nat(b),
    ensures
        a == b,
    decreases a.len(),
{
    if a.len() > 0 {
        let ra = le_nat(a.drop_first());
        let rb = le_nat(b.drop_first());
        assert(a[0] + 256 * ra == b[0] + 256 * rb);
        assert(a[0] == b[0] && ra == rb) by (nonlinear_arith)
            requires
                a[0] + 256 * ra == b[0] + 256 * rb,
                0 <= a[0] < 256,
                0 <= b[0] < 256,
        ;
        lemma_le_nat_injective(a.drop_first(), b.drop_first());
        assert forall|i: int| 0 <= i < a.len() implies a[i] == b[i] by {
            if i > 0 {
                assert(a[i] == a.drop_first()[i - 1]);
                assert(b[i] == b.drop_first()[i - 1]);
            }
        }
        assert(a =~= b);
    } else {
        assert(a =~= b);
    }
}

/// If two equal-length strings agree above position `j` and differ at `j`,
/// the one with the smaller byte at `j` stands for the smaller value.
proof fn lemma_le_nat_strict_at(a: Seq<u8>, b: Seq<u8>, j: int)
    requires
        a.len() == b.len(),
        0 <= j < a.len(),
        a.skip(j + 1) == b.skip(j + 1),
        a[j] < b[j],
    ensures
        le_nat(a) < le_nat(b),
{
    let p = pow256(j as nat);
    lemma_le_nat_split(a, j);
    lemma_le_nat_split(b, j);
    assert(a.skip(j).drop_first() =~= a.skip(j + 1));
    assert(b.skip(j).drop_first() =~= b.skip(j + 1));
    let t = le_nat(a.skip(j + 1));
    assert(le_nat(a.skip(j)) == a[j] + 256 * t);
    assert(le_nat(b.skip(j)) == b[j] + 256 * t);
    lemma_le_nat_bound(a.take(j));
    lemma_le_nat_bound(b.take(j));
    assert(le_nat(a.take(j)) + p * le_nat(a.skip(j)) < le_nat(b.take(j)) + p * le_nat(b.skip(j)))
        by (nonlinear_arith)
        requires
            le_nat(a.take(j)) < p,
            0 <= le_nat(b.take(j)),
            le_nat(a.skip(j)) < le_nat(b.skip(j)),
            p >= 1,
    ;
}

/// Compare two equal-length byte strings as unsigned integers: `a <= b`.
pub fn le_bytes_le(a: &Vec<u8>, b: &Vec<u8>) -> (r: bool)
    requires
        a@.len() == b@.len(),
    ensures
        r == (le_nat(a@) <= le_nat(b@)),
{
    let n = a.len();
    let mut i: usize = n;
    while i > 0
        invariant
            i <= n,
            n == a@.len(),
            n == b@.len(),
            a@.skip(i as int) == b@.skip(i as int),
        decreases i,
    {
        let j = i - 1;
        if a[j] < b[j] {
            proof {
                lemma_le_nat_strict_at(a@, b@, j as int);
            }
            return true;
        }
        if a[j] > b[j] {
            proof {
                lemma_le_nat_strict_at(b@, a@, j as int);
            }
            return false;
        }
        proof {
            assert forall|t: int| 0 <= t < a@.skip(j as int).len() implies a@.skip(j as int)[t]
                == b@.skip(j as int)[t] by {
                if t > 0 {
                    assert(a@.skip(j as int)[t] == a@.skip(i as int)[t - 1]);
                    assert(b@.skip(j as int)[t] == b@.skip(i as int)[t - 1]);
                }
            }
            assert(a@.skip(j as int) =~= b@.skip(j as int));
        }
        i = j;
    }
    proof {
        assert(a@ =~= a@.skip(0));
        assert(b@ =~= b@.skip(0));
    }
    true
}

/// Strict comparison: `a < b` on the values.
pub fn le_bytes_lt(a: &Vec<u8>, b: &Vec<u8>) -> (r: bool)
    requires
        a@.len() == b@.len(),
    ensures
        r == (le_nat(a@) < le_nat(b@)),
{
    !le_bytes_le(b, a)
}

/// The little-endian eight-byte spelling of a `u64`.
pub open spec fn u64_le_seq(x: u64) -> Seq<u8> {
    seq![
        (x & 0xff) as u8,
        ((x >> 8) & 0xff) as u8,
        ((x >> 16) & 0xff) as u8,
        ((x >> 24) & 0xff) as u8,
        ((x >> 32) & 0xff) as u8,
        ((x >> 40) & 0xff) as u8,
        ((x >> 48) & 0xff) as u8,
        ((x >> 56) & 0xff) as u8,
    ]
}

pub proof fn lemma_u64_le_seq(x: u64)
    ensures
        u64_le_seq(x).len() == 8,
        le_nat(u64_le_seq(x)) == x,
{
    let s = u64_le_seq(x);
    let s1 = s.drop_first();
    let s2 = s1.drop_first();
    let s3 = s2.drop_first();
    let s4 = s3.drop_first();
    let s5 = s4.drop_first();
    let s6 = s5.drop_first();
    let s7 = s6.drop_first();
    let s8 = s7.drop_first();
    assert(s8.len() == 0);
    assert(le_nat(s8) == 0);
    assert(le_nat(s7) == s[7] + 256 * le_nat(s8));
    assert(le_nat(s6) == s[6] + 256 * le_nat(s7));
    assert(le_nat(s5) == s[5] + 256 * le_nat(s6));
    assert(le_nat(s4) == s[4] + 256 * le_nat(s5));
    assert(le_nat(s3) == s[3] + 256 * le_nat(s4));
    assert(le_nat(s2) == s[2] + 256 * le_nat(s3));
    assert(le_nat(s1) == s[1] + 256 * le_nat(s2));
    assert(le_nat(s) == s[0] + 256 * le_nat(s1));
    assert(((x & 0xff) as u8) as u64 == (x & 0xff)) by (bit_vector);
    assert((((x >> 8) & 0xff) as u8) as u64 == ((x >> 8) & 0xff)) by (bit_vector);
    assert((((x >> 16) & 0xff) as u8) as u64 == ((x >> 16) & 0xff)) by (bit_vector);
    assert((((x >> 24) & 0xff) as u8) as u64 == ((x >> 24) & 0xff)) by (bit_vector);
    assert((((x >> 32) & 0xff) as u8) as u64 == ((x >> 32) & 0xff)) by (bit_vector);
    assert((((x >> 40) & 0xff) as u8) as u64 == ((x >> 40) & 0xff)) by (bit_vector);
    assert((((x >> 48) & 0xff) as u8) as u64 == ((x >> 48) & 0xff)) by (bit_vector);
    assert((((x >> 56) & 0xff) as u8) as u64 == ((x >> 56) & 0xff)) by (bit_vector);
    assert(x == (x & 0xff) + 256 * (((x >> 8) & 0xff) + 256 * (((x >> 16) & 0xff) + 256 * (((x
        >> 24) & 0xff) + 256 * (((x >> 32) & 0xff) + 256 * (((x >> 40) & 0xff) + 256 * (((x >> 48)
        & 0xff) + 256 * (((x >> 56) & 0xff) + 256 * 0)))))))) by (bit_vector);
}

/// Any eight-byte string is the spelling of its own value.
pub proof fn lemma_u64_le_seq_complete(s: Seq<u8>, x: u64)
    requires
        s.len() == 8,
        le_nat(s) == x,
    ensures
        s == u64_le_seq(x),
{
    lemma_u64_le_seq(x);
    lemma_le_nat_injective(s, u64_le_seq(x));
}

/// Append the eight little-endian bytes of `x`.
pub fn push_u64_le(r: &mut Vec<u8>, x: u64)
    ensures
        final(r)@ == old(r)@ + u64_le_seq(x),
{
    r.push((x & 0xff) as u8);
    r.push(((x >> 8) & 0xff) as u8);
    r.push(((x >> 16) & 0xff) as u8);
    r.push(((x >> 24) & 0xff) as u8);
    r.push(((x >> 32) & 0xff) as u8);
    r.push(((x >> 40) & 0xff) as u8);
    r.push(((x >> 48) & 0xff) as u8);
    r.push(((x >> 56) & 0xff) as u8);
    proof {
        assert(r@ =~= old(r)@ + u64_le_seq(x));
    }
}

/// Read the value of `buf[i..j]` as a `u64`.
pub fn le_range_to_u64(buf: &Vec<u8>, i: usize, j: usize) -> (r: u64)
    requires
        i <= j <= buf@.len(),
        le_nat(buf@.subrange(i as int, j as int)) <= u64::MAX,
    ensures
        r == le_nat(buf@.subrange(i as int, j as int)),
{
    let s = Ghost(buf@.subrange(i as int, j as int));
    let mut acc: u64 = 0;
    let mut k: usize = j - i;
    while k > 0
        invariant
            k <= s@.len(),
            s@ == buf@.subrange(i as int, j as int),
            i <= j <= buf@.len(),
            le_nat(s@) <= u64::MAX,
            acc == le_nat(s@.skip(k as int)),
        decreases k,
    {
        let kk = k - 1;
        proof {
            assert(s@.skip(kk as int).drop_first() =~= s@.skip(k as int));
            assert(le_nat(s@.skip(kk as int)) == s@[kk as int] + 256 * (acc as nat));
            lemma_le_nat_split(s@, kk as int);
            lemma_le_nat_bound(s@.take(kk as int));
            assert(pow256(kk as nat) * le_nat(s@.skip(kk as int)) <= le_nat(s@)) by (
            nonlinear_arith)
                requires
                    le_nat(s@) == le_nat(s@.take(kk as int)) + pow256(kk as nat) * le_nat(
                        s@.skip(kk as int),
                    ),
                    0 <= le_nat(s@.take(kk as int)),
            ;
            lemma_pow256_pos(kk as nat);
            assert(le_nat(s@.skip(kk as int)) <= pow256(kk as nat) * le_nat(s@.skip(kk as int)))
                by (nonlinear_arith)
                requires
                    pow256(kk as nat) >= 1,
                    0 <= le_nat(s@.skip(kk as int)),
            ;
        }
        let v: u128 = (acc as u128) * 256 + (buf[i + kk] as u128);
        proof {
            assert(s@[kk as int] == buf@[i + kk]);
            assert(v == le_nat(s@.skip(kk as int)));
        }
        acc = v as u64;
        k = kk;
    }
    proof {
        assert(s@.skip(0) =~= s@);
    }
    acc
}

proof fn lemma_mul_add_step(rv: nat, p: nat, lo: nat, hi: nat, v: nat, av: nat, ai: nat, m: nat, d: nat, carry: nat)
    by (nonlinear_arith)
    requires
        v == ai * m + carry,
        lo + 256 * hi == v,
        rv + p * carry == av * m + d,
    ensures
        rv + p * lo + (256 * p) * hi == (av + p * ai) * m + d,
{
}

/// The value `a * m + d`, as a byte string eight bytes longer than `a`.
pub fn mul_add_small(a: &Vec<u8>, m: u64, d: u64) -> (r: Vec<u8>)
    ensures
        r@.len() == a@.len() + 8,
        le_nat(r@) == le_nat(a@) * m + d,
{
    let mut r: Vec<u8> = Vec::new();
    let mut carry: u64 = d;
    let mut i: usize = 0;
    proof {
        assert(a@.take(0) =~= Seq::<u8>::empty());
        assert(le_nat(a@.take(0)) * (m as nat) == 0) by (nonlinear_arith)
            requires
                le_nat(a@.take(0)) == 0,
        ;
        assert(pow256(0) == 1);
        assert(pow256(0) * (carry as nat) == carry) by (nonlinear_arith)
            requires
                pow256(0) == 1,
        ;
    }
    while i < a.len()
        invariant
            i <= a@.len(),
            r@.len() == i,
            le_nat(r@) + pow256(i as nat) * (carry as nat) == le_nat(a@.take(i as int)) * (
            m as nat) + d,
        decreases a@.len() - i,
    {
        proof {
            assert((a@[i as int] as u128) * (m as u128) <= 255 * (u64::MAX as u128)) by (
            nonlinear_arith)
                requires
                    a@[i as int] <= 255,
                    m <= u64::MAX,
            ;
        }
        let am: u128 = (a[i] as u128) * (m as u128);
        let v: u128 = am + (carry as u128);
        let lo: u8 = (v % 256) as u8;
        proof {
            assert(v / 256 < 0x10000000000000000) by (nonlinear_arith)
                requires
                    v < 256 * 0x10000000000000000,
            ;
        }
        let hi: u64 = (v / 256) as u64;
        proof {
            let ghost rv = le_nat(r@);
            lemma_le_nat_snoc(r@, lo);
            assert(a@.take(i + 1) =~= a@.take(i as int).push(a@[i as int]));
            lemma_le_nat_snoc(a@.take(i as int), a@[i as int]);
            assert((lo as nat) + 256 * (hi as nat) == v) by (nonlinear_arith)
                requires
                    lo == v % 256,
                    hi == v / 256,
                    v >= 0,
            ;
            lemma_mul_add_step(
                rv,
                pow256(i as nat),
                lo as nat,
                hi as nat,
                v as nat,
                le_nat(a@.take(i as int)),
                a@[i as int] as nat,
                m as nat,
                d as nat,
                carry as nat,
            );
        }
        r.push(lo);
        carry = hi;
        i = i + 1;
    }
    proof {
        assert(a@.take(i as int) =~= a@);
    }
    let ghost r_before = r@;
    push_u64_le(&mut r, carry);
    proof {
        lemma_le_nat_concat(r_before, u64_le_seq(carry));
        lemma_u64_le_seq(carry);
    }
    r
}

/// Quotient and remainder of a byte string divided by a nonzero machine word.
pub fn div_rem_small(a: &Vec<u8>, d: u64) -> (r: (Vec<u8>, u64))
    requires
        d >= 1,
    ensures
        r.0@.len() == a@.len(),
        le_nat(r.0@) == le_nat(a@) / (d as nat),
        r.1 == le_nat(a@) % (d as nat),
        r.1 < d,
{
    let n = a.len();
    let mut q: Vec<u8> = vec![0u8; n];
    let mut rem: u64 = 0;
    let mut i: usize = n;
    proof {
        assert(a@.skip(n as int) =~= Seq::<u8>::empty());
        assert(q@.skip(n as int) =~= Seq::<u8>::empty());
        assert((d as nat) * le_nat(q@.skip(n as int)) == 0) by (nonlinear_arith)
            requires
                le_nat(q@.skip(n as int)) == 0,
        ;
    }
    while i > 0
        invariant
            i <= n,
            n == a@.len(),
            q@.len() == n,
            d >= 1,
            rem < d,
            le_nat(a@.skip(i as int)) == (d as nat) * le_nat(q@.skip(i as int)) + rem,
            forall|t: int| 0 <= t < i ==> q@[t] == 0,
        decreases i,
    {
        let j = i - 1;
        let cur: u128 = (rem as u128) * 256 + (a[j] as u128);
        proof {
            assert(cur < (d as u128) * 256) by (nonlinear_arith)
                requires
                    rem < d,
                    cur == (rem as u128) * 256 + (a@[j as int] as u128),
                    a@[j as int] < 256,
            ;
            assert(cur / (d as u128) < 256) by (nonlinear_arith)
                requires
                    cur < (d as u128) * 256,
                    d >= 1,
            ;
        }
        let digit: u8 = (cur / (d as u128)) as u8;
        let new_rem: u64 = (cur % (d as u128)) as u64;
        let ghost q_old = q@;
        q[j] = digit;
        proof {
            let ghost qs = q@.skip(i as int);
            assert(q@.skip(i as int) =~= q_old.skip(i as int));
            assert(a@.skip(j as int).drop_first() =~= a@.skip(i as int));
            assert(q@.skip(j as int).drop_first() =~= q@.skip(i as int));
            assert(q@.skip(j as int)[0] == digit);
            assert(le_nat(a@.skip(j as int)) == a@[j as int] + 256 * le_nat(a@.skip(i as int)));
            assert(le_nat(q@.skip(j as int)) == digit + 256 * le_nat(q@.skip(i as int)));
            assert((cur as nat) == (d as nat) * (digit as nat) + new_rem) by (nonlinear_arith)
                requires
                    digit == cur / (d as u128),
                    new_rem == cur % (d as u128),
                    d >= 1,
                    cur < (d as u128) * 256,
            ;
            assert(a@[j as int] + 256 * le_nat(a@.skip(i as int)) == (d as nat) * le_nat(
                q@.skip(j as int),
            ) + new_rem) by (nonlinear_arith)
                requires
                    le_nat(a@.skip(i as int)) == (d as nat) * le_nat(q@.skip(i as int)) + rem,
                    (cur as nat) == (rem as nat) * 256 + a@[j as int],
                    (cur as nat) == (d as nat) * (digit as nat) + new_rem,
                    le_nat(q@.skip(j as int)) == digit + 256 * le_nat(q@.skip(i as int)),
            ;
        }
        rem = new_rem;
        i = j;
    }
    proof {
        assert(a@.skip(0) =~= a@);
        assert(q@.skip(0) =~= q@);
        assert(le_nat(a@) as int == (le_nat(q@) as int) * (d as int) + (rem as int)) by (
        nonlinear_arith)
            requires
                le_nat(a@) == (d as nat) * le_nat(q@) + rem,
        ;
        lemma_fundamental_div_mod_converse(
            le_nat(a@) as int,
            d as int,
            le_nat(q@) as int,
            rem as int,
        );
    }
    (q, rem)
}

/// The powers of 256 up to eight bytes, as literals.
pub proof fn lemma_pow256_words()
    ensures
        pow256(1) == 0x100,
        pow256(2) == 0x10000,
        pow256(3) == 0x1000000,
        pow256(4) == 0x100000000,
        pow256(5) == 0x10000000000,
        pow256(6) == 0x1000000000000,
        pow256(7) == 0x100000000000000,
        pow256(8) == 0x10000000000000000,
{
    assert(pow256(0) == 1);
    assert(pow256(1) == 0x100);
    assert(pow256(2) == 0x10000);
    assert(pow256(3) == 0x1000000);
    assert(pow256(4) == 0x100000000);
    assert(pow256(5) == 0x10000000000);
    assert(pow256(6) == 0x1000000000000);
    assert(pow256(7) == 0x100000000000000);
    assert(pow256(8) == 0x10000000000000000);
}

/// `pow256` grows with its argument.
pub proof fn lemma_pow256_mono(m: nat, n: nat)
    requires
        m <= n,
    ensures
        pow256(m) <= pow256(n),
    decreases n,
{
    if m < n {
        lemma_pow256_mono(m, (n - 1) as nat);
        lemma_pow256_pos((n - 1) as nat);
    }
}

/// `q * g <= x` exactly when `q <= x / g`, for positive `g`.
pub proof fn lemma_mul_le_iff_div_pub(q: nat, g: nat, x: nat)
    requires
        g >= 1,
    ensures
        (q * g <= x) == (q <= x / g),
{
    lemma_mul_le_iff_div(q, g, x);
}

/// `q * g <= x` exactly when `q <= x / g`, for positive `g`.
proof fn lemma_mul_le_iff_div(q: nat, g: nat, x: nat)
    requires
        g >= 1,
    ensures
        (q * g <= x) == (q <= x / g),
{
    lemma_fundamental_div_mod(x as int, g as int);
    assert(x == g * (x / g) + x % g);
    assert(0 <= x % g < g);
    if q * g <= x {
        assert(q <= x / g) by (nonlinear_arith)
            requires
                q * g <= x,
                x == g * (x / g) + (x % g),
                0 <= (x % g) < g,
                g >= 1,
        ;
    }
    if q <= x / g {
        assert(q * g <= x) by (nonlinear_arith)
            requires
                q <= x / g,
                x == g * (x / g) + (x % g),
                0 <= (x % g) < g,
                g >= 1,
        ;
    }
}

/// The largest `q` with `q <= cap` and `q * le_nat(gap) <= le_nat(r)`:
/// the quotient `le_nat(r) / le_nat(gap)`, capped at `cap`.
pub fn div_capped(r: &Vec<u8>, gap: &Vec<u8>, cap: u64) -> (res: u64)
    requires
        r@.len() == gap@.len(),
        r@.len() + 8 <= usize::MAX,
        le_nat(gap@) >= 1,
    ensures
        res == if le_nat(r@) / le_nat(gap@) <= cap {
            le_nat(r@) / le_nat(gap@)
        } else {
            cap as nat
        },
{
    let ghost x = le_nat(r@);
    let ghost g = le_nat(gap@);
    let rp = pad_bytes(r, r.len() + 8);
    let mut lo: u64 = 0;
    let mut hi: u64 = cap;
    proof {
        assert((0 as nat) * g == 0) by (nonlinear_arith);
    }
    while lo < hi
        invariant
            lo <= hi <= cap,
            x == le_nat(r@),
            g == le_nat(gap@),
            g >= 1,
            rp@.len() == r@.len() + 8,
            le_nat(rp@) == x,
            r@.len() == gap@.len(),
            (lo as nat) * g <= x,
            hi < cap ==> ((hi + 1) as nat) * g > x,
        decreases hi - lo,
    {
        let half: u64 = (hi - lo) / 2;
        assert(half < hi - lo || half == 0);
        let mid: u64 = lo + half + 1;
        assert(lo < mid <= hi);
        let t = mul_add_small(gap, mid, 0);
        let ok = le_bytes_le(&t, &rp);
        proof {
            assert(le_nat(t@) == g * (mid as nat));
            assert(g * (mid as nat) == (mid as nat) * g) by (nonlinear_arith);
        }
        if ok {
            lo = mid;
        } else {
            hi = mid - 1;
        }
    }
    proof {
        lemma_mul_le_iff_div(lo as nat, g, x);
        if lo < cap {
            lemma_mul_le_iff_div((lo + 1) as nat, g, x);
        }
    }
    lo
}

/// Whether a byte string's value fits in a machine word.
pub fn le_fits_u64(v: &Vec<u8>) -> (r: bool)
    ensures
        r == (le_nat(v@) <= u64::MAX),
{
    proof {
        lemma_pow256_words();
    }
    if v.len() <= 8 {
        proof {
            lemma_le_nat_bound(v@);
            lemma_pow256_mono(v@.len(), 8);
        }
        return true;
    }
    let mut i: usize = 8;
    while i < v.len()
        invariant
            8 <= i <= v@.len(),
            forall|t: int| 8 <= t < i ==> v@[t] == 0,
        decreases v@.len() - i,
    {
        if v[i] != 0 {
            proof {
                lemma_pow256_words();
                lemma_le_nat_split(v@, 8);
                assert(v@.skip(8)[i - 8] != 0);
                lemma_le_nat_nonzero(v@.skip(8), i - 8);
                assert(pow256(8) * le_nat(v@.skip(8)) >= pow256(8)) by (nonlinear_arith)
                    requires
                        le_nat(v@.skip(8)) >= 1,
                        pow256(8) >= 1,
                ;
            }
            return false;
        }
        i = i + 1;
    }
    proof {
        lemma_le_nat_split(v@, 8);
        lemma_le_nat_zeros(v@.skip(8));
        lemma_le_nat_bound(v@.take(8));
    }
    true
}

/// The difference of two equal-length byte strings, `a - b`.
pub fn sub_bytes(a: &Vec<u8>, b: &Vec<u8>) -> (r: Vec<u8>)
    requires
        a@.len() == b@.len(),
        le_nat(b@) <= le_nat(a@),
    ensures
        r@.len() == a@.len(),
        le_nat(r@) == le_nat(a@) - le_nat(b@),
{
    let n = a.len();
    let mut r: Vec<u8> = Vec::new();
    let mut borrow: u8 = 0;
    let mut i: usize = 0;
    while i < n
        invariant
            i <= n,
            n == a@.len(),
            n == b@.len(),
            r@.len() == i,
            borrow <= 1,
            le_nat(r@) + le_nat(b@.take(i as int)) == le_nat(a@.take(i as int)) + pow256(i as nat)
                * (borrow as nat),
        decreases n - i,
    {
        let ai: u16 = a[i] as u16;
        let bi: u16 = (b[i] as u16) + (borrow as u16);
        let (digit, new_borrow): (u8, u8) = if ai >= bi {
            ((ai - bi) as u8, 0u8)
        } else {
            ((256 + ai - bi) as u8, 1u8)
        };
        proof {
            lemma_le_nat_snoc(r@, digit);
            assert(a@.take(i + 1) =~= a@.take(i as int).push(a@[i as int]));
            assert(b@.take(i + 1) =~= b@.take(i as int).push(b@[i as int]));
            lemma_le_nat_snoc(a@.take(i as int), a@[i as int]);
            lemma_le_nat_snoc(b@.take(i as int), b@[i as int]);
            assert((digit as nat) + (b@[i as int] as nat) + (borrow as nat) == (a@[i as int] as nat)
                + 256 * (new_borrow as nat));
            assert(le_nat(r@) + pow256(i as nat) * (digit as nat) + le_nat(b@.take(i as int))
                + pow256(i as nat) * (b@[i as int] as nat) == le_nat(a@.take(i as int)) + pow256(
                i as nat,
            ) * (a@[i as int] as nat) + (256 * pow256(i as nat)) * (new_borrow as nat)) by (
            nonlinear_arith)
                requires
                    le_nat(r@) + le_nat(b@.take(i as int)) == le_nat(a@.take(i as int)) + pow256(
                        i as nat,
                    ) * (borrow as nat),
                    (digit as nat) + (b@[i as int] as nat) + (borrow as nat) == (
                    a@[i as int] as nat) + 256 * (new_borrow as nat),
            ;
        }
        r.push(digit);
        borrow = new_borrow;
        i = i + 1;
    }
    proof {
        assert(a@.take(n as int) =~= a@);
        assert(b@.take(n as int) =~= b@);
        if borrow == 1 {
            lemma_le_nat_bound(r@);
            assert(false);
        }
    }
    r
}

} // verus!
