//! The local-differential-privacy mechanism itself.
//!
//! `ldp_value_spec` is the reference reading of the randomized-response
//! mechanism: a gamma-weighted coin decides between passing the true value
//! through and drawing a bucketed uniform value from the session randomness.
//! `ldp_apply` computes it, and the circuits enforce the same relation.

use vstd::prelude::*;

verus! {

use crate::bytes::{
    div_capped,
    div_rem_small,
    le_bytes_le,
    le_nat,
    le_range_to_u64,
    lemma_mul_le_iff_div_pub,
    max_bytes,
    mul_add_small,
    pad_bytes,
    pow256,
    sub_bytes,
    sub_vec,
};

/// The fixed widths and the discretization factor of one protocol instance.
///
/// `input_bytes`, `time_bytes`, `gamma_bytes` and `randomness_bytes` are the
/// widths of the true value, of a timestamp, of the gamma encoding and of one
/// session's randomness; `k` is the discretization factor; `is_real_input`
/// selects between a continuous input scaled into `{0, ..., k}` and a
/// discretized input drawn from `{1, ..., k}`.
#[derive(Clone, Copy)]
pub struct ProtocolSpec {
    pub input_bytes: usize,
    pub time_bytes: usize,
    pub gamma_bytes: usize,
    pub randomness_bytes: usize,
    pub k: u64,
    pub is_real_input: bool,
}

impl ProtocolSpec {
    /// The largest value an input byte string can hold.
    pub open spec fn max_input(&self) -> nat {
        (pow256(self.input_bytes as nat) - 1) as nat
    }

    /// The width relations every protocol instance must satisfy.
    pub open spec fn wf(&self) -> bool {
        &&& self.input_bytes >= 1
        &&& self.time_bytes >= 1
        &&& 1 <= self.gamma_bytes <= 4096
        &&& self.randomness_bytes <= usize::MAX - 16
        &&& self.k >= 2
        &&& if self.is_real_input {
            &&& self.randomness_bytes == self.gamma_bytes + 2 * self.input_bytes
            &&& self.k + 1 <= self.max_input()
            &&& self.k < u64::MAX
        } else {
            &&& self.randomness_bytes == self.gamma_bytes + self.input_bytes
            &&& self.k <= self.max_input()
        }
    }
}

/// The largest value an `n`-byte string can hold, saturated at `u64::MAX`
/// for widths of eight bytes and more.
fn small_width_max(n: usize) -> (r: u64)
    requires
        1 <= n,
    ensures
        n < 8 ==> r == pow256(n as nat) - 1,
        n >= 8 ==> r == u64::MAX && pow256(n as nat) - 1 >= u64::MAX,
{
    proof {
        crate::bytes::lemma_pow256_words();
        if n >= 8 {
            crate::bytes::lemma_pow256_mono(8, n as nat);
        }
    }
    if n == 1 {
        0xff
    } else if n == 2 {
        0xffff
    } else if n == 3 {
        0xffffff
    } else if n == 4 {
        0xffffffff
    } else if n == 5 {
        0xffffffffff
    } else if n == 6 {
        0xffffffffffff
    } else if n == 7 {
        0xffffffffffffff
    } else {
        u64::MAX
    }
}

impl ProtocolSpec {
    /// Check the width relations of this instance.
    pub fn validate(&self) -> (r: bool)
        ensures
            r == self.wf(),
    {
        if self.input_bytes < 1 || self.time_bytes < 1 || self.gamma_bytes < 1
            || self.gamma_bytes > 4096 || self.k < 2 || self.randomness_bytes > usize::MAX - 16 {
            return false;
        }
        let m = small_width_max(self.input_bytes);
        if self.is_real_input {
            if self.input_bytes > usize::MAX / 2
                || self.gamma_bytes > usize::MAX - 2 * self.input_bytes {
                return false;
            }
            self.randomness_bytes == self.gamma_bytes + 2 * self.input_bytes && self.k < u64::MAX
                && (self.input_bytes >= 8 || self.k + 1 <= m)
        } else {
            if self.gamma_bytes > usize::MAX - self.input_bytes {
                return false;
            }
            self.randomness_bytes == self.gamma_bytes + self.input_bytes && (self.input_bytes >= 8
                || self.k <= m)
        }
    }
}

/// The gamma gate: the low `gamma_bytes` of the randomness, read as an
/// integer, fall at or below the gamma encoding.  When this holds the output
/// is a random bucket; otherwise the true value passes through.
pub open spec fn ldp_bit_spec(ps: ProtocolSpec, gamma_enc: Seq<u8>, randomness: Seq<u8>) -> bool {
    le_nat(randomness.take(ps.gamma_bytes as int)) <= le_nat(gamma_enc)
}

/// The width of one output bucket: the input range divided evenly over the
/// `k + 1` (continuous) or `k` (discretized) possible outputs.
pub open spec fn boundary_gap_spec(ps: ProtocolSpec) -> nat {
    if ps.is_real_input {
        ps.max_input() / (ps.k + 1) as nat
    } else {
        ps.max_input() / (ps.k as nat)
    }
}

/// The random output: the middle randomness block divided into buckets, the
/// top bucket absorbing the truncation remainder.  Continuous instances
/// produce a value in `{0, ..., k}`; discretized instances in `{1, ..., k}`.
pub open spec fn random_bucket_spec(ps: ProtocolSpec, randomness: Seq<u8>) -> nat {
    let v = le_nat(
        randomness.subrange(
            ps.gamma_bytes as int,
            ps.gamma_bytes + ps.input_bytes,
        ),
    ) / boundary_gap_spec(ps);
    if ps.is_real_input {
        if v <= ps.k {
            v
        } else {
            ps.k as nat
        }
    } else {
        (if v <= ps.k - 1 {
            v
        } else {
            (ps.k - 1) as nat
        }) + 1
    }
}

/// The pass-through output.  A discretized input is returned as it is; a
/// continuous input is scaled by `k`, split into quotient and remainder
/// against the input range, and rounded up or down by one more randomness
/// block compared against the remainder.
pub open spec fn passthrough_spec(ps: ProtocolSpec, randomness: Seq<u8>, t: nat) -> nat {
    if ps.is_real_input {
        let m = ps.max_input();
        let q = (t * (ps.k as nat)) / m;
        let rem = (t * (ps.k as nat) - q * m) as nat;
        let rb = le_nat(
            randomness.subrange(
                ps.gamma_bytes + ps.input_bytes,
                ps.gamma_bytes + 2 * ps.input_bytes,
            ),
        );
        q + if rb <= rem {
            1 as nat
        } else {
            0 as nat
        }
    } else {
        t
    }
}

/// The reference local-differential-privacy mechanism: what an honest client
/// must output, and what the circuits force a dishonest one to output.
pub open spec fn ldp_value_spec(
    ps: ProtocolSpec,
    gamma_enc: Seq<u8>,
    randomness: Seq<u8>,
    true_value: Seq<u8>,
) -> nat {
    if ldp_bit_spec(ps, gamma_enc, randomness) {
        random_bucket_spec(ps, randomness)
    } else {
        passthrough_spec(ps, randomness, le_nat(true_value))
    }
}

/// Apply the mechanism to one input.
pub fn ldp_apply(
    ps: &ProtocolSpec,
    gamma_enc: &Vec<u8>,
    randomness: &Vec<u8>,
    true_value: &Vec<u8>,
) -> (r: u64)
    requires
        ps.wf(),
        gamma_enc@.len() == ps.gamma_bytes,
        randomness@.len() == ps.randomness_bytes,
        true_value@.len() == ps.input_bytes,
        !ps.is_real_input && !ldp_bit_spec(*ps, gamma_enc@, randomness@) ==> le_nat(true_value@)
            <= u64::MAX,
    ensures
        r == ldp_value_spec(*ps, gamma_enc@, randomness@, true_value@),
{
    let gb = ps.gamma_bytes;
    let ib = ps.input_bytes;
    let rand_gamma = sub_vec(randomness, 0, gb);
    proof {
        assert(rand_gamma@ =~= randomness@.take(gb as int));
    }
    let bit = le_bytes_le(&rand_gamma, gamma_enc);
    if bit {
        // a uniformly random bucket
        let mb = max_bytes(ib);
        let divisor: u64 = if ps.is_real_input {
            ps.k + 1
        } else {
            ps.k
        };
        let (gap, _rem) = div_rem_small(&mb, divisor);
        proof {
            lemma_mul_le_iff_div_pub(1, divisor as nat, ps.max_input());
            assert(1 * (divisor as nat) == divisor as nat) by (nonlinear_arith);
            assert(le_nat(gap@) == boundary_gap_spec(*ps));
            assert(le_nat(gap@) >= 1);
        }
        let rslice = sub_vec(randomness, gb, gb + ib);
        let cap: u64 = if ps.is_real_input {
            ps.k
        } else {
            ps.k - 1
        };
        let v = div_capped(&rslice, &gap, cap);
        if ps.is_real_input {
            v
        } else {
            v + 1
        }
    } else {
        // the true value passes through
        if ps.is_real_input {
            let ghost t = le_nat(true_value@);
            let ghost m = ps.max_input();
            let tk = mul_add_small(true_value, ps.k, 0);
            let mb = max_bytes(ib);
            let mbp = pad_bytes(&mb, ib + 8);
            proof {
                crate::bytes::lemma_le_nat_bound(true_value@);
                assert(t <= m);
                assert(t * (ps.k as nat) <= m * (ps.k as nat)) by (nonlinear_arith)
                    requires
                        t <= m,
                        (ps.k as nat) >= 0,
                ;
                assert(((ps.k + 1) as nat) * m == (ps.k as nat) * m + m) by (nonlinear_arith);
                assert(m * (ps.k as nat) == (ps.k as nat) * m) by (nonlinear_arith);
                lemma_mul_le_iff_div_pub((ps.k + 1) as nat, m, t * (ps.k as nat));
                assert((t * (ps.k as nat)) / m <= ps.k);
            }
            let q = div_capped(&tk, &mbp, ps.k);
            proof {
                assert(q == (t * (ps.k as nat)) / m);
                lemma_mul_le_iff_div_pub(q as nat, m, t * (ps.k as nat));
                assert((q as nat) * m <= t * (ps.k as nat));
                assert(m * (q as nat) == (q as nat) * m) by (nonlinear_arith);
            }
            let qm = mul_add_small(&mb, q, 0);
            let rem = sub_bytes(&tk, &qm);
            let rb = sub_vec(randomness, gb + ib, gb + 2 * ib);
            let rbp = pad_bytes(&rb, ib + 8);
            let low = le_bytes_le(&rbp, &rem);
            if low {
                q + 1
            } else {
                q
            }
        } else {
            proof {
                assert(true_value@.subrange(0, ib as int) =~= true_value@);
            }
            le_range_to_u64(true_value, 0, ib)
        }
    }
}

} // verus!
