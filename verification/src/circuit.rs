//! The circuit relations and their public inputs.
//!
//! Each variant's arithmetic circuit enforces one relation between public
//! inputs and private witness values: the randomness combination, the
//! gamma gate and bucket arithmetic of the mechanism, the signature over
//! the true value, the time window, and (Expand) the Merkle membership of
//! the session commitment.  The relations are stated here as predicates,
//! with executable evaluators; a proof-system backend enforces the same
//! relation in constraints.  The public-input order is part of the wire
//! contract and is fixed by the `*_publics` functions.

use vstd::prelude::*;

verus! {

use crate::bytes::{le_nat, u64_le_seq, xor_seq};
use crate::config::Config;
use crate::codec::clone_bytes;
use crate::ldp::{ldp_value_spec, ProtocolSpec};
use crate::messages_shuffle::GenerateRandomnessSignatureInputShuffle;

/// The values the Base circuit relates: first the public inputs, then the
/// private witness.
pub struct WitnessBase {
    pub ldp_value: u64,
    pub time_lower_bound: Vec<u8>,
    pub time_upper_bound: Vec<u8>,
    pub client_sig_pk: Vec<u8>,
    pub client_randomness_commitment: Vec<u8>,
    pub server_randomness: Vec<u8>,
    pub true_value: Vec<u8>,
    pub time: Vec<u8>,
    pub true_value_signature: Vec<u8>,
    pub client_randomness: Vec<u8>,
    pub commitment_randomness: Vec<u8>,
}

/// The values the Expand circuit relates.  The commitment is a witness
/// here: the circuit recomputes it and places it in the Merkle tree.
pub struct WitnessExpand {
    pub ldp_value: u64,
    pub time_lower_bound: Vec<u8>,
    pub time_upper_bound: Vec<u8>,
    pub client_sig_pk: Vec<u8>,
    pub client_merkle_tree_root: Vec<u8>,
    pub index: u64,
    pub server_randomness: Vec<u8>,
    pub true_value: Vec<u8>,
    pub time: Vec<u8>,
    pub true_value_signature: Vec<u8>,
    pub client_randomness: Vec<u8>,
    pub commitment_randomness: Vec<u8>,
    pub merkle_path: Vec<u8>,
}

/// The values the Shuffle circuit relates.  The whole signature chain is a
/// witness: only the server key and the evaluation points are public.
pub struct WitnessShuffle {
    pub ldp_value: u64,
    pub time_lower_bound: Vec<u8>,
    pub time_upper_bound: Vec<u8>,
    pub server_sig_pk: Vec<u8>,
    pub prf_eval_points: Vec<Vec<u8>>,
    pub true_value: Vec<u8>,
    pub time: Vec<u8>,
    pub true_value_signature: Vec<u8>,
    pub client_sig_pk: Vec<u8>,
    pub client_seed: Vec<u8>,
    pub server_seed: Vec<u8>,
    pub client_seed_commitment: Vec<u8>,
    pub commitment_randomness: Vec<u8>,
    pub server_signature: Vec<u8>,
}

/// The evaluation point for chunk `i` of seed expansion: the chunk index
/// spelled little-endian into a 32-byte block.
pub open spec fn index_point(i: u64) -> Seq<u8> {
    u64_le_seq(i) + Seq::new(24, |t: int| 0u8)
}

/// Session randomness derived from a seed by the PRF, one 32-byte chunk per
/// successive evaluation point, truncated to `n` bytes.
pub open spec fn expand_indexed<C: Config>(seed: Seq<u8>, n: nat) -> Seq<u8> {
    Seq::new(n, |j: int| C::prf_spec(seed, index_point((j / 32) as u64))[j % 32])
}

/// Session randomness derived from a seed over caller-chosen evaluation
/// points, as the Shuffle scheme uses; chunks beyond the points stay zero.
pub open spec fn expand_with_points<C: Config>(
    seed: Seq<u8>,
    points: Seq<Seq<u8>>,
    n: nat,
) -> Seq<u8> {
    Seq::new(
        n,
        |j: int|
            if j / 32 < points.len() {
                C::prf_spec(seed, points[j / 32])[j % 32]
            } else {
                0u8
            },
    )
}

/// Build the evaluation point for chunk `i`.
pub fn make_index_point(i: u64) -> (r: Vec<u8>)
    ensures
        r@ == index_point(i),
{
    let mut r: Vec<u8> = Vec::new();
    crate::bytes::push_u64_le(&mut r, i);
    while r.len() < 32
        invariant
            8 <= r@.len() <= 32,
            r@.take(8) == u64_le_seq(i),
            forall|t: int| 8 <= t < r@.len() ==> r@[t] == 0,
        decreases 32 - r@.len(),
    {
        r.push(0u8);
    }
    proof {
        assert(r@ =~= index_point(i));
    }
    r
}

/// Derive `n` bytes of session randomness from a 32-byte seed with
/// successive indexed evaluation points.
pub fn expand_randomness_indexed<C: Config>(config: &C, seed: &Vec<u8>, n: usize) -> (r: Vec<u8>)
    requires
        seed@.len() == 32,
    ensures
        r@ == expand_indexed::<C>(seed@, n as nat),
{
    let mut r: Vec<u8> = Vec::new();
    let mut block: Vec<u8> = Vec::new();
    while r.len() < n
        invariant
            seed@.len() == 32,
            r@.len() <= n,
            r@ == expand_indexed::<C>(seed@, n as nat).take(r@.len() as int),
            r@.len() % 32 != 0 ==> block@ == C::prf_spec(
                seed@,
                index_point((r@.len() / 32) as u64),
            ) && block@.len() == 32,
        decreases n - r@.len(),
    {
        let j = r.len();
        if j % 32 == 0 {
            let point = make_index_point((j / 32) as u64);
            block = config.prf_evaluate(seed, &point);
        }
        proof {
            assert(block@ == C::prf_spec(seed@, index_point((j / 32) as u64)));
            assert(expand_indexed::<C>(seed@, n as nat)[j as int] == block@[j as int % 32]);
        }
        r.push(block[j % 32]);
        proof {
            assert(r@ =~= expand_indexed::<C>(seed@, n as nat).take(r@.len() as int));
            assert(r@.len() % 32 != 0 ==> r@.len() / 32 == j / 32) by (nonlinear_arith)
                requires
                    r@.len() == j + 1,
            ;
        }
    }
    proof {
        assert(r@ =~= expand_indexed::<C>(seed@, n as nat));
    }
    r
}

/// Derive `n` bytes of session randomness from a 32-byte seed over the
/// given evaluation points; chunks beyond the points stay zero.
pub fn expand_randomness_with_points<C: Config>(
    config: &C,
    seed: &Vec<u8>,
    points: &Vec<Vec<u8>>,
    n: usize,
) -> (r: Vec<u8>)
    requires
        seed@.len() == 32,
        forall|i: int| 0 <= i < points@.len() ==> #[trigger] points@[i]@.len() == 32,
    ensures
        r@ == expand_with_points::<C>(seed@, points.deep_view(), n as nat),
{
    let ghost pts = points.deep_view();
    let mut r: Vec<u8> = Vec::new();
    let mut block: Vec<u8> = Vec::new();
    while r.len() < n
        invariant
            seed@.len() == 32,
            pts == points.deep_view(),
            pts.len() == points@.len(),
            forall|i: int| 0 <= i < points@.len() ==> #[trigger] points@[i]@.len() == 32,
            r@.len() <= n,
            r@ == expand_with_points::<C>(seed@, pts, n as nat).take(r@.len() as int),
            r@.len() % 32 != 0 && r@.len() / 32 < pts.len() ==> block@ == C::prf_spec(
                seed@,
                pts[r@.len() as int / 32],
            ) && block@.len() == 32,
        decreases n - r@.len(),
    {
        let j = r.len();
        let chunk = j / 32;
        let next: u8 = if chunk < points.len() {
            if j % 32 == 0 {
                block = config.prf_evaluate(seed, &points[chunk]);
            }
            proof {
                assert(pts[chunk as int] == points@[chunk as int]@);
                assert(block@ == C::prf_spec(seed@, pts[chunk as int]));
            }
            block[j % 32]
        } else {
            0u8
        };
        proof {
            assert(expand_with_points::<C>(seed@, pts, n as nat)[j as int] == next);
        }
        r.push(next);
        proof {
            assert(r@ =~= expand_with_points::<C>(seed@, pts, n as nat).take(r@.len() as int));
            assert(r@.len() % 32 != 0 ==> r@.len() / 32 == j / 32) by (nonlinear_arith)
                requires
                    r@.len() == j + 1,
            ;
        }
    }
    proof {
        assert(r@ =~= expand_with_points::<C>(seed@, pts, n as nat));
    }
    r
}

/// Shared length side conditions of all three relations.
pub open spec fn common_shape(ps: ProtocolSpec, lb: Seq<u8>, ub: Seq<u8>, t: Seq<u8>, v: Seq<u8>) -> bool {
    &&& ps.wf()
    &&& lb.len() == ps.time_bytes
    &&& ub.len() == ps.time_bytes
    &&& t.len() == ps.time_bytes
    &&& v.len() == ps.input_bytes
}

/// The Base circuit relation, with the primitive checks handed in as
/// already-settled facts: whether the commitment opens correctly and
/// whether the signature over the true value verifies.
pub open spec fn base_relation_given(
    ps: ProtocolSpec,
    gamma_enc: Seq<u8>,
    w: WitnessBase,
    commitment_opens: bool,
    signature_valid: bool,
) -> bool {
    let randomness = xor_seq(w.client_randomness@, w.server_randomness@);
    &&& common_shape(ps, w.time_lower_bound@, w.time_upper_bound@, w.time@, w.true_value@)
    &&& w.client_randomness@.len() == ps.randomness_bytes
    &&& w.server_randomness@.len() == ps.randomness_bytes
    &&& gamma_enc.len() == ps.gamma_bytes
    &&& commitment_opens
    &&& signature_valid
    &&& le_nat(w.time_lower_bound@) < le_nat(w.time@)
    &&& le_nat(w.time@) <= le_nat(w.time_upper_bound@)
    &&& w.ldp_value == ldp_value_spec(ps, gamma_enc, randomness, w.true_value@)
}

/// The Base circuit relation.
pub open spec fn base_relation<C: Config>(
    ps: ProtocolSpec,
    commitment_params: Seq<u8>,
    client_sig_params: Seq<u8>,
    gamma_enc: Seq<u8>,
    w: WitnessBase,
) -> bool {
    base_relation_given(
        ps,
        gamma_enc,
        w,
        w.client_randomness_commitment@ == C::commit_spec(
            commitment_params,
            w.client_randomness@,
            w.commitment_randomness@,
        ),
        C::sig_verify_spec(
            client_sig_params,
            w.client_sig_pk@,
            w.true_value@ + w.time@,
            w.true_value_signature@,
        ),
    )
}

/// The Expand circuit relation with the primitive checks handed in: as
/// Base, except that the recomputed commitment must sit at the claimed
/// leaf index of the signed tree.
pub open spec fn expand_relation_given(
    ps: ProtocolSpec,
    gamma_enc: Seq<u8>,
    w: WitnessExpand,
    commitment_member: bool,
    signature_valid: bool,
) -> bool {
    let randomness = xor_seq(w.client_randomness@, w.server_randomness@);
    &&& common_shape(ps, w.time_lower_bound@, w.time_upper_bound@, w.time@, w.true_value@)
    &&& w.client_randomness@.len() == ps.randomness_bytes
    &&& w.server_randomness@.len() == ps.randomness_bytes
    &&& gamma_enc.len() == ps.gamma_bytes
    &&& commitment_member
    &&& signature_valid
    &&& le_nat(w.time_lower_bound@) < le_nat(w.time@)
    &&& le_nat(w.time@) <= le_nat(w.time_upper_bound@)
    &&& w.ldp_value == ldp_value_spec(ps, gamma_enc, randomness, w.true_value@)
}

/// The Expand circuit relation.
pub open spec fn expand_relation<C: Config>(
    ps: ProtocolSpec,
    commitment_params: Seq<u8>,
    client_sig_params: Seq<u8>,
    merkle_leaf_params: Seq<u8>,
    merkle_node_params: Seq<u8>,
    gamma_enc: Seq<u8>,
    w: WitnessExpand,
) -> bool {
    expand_relation_given(
        ps,
        gamma_enc,
        w,
        C::merkle_member_spec(
            merkle_leaf_params,
            merkle_node_params,
            w.client_merkle_tree_root@,
            w.index,
            C::commit_spec(commitment_params, w.client_randomness@, w.commitment_randomness@),
            w.merkle_path@,
        ),
        C::sig_verify_spec(
            client_sig_params,
            w.client_sig_pk@,
            w.true_value@ + w.time@,
            w.true_value_signature@,
        ),
    )
}

/// The Shuffle circuit relation with the primitive checks and the derived
/// randomness handed in: the signature chain is checked inside the circuit,
/// and the randomness is re-derived from the combined seed.
pub open spec fn shuffle_relation_given(
    ps: ProtocolSpec,
    gamma_enc: Seq<u8>,
    w: WitnessShuffle,
    randomness: Seq<u8>,
    commitment_opens: bool,
    server_signature_valid: bool,
    client_signature_valid: bool,
) -> bool {
    &&& common_shape(ps, w.time_lower_bound@, w.time_upper_bound@, w.time@, w.true_value@)
    &&& w.client_seed@.len() == 32
    &&& w.server_seed@.len() == 32
    &&& gamma_enc.len() == ps.gamma_bytes
    &&& commitment_opens
    &&& server_signature_valid
    &&& client_signature_valid
    &&& le_nat(w.time_lower_bound@) < le_nat(w.time@)
    &&& le_nat(w.time@) <= le_nat(w.time_upper_bound@)
    &&& w.ldp_value == ldp_value_spec(ps, gamma_enc, randomness, w.true_value@)
}

/// The Shuffle circuit relation.
pub open spec fn shuffle_relation<C: Config>(
    ps: ProtocolSpec,
    commitment_params: Seq<u8>,
    server_sig_params: Seq<u8>,
    client_sig_params: Seq<u8>,
    gamma_enc: Seq<u8>,
    w: WitnessShuffle,
) -> bool {
    let seed = xor_seq(w.client_seed@, w.server_seed@);
    shuffle_relation_given(
        ps,
        gamma_enc,
        w,
        expand_with_points::<C>(seed, w.prf_eval_points.deep_view(), ps.randomness_bytes as nat),
        w.client_seed_commitment@ == C::commit_spec(
            commitment_params,
            w.client_seed@,
            w.commitment_randomness@,
        ),
        C::sig_verify_spec(
            server_sig_params,
            w.server_sig_pk@,
            GenerateRandomnessSignatureInputShuffle::enc(
                w.client_seed_commitment@,
                w.client_sig_pk@,
                w.server_seed@,
            ),
            w.server_signature@,
        ),
        C::sig_verify_spec(
            client_sig_params,
            w.client_sig_pk@,
            w.true_value@ + w.time@,
            w.true_value_signature@,
        ),
    )
}

/// Evaluate the Base circuit relation on concrete values: the executable
/// mirror of what the constraint system enforces.
pub fn circuit_eval_base<C: Config>(
    config: &C,
    ps: &ProtocolSpec,
    commitment_params: &Vec<u8>,
    client_sig_params: &Vec<u8>,
    gamma_enc: &Vec<u8>,
    w: &WitnessBase,
) -> (r: bool)
    ensures
        r == base_relation::<C>(*ps, commitment_params@, client_sig_params@, gamma_enc@, *w),
{
    if !ps.validate() || w.time_lower_bound.len() != ps.time_bytes || w.time_upper_bound.len()
        != ps.time_bytes || w.time.len() != ps.time_bytes || w.true_value.len() != ps.input_bytes
        || w.client_randomness.len() != ps.randomness_bytes || w.server_randomness.len()
        != ps.randomness_bytes || gamma_enc.len() != ps.gamma_bytes {
        return false;
    }
    let commitment = config.commit_with(
        commitment_params,
        &w.client_randomness,
        &w.commitment_randomness,
    );
    if !crate::codec::bytes_eq(&w.client_randomness_commitment, &commitment) {
        return false;
    }
    let mut signed = crate::codec::clone_bytes(&w.true_value);
    signed.extend_from_slice(w.time.as_slice());
    proof {
        assert(signed@ =~= w.true_value@ + w.time@);
    }
    if !config.sig_verify(client_sig_params, &w.client_sig_pk, &signed, &w.true_value_signature) {
        return false;
    }
    if !crate::bytes::le_bytes_lt(&w.time_lower_bound, &w.time) {
        return false;
    }
    if !crate::bytes::le_bytes_le(&w.time, &w.time_upper_bound) {
        return false;
    }
    eval_ldp_claim(ps, gamma_enc, &crate::bytes::xor_bytes(
        &w.client_randomness,
        &w.server_randomness,
    ), &w.true_value, w.ldp_value)
}

/// Evaluate the Expand circuit relation on concrete values.
pub fn circuit_eval_expand<C: Config>(
    config: &C,
    ps: &ProtocolSpec,
    commitment_params: &Vec<u8>,
    client_sig_params: &Vec<u8>,
    merkle_leaf_params: &Vec<u8>,
    merkle_node_params: &Vec<u8>,
    gamma_enc: &Vec<u8>,
    w: &WitnessExpand,
) -> (r: bool)
    ensures
        r == expand_relation::<C>(
            *ps,
            commitment_params@,
            client_sig_params@,
            merkle_leaf_params@,
            merkle_node_params@,
            gamma_enc@,
            *w,
        ),
{
    if !ps.validate() || w.time_lower_bound.len() != ps.time_bytes || w.time_upper_bound.len()
        != ps.time_bytes || w.time.len() != ps.time_bytes || w.true_value.len() != ps.input_bytes
        || w.client_randomness.len() != ps.randomness_bytes || w.server_randomness.len()
        != ps.randomness_bytes || gamma_enc.len() != ps.gamma_bytes {
        return false;
    }
    let commitment = config.commit_with(
        commitment_params,
        &w.client_randomness,
        &w.commitment_randomness,
    );
    if !config.merkle_verify(
        merkle_leaf_params,
        merkle_node_params,
        &w.client_merkle_tree_root,
        w.index,
        &commitment,
        &w.merkle_path,
    ) {
        return false;
    }
    let mut signed = crate::codec::clone_bytes(&w.true_value);
    signed.extend_from_slice(w.time.as_slice());
    proof {
        assert(signed@ =~= w.true_value@ + w.time@);
    }
    if !config.sig_verify(client_sig_params, &w.client_sig_pk, &signed, &w.true_value_signature) {
        return false;
    }
    if !crate::bytes::le_bytes_lt(&w.time_lower_bound, &w.time) {
        return false;
    }
    if !crate::bytes::le_bytes_le(&w.time, &w.time_upper_bound) {
        return false;
    }
    eval_ldp_claim(ps, gamma_enc, &crate::bytes::xor_bytes(
        &w.client_randomness,
        &w.server_randomness,
    ), &w.true_value, w.ldp_value)
}

/// Evaluate the Shuffle circuit relation on concrete values.  The
/// evaluation points must have the PRF's input width, as every honest
/// party's points do.
pub fn circuit_eval_shuffle<C: Config>(
    config: &C,
    ps: &ProtocolSpec,
    commitment_params: &Vec<u8>,
    server_sig_params: &Vec<u8>,
    client_sig_params: &Vec<u8>,
    gamma_enc: &Vec<u8>,
    w: &WitnessShuffle,
) -> (r: bool)
    requires
        forall|i: int|
            0 <= i < w.prf_eval_points@.len() ==> #[trigger] w.prf_eval_points@[i]@.len() == 32,
    ensures
        r == shuffle_relation::<C>(
            *ps,
            commitment_params@,
            server_sig_params@,
            client_sig_params@,
            gamma_enc@,
            *w,
        ),
{
    if !ps.validate() || w.time_lower_bound.len() != ps.time_bytes || w.time_upper_bound.len()
        != ps.time_bytes || w.time.len() != ps.time_bytes || w.true_value.len() != ps.input_bytes
        || w.client_seed.len() != 32 || w.server_seed.len() != 32 || gamma_enc.len()
        != ps.gamma_bytes {
        return false;
    }
    let commitment = config.commit_with(commitment_params, &w.client_seed, &w.commitment_randomness);
    if !crate::codec::bytes_eq(&w.client_seed_commitment, &commitment) {
        return false;
    }
    let signing_input = crate::messages_shuffle::GenerateRandomnessSignatureInputShuffle {
        client_seed_commitment: crate::codec::clone_bytes(&w.client_seed_commitment),
        client_signature_public_key: crate::codec::clone_bytes(&w.client_sig_pk),
        server_seed: crate::codec::clone_bytes(&w.server_seed),
    };
    let signing_input_bytes = signing_input.serialize();
    if !config.sig_verify(
        server_sig_params,
        &w.server_sig_pk,
        &signing_input_bytes,
        &w.server_signature,
    ) {
        return false;
    }
    let mut signed = crate::codec::clone_bytes(&w.true_value);
    signed.extend_from_slice(w.time.as_slice());
    proof {
        assert(signed@ =~= w.true_value@ + w.time@);
    }
    if !config.sig_verify(client_sig_params, &w.client_sig_pk, &signed, &w.true_value_signature) {
        return false;
    }
    if !crate::bytes::le_bytes_lt(&w.time_lower_bound, &w.time) {
        return false;
    }
    if !crate::bytes::le_bytes_le(&w.time, &w.time_upper_bound) {
        return false;
    }
    let seed = crate::bytes::xor_bytes(&w.client_seed, &w.server_seed);
    let randomness = expand_randomness_with_points(
        config,
        &seed,
        &w.prf_eval_points,
        ps.randomness_bytes,
    );
    eval_ldp_claim(ps, gamma_enc, &randomness, &w.true_value, w.ldp_value)
}

/// Whether `claimed` is the mechanism's output for the given randomness
/// and true value.
fn eval_ldp_claim(
    ps: &ProtocolSpec,
    gamma_enc: &Vec<u8>,
    randomness: &Vec<u8>,
    true_value: &Vec<u8>,
    claimed: u64,
) -> (r: bool)
    requires
        ps.wf(),
        gamma_enc@.len() == ps.gamma_bytes,
        randomness@.len() == ps.randomness_bytes,
        true_value@.len() == ps.input_bytes,
    ensures
        r == (claimed == ldp_value_spec(*ps, gamma_enc@, randomness@, true_value@)),
{
    let gate_slice = crate::bytes::sub_vec(randomness, 0, ps.gamma_bytes);
    proof {
        assert(gate_slice@ =~= randomness@.take(ps.gamma_bytes as int));
    }
    let gate = crate::bytes::le_bytes_le(&gate_slice, gamma_enc);
    if !ps.is_real_input && !gate {
        if !crate::bytes::le_fits_u64(true_value) {
            // the pass-through value exceeds any claimable machine word
            return false;
        }
    }
    let v = crate::ldp::ldp_apply(ps, gamma_enc, randomness, true_value);
    claimed == v
}

/// The Base circuit's public-input order.  This order is an ABI: the prover
/// assembles it and the verifier must rebuild it identically.
pub open spec fn base_publics(
    ldp_value: u64,
    lb: Seq<u8>,
    ub: Seq<u8>,
    client_sig_pk: Seq<u8>,
    commitment: Seq<u8>,
    server_randomness: Seq<u8>,
) -> Seq<Seq<u8>> {
    seq![u64_le_seq(ldp_value), lb, ub, client_sig_pk, commitment, server_randomness]
}

/// The Expand circuit's public-input order.
pub open spec fn expand_publics(
    ldp_value: u64,
    lb: Seq<u8>,
    ub: Seq<u8>,
    client_sig_pk: Seq<u8>,
    root: Seq<u8>,
    index: u64,
    server_randomness: Seq<u8>,
) -> Seq<Seq<u8>> {
    seq![u64_le_seq(ldp_value), lb, ub, client_sig_pk, root, u64_le_seq(index), server_randomness]
}

/// The Shuffle circuit's public-input order.
pub open spec fn shuffle_publics(
    ldp_value: u64,
    lb: Seq<u8>,
    ub: Seq<u8>,
    server_sig_pk: Seq<u8>,
    points: Seq<Seq<u8>>,
) -> Seq<Seq<u8>> {
    seq![u64_le_seq(ldp_value), lb, ub, server_sig_pk] + points
}

/// Assemble the Base public inputs in wire order.
pub fn build_base_publics(
    ldp_value: u64,
    lb: &Vec<u8>,
    ub: &Vec<u8>,
    client_sig_pk: &Vec<u8>,
    commitment: &Vec<u8>,
    server_randomness: &Vec<u8>,
) -> (r: Vec<Vec<u8>>)
    ensures
        r.deep_view() == base_publics(
            ldp_value,
            lb@,
            ub@,
            client_sig_pk@,
            commitment@,
            server_randomness@,
        ),
{
    let mut r: Vec<Vec<u8>> = Vec::new();
    let mut lv: Vec<u8> = Vec::new();
    crate::bytes::push_u64_le(&mut lv, ldp_value);
    proof {
        assert(lv@ =~= u64_le_seq(ldp_value));
    }
    r.push(lv);
    r.push(clone_bytes(lb));
    r.push(clone_bytes(ub));
    r.push(clone_bytes(client_sig_pk));
    r.push(clone_bytes(commitment));
    r.push(clone_bytes(server_randomness));
    proof {
        assert(r.deep_view() =~~= base_publics(
            ldp_value,
            lb@,
            ub@,
            client_sig_pk@,
            commitment@,
            server_randomness@,
        ));
    }
    r
}

/// Assemble the Expand public inputs in wire order.
pub fn build_expand_publics(
    ldp_value: u64,
    lb: &Vec<u8>,
    ub: &Vec<u8>,
    client_sig_pk: &Vec<u8>,
    root: &Vec<u8>,
    index: u64,
    server_randomness: &Vec<u8>,
) -> (r: Vec<Vec<u8>>)
    ensures
        r.deep_view() == expand_publics(
            ldp_value,
            lb@,
            ub@,
            client_sig_pk@,
            root@,
            index,
            server_randomness@,
        ),
{
    let mut r: Vec<Vec<u8>> = Vec::new();
    let mut lv: Vec<u8> = Vec::new();
    crate::bytes::push_u64_le(&mut lv, ldp_value);
    proof {
        assert(lv@ =~= u64_le_seq(ldp_value));
    }
    r.push(lv);
    r.push(clone_bytes(lb));
    r.push(clone_bytes(ub));
    r.push(clone_bytes(client_sig_pk));
    r.push(clone_bytes(root));
    let mut iv: Vec<u8> = Vec::new();
    crate::bytes::push_u64_le(&mut iv, index);
    proof {
        assert(iv@ =~= u64_le_seq(index));
    }
    r.push(iv);
    r.push(clone_bytes(server_randomness));
    proof {
        assert(r.deep_view() =~~= expand_publics(
            ldp_value,
            lb@,
            ub@,
            client_sig_pk@,
            root@,
            index,
            server_randomness@,
        ));
    }
    r
}

/// Assemble the Shuffle public inputs in wire order.
pub fn build_shuffle_publics(
    ldp_value: u64,
    lb: &Vec<u8>,
    ub: &Vec<u8>,
    server_sig_pk: &Vec<u8>,
    points: &Vec<Vec<u8>>,
) -> (r: Vec<Vec<u8>>)
    ensures
        r.deep_view() == shuffle_publics(ldp_value, lb@, ub@, server_sig_pk@, points.deep_view()),
{
    let mut r: Vec<Vec<u8>> = Vec::new();
    let mut lv: Vec<u8> = Vec::new();
    crate::bytes::push_u64_le(&mut lv, ldp_value);
    proof {
        assert(lv@ =~= u64_le_seq(ldp_value));
    }
    r.push(lv);
    r.push(clone_bytes(lb));
    r.push(clone_bytes(ub));
    r.push(clone_bytes(server_sig_pk));
    let mut i: usize = 0;
    while i < points.len()
        invariant
            i <= points@.len(),
            r@.len() == 4 + i,
            r@[0]@ == u64_le_seq(ldp_value),
            r@[1]@ == lb@,
            r@[2]@ == ub@,
            r@[3]@ == server_sig_pk@,
            forall|t: int| 0 <= t < i ==> #[trigger] r@[4 + t]@ == points@[t]@,
        decreases points@.len() - i,
    {
        r.push(clone_bytes(&points[i]));
        i = i + 1;
    }
    proof {
        let want = shuffle_publics(ldp_value, lb@, ub@, server_sig_pk@, points.deep_view());
        assert forall|t: int| 0 <= t < r@.len() implies r.deep_view()[t] == want[t] by {
            if t >= 4 {
                assert(r@[4 + (t - 4)]@ == points@[t - 4]@);
            }
        }
        assert(r.deep_view() =~= want);
    }
    r
}

} // verus!
