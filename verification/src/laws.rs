//! Protocol-level statements proved once and for all.
//!
//! These laws relate the contracts of the clients, the servers, the codec
//! and the circuit relations; they are part of what the library promises,
//! not helpers for its implementation.

use vstd::prelude::*;

verus! {

use crate::bytes::{le_nat, lemma_u64_le_seq, u64_le_seq, xor_seq};
use crate::circuit::{base_publics, base_relation, expand_publics, expand_relation,
    expand_with_points, shuffle_publics, shuffle_relation, WitnessBase, WitnessExpand,
    WitnessShuffle};
use crate::codec::lemma_blocks_enc_injective;
use crate::config::Config;
use crate::ldp::{ldp_value_spec, ProtocolSpec};
use crate::messages_base::VerifiableRandomizationMessageBase;
use crate::messages_expand::VerifiableRandomizationMessageExpand;
use crate::messages_shuffle::VerifiableRandomizationMessageShuffle;

/// A witness assembled honestly — the commitment opens, the true value's
/// signature verifies, the time lies inside the window, and the claimed
/// value is the reference mechanism's output on the combined randomness —
/// satisfies the Base circuit relation.
pub proof fn lemma_base_honest_witness<C: Config>(
    ps: ProtocolSpec,
    commitment_params: Seq<u8>,
    client_sig_params: Seq<u8>,
    gamma_enc: Seq<u8>,
    w: WitnessBase,
)
    requires
        ps.wf(),
        gamma_enc.len() == ps.gamma_bytes,
        w.time_lower_bound@.len() == ps.time_bytes,
        w.time_upper_bound@.len() == ps.time_bytes,
        w.time@.len() == ps.time_bytes,
        w.true_value@.len() == ps.input_bytes,
        w.client_randomness@.len() == ps.randomness_bytes,
        w.server_randomness@.len() == ps.randomness_bytes,
        w.client_randomness_commitment@ == C::commit_spec(
            commitment_params,
            w.client_randomness@,
            w.commitment_randomness@,
        ),
        C::sig_verify_spec(
            client_sig_params,
            w.client_sig_pk@,
            w.true_value@ + w.time@,
            w.true_value_signature@,
        ),
        le_nat(w.time_lower_bound@) < le_nat(w.time@),
        le_nat(w.time@) <= le_nat(w.time_upper_bound@),
        w.ldp_value == ldp_value_spec(
            ps,
            gamma_enc,
            xor_seq(w.client_randomness@, w.server_randomness@),
            w.true_value@,
        ),
    ensures
        base_relation::<C>(ps, commitment_params, client_sig_params, gamma_enc, w),
{
}

/// The Base circuit relation admits no witness outside the time window:
/// the lower bound is strict and the upper bound inclusive.
pub proof fn lemma_base_relation_window<C: Config>(
    ps: ProtocolSpec,
    commitment_params: Seq<u8>,
    client_sig_params: Seq<u8>,
    gamma_enc: Seq<u8>,
    w: WitnessBase,
)
    requires
        base_relation::<C>(ps, commitment_params, client_sig_params, gamma_enc, w),
    ensures
        le_nat(w.time_lower_bound@) < le_nat(w.time@),
        le_nat(w.time@) <= le_nat(w.time_upper_bound@),
{
}

/// The Base circuit relation forces the claimed value to be the reference
/// mechanism's output on the combined randomness: no witness can claim any
/// other value.
pub proof fn lemma_base_relation_value<C: Config>(
    ps: ProtocolSpec,
    commitment_params: Seq<u8>,
    client_sig_params: Seq<u8>,
    gamma_enc: Seq<u8>,
    w: WitnessBase,
)
    requires
        base_relation::<C>(ps, commitment_params, client_sig_params, gamma_enc, w),
    ensures
        w.ldp_value == ldp_value_spec(
            ps,
            gamma_enc,
            xor_seq(w.client_randomness@, w.server_randomness@),
            w.true_value@,
        ),
{
}

/// Completeness of one Base session: when the prover's guarantee holds for
/// a witness that satisfies the relation, and the server checks the proof
/// under the matching verifying key against the same public inputs, the
/// server accepts and the accepted value is the mechanism's output.
pub proof fn lemma_base_completeness<C: Config>(
    ps: ProtocolSpec,
    commitment_params: Seq<u8>,
    client_sig_params: Seq<u8>,
    gamma_enc: Seq<u8>,
    w: WitnessBase,
    proving_key: Seq<u8>,
    vk: Seq<u8>,
    pf: Seq<u8>,
    outcome: (bool, u64),
)
    requires
        base_relation::<C>(ps, commitment_params, client_sig_params, gamma_enc, w),
        base_relation::<C>(ps, commitment_params, client_sig_params, gamma_enc, w)
            ==> forall|vk2: Seq<u8>|
            #[trigger] C::zkp_keypair_spec(proving_key, vk2) ==> C::zkp_verify_spec(
                vk2,
                base_publics(
                    w.ldp_value,
                    w.time_lower_bound@,
                    w.time_upper_bound@,
                    w.client_sig_pk@,
                    w.client_randomness_commitment@,
                    w.server_randomness@,
                ),
                pf,
            ),
        C::zkp_keypair_spec(proving_key, vk),
        outcome.0 == C::zkp_verify_spec(
            vk,
            base_publics(
                w.ldp_value,
                w.time_lower_bound@,
                w.time_upper_bound@,
                w.client_sig_pk@,
                w.client_randomness_commitment@,
                w.server_randomness@,
            ),
            pf,
        ),
        outcome.1 == w.ldp_value,
    ensures
        outcome.0 == true,
        outcome.1 == ldp_value_spec(
            ps,
            gamma_enc,
            xor_seq(w.client_randomness@, w.server_randomness@),
            w.true_value@,
        ),
{
}

/// As `lemma_base_honest_witness`, for the Expand relation: honesty here
/// means the recomputed commitment sits at the claimed leaf of the tree.
pub proof fn lemma_expand_honest_witness<C: Config>(
    ps: ProtocolSpec,
    commitment_params: Seq<u8>,
    client_sig_params: Seq<u8>,
    merkle_leaf_params: Seq<u8>,
    merkle_node_params: Seq<u8>,
    gamma_enc: Seq<u8>,
    w: WitnessExpand,
)
    requires
        ps.wf(),
        gamma_enc.len() == ps.gamma_bytes,
        w.time_lower_bound@.len() == ps.time_bytes,
        w.time_upper_bound@.len() == ps.time_bytes,
        w.time@.len() == ps.time_bytes,
        w.true_value@.len() == ps.input_bytes,
        w.client_randomness@.len() == ps.randomness_bytes,
        w.server_randomness@.len() == ps.randomness_bytes,
        C::merkle_member_spec(
            merkle_leaf_params,
            merkle_node_params,
            w.client_merkle_tree_root@,
            w.index,
            C::commit_spec(commitment_params, w.client_randomness@, w.commitment_randomness@),
            w.merkle_path@,
        ),
        C::sig_verify_spec(
            client_sig_params,
            w.client_sig_pk@,
            w.true_value@ + w.time@,
            w.true_value_signature@,
        ),
        le_nat(w.time_lower_bound@) < le_nat(w.time@),
        le_nat(w.time@) <= le_nat(w.time_upper_bound@),
        w.ldp_value == ldp_value_spec(
            ps,
            gamma_enc,
            xor_seq(w.client_randomness@, w.server_randomness@),
            w.true_value@,
        ),
    ensures
        expand_relation::<C>(
            ps,
            commitment_params,
            client_sig_params,
            merkle_leaf_params,
            merkle_node_params,
            gamma_enc,
            w,
        ),
{
}

/// Completeness of one Expand session, as `lemma_base_completeness`.
pub proof fn lemma_expand_completeness<C: Config>(
    ps: ProtocolSpec,
    commitment_params: Seq<u8>,
    client_sig_params: Seq<u8>,
    merkle_leaf_params: Seq<u8>,
    merkle_node_params: Seq<u8>,
    gamma_enc: Seq<u8>,
    w: WitnessExpand,
    proving_key: Seq<u8>,
    vk: Seq<u8>,
    pf: Seq<u8>,
    outcome: (bool, u64),
)
    requires
        expand_relation::<C>(
            ps,
            commitment_params,
            client_sig_params,
            merkle_leaf_params,
            merkle_node_params,
            gamma_enc,
            w,
        ),
        expand_relation::<C>(
            ps,
            commitment_params,
            client_sig_params,
            merkle_leaf_params,
            merkle_node_params,
            gamma_enc,
            w,
        ) ==> forall|vk2: Seq<u8>|
            #[trigger] C::zkp_keypair_spec(proving_key, vk2) ==> C::zkp_verify_spec(
                vk2,
                expand_publics(
                    w.ldp_value,
                    w.time_lower_bound@,
                    w.time_upper_bound@,
                    w.client_sig_pk@,
                    w.client_merkle_tree_root@,
                    w.index,
                    w.server_randomness@,
                ),
                pf,
            ),
        C::zkp_keypair_spec(proving_key, vk),
        outcome.0 == C::zkp_verify_spec(
            vk,
            expand_publics(
                w.ldp_value,
                w.time_lower_bound@,
                w.time_upper_bound@,
                w.client_sig_pk@,
                w.client_merkle_tree_root@,
                w.index,
                w.server_randomness@,
            ),
            pf,
        ),
        outcome.1 == w.ldp_value,
    ensures
        outcome.0 == true,
        outcome.1 == ldp_value_spec(
            ps,
            gamma_enc,
            xor_seq(w.client_randomness@, w.server_randomness@),
            w.true_value@,
        ),
{
}

/// As `lemma_base_honest_witness`, for the Shuffle relation: honesty here
/// also carries the server's own signature over the canonical signing
/// input, and the randomness is derived from the combined seed.
pub proof fn lemma_shuffle_honest_witness<C: Config>(
    ps: ProtocolSpec,
    commitment_params: Seq<u8>,
    server_sig_params: Seq<u8>,
    client_sig_params: Seq<u8>,
    gamma_enc: Seq<u8>,
    w: WitnessShuffle,
)
    requires
        ps.wf(),
        gamma_enc.len() == ps.gamma_bytes,
        w.time_lower_bound@.len() == ps.time_bytes,
        w.time_upper_bound@.len() == ps.time_bytes,
        w.time@.len() == ps.time_bytes,
        w.true_value@.len() == ps.input_bytes,
        w.client_seed@.len() == 32,
        w.server_seed@.len() == 32,
        w.client_seed_commitment@ == C::commit_spec(
            commitment_params,
            w.client_seed@,
            w.commitment_randomness@,
        ),
        C::sig_verify_spec(
            server_sig_params,
            w.server_sig_pk@,
            crate::messages_shuffle::GenerateRandomnessSignatureInputShuffle::enc(
                w.client_seed_commitment@,
                w.client_sig_pk@,
                w.server_seed@,
            ),
            w.server_signature@,
        ),
        C::sig_verify_spec(
            client_sig_params,
            w.client_sig_pk@,
            w.true_value@ + w.time@,
            w.true_value_signature@,
        ),
        le_nat(w.time_lower_bound@) < le_nat(w.time@),
        le_nat(w.time@) <= le_nat(w.time_upper_bound@),
        w.ldp_value == ldp_value_spec(
            ps,
            gamma_enc,
            expand_with_points::<C>(
                xor_seq(w.client_seed@, w.server_seed@),
                w.prf_eval_points.deep_view(),
                ps.randomness_bytes as nat,
            ),
            w.true_value@,
        ),
    ensures
        shuffle_relation::<C>(
            ps,
            commitment_params,
            server_sig_params,
            client_sig_params,
            gamma_enc,
            w,
        ),
{
}

/// Completeness of one Shuffle session, as `lemma_base_completeness`.
pub proof fn lemma_shuffle_completeness<C: Config>(
    ps: ProtocolSpec,
    commitment_params: Seq<u8>,
    server_sig_params: Seq<u8>,
    client_sig_params: Seq<u8>,
    gamma_enc: Seq<u8>,
    w: WitnessShuffle,
    proving_key: Seq<u8>,
    vk: Seq<u8>,
    pf: Seq<u8>,
    outcome: (bool, u64),
)
    requires
        shuffle_relation::<C>(
            ps,
            commitment_params,
            server_sig_params,
            client_sig_params,
            gamma_enc,
            w,
        ),
        shuffle_relation::<C>(
            ps,
            commitment_params,
            server_sig_params,
            client_sig_params,
            gamma_enc,
            w,
        ) ==> forall|vk2: Seq<u8>|
            #[trigger] C::zkp_keypair_spec(proving_key, vk2) ==> C::zkp_verify_spec(
                vk2,
                shuffle_publics(
                    w.ldp_value,
                    w.time_lower_bound@,
                    w.time_upper_bound@,
                    w.server_sig_pk@,
                    w.prf_eval_points.deep_view(),
                ),
                pf,
            ),
        C::zkp_keypair_spec(proving_key, vk),
        outcome.0 == C::zkp_verify_spec(
            vk,
            shuffle_publics(
                w.ldp_value,
                w.time_lower_bound@,
                w.time_upper_bound@,
                w.server_sig_pk@,
                w.prf_eval_points.deep_view(),
            ),
            pf,
        ),
        outcome.1 == w.ldp_value,
    ensures
        outcome.0 == true,
        outcome.1 == ldp_value_spec(
            ps,
            gamma_enc,
            expand_with_points::<C>(
                xor_seq(w.client_seed@, w.server_seed@),
                w.prf_eval_points.deep_view(),
                ps.randomness_bytes as nat,
            ),
            w.true_value@,
        ),
{
}

/// The Expand and Shuffle relations admit no witness outside the time
/// window either.
pub proof fn lemma_expand_relation_window<C: Config>(
    ps: ProtocolSpec,
    commitment_params: Seq<u8>,
    client_sig_params: Seq<u8>,
    merkle_leaf_params: Seq<u8>,
    merkle_node_params: Seq<u8>,
    gamma_enc: Seq<u8>,
    w: WitnessExpand,
)
    requires
        expand_relation::<C>(
            ps,
            commitment_params,
            client_sig_params,
            merkle_leaf_params,
            merkle_node_params,
            gamma_enc,
            w,
        ),
    ensures
        le_nat(w.time_lower_bound@) < le_nat(w.time@),
        le_nat(w.time@) <= le_nat(w.time_upper_bound@),
{
}

/// See `lemma_expand_relation_window`.
pub proof fn lemma_shuffle_relation_window<C: Config>(
    ps: ProtocolSpec,
    commitment_params: Seq<u8>,
    server_sig_params: Seq<u8>,
    client_sig_params: Seq<u8>,
    gamma_enc: Seq<u8>,
    w: WitnessShuffle,
)
    requires
        shuffle_relation::<C>(
            ps,
            commitment_params,
            server_sig_params,
            client_sig_params,
            gamma_enc,
            w,
        ),
    ensures
        le_nat(w.time_lower_bound@) < le_nat(w.time@),
        le_nat(w.time@) <= le_nat(w.time_upper_bound@),
{
}

/// The Expand circuit relation binds the public leaf index: its membership
/// check is over exactly the claimed index and the recomputed commitment,
/// so a leaf cannot be claimed at another position.
pub proof fn lemma_expand_relation_index<C: Config>(
    ps: ProtocolSpec,
    commitment_params: Seq<u8>,
    client_sig_params: Seq<u8>,
    merkle_leaf_params: Seq<u8>,
    merkle_node_params: Seq<u8>,
    gamma_enc: Seq<u8>,
    w: WitnessExpand,
)
    requires
        expand_relation::<C>(
            ps,
            commitment_params,
            client_sig_params,
            merkle_leaf_params,
            merkle_node_params,
            gamma_enc,
            w,
        ),
    ensures
        C::merkle_member_spec(
            merkle_leaf_params,
            merkle_node_params,
            w.client_merkle_tree_root@,
            w.index,
            C::commit_spec(commitment_params, w.client_randomness@, w.commitment_randomness@),
            w.merkle_path@,
        ),
{
}

/// The wire encoding of a Base randomization message determines every
/// field: two messages with one encoding are the same message.  Together
/// with the deserializers' contracts this gives the round trip, and it
/// means a flipped byte can never pass for the original message.
pub proof fn lemma_vrm_base_enc_injective(
    k1: Seq<u8>, c1: Seq<u8>, s1: Seq<u8>, g1: Seq<u8>, f1: Seq<u8>, v1: u64,
    k2: Seq<u8>, c2: Seq<u8>, s2: Seq<u8>, g2: Seq<u8>, f2: Seq<u8>, v2: u64,
)
    requires
        k1.len() <= u64::MAX, c1.len() <= u64::MAX, s1.len() <= u64::MAX,
        g1.len() <= u64::MAX, f1.len() <= u64::MAX,
        k2.len() <= u64::MAX, c2.len() <= u64::MAX, s2.len() <= u64::MAX,
        g2.len() <= u64::MAX, f2.len() <= u64::MAX,
        VerifiableRandomizationMessageBase::enc(k1, c1, s1, g1, f1, v1)
            == VerifiableRandomizationMessageBase::enc(k2, c2, s2, g2, f2, v2),
    ensures
        k1 == k2 && c1 == c2 && s1 == s2 && g1 == g2 && f1 == f2 && v1 == v2,
{
    lemma_u64_le_seq(v1);
    lemma_u64_le_seq(v2);
    lemma_blocks_enc_injective(
        seq![k1, c1, s1, g1, f1, u64_le_seq(v1)],
        seq![k2, c2, s2, g2, f2, u64_le_seq(v2)],
    );
    assert(seq![k1, c1, s1, g1, f1, u64_le_seq(v1)][5] == seq![k2, c2, s2, g2, f2, u64_le_seq(
        v2,
    )][5]);
    assert(le_nat(u64_le_seq(v1)) == le_nat(u64_le_seq(v2)));
}

/// The wire encoding of an Expand randomization message determines every
/// field.
pub proof fn lemma_vrm_expand_enc_injective(
    k1: Seq<u8>, c1: Seq<u8>, s1: Seq<u8>, g1: Seq<u8>, f1: Seq<u8>, v1: u64,
    k2: Seq<u8>, c2: Seq<u8>, s2: Seq<u8>, g2: Seq<u8>, f2: Seq<u8>, v2: u64,
)
    requires
        k1.len() <= u64::MAX, c1.len() <= u64::MAX, s1.len() <= u64::MAX,
        g1.len() <= u64::MAX, f1.len() <= u64::MAX,
        k2.len() <= u64::MAX, c2.len() <= u64::MAX, s2.len() <= u64::MAX,
        g2.len() <= u64::MAX, f2.len() <= u64::MAX,
        VerifiableRandomizationMessageExpand::enc(k1, c1, s1, g1, f1, v1)
            == VerifiableRandomizationMessageExpand::enc(k2, c2, s2, g2, f2, v2),
    ensures
        k1 == k2 && c1 == c2 && s1 == s2 && g1 == g2 && f1 == f2 && v1 == v2,
{
    lemma_u64_le_seq(v1);
    lemma_u64_le_seq(v2);
    lemma_blocks_enc_injective(
        seq![k1, c1, s1, g1, f1, u64_le_seq(v1)],
        seq![k2, c2, s2, g2, f2, u64_le_seq(v2)],
    );
    assert(seq![k1, c1, s1, g1, f1, u64_le_seq(v1)][5] == seq![k2, c2, s2, g2, f2, u64_le_seq(
        v2,
    )][5]);
    assert(le_nat(u64_le_seq(v1)) == le_nat(u64_le_seq(v2)));
}

/// The wire encoding of a Shuffle randomization message determines both
/// fields.
pub proof fn lemma_vrm_shuffle_enc_injective(
    f1: Seq<u8>, v1: u64,
    f2: Seq<u8>, v2: u64,
)
    requires
        f1.len() <= u64::MAX,
        f2.len() <= u64::MAX,
        VerifiableRandomizationMessageShuffle::enc(f1, v1)
            == VerifiableRandomizationMessageShuffle::enc(f2, v2),
    ensures
        f1 == f2 && v1 == v2,
{
    lemma_u64_le_seq(v1);
    lemma_u64_le_seq(v2);
    lemma_blocks_enc_injective(seq![f1, u64_le_seq(v1)], seq![f2, u64_le_seq(v2)]);
    assert(seq![f1, u64_le_seq(v1)][1] == seq![f2, u64_le_seq(v2)][1]);
    assert(le_nat(u64_le_seq(v1)) == le_nat(u64_le_seq(v2)));
}

} // verus!
