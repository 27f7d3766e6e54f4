//! The primitive capability interfaces.
//!
//! The protocol depends on a commitment scheme, a signature scheme, a PRF,
//! a Merkle membership scheme and a zero-knowledge proof system only through
//! the `Config` trait.  Each executable method carries the contract the
//! protocol relies on, stated over the trait's own specification functions;
//! an implementation supplies concrete primitives.  Randomized operations
//! draw their entropy from an `EntropySource`.

use vstd::prelude::*;

verus! {

use crate::circuit::{
    base_relation_given,
    base_publics,
    expand_relation_given,
    expand_publics,
    shuffle_relation_given,
    shuffle_publics,
    WitnessBase,
    WitnessExpand,
    WitnessShuffle,
};
use crate::bytes::xor_seq;
use crate::ldp::ProtocolSpec;
use crate::params::{ParametersBase, ParametersExpand, ParametersShuffle};

/// A source of random bytes.  Nothing is promised of the values, only the
/// count: every consumer must be correct for every outcome.
pub trait EntropySource {
    fn fill_bytes(&mut self, n: usize) -> (r: Vec<u8>)
        ensures
            r@.len() == n,
    ;
}

/// The primitive bundle one protocol deployment runs on.
///
/// The specification functions name what the primitives compute; they are
/// deliberately abstract.  The executable methods promise no more than what
/// any correct scheme gives: key generation yields a matching pair, signing
/// under a key yields a signature its public key accepts, proving a witness
/// that satisfies the circuit relation yields a proof its verifying key
/// accepts, and the deterministic operations agree with their specification
/// functions.
pub trait Config: Sized {
    type Rng: EntropySource;

    /// The commitment of `input` under `randomness`.
    spec fn commit_spec(params: Seq<u8>, input: Seq<u8>, randomness: Seq<u8>) -> Seq<u8>;

    /// Whether `signature` is valid for `message` under `pk`.
    spec fn sig_verify_spec(params: Seq<u8>, pk: Seq<u8>, message: Seq<u8>, signature: Seq<u8>) -> bool;

    /// Whether `pk` and `sk` form a keypair.
    spec fn sig_keypair_spec(params: Seq<u8>, pk: Seq<u8>, sk: Seq<u8>) -> bool;

    /// The PRF output for one seed and one evaluation point.
    spec fn prf_spec(seed: Seq<u8>, point: Seq<u8>) -> Seq<u8>;

    /// Whether `path` shows `leaf` at position `index` of the tree with the
    /// given `root`.
    spec fn merkle_member_spec(
        leaf_params: Seq<u8>,
        node_params: Seq<u8>,
        root: Seq<u8>,
        index: u64,
        leaf: Seq<u8>,
        path: Seq<u8>,
    ) -> bool;

    /// Whether `pk` and `vk` are a proving/verifying key pair.
    spec fn zkp_keypair_spec(pk: Seq<u8>, vk: Seq<u8>) -> bool;

    /// Whether `proof` convinces `vk` of the given public inputs.
    spec fn zkp_verify_spec(vk: Seq<u8>, public_inputs: Seq<Seq<u8>>, proof: Seq<u8>) -> bool;

    fn commitment_setup(&self, rng: &mut Self::Rng) -> Vec<u8>;

    fn signature_setup(&self, rng: &mut Self::Rng) -> Vec<u8>;

    /// Parameters for the Merkle leaf hash and the inner two-to-one hash.
    fn merkle_setup(&self, rng: &mut Self::Rng) -> (Vec<u8>, Vec<u8>);

    fn sig_keygen(&self, params: &Vec<u8>, rng: &mut Self::Rng) -> (kp: (Vec<u8>, Vec<u8>))
        ensures
            Self::sig_keypair_spec(params@, kp.0@, kp.1@),
    ;

    fn sig_sign(&self, params: &Vec<u8>, sk: &Vec<u8>, message: &Vec<u8>, rng: &mut Self::Rng) -> (sig: Vec<u8>)
        ensures
            forall|pk: Seq<u8>|
                #[trigger] Self::sig_keypair_spec(params@, pk, sk@) ==> Self::sig_verify_spec(
                    params@,
                    pk,
                    message@,
                    sig@,
                ),
    ;

    fn sig_verify(&self, params: &Vec<u8>, pk: &Vec<u8>, message: &Vec<u8>, signature: &Vec<u8>) -> (r: bool)
        ensures
            r == Self::sig_verify_spec(params@, pk@, message@, signature@),
    ;

    /// Fresh commitment randomness; its shape is the scheme's own business.
    fn sample_commitment_randomness(&self, rng: &mut Self::Rng) -> Vec<u8>;

    fn commit_with(&self, params: &Vec<u8>, input: &Vec<u8>, randomness: &Vec<u8>) -> (c: Vec<u8>)
        ensures
            c@ == Self::commit_spec(params@, input@, randomness@),
    ;

    fn prf_evaluate(&self, seed: &Vec<u8>, point: &Vec<u8>) -> (r: Vec<u8>)
        requires
            seed@.len() == 32,
            point@.len() == 32,
        ensures
            r@ == Self::prf_spec(seed@, point@),
            r@.len() == 32,
    ;

    fn merkle_verify(
        &self,
        leaf_params: &Vec<u8>,
        node_params: &Vec<u8>,
        root: &Vec<u8>,
        index: u64,
        leaf: &Vec<u8>,
        path: &Vec<u8>,
    ) -> (r: bool)
        ensures
            r == Self::merkle_member_spec(leaf_params@, node_params@, root@, index, leaf@, path@),
    ;

    fn zkp_verify(&self, vk: &Vec<u8>, public_inputs: &Vec<Vec<u8>>, proof: &Vec<u8>) -> (r: bool)
        ensures
            r == Self::zkp_verify_spec(vk@, public_inputs.deep_view(), proof@),
    ;

    fn zkp_keygen_base(&self, ps: &ProtocolSpec, params: &ParametersBase, rng: &mut Self::Rng) -> (kp: (
        Vec<u8>,
        Vec<u8>,
    ))
        ensures
            Self::zkp_keypair_spec(kp.0@, kp.1@),
    ;

    fn zkp_keygen_expand(&self, ps: &ProtocolSpec, params: &ParametersExpand, rng: &mut Self::Rng) -> (kp: (
        Vec<u8>,
        Vec<u8>,
    ))
        ensures
            Self::zkp_keypair_spec(kp.0@, kp.1@),
    ;

    fn zkp_keygen_shuffle(&self, ps: &ProtocolSpec, params: &ParametersShuffle, rng: &mut Self::Rng) -> (kp: (
        Vec<u8>,
        Vec<u8>,
    ))
        ensures
            Self::zkp_keypair_spec(kp.0@, kp.1@),
    ;

    /// Prove the Base circuit.  Completeness: a witness that satisfies the
    /// circuit relation yields a proof accepted for its public inputs.
    fn zkp_prove_base(
        &self,
        proving_key: &Vec<u8>,
        ps: &ProtocolSpec,
        params: &ParametersBase,
        gamma_enc: &Vec<u8>,
        w: &WitnessBase,
        rng: &mut Self::Rng,
    ) -> (proof: Vec<u8>)
        ensures
            base_relation_given(
                *ps,
                gamma_enc@,
                *w,
                w.client_randomness_commitment@ == Self::commit_spec(
                    params.client_commitment_scheme@,
                    w.client_randomness@,
                    w.commitment_randomness@,
                ),
                Self::sig_verify_spec(
                    params.client_signature_scheme@,
                    w.client_sig_pk@,
                    w.true_value@ + w.time@,
                    w.true_value_signature@,
                ),
            ) ==> forall|vk: Seq<u8>|
                #[trigger] Self::zkp_keypair_spec(proving_key@, vk) ==> Self::zkp_verify_spec(
                    vk,
                    base_publics(
                        w.ldp_value,
                        w.time_lower_bound@,
                        w.time_upper_bound@,
                        w.client_sig_pk@,
                        w.client_randomness_commitment@,
                        w.server_randomness@,
                    ),
                    proof@,
                ),
    ;

    /// Prove the Expand circuit, with the same completeness guarantee.
    fn zkp_prove_expand(
        &self,
        proving_key: &Vec<u8>,
        ps: &ProtocolSpec,
        params: &ParametersExpand,
        gamma_enc: &Vec<u8>,
        w: &WitnessExpand,
        rng: &mut Self::Rng,
    ) -> (proof: Vec<u8>)
        ensures
            expand_relation_given(
                *ps,
                gamma_enc@,
                *w,
                Self::merkle_member_spec(
                    params.client_merkle_tree_scheme.leaf_crh_params@,
                    params.client_merkle_tree_scheme.two_to_one_crh_params@,
                    w.client_merkle_tree_root@,
                    w.index,
                    Self::commit_spec(
                        params.client_commitment_scheme@,
                        w.client_randomness@,
                        w.commitment_randomness@,
                    ),
                    w.merkle_path@,
                ),
                Self::sig_verify_spec(
                    params.client_signature_scheme@,
                    w.client_sig_pk@,
                    w.true_value@ + w.time@,
                    w.true_value_signature@,
                ),
            ) ==> forall|vk: Seq<u8>|
                #[trigger] Self::zkp_keypair_spec(proving_key@, vk) ==> Self::zkp_verify_spec(
                    vk,
                    expand_publics(
                        w.ldp_value,
                        w.time_lower_bound@,
                        w.time_upper_bound@,
                        w.client_sig_pk@,
                        w.client_merkle_tree_root@,
                        w.index,
                        w.server_randomness@,
                    ),
                    proof@,
                ),
    ;

    /// Prove the Shuffle circuit, with the same completeness guarantee.
    fn zkp_prove_shuffle(
        &self,
        proving_key: &Vec<u8>,
        ps: &ProtocolSpec,
        params: &ParametersShuffle,
        gamma_enc: &Vec<u8>,
        w: &WitnessShuffle,
        rng: &mut Self::Rng,
    ) -> (proof: Vec<u8>)
        ensures
            shuffle_relation_given(
                *ps,
                gamma_enc@,
                *w,
                Seq::new(
                    ps.randomness_bytes as nat,
                    |j: int|
                        if j / 32 < w.prf_eval_points.deep_view().len() {
                            Self::prf_spec(
                                xor_seq(w.client_seed@, w.server_seed@),
                                w.prf_eval_points.deep_view()[j / 32],
                            )[j % 32]
                        } else {
                            0u8
                        },
                ),
                w.client_seed_commitment@ == Self::commit_spec(
                    params.client_commitment_scheme@,
                    w.client_seed@,
                    w.commitment_randomness@,
                ),
                Self::sig_verify_spec(
                    params.server_signature_scheme@,
                    w.server_sig_pk@,
                    crate::messages_shuffle::GenerateRandomnessSignatureInputShuffle::enc(
                        w.client_seed_commitment@,
                        w.client_sig_pk@,
                        w.server_seed@,
                    ),
                    w.server_signature@,
                ),
                Self::sig_verify_spec(
                    params.client_signature_scheme@,
                    w.client_sig_pk@,
                    w.true_value@ + w.time@,
                    w.true_value_signature@,
                ),
            ) ==> forall|vk: Seq<u8>|
                #[trigger] Self::zkp_keypair_spec(proving_key@, vk) ==> Self::zkp_verify_spec(
                    vk,
                    shuffle_publics(
                        w.ldp_value,
                        w.time_lower_bound@,
                        w.time_upper_bound@,
                        w.server_sig_pk@,
                        w.prf_eval_points.deep_view(),
                    ),
                    proof@,
                ),
    ;
}

} // verus!
