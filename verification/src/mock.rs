//! A deterministic, hash-based primitive bundle.
//!
//! Every primitive is derived from Blake2s over canonically encoded inputs,
//! and the proof system simply binds a digest to the public inputs.  None of
//! this is cryptographically sound — it exists so the protocol can be run
//! end to end in tests and examples, and it shows that the contracts of
//! `Config` are satisfiable.

use vstd::prelude::*;

verus! {

use crate::circuit::{build_base_publics, build_expand_publics, build_shuffle_publics,
    WitnessBase, WitnessExpand, WitnessShuffle};
use crate::codec::{blocks_enc, bytes_eq, clone_bytes, encode_blocks, prepend_block};
use crate::config::{Config, EntropySource};
use crate::crh::{blake2s_digest, Blake2s256};
use crate::bytes::{push_u64_le, u64_le_seq};
use crate::ldp::ProtocolSpec;
use crate::params::{ParametersBase, ParametersExpand, ParametersShuffle};

/// A deterministic byte source: successive Blake2s digests of a seed and a
/// counter.  Good enough for tests; promise nothing of the values.
pub struct MockRng {
    pub seed: Vec<u8>,
    pub counter: u64,
}

impl MockRng {
    /// A source that will replay the same stream for the same seed.
    pub fn from_seed(seed: Vec<u8>) -> (r: MockRng)
        ensures
            r.seed@ == seed@,
            r.counter == 0,
    {
        MockRng { seed, counter: 0 }
    }
}

impl EntropySource for MockRng {
    fn fill_bytes(&mut self, n: usize) -> (r: Vec<u8>) {
        let mut out: Vec<u8> = Vec::new();
        while out.len() < n
            invariant
                out@.len() <= n,
            decreases n - out@.len(),
        {
            let mut inp = clone_bytes(&self.seed);
            push_u64_le(&mut inp, self.counter);
            self.counter = if self.counter == u64::MAX {
                0
            } else {
                self.counter + 1
            };
            let block = Blake2s256::evaluate(&inp);
            let ghost before = out@.len();
            let mut t: usize = 0;
            while t < 32 && out.len() < n
                invariant
                    out@.len() <= n,
                    t <= 32,
                    out@.len() == before + t,
                    block@.len() == 32,
                decreases 32 - t,
            {
                out.push(block[t]);
                t = t + 1;
            }
        }
        out
    }
}

/// The digest of a canonically encoded block sequence.
fn hash_blocks(blocks: &Vec<Vec<u8>>) -> (r: Vec<u8>)
    ensures
        r@ == blake2s_digest(blocks_enc(blocks.deep_view())),
        r@.len() == 32,
{
    let encoded = encode_blocks(blocks);
    Blake2s256::evaluate(&encoded)
}

/// The hash-based primitive bundle.
#[derive(Clone, Copy)]
pub struct MockConfig;

impl Config for MockConfig {
    type Rng = MockRng;

    open spec fn commit_spec(params: Seq<u8>, input: Seq<u8>, randomness: Seq<u8>) -> Seq<u8> {
        blake2s_digest(blocks_enc(seq![params, input, randomness]))
    }

    open spec fn sig_verify_spec(
        params: Seq<u8>,
        pk: Seq<u8>,
        message: Seq<u8>,
        signature: Seq<u8>,
    ) -> bool {
        signature == blake2s_digest(blocks_enc(seq![params, pk, message]))
    }

    open spec fn sig_keypair_spec(params: Seq<u8>, pk: Seq<u8>, sk: Seq<u8>) -> bool {
        pk == blake2s_digest(blocks_enc(seq![params, sk]))
    }

    open spec fn prf_spec(seed: Seq<u8>, point: Seq<u8>) -> Seq<u8> {
        blake2s_digest(blocks_enc(seq![seed, point]))
    }

    open spec fn merkle_member_spec(
        leaf_params: Seq<u8>,
        node_params: Seq<u8>,
        root: Seq<u8>,
        index: u64,
        leaf: Seq<u8>,
        path: Seq<u8>,
    ) -> bool {
        root == blake2s_digest(
            blocks_enc(seq![leaf_params, node_params, u64_le_seq(index), leaf]),
        )
    }

    open spec fn zkp_keypair_spec(pk: Seq<u8>, vk: Seq<u8>) -> bool {
        vk == blake2s_digest(pk)
    }

    open spec fn zkp_verify_spec(vk: Seq<u8>, public_inputs: Seq<Seq<u8>>, proof: Seq<u8>) -> bool {
        proof == blake2s_digest(blocks_enc(seq![vk] + public_inputs))
    }

    fn commitment_setup(&self, rng: &mut MockRng) -> Vec<u8> {
        rng.fill_bytes(16)
    }

    fn signature_setup(&self, rng: &mut MockRng) -> Vec<u8> {
        rng.fill_bytes(16)
    }

    fn merkle_setup(&self, rng: &mut MockRng) -> (Vec<u8>, Vec<u8>) {
        (rng.fill_bytes(8), rng.fill_bytes(8))
    }

    fn sig_keygen(&self, params: &Vec<u8>, rng: &mut MockRng) -> (kp: (Vec<u8>, Vec<u8>)) {
        let sk = rng.fill_bytes(32);
        let mut blocks: Vec<Vec<u8>> = Vec::new();
        blocks.push(clone_bytes(params));
        blocks.push(clone_bytes(&sk));
        proof {
            assert(blocks.deep_view() =~~= seq![params@, sk@]);
        }
        let pk = hash_blocks(&blocks);
        (pk, sk)
    }

    fn sig_sign(&self, params: &Vec<u8>, sk: &Vec<u8>, message: &Vec<u8>, rng: &mut MockRng) -> (sig: Vec<u8>) {
        let mut kb: Vec<Vec<u8>> = Vec::new();
        kb.push(clone_bytes(params));
        kb.push(clone_bytes(sk));
        proof {
            assert(kb.deep_view() =~~= seq![params@, sk@]);
        }
        let pk = hash_blocks(&kb);
        let mut blocks: Vec<Vec<u8>> = Vec::new();
        blocks.push(clone_bytes(params));
        blocks.push(pk);
        blocks.push(clone_bytes(message));
        proof {
            assert(blocks.deep_view() =~~= seq![
                params@,
                blake2s_digest(blocks_enc(seq![params@, sk@])),
                message@,
            ]);
        }
        hash_blocks(&blocks)
    }

    fn sig_verify(&self, params: &Vec<u8>, pk: &Vec<u8>, message: &Vec<u8>, signature: &Vec<u8>) -> (r: bool) {
        let mut blocks: Vec<Vec<u8>> = Vec::new();
        blocks.push(clone_bytes(params));
        blocks.push(clone_bytes(pk));
        blocks.push(clone_bytes(message));
        proof {
            assert(blocks.deep_view() =~~= seq![params@, pk@, message@]);
        }
        let expected = hash_blocks(&blocks);
        bytes_eq(signature, &expected)
    }

    fn sample_commitment_randomness(&self, rng: &mut MockRng) -> Vec<u8> {
        rng.fill_bytes(32)
    }

    fn commit_with(&self, params: &Vec<u8>, input: &Vec<u8>, randomness: &Vec<u8>) -> (c: Vec<u8>) {
        let mut blocks: Vec<Vec<u8>> = Vec::new();
        blocks.push(clone_bytes(params));
        blocks.push(clone_bytes(input));
        blocks.push(clone_bytes(randomness));
        proof {
            assert(blocks.deep_view() =~~= seq![params@, input@, randomness@]);
        }
        hash_blocks(&blocks)
    }

    fn prf_evaluate(&self, seed: &Vec<u8>, point: &Vec<u8>) -> (r: Vec<u8>) {
        let mut blocks: Vec<Vec<u8>> = Vec::new();
        blocks.push(clone_bytes(seed));
        blocks.push(clone_bytes(point));
        proof {
            assert(blocks.deep_view() =~~= seq![seed@, point@]);
        }
        hash_blocks(&blocks)
    }

    fn merkle_verify(
        &self,
        leaf_params: &Vec<u8>,
        node_params: &Vec<u8>,
        root: &Vec<u8>,
        index: u64,
        leaf: &Vec<u8>,
        path: &Vec<u8>,
    ) -> (r: bool) {
        let mut blocks: Vec<Vec<u8>> = Vec::new();
        blocks.push(clone_bytes(leaf_params));
        blocks.push(clone_bytes(node_params));
        let mut iv: Vec<u8> = Vec::new();
        push_u64_le(&mut iv, index);
        proof {
            assert(iv@ =~= u64_le_seq(index));
        }
        blocks.push(iv);
        blocks.push(clone_bytes(leaf));
        proof {
            assert(blocks.deep_view() =~~= seq![
                leaf_params@,
                node_params@,
                u64_le_seq(index),
                leaf@,
            ]);
        }
        let expected = hash_blocks(&blocks);
        bytes_eq(root, &expected)
    }

    fn zkp_verify(&self, vk: &Vec<u8>, public_inputs: &Vec<Vec<u8>>, proof: &Vec<u8>) -> (r: bool) {
        let blocks = prepend_block(vk, public_inputs);
        let expected = hash_blocks(&blocks);
        bytes_eq(proof, &expected)
    }

    fn zkp_keygen_base(&self, ps: &ProtocolSpec, params: &ParametersBase, rng: &mut MockRng) -> (kp: (
        Vec<u8>,
        Vec<u8>,
    )) {
        let pk = rng.fill_bytes(32);
        let vk = Blake2s256::evaluate(&pk);
        (pk, vk)
    }

    fn zkp_keygen_expand(&self, ps: &ProtocolSpec, params: &ParametersExpand, rng: &mut MockRng) -> (kp: (
        Vec<u8>,
        Vec<u8>,
    )) {
        let pk = rng.fill_bytes(32);
        let vk = Blake2s256::evaluate(&pk);
        (pk, vk)
    }

    fn zkp_keygen_shuffle(&self, ps: &ProtocolSpec, params: &ParametersShuffle, rng: &mut MockRng) -> (kp: (
        Vec<u8>,
        Vec<u8>,
    )) {
        let pk = rng.fill_bytes(32);
        let vk = Blake2s256::evaluate(&pk);
        (pk, vk)
    }

    fn zkp_prove_base(
        &self,
        proving_key: &Vec<u8>,
        ps: &ProtocolSpec,
        params: &ParametersBase,
        gamma_enc: &Vec<u8>,
        w: &WitnessBase,
        rng: &mut MockRng,
    ) -> (proof: Vec<u8>) {
        let publics = build_base_publics(
            w.ldp_value,
            &w.time_lower_bound,
            &w.time_upper_bound,
            &w.client_sig_pk,
            &w.client_randomness_commitment,
            &w.server_randomness,
        );
        let vk = Blake2s256::evaluate(proving_key);
        let blocks = prepend_block(&vk, &publics);
        hash_blocks(&blocks)
    }

    fn zkp_prove_expand(
        &self,
        proving_key: &Vec<u8>,
        ps: &ProtocolSpec,
        params: &ParametersExpand,
        gamma_enc: &Vec<u8>,
        w: &WitnessExpand,
        rng: &mut MockRng,
    ) -> (proof: Vec<u8>) {
        let publics = build_expand_publics(
            w.ldp_value,
            &w.time_lower_bound,
            &w.time_upper_bound,
            &w.client_sig_pk,
            &w.client_merkle_tree_root,
            w.index,
            &w.server_randomness,
        );
        let vk = Blake2s256::evaluate(proving_key);
        let blocks = prepend_block(&vk, &publics);
        hash_blocks(&blocks)
    }

    fn zkp_prove_shuffle(
        &self,
        proving_key: &Vec<u8>,
        ps: &ProtocolSpec,
        params: &ParametersShuffle,
        gamma_enc: &Vec<u8>,
        w: &WitnessShuffle,
        rng: &mut MockRng,
    ) -> (proof: Vec<u8>) {
        let publics = build_shuffle_publics(
            w.ldp_value,
            &w.time_lower_bound,
            &w.time_upper_bound,
            &w.server_sig_pk,
            &w.prf_eval_points,
        );
        let vk = Blake2s256::evaluate(proving_key);
        let blocks = prepend_block(&vk, &publics);
        hash_blocks(&blocks)
    }
}

} // verus!
