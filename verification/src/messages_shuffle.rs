//! Messages exchanged between client and server in the Shuffle scheme.
//!
//! Shuffle clients stay anonymous in the randomize phase: the final message
//! carries only the proof and the claimed value, and the signature chain is
//! checked inside the circuit instead.

use vstd::prelude::*;

verus! {

use crate::bytes::{le_range_to_u64, lemma_le_nat_bound, lemma_pow256_words, lemma_u64_le_seq,
    lemma_u64_le_seq_complete, u64_le_seq};
use crate::codec::{blocks_enc, clone_bytes, decode_blocks, encode_blocks,
    lemma_blocks_enc_injective, pop_block, wf_blocks};

/// Message sent by the client to open the randomness-generation phase: its
/// commitment to a fresh seed and its signature public key.
pub struct GenerateRandomnessMessageClientShuffle {
    pub client_seed_commitment: Vec<u8>,
    pub client_signature_public_key: Vec<u8>,
}

impl GenerateRandomnessMessageClientShuffle {
    /// The canonical encoding of this message's fields, in wire order.
    pub open spec fn enc(commitment: Seq<u8>, pk: Seq<u8>) -> Seq<u8> {
        blocks_enc(seq![commitment, pk])
    }

    pub fn serialize(&self) -> (r: Vec<u8>)
        ensures
            r@ == Self::enc(self.client_seed_commitment@, self.client_signature_public_key@),
    {
        let mut blocks: Vec<Vec<u8>> = Vec::new();
        blocks.push(clone_bytes(&self.client_seed_commitment));
        blocks.push(clone_bytes(&self.client_signature_public_key));
        let r = encode_blocks(&blocks);
        proof {
            assert(blocks.deep_view() =~~= seq![
                self.client_seed_commitment@,
                self.client_signature_public_key@,
            ]);
        }
        r
    }

    /// Decode a received message.  Fails exactly when the bytes encode no
    /// such message.
    pub fn deserialize(bytes: &Vec<u8>) -> (r: Option<Self>)
        ensures
            match r {
                Some(m) => bytes@ == Self::enc(
                    m.client_seed_commitment@,
                    m.client_signature_public_key@,
                ) && m.client_seed_commitment@.len() <= u64::MAX
                    && m.client_signature_public_key@.len() <= u64::MAX,
                None => forall|a: Seq<u8>, b: Seq<u8>|
                    a.len() <= u64::MAX && b.len() <= u64::MAX ==> Self::enc(a, b) != bytes@,
            },
    {
        let decoded = decode_blocks(bytes, 2);
        match decoded {
            None => {
                proof {
                    assert forall|a: Seq<u8>, b: Seq<u8>|
                        a.len() <= u64::MAX && b.len() <= u64::MAX implies Self::enc(a, b)
                        != bytes@ by {
                        assert(wf_blocks(seq![a, b]));
                    }
                }
                None
            },
            Some(mut bs) => {
                let ghost dv = bs.deep_view();
                let pk = pop_block(&mut bs);
                let commitment = pop_block(&mut bs);
                proof {
                    assert(dv =~~= seq![commitment@, pk@]);
                }
                Some(GenerateRandomnessMessageClientShuffle {
                    client_seed_commitment: commitment,
                    client_signature_public_key: pk,
                })
            },
        }
    }
}

/// Message sent back by the server: its fresh seed and its signature over
/// the canonical signing input.
pub struct GenerateRandomnessMessageServerShuffle {
    pub server_seed: Vec<u8>,
    pub server_signature: Vec<u8>,
}

impl GenerateRandomnessMessageServerShuffle {
    /// The canonical encoding of this message's fields, in wire order.
    pub open spec fn enc(seed: Seq<u8>, signature: Seq<u8>) -> Seq<u8> {
        blocks_enc(seq![seed, signature])
    }

    pub fn serialize(&self) -> (r: Vec<u8>)
        ensures
            r@ == Self::enc(self.server_seed@, self.server_signature@),
    {
        let mut blocks: Vec<Vec<u8>> = Vec::new();
        blocks.push(clone_bytes(&self.server_seed));
        blocks.push(clone_bytes(&self.server_signature));
        let r = encode_blocks(&blocks);
        proof {
            assert(blocks.deep_view() =~~= seq![self.server_seed@, self.server_signature@]);
        }
        r
    }

    /// Decode a received message.  Fails exactly when the bytes encode no
    /// such message.
    pub fn deserialize(bytes: &Vec<u8>) -> (r: Option<Self>)
        ensures
            match r {
                Some(m) => bytes@ == Self::enc(m.server_seed@, m.server_signature@)
                    && m.server_seed@.len() <= u64::MAX && m.server_signature@.len() <= u64::MAX,
                None => forall|s: Seq<u8>, g: Seq<u8>|
                    s.len() <= u64::MAX && g.len() <= u64::MAX ==> Self::enc(s, g) != bytes@,
            },
    {
        let decoded = decode_blocks(bytes, 2);
        match decoded {
            None => {
                proof {
                    assert forall|s: Seq<u8>, g: Seq<u8>|
                        s.len() <= u64::MAX && g.len() <= u64::MAX implies Self::enc(s, g)
                        != bytes@ by {
                        assert(wf_blocks(seq![s, g]));
                    }
                }
                None
            },
            Some(mut bs) => {
                let ghost dv = bs.deep_view();
                let signature = pop_block(&mut bs);
                let seed = pop_block(&mut bs);
                proof {
                    assert(dv =~~= seq![seed@, signature@]);
                }
                Some(GenerateRandomnessMessageServerShuffle {
                    server_seed: seed,
                    server_signature: signature,
                })
            },
        }
    }
}

/// The record both parties sign and verify in the randomness-generation
/// phase.  It is never transmitted: each side rebuilds it, so the signature
/// binds the seed commitment, the client key and the server seed together.
pub struct GenerateRandomnessSignatureInputShuffle {
    pub client_seed_commitment: Vec<u8>,
    pub client_signature_public_key: Vec<u8>,
    pub server_seed: Vec<u8>,
}

impl GenerateRandomnessSignatureInputShuffle {
    /// The canonical signing input, in wire order.
    pub open spec fn enc(commitment: Seq<u8>, pk: Seq<u8>, seed: Seq<u8>) -> Seq<u8> {
        blocks_enc(seq![commitment, pk, seed])
    }

    /// Build the signing input from a received client message and the seed
    /// the server chose.
    pub fn new(
        client_message: GenerateRandomnessMessageClientShuffle,
        server_seed: Vec<u8>,
    ) -> (r: Self)
        ensures
            r.client_seed_commitment@ == client_message.client_seed_commitment@,
            r.client_signature_public_key@ == client_message.client_signature_public_key@,
            r.server_seed@ == server_seed@,
    {
        GenerateRandomnessSignatureInputShuffle {
            client_seed_commitment: client_message.client_seed_commitment,
            client_signature_public_key: client_message.client_signature_public_key,
            server_seed,
        }
    }

    pub fn serialize(&self) -> (r: Vec<u8>)
        ensures
            r@ == Self::enc(
                self.client_seed_commitment@,
                self.client_signature_public_key@,
                self.server_seed@,
            ),
    {
        let mut blocks: Vec<Vec<u8>> = Vec::new();
        blocks.push(clone_bytes(&self.client_seed_commitment));
        blocks.push(clone_bytes(&self.client_signature_public_key));
        blocks.push(clone_bytes(&self.server_seed));
        let r = encode_blocks(&blocks);
        proof {
            assert(blocks.deep_view() =~~= seq![
                self.client_seed_commitment@,
                self.client_signature_public_key@,
                self.server_seed@,
            ]);
        }
        r
    }
}

/// Message sent by the client in the randomize phase: only the proof and
/// the claimed randomized value.
pub struct VerifiableRandomizationMessageShuffle {
    pub proof: Vec<u8>,
    pub ldp_value: u64,
}

impl VerifiableRandomizationMessageShuffle {
    /// The canonical encoding of this message's fields, in wire order.
    pub open spec fn enc(proof: Seq<u8>, ldp_value: u64) -> Seq<u8> {
        blocks_enc(seq![proof, u64_le_seq(ldp_value)])
    }

    pub fn serialize(&self) -> (r: Vec<u8>)
        ensures
            r@ == Self::enc(self.proof@, self.ldp_value),
    {
        let mut blocks: Vec<Vec<u8>> = Vec::new();
        blocks.push(clone_bytes(&self.proof));
        let mut lv: Vec<u8> = Vec::new();
        crate::bytes::push_u64_le(&mut lv, self.ldp_value);
        proof {
            assert(lv@ =~= u64_le_seq(self.ldp_value));
        }
        blocks.push(lv);
        let r = encode_blocks(&blocks);
        proof {
            assert(blocks.deep_view() =~~= seq![self.proof@, u64_le_seq(self.ldp_value)]);
        }
        r
    }

    /// Decode a received message.  Fails exactly when the bytes encode no
    /// such message.
    pub fn deserialize(bytes: &Vec<u8>) -> (r: Option<Self>)
        ensures
            match r {
                Some(m) => bytes@ == Self::enc(m.proof@, m.ldp_value) && m.proof@.len()
                    <= u64::MAX,
                None => forall|f: Seq<u8>, v: u64|
                    f.len() <= u64::MAX ==> Self::enc(f, v) != bytes@,
            },
    {
        let decoded = decode_blocks(bytes, 2);
        match decoded {
            None => {
                proof {
                    assert forall|f: Seq<u8>, v: u64| f.len() <= u64::MAX implies Self::enc(f, v)
                        != bytes@ by {
                        lemma_u64_le_seq(v);
                        assert(wf_blocks(seq![f, u64_le_seq(v)]));
                    }
                }
                None
            },
            Some(mut bs) => {
                let ghost dv = bs.deep_view();
                let lv = pop_block(&mut bs);
                let pf = pop_block(&mut bs);
                proof {
                    assert(dv =~~= seq![pf@, lv@]);
                }
                if lv.len() != 8 {
                    proof {
                        assert forall|f: Seq<u8>, v: u64|
                            f.len() <= u64::MAX implies Self::enc(f, v) != bytes@ by {
                            if Self::enc(f, v) == bytes@ {
                                lemma_u64_le_seq(v);
                                assert(wf_blocks(seq![f, u64_le_seq(v)]));
                                lemma_blocks_enc_injective(seq![f, u64_le_seq(v)], dv);
                            }
                        }
                    }
                    return None;
                }
                proof {
                    lemma_le_nat_bound(lv@);
                    lemma_pow256_words();
                    assert(lv@.subrange(0, 8) =~= lv@);
                }
                let value = le_range_to_u64(&lv, 0, 8);
                proof {
                    lemma_u64_le_seq_complete(lv@, value);
                }
                Some(VerifiableRandomizationMessageShuffle {
                    proof: pf,
                    ldp_value: value,
                })
            },
        }
    }
}

} // verus!
