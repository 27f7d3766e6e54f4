//! Messages exchanged between client and server in the Base scheme.
//!
//! Every message is a fixed-order record of opaque byte blocks, written with
//! the canonical block encoding of `codec`.  The field order is part of the
//! wire contract: it is what the server signs and what the circuits read.

use vstd::prelude::*;

verus! {

use crate::bytes::{le_range_to_u64, lemma_le_nat_bound, lemma_pow256_words, lemma_u64_le_seq,
    lemma_u64_le_seq_complete, u64_le_seq};
use crate::codec::{blocks_enc, clone_bytes, decode_blocks, encode_blocks,
    lemma_blocks_enc_injective, pop_block, wf_blocks};

/// Message sent by the client to open the randomness-generation phase:
/// its commitment to fresh session randomness, its signature public key,
/// and the current time step.
pub struct GenerateRandomnessMessageClientBase {
    pub client_randomness_commitment: Vec<u8>,
    pub client_signature_public_key: Vec<u8>,
    pub time: Vec<u8>,
}

impl GenerateRandomnessMessageClientBase {
    /// The canonical encoding of this message's fields, in wire order.
    pub open spec fn enc(commitment: Seq<u8>, pk: Seq<u8>, time: Seq<u8>) -> Seq<u8> {
        blocks_enc(seq![commitment, pk, time])
    }

    pub fn serialize(&self) -> (r: Vec<u8>)
        ensures
            r@ == Self::enc(
                self.client_randomness_commitment@,
                self.client_signature_public_key@,
                self.time@,
            ),
    {
        let mut blocks: Vec<Vec<u8>> = Vec::new();
        blocks.push(clone_bytes(&self.client_randomness_commitment));
        blocks.push(clone_bytes(&self.client_signature_public_key));
        blocks.push(clone_bytes(&self.time));
        let r = encode_blocks(&blocks);
        proof {
            assert(blocks.deep_view() =~~= seq![
                self.client_randomness_commitment@,
                self.client_signature_public_key@,
                self.time@,
            ]);
        }
        r
    }

    /// Decode a received message; the time field must have the instance's
    /// time width.  Fails exactly when the bytes encode no such message.
    pub fn deserialize(bytes: &Vec<u8>, time_bytes: usize) -> (r: Option<Self>)
        ensures
            match r {
                Some(m) => {
                    &&& bytes@ == Self::enc(
                        m.client_randomness_commitment@,
                        m.client_signature_public_key@,
                        m.time@,
                    )
                    &&& m.client_randomness_commitment@.len() <= u64::MAX
                    &&& m.client_signature_public_key@.len() <= u64::MAX
                    &&& m.time@.len() == time_bytes
                },
                None => forall|c: Seq<u8>, p: Seq<u8>, t: Seq<u8>|
                    c.len() <= u64::MAX && p.len() <= u64::MAX && t.len() == time_bytes
                        ==> Self::enc(c, p, t) != bytes@,
            },
    {
        let decoded = decode_blocks(bytes, 3);
        match decoded {
            None => {
                proof {
                    assert forall|c: Seq<u8>, p: Seq<u8>, t: Seq<u8>|
                        c.len() <= u64::MAX && p.len() <= u64::MAX && t.len()
                            <= u64::MAX implies Self::enc(c, p, t) != bytes@ by {
                        assert(wf_blocks(seq![c, p, t]));
                    }
                }
                None
            },
            Some(mut bs) => {
                let ghost dv = bs.deep_view();
                let time = pop_block(&mut bs);
                let pk = pop_block(&mut bs);
                let commitment = pop_block(&mut bs);
                proof {
                    assert(dv =~~= seq![commitment@, pk@, time@]);
                }
                if time.len() != time_bytes {
                    proof {
                        assert forall|c: Seq<u8>, p: Seq<u8>, t: Seq<u8>|
                            c.len() <= u64::MAX && p.len() <= u64::MAX && t.len()
                                == time_bytes implies Self::enc(c, p, t) != bytes@ by {
                            if Self::enc(c, p, t) == bytes@ {
                                assert(wf_blocks(seq![c, p, t]));
                                lemma_blocks_enc_injective(seq![c, p, t], dv);
                            }
                        }
                    }
                    return None;
                }
                Some(GenerateRandomnessMessageClientBase {
                    client_randomness_commitment: commitment,
                    client_signature_public_key: pk,
                    time,
                })
            },
        }
    }
}

/// Message sent back by the server: its fresh seed and its signature over
/// the canonical signing input.
pub struct GenerateRandomnessMessageServerBase {
    pub server_seed: Vec<u8>,
    pub server_signature: Vec<u8>,
}

impl GenerateRandomnessMessageServerBase {
    /// The canonical encoding of this message's fields, in wire order.
    pub open spec fn enc(seed: Seq<u8>, signature: Seq<u8>) -> Seq<u8> {
        blocks_enc(seq![seed, signature])
    }

    pub fn serialize(&self) -> (r: Vec<u8>)
        ensures
            r@ == Self::enc(self.server_seed@, self.server_signature@),
    {
        let mut blocks: Vec<Vec<u8>> = Vec::new();
        blocks.push(clone_bytes(&self.server_seed));
        blocks.push(clone_bytes(&self.server_signature));
        let r = encode_blocks(&blocks);
        proof {
            assert(blocks.deep_view() =~~= seq![self.server_seed@, self.server_signature@]);
        }
        r
    }

    /// Decode a received message.  Fails exactly when the bytes encode no
    /// such message.
    pub fn deserialize(bytes: &Vec<u8>) -> (r: Option<Self>)
        ensures
            match r {
                Some(m) => bytes@ == Self::enc(m.server_seed@, m.server_signature@)
                    && m.server_seed@.len() <= u64::MAX && m.server_signature@.len() <= u64::MAX,
                None => forall|s: Seq<u8>, g: Seq<u8>|
                    s.len() <= u64::MAX && g.len() <= u64::MAX ==> Self::enc(s, g) != bytes@,
            },
    {
        let decoded = decode_blocks(bytes, 2);
        match decoded {
            None => {
                proof {
                    assert forall|s: Seq<u8>, g: Seq<u8>|
                        s.len() <= u64::MAX && g.len() <= u64::MAX implies Self::enc(s, g)
                        != bytes@ by {
                        assert(wf_blocks(seq![s, g]));
                    }
                }
                None
            },
            Some(mut bs) => {
                let ghost dv = bs.deep_view();
                let signature = pop_block(&mut bs);
                let seed = pop_block(&mut bs);
                proof {
                    assert(dv =~~= seq![seed@, signature@]);
                }
                Some(GenerateRandomnessMessageServerBase {
                    server_seed: seed,
                    server_signature: signature,
                })
            },
        }
    }
}

/// The record both parties sign and verify in the randomness-generation
/// phase.  It is never transmitted: each side rebuilds it, so the signature
/// binds the commitment, the client key and the server seed together.
pub struct GenerateRandomnessSignatureInputBase {
    pub client_randomness_commitment: Vec<u8>,
    pub client_signature_public_key: Vec<u8>,
    pub server_seed: Vec<u8>,
}

impl GenerateRandomnessSignatureInputBase {
    /// The canonical signing input, in wire order.
    pub open spec fn enc(commitment: Seq<u8>, pk: Seq<u8>, seed: Seq<u8>) -> Seq<u8> {
        blocks_enc(seq![commitment, pk, seed])
    }

    /// Build the signing input from a received client message and the seed
    /// the server chose.
    pub fn new(
        client_message: GenerateRandomnessMessageClientBase,
        server_seed: Vec<u8>,
    ) -> (r: Self)
        ensures
            r.client_randomness_commitment@ == client_message.client_randomness_commitment@,
            r.client_signature_public_key@ == client_message.client_signature_public_key@,
            r.server_seed@ == server_seed@,
    {
        GenerateRandomnessSignatureInputBase {
            client_randomness_commitment: client_message.client_randomness_commitment,
            client_signature_public_key: client_message.client_signature_public_key,
            server_seed,
        }
    }

    pub fn serialize(&self) -> (r: Vec<u8>)
        ensures
            r@ == Self::enc(
                self.client_randomness_commitment@,
                self.client_signature_public_key@,
                self.server_seed@,
            ),
    {
        let mut blocks: Vec<Vec<u8>> = Vec::new();
        blocks.push(clone_bytes(&self.client_randomness_commitment));
        blocks.push(clone_bytes(&self.client_signature_public_key));
        blocks.push(clone_bytes(&self.server_seed));
        let r = encode_blocks(&blocks);
        proof {
            assert(blocks.deep_view() =~~= seq![
                self.client_randomness_commitment@,
                self.client_signature_public_key@,
                self.server_seed@,
            ]);
        }
        r
    }
}

/// Message sent by the client in the randomize phase: everything the server
/// needs to re-check its own signature and verify the proof, with the
/// claimed randomized value.
pub struct VerifiableRandomizationMessageBase {
    pub client_sig_pk: Vec<u8>,
    pub client_randomness_commitment: Vec<u8>,
    pub server_seed: Vec<u8>,
    pub server_signature: Vec<u8>,
    pub proof: Vec<u8>,
    pub ldp_value: u64,
}

impl VerifiableRandomizationMessageBase {
    /// The canonical encoding of this message's fields, in wire order.
    pub open spec fn enc(
        pk: Seq<u8>,
        commitment: Seq<u8>,
        seed: Seq<u8>,
        signature: Seq<u8>,
        proof: Seq<u8>,
        ldp_value: u64,
    ) -> Seq<u8> {
        blocks_enc(seq![pk, commitment, seed, signature, proof, u64_le_seq(ldp_value)])
    }

    pub fn serialize(&self) -> (r: Vec<u8>)
        ensures
            r@ == Self::enc(
                self.client_sig_pk@,
                self.client_randomness_commitment@,
                self.server_seed@,
                self.server_signature@,
                self.proof@,
                self.ldp_value,
            ),
    {
        let mut blocks: Vec<Vec<u8>> = Vec::new();
        blocks.push(clone_bytes(&self.client_sig_pk));
        blocks.push(clone_bytes(&self.client_randomness_commitment));
        blocks.push(clone_bytes(&self.server_seed));
        blocks.push(clone_bytes(&self.server_signature));
        blocks.push(clone_bytes(&self.proof));
        let mut lv: Vec<u8> = Vec::new();
        crate::bytes::push_u64_le(&mut lv, self.ldp_value);
        proof {
            assert(lv@ =~= u64_le_seq(self.ldp_value));
        }
        blocks.push(lv);
        let r = encode_blocks(&blocks);
        proof {
            assert(blocks.deep_view() =~~= seq![
                self.client_sig_pk@,
                self.client_randomness_commitment@,
                self.server_seed@,
                self.server_signature@,
                self.proof@,
                u64_le_seq(self.ldp_value),
            ]);
        }
        r
    }

    /// Decode a received message.  Fails exactly when the bytes encode no
    /// such message.
    pub fn deserialize(bytes: &Vec<u8>) -> (r: Option<Self>)
        ensures
            match r {
                Some(m) => bytes@ == Self::enc(
                    m.client_sig_pk@,
                    m.client_randomness_commitment@,
                    m.server_seed@,
                    m.server_signature@,
                    m.proof@,
                    m.ldp_value,
                ) && m.client_sig_pk@.len() <= u64::MAX && m.client_randomness_commitment@.len()
                    <= u64::MAX && m.server_seed@.len() <= u64::MAX && m.server_signature@.len()
                    <= u64::MAX && m.proof@.len() <= u64::MAX,
                None => forall|k: Seq<u8>, c: Seq<u8>, s: Seq<u8>, g: Seq<u8>, f: Seq<u8>, v: u64|
                    k.len() <= u64::MAX && c.len() <= u64::MAX && s.len() <= u64::MAX && g.len()
                        <= u64::MAX && f.len() <= u64::MAX ==> Self::enc(k, c, s, g, f, v)
                        != bytes@,
            },
    {
        let decoded = decode_blocks(bytes, 6);
        match decoded {
            None => {
                proof {
                    assert forall|k: Seq<u8>, c: Seq<u8>, s: Seq<u8>, g: Seq<u8>, f: Seq<u8>, v: u64|
                        k.len() <= u64::MAX && c.len() <= u64::MAX && s.len() <= u64::MAX
                            && g.len() <= u64::MAX && f.len() <= u64::MAX implies Self::enc(
                        k,
                        c,
                        s,
                        g,
                        f,
                        v,
                    ) != bytes@ by {
                        lemma_u64_le_seq(v);
                        assert(wf_blocks(seq![k, c, s, g, f, u64_le_seq(v)]));
                    }
                }
                None
            },
            Some(mut bs) => {
                let ghost dv = bs.deep_view();
                let lv = pop_block(&mut bs);
                let pf = pop_block(&mut bs);
                let signature = pop_block(&mut bs);
                let seed = pop_block(&mut bs);
                let commitment = pop_block(&mut bs);
                let pk = pop_block(&mut bs);
                proof {
                    assert(dv =~~= seq![pk@, commitment@, seed@, signature@, pf@, lv@]);
                }
                if lv.len() != 8 {
                    proof {
                        assert forall|
                            k: Seq<u8>,
                            c: Seq<u8>,
                            s: Seq<u8>,
                            g: Seq<u8>,
                            f: Seq<u8>,
                            v: u64,
                        |
                            k.len() <= u64::MAX && c.len() <= u64::MAX && s.len() <= u64::MAX
                                && g.len() <= u64::MAX && f.len() <= u64::MAX implies Self::enc(
                            k,
                            c,
                            s,
                            g,
                            f,
                            v,
                        ) != bytes@ by {
                            if Self::enc(k, c, s, g, f, v) == bytes@ {
                                lemma_u64_le_seq(v);
                                assert(wf_blocks(seq![k, c, s, g, f, u64_le_seq(v)]));
                                lemma_blocks_enc_injective(
                                    seq![k, c, s, g, f, u64_le_seq(v)],
                                    dv,
                                );
                            }
                        }
                    }
                    return None;
                }
                proof {
                    lemma_le_nat_bound(lv@);
                    lemma_pow256_words();
                    assert(lv@.subrange(0, 8) =~= lv@);
                }
                let value = le_range_to_u64(&lv, 0, 8);
                proof {
                    lemma_u64_le_seq_complete(lv@, value);
                }
                Some(VerifiableRandomizationMessageBase {
                    client_sig_pk: pk,
                    client_randomness_commitment: commitment,
                    server_seed: seed,
                    server_signature: signature,
                    proof: pf,
                    ldp_value: value,
                })
            },
        }
    }
}

} // verus!
