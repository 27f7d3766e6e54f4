//! Messages exchanged between client and server in the Expand scheme.
//!
//! The Expand client commits to many sessions at once through a Merkle tree,
//! so its messages carry the tree root in place of a single commitment.

use vstd::prelude::*;

verus! {

use crate::bytes::{le_range_to_u64, lemma_le_nat_bound, lemma_pow256_words, lemma_u64_le_seq,
    lemma_u64_le_seq_complete, u64_le_seq};
use crate::codec::{blocks_enc, clone_bytes, decode_blocks, encode_blocks,
    lemma_blocks_enc_injective, pop_block, wf_blocks};

/// Message sent by the client to open the randomness-generation phase: the
/// root of its commitment tree and its signature public key.
pub struct GenerateRandomnessMessageClientExpand {
    pub client_merkle_tree_root: Vec<u8>,
    pub client_signature_public_key: Vec<u8>,
}

impl GenerateRandomnessMessageClientExpand {
    /// The canonical encoding of this message's fields, in wire order.
    pub open spec fn enc(root: Seq<u8>, pk: Seq<u8>) -> Seq<u8> {
        blocks_enc(seq![root, pk])
    }

    pub fn serialize(&self) -> (r: Vec<u8>)
        ensures
            r@ == Self::enc(self.client_merkle_tree_root@, self.client_signature_public_key@),
    {
        let mut blocks: Vec<Vec<u8>> = Vec::new();
        blocks.push(clone_bytes(&self.client_merkle_tree_root));
        blocks.push(clone_bytes(&self.client_signature_public_key));
        let r = encode_blocks(&blocks);
        proof {
            assert(blocks.deep_view() =~~= seq![
                self.client_merkle_tree_root@,
                self.client_signature_public_key@,
            ]);
        }
        r
    }

    /// Decode a received message.  Fails exactly when the bytes encode no
    /// such message.
    pub fn deserialize(bytes: &Vec<u8>) -> (r: Option<Self>)
        ensures
            match r {
                Some(m) => bytes@ == Self::enc(
                    m.client_merkle_tree_root@,
                    m.client_signature_public_key@,
                ) && m.client_merkle_tree_root@.len() <= u64::MAX
                    && m.client_signature_public_key@.len() <= u64::MAX,
                None => forall|a: Seq<u8>, b: Seq<u8>|
                    a.len() <= u64::MAX && b.len() <= u64::MAX ==> Self::enc(a, b) != bytes@,
            },
    {
        let decoded = decode_blocks(bytes, 2);
        match decoded {
            None => {
                proof {
                    assert forall|a: Seq<u8>, b: Seq<u8>|
                        a.len() <= u64::MAX && b.len() <= u64::MAX implies Self::enc(a, b)
                        != bytes@ by {
                        assert(wf_blocks(seq![a, b]));
                    }
                }
                None
            },
            Some(mut bs) => {
                let ghost dv = bs.deep_view();
                let pk = pop_block(&mut bs);
                let root = pop_block(&mut bs);
                proof {
                    assert(dv =~~= seq![root@, pk@]);
                }
                Some(GenerateRandomnessMessageClientExpand {
                    client_merkle_tree_root: root,
                    client_signature_public_key: pk,
                })
            },
        }
    }
}

/// Message sent back by the server: its fresh seed and its signature over
/// the canonical signing input.
pub struct GenerateRandomnessMessageServerExpand {
    pub server_seed: Vec<u8>,
    pub server_signature: Vec<u8>,
}

impl GenerateRandomnessMessageServerExpand {
    /// The canonical encoding of this message's fields, in wire order.
    pub open spec fn enc(seed: Seq<u8>, signature: Seq<u8>) -> Seq<u8> {
        blocks_enc(seq![seed, signature])
    }

    pub fn serialize(&self) -> (r: Vec<u8>)
        ensures
            r@ == Self::enc(self.server_seed@, self.server_signature@),
    {
        let mut blocks: Vec<Vec<u8>> = Vec::new();
        blocks.push(clone_bytes(&self.server_seed));
        blocks.push(clone_bytes(&self.server_signature));
        let r = encode_blocks(&blocks);
        proof {
            assert(blocks.deep_view() =~~= seq![self.server_seed@, self.server_signature@]);
        }
        r
    }

    /// Decode a received message.  Fails exactly when the bytes encode no
    /// such message.
    pub fn deserialize(bytes: &Vec<u8>) -> (r: Option<Self>)
        ensures
            match r {
                Some(m) => bytes@ == Self::enc(m.server_seed@, m.server_signature@)
                    && m.server_seed@.len() <= u64::MAX && m.server_signature@.len() <= u64::MAX,
                None => forall|s: Seq<u8>, g: Seq<u8>|
                    s.len() <= u64::MAX && g.len() <= u64::MAX ==> Self::enc(s, g) != bytes@,
            },
    {
        let decoded = decode_blocks(bytes, 2);
        match decoded {
            None => {
                proof {
                    assert forall|s: Seq<u8>, g: Seq<u8>|
                        s.len() <= u64::MAX && g.len() <= u64::MAX implies Self::enc(s, g)
                        != bytes@ by {
                        assert(wf_blocks(seq![s, g]));
                    }
                }
                None
            },
            Some(mut bs) => {
                let ghost dv = bs.deep_view();
                let signature = pop_block(&mut bs);
                let seed = pop_block(&mut bs);
                proof {
                    assert(dv =~~= seq![seed@, signature@]);
                }
                Some(GenerateRandomnessMessageServerExpand {
                    server_seed: seed,
                    server_signature: signature,
                })
            },
        }
    }
}

/// The record both parties sign and verify in the randomness-generation
/// phase.  It is never transmitted: each side rebuilds it, so the signature
/// binds the tree root, the client key and the server seed together.
pub struct GenerateRandomnessSignatureInputExpand {
    pub client_merkle_tree_root: Vec<u8>,
    pub client_signature_public_key: Vec<u8>,
    pub server_seed: Vec<u8>,
}

impl GenerateRandomnessSignatureInputExpand {
    /// The canonical signing input, in wire order.
    pub open spec fn enc(root: Seq<u8>, pk: Seq<u8>, seed: Seq<u8>) -> Seq<u8> {
        blocks_enc(seq![root, pk, seed])
    }

    /// Build the signing input from a received client message and the seed
    /// the server chose.
    pub fn new(
        client_message: GenerateRandomnessMessageClientExpand,
        server_seed: Vec<u8>,
    ) -> (r: Self)
        ensures
            r.client_merkle_tree_root@ == client_message.client_merkle_tree_root@,
            r.client_signature_public_key@ == client_message.client_signature_public_key@,
            r.server_seed@ == server_seed@,
    {
        GenerateRandomnessSignatureInputExpand {
            client_merkle_tree_root: client_message.client_merkle_tree_root,
            client_signature_public_key: client_message.client_signature_public_key,
            server_seed,
        }
    }

    pub fn serialize(&self) -> (r: Vec<u8>)
        ensures
            r@ == Self::enc(
                self.client_merkle_tree_root@,
                self.client_signature_public_key@,
                self.server_seed@,
            ),
    {
        let mut blocks: Vec<Vec<u8>> = Vec::new();
        blocks.push(clone_bytes(&self.client_merkle_tree_root));
        blocks.push(clone_bytes(&self.client_signature_public_key));
        blocks.push(clone_bytes(&self.server_seed));
        let r = encode_blocks(&blocks);
        proof {
            assert(blocks.deep_view() =~~= seq![
                self.client_merkle_tree_root@,
                self.client_signature_public_key@,
                self.server_seed@,
            ]);
        }
        r
    }
}

/// Message sent by the client in the randomize phase of the Expand scheme.
pub struct VerifiableRandomizationMessageExpand {
    pub client_sig_pk: Vec<u8>,
    pub client_merkle_tree_root: Vec<u8>,
    pub server_seed: Vec<u8>,
    pub server_signature: Vec<u8>,
    pub proof: Vec<u8>,
    pub ldp_value: u64,
}

impl VerifiableRandomizationMessageExpand {
    /// The canonical encoding of this message's fields, in wire order.
    pub open spec fn enc(
        pk: Seq<u8>,
        root: Seq<u8>,
        seed: Seq<u8>,
        signature: Seq<u8>,
        proof: Seq<u8>,
        ldp_value: u64,
    ) -> Seq<u8> {
        blocks_enc(seq![pk, root, seed, signature, proof, u64_le_seq(ldp_value)])
    }

    pub fn serialize(&self) -> (r: Vec<u8>)
        ensures
            r@ == Self::enc(
                self.client_sig_pk@,
                self.client_merkle_tree_root@,
                self.server_seed@,
                self.server_signature@,
                self.proof@,
                self.ldp_value,
            ),
    {
        let mut blocks: Vec<Vec<u8>> = Vec::new();
        blocks.push(clone_bytes(&self.client_sig_pk));
        blocks.push(clone_bytes(&self.client_merkle_tree_root));
        blocks.push(clone_bytes(&self.server_seed));
        blocks.push(clone_bytes(&self.server_signature));
        blocks.push(clone_bytes(&self.proof));
        let mut lv: Vec<u8> = Vec::new();
        crate::bytes::push_u64_le(&mut lv, self.ldp_value);
        proof {
            assert(lv@ =~= u64_le_seq(self.ldp_value));
        }
        blocks.push(lv);
        let r = encode_blocks(&blocks);
        proof {
            assert(blocks.deep_view() =~~= seq![
                self.client_sig_pk@,
                self.client_merkle_tree_root@,
                self.server_seed@,
                self.server_signature@,
                self.proof@,
                u64_le_seq(self.ldp_value),
            ]);
        }
        r
    }

    /// Decode a received message.  Fails exactly when the bytes encode no
    /// such message.
    pub fn deserialize(bytes: &Vec<u8>) -> (r: Option<Self>)
        ensures
            match r {
                Some(m) => bytes@ == Self::enc(
                    m.client_sig_pk@,
                    m.client_merkle_tree_root@,
                    m.server_seed@,
                    m.server_signature@,
                    m.proof@,
                    m.ldp_value,
                ) && m.client_sig_pk@.len() <= u64::MAX && m.client_merkle_tree_root@.len()
                    <= u64::MAX && m.server_seed@.len() <= u64::MAX && m.server_signature@.len()
                    <= u64::MAX && m.proof@.len() <= u64::MAX,
                None => forall|k: Seq<u8>, c: Seq<u8>, s: Seq<u8>, g: Seq<u8>, f: Seq<u8>, v: u64|
                    k.len() <= u64::MAX && c.len() <= u64::MAX && s.len() <= u64::MAX && g.len()
                        <= u64::MAX && f.len() <= u64::MAX ==> Self::enc(k, c, s, g, f, v)
                        != bytes@,
            },
    {
        let decoded = decode_blocks(bytes, 6);
        match decoded {
            None => {
                proof {
                    assert forall|k: Seq<u8>, c: Seq<u8>, s: Seq<u8>, g: Seq<u8>, f: Seq<u8>, v: u64|
                        k.len() <= u64::MAX && c.len() <= u64::MAX && s.len() <= u64::MAX
                            && g.len() <= u64::MAX && f.len() <= u64::MAX implies Self::enc(
                        k,
                        c,
                        s,
                        g,
                        f,
                        v,
                    ) != bytes@ by {
                        lemma_u64_le_seq(v);
                        assert(wf_blocks(seq![k, c, s, g, f, u64_le_seq(v)]));
                    }
                }
                None
            },
            Some(mut bs) => {
                let ghost dv = bs.deep_view();
                let lv = pop_block(&mut bs);
                let pf = pop_block(&mut bs);
                let signature = pop_block(&mut bs);
                let seed = pop_block(&mut bs);
                let root = pop_block(&mut bs);
                let pk = pop_block(&mut bs);
                proof {
                    assert(dv =~~= seq![pk@, root@, seed@, signature@, pf@, lv@]);
                }
                if lv.len() != 8 {
                    proof {
                        assert forall|
                            k: Seq<u8>,
                            c: Seq<u8>,
                            s: Seq<u8>,
                            g: Seq<u8>,
                            f: Seq<u8>,
                            v: u64,
                        |
                            k.len() <= u64::MAX && c.len() <= u64::MAX && s.len() <= u64::MAX
                                && g.len() <= u64::MAX && f.len() <= u64::MAX implies Self::enc(
                            k,
                            c,
                            s,
                            g,
                            f,
                            v,
                        ) != bytes@ by {
                            if Self::enc(k, c, s, g, f, v) == bytes@ {
                                lemma_u64_le_seq(v);
                                assert(wf_blocks(seq![k, c, s, g, f, u64_le_seq(v)]));
                                lemma_blocks_enc_injective(
                                    seq![k, c, s, g, f, u64_le_seq(v)],
                                    dv,
                                );
                            }
                        }
                    }
                    return None;
                }
                proof {
                    lemma_le_nat_bound(lv@);
                    lemma_pow256_words();
                    assert(lv@.subrange(0, 8) =~= lv@);
                }
                let value = le_range_to_u64(&lv, 0, 8);
                proof {
                    lemma_u64_le_seq_complete(lv@, value);
                }
                Some(VerifiableRandomizationMessageExpand {
                    client_sig_pk: pk,
                    client_merkle_tree_root: root,
                    server_seed: seed,
                    server_signature: signature,
                    proof: pf,
                    ldp_value: value,
                })
            },
        }
    }
}

} // verus!
