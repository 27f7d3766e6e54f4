//! Round trips and rejection behaviour of the wire codec, over randomized
//! field contents for every message type.

use vldp::messages_base::{
    GenerateRandomnessMessageClientBase, GenerateRandomnessMessageServerBase,
    GenerateRandomnessSignatureInputBase, VerifiableRandomizationMessageBase,
};
use vldp::messages_expand::{
    GenerateRandomnessMessageClientExpand, GenerateRandomnessMessageServerExpand,
    GenerateRandomnessSignatureInputExpand, VerifiableRandomizationMessageExpand,
};
use vldp::messages_shuffle::{
    GenerateRandomnessMessageClientShuffle, GenerateRandomnessMessageServerShuffle,
    GenerateRandomnessSignatureInputShuffle, VerifiableRandomizationMessageShuffle,
};

struct XorShift(u64);

impl XorShift {
    fn next(&mut self) -> u64 {
        let mut x = self.0;
        x ^= x << 13;
        x ^= x >> 7;
        x ^= x << 17;
        self.0 = x;
        x
    }

    fn bytes(&mut self, max_len: usize) -> Vec<u8> {
        let n = (self.next() as usize) % (max_len + 1);
        let mut out = Vec::new();
        for _ in 0..n {
            out.push(self.next() as u8);
        }
        out
    }

    fn fixed(&mut self, n: usize) -> Vec<u8> {
        let mut out = Vec::new();
        for _ in 0..n {
            out.push(self.next() as u8);
        }
        out
    }
}

#[test]
fn round_trip_generate_randomness_client_base() {
    let mut rng = XorShift(0x1234_5678_9abc_def1);
    for _ in 0..100 {
        let m = GenerateRandomnessMessageClientBase {
            client_randomness_commitment: rng.bytes(40),
            client_signature_public_key: rng.bytes(40),
            time: rng.fixed(4),
        };
        let bytes = m.serialize();
        let back = GenerateRandomnessMessageClientBase::deserialize(&bytes, 4).unwrap();
        assert_eq!(back.client_randomness_commitment, m.client_randomness_commitment);
        assert_eq!(back.client_signature_public_key, m.client_signature_public_key);
        assert_eq!(back.time, m.time);
    }
}

#[test]
fn round_trip_generate_randomness_server_base() {
    let mut rng = XorShift(2);
    for _ in 0..100 {
        let m = GenerateRandomnessMessageServerBase {
            server_seed: rng.fixed(32),
            server_signature: rng.bytes(64),
        };
        let bytes = m.serialize();
        let back = GenerateRandomnessMessageServerBase::deserialize(&bytes).unwrap();
        assert_eq!(back.server_seed, m.server_seed);
        assert_eq!(back.server_signature, m.server_signature);
    }
}

#[test]
fn round_trip_verifiable_randomization_base() {
    let mut rng = XorShift(3);
    for _ in 0..100 {
        let m = VerifiableRandomizationMessageBase {
            client_sig_pk: rng.bytes(40),
            client_randomness_commitment: rng.bytes(40),
            server_seed: rng.fixed(32),
            server_signature: rng.bytes(64),
            proof: rng.bytes(200),
            ldp_value: rng.next(),
        };
        let bytes = m.serialize();
        let back = VerifiableRandomizationMessageBase::deserialize(&bytes).unwrap();
        assert_eq!(back.client_sig_pk, m.client_sig_pk);
        assert_eq!(back.client_randomness_commitment, m.client_randomness_commitment);
        assert_eq!(back.server_seed, m.server_seed);
        assert_eq!(back.server_signature, m.server_signature);
        assert_eq!(back.proof, m.proof);
        assert_eq!(back.ldp_value, m.ldp_value);
    }
}

#[test]
fn round_trip_generate_randomness_client_expand() {
    let mut rng = XorShift(4);
    for _ in 0..100 {
        let m = GenerateRandomnessMessageClientExpand {
            client_merkle_tree_root: rng.bytes(40),
            client_signature_public_key: rng.bytes(40),
        };
        let bytes = m.serialize();
        let back = GenerateRandomnessMessageClientExpand::deserialize(&bytes).unwrap();
        assert_eq!(back.client_merkle_tree_root, m.client_merkle_tree_root);
        assert_eq!(back.client_signature_public_key, m.client_signature_public_key);
    }
}

#[test]
fn round_trip_generate_randomness_server_expand() {
    let mut rng = XorShift(5);
    for _ in 0..100 {
        let m = GenerateRandomnessMessageServerExpand {
            server_seed: rng.fixed(32),
            server_signature: rng.bytes(64),
        };
        let bytes = m.serialize();
        let back = GenerateRandomnessMessageServerExpand::deserialize(&bytes).unwrap();
        assert_eq!(back.server_seed, m.server_seed);
        assert_eq!(back.server_signature, m.server_signature);
    }
}

#[test]
fn round_trip_verifiable_randomization_expand() {
    let mut rng = XorShift(6);
    for _ in 0..100 {
        let m = VerifiableRandomizationMessageExpand {
            client_sig_pk: rng.bytes(40),
            client_merkle_tree_root: rng.bytes(40),
            server_seed: rng.fixed(32),
            server_signature: rng.bytes(64),
            proof: rng.bytes(200),
            ldp_value: rng.next(),
        };
        let bytes = m.serialize();
        let back = VerifiableRandomizationMessageExpand::deserialize(&bytes).unwrap();
        assert_eq!(back.client_sig_pk, m.client_sig_pk);
        assert_eq!(back.client_merkle_tree_root, m.client_merkle_tree_root);
        assert_eq!(back.server_seed, m.server_seed);
        assert_eq!(back.server_signature, m.server_signature);
        assert_eq!(back.proof, m.proof);
        assert_eq!(back.ldp_value, m.ldp_value);
    }
}

#[test]
fn round_trip_generate_randomness_client_shuffle() {
    let mut rng = XorShift(7);
    for _ in 0..100 {
        let m = GenerateRandomnessMessageClientShuffle {
            client_seed_commitment: rng.bytes(40),
            client_signature_public_key: rng.bytes(40),
        };
        let bytes = m.serialize();
        let back = GenerateRandomnessMessageClientShuffle::deserialize(&bytes).unwrap();
        assert_eq!(back.client_seed_commitment, m.client_seed_commitment);
        assert_eq!(back.client_signature_public_key, m.client_signature_public_key);
    }
}

#[test]
fn round_trip_generate_randomness_server_shuffle() {
    let mut rng = XorShift(8);
    for _ in 0..100 {
        let m = GenerateRandomnessMessageServerShuffle {
            server_seed: rng.fixed(32),
            server_signature: rng.bytes(64),
        };
        let bytes = m.serialize();
        let back = GenerateRandomnessMessageServerShuffle::deserialize(&bytes).unwrap();
        assert_eq!(back.server_seed, m.server_seed);
        assert_eq!(back.server_signature, m.server_signature);
    }
}

#[test]
fn round_trip_verifiable_randomization_shuffle() {
    let mut rng = XorShift(9);
    for _ in 0..100 {
        let m = VerifiableRandomizationMessageShuffle {
            proof: rng.bytes(200),
            ldp_value: rng.next(),
        };
        let bytes = m.serialize();
        let back = VerifiableRandomizationMessageShuffle::deserialize(&bytes).unwrap();
        assert_eq!(back.proof, m.proof);
        assert_eq!(back.ldp_value, m.ldp_value);
    }
}

#[test]
fn signature_inputs_serialize_deterministically() {
    let mut rng = XorShift(10);
    for _ in 0..100 {
        let b = GenerateRandomnessSignatureInputBase {
            client_randomness_commitment: rng.bytes(40),
            client_signature_public_key: rng.bytes(40),
            server_seed: rng.fixed(32),
        };
        assert_eq!(b.serialize(), b.serialize());
        let e = GenerateRandomnessSignatureInputExpand {
            client_merkle_tree_root: rng.bytes(40),
            client_signature_public_key: rng.bytes(40),
            server_seed: rng.fixed(32),
        };
        assert_eq!(e.serialize(), e.serialize());
        let s = GenerateRandomnessSignatureInputShuffle {
            client_seed_commitment: rng.bytes(40),
            client_signature_public_key: rng.bytes(40),
            server_seed: rng.fixed(32),
        };
        assert_eq!(s.serialize(), s.serialize());
    }
}

#[test]
fn truncated_and_padded_input_is_rejected() {
    let m = GenerateRandomnessMessageServerBase {
        server_seed: vec![7u8; 32],
        server_signature: vec![9u8; 16],
    };
    let bytes = m.serialize();
    for cut in 0..bytes.len() {
        let shorter: Vec<u8> = bytes[..cut].to_vec();
        assert!(GenerateRandomnessMessageServerBase::deserialize(&shorter).is_none());
    }
    let mut longer = bytes.clone();
    longer.push(0);
    assert!(GenerateRandomnessMessageServerBase::deserialize(&longer).is_none());
}

#[test]
fn wrong_time_width_is_rejected() {
    let m = GenerateRandomnessMessageClientBase {
        client_randomness_commitment: vec![1, 2, 3],
        client_signature_public_key: vec![4, 5],
        time: vec![6, 7],
    };
    let bytes = m.serialize();
    assert!(GenerateRandomnessMessageClientBase::deserialize(&bytes, 2).is_some());
    assert!(GenerateRandomnessMessageClientBase::deserialize(&bytes, 3).is_none());
}
