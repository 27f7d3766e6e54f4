//! End-to-end protocol runs over the built-in hash-based primitive bundle:
//! completeness, signature binding, tampering, the time window and the
//! Expand leaf index.

use vldp::bytes::xor_bytes;
use vldp::circuit::{circuit_eval_base, expand_randomness_indexed, WitnessBase, WitnessExpand};
use vldp::client_base::ClientBase;
use vldp::client_shuffle::ClientShuffle;
use vldp::config::Config;
use vldp::error::VldpError;
use vldp::ldp::{ldp_apply, ProtocolSpec};
use vldp::messages_expand::VerifiableRandomizationMessageExpand;
use vldp::mock::{MockConfig, MockRng};
use vldp::params::{ParametersBase, ParametersExpand, ParametersShuffle};
use vldp::server_base::ServerBase;
use vldp::server_expand::ServerExpand;
use vldp::server_shuffle::ServerShuffle;

fn spec() -> ProtocolSpec {
    ProtocolSpec {
        input_bytes: 1,
        time_bytes: 1,
        gamma_bytes: 1,
        randomness_bytes: 2,
        k: 8,
        is_real_input: false,
    }
}

fn signed_value(
    params_sig: &Vec<u8>,
    sk: &Vec<u8>,
    value: &Vec<u8>,
    time: &Vec<u8>,
    rng: &mut MockRng,
) -> Vec<u8> {
    let mut message = value.clone();
    message.extend_from_slice(time.as_slice());
    MockConfig.sig_sign(params_sig, sk, &message, rng)
}

#[test]
fn base_protocol_accepts_honest_run_and_value_matches_reference() {
    let mut rng = MockRng::from_seed(vec![1, 2, 3]);
    let ps = spec();
    let params = ParametersBase::setup(&MockConfig, b"0.5".to_vec(), &mut rng).unwrap();
    let (proving_key, verifying_key) = MockConfig.zkp_keygen_base(&ps, &params, &mut rng);
    let server =
        ServerBase::new(MockConfig, ps, params.clone(), verifying_key, &mut rng).unwrap();
    let (client_pk, client_sk) =
        MockConfig.sig_keygen(&params.client_signature_scheme, &mut rng);
    let mut client = ClientBase::new(
        MockConfig,
        ps,
        params.clone(),
        server.get_signature_public_key(),
        client_pk,
        proving_key,
    )
    .unwrap();

    let day = vec![4u8];
    let time = vec![5u8];
    let m1 = client.generate_randomness_create(time.clone(), &mut rng);
    let m2 = server.generate_randomness_create(&m1, &mut rng).unwrap();
    assert!(client.generate_randomness_verify(&m2).unwrap());

    let value = vec![3u8];
    let signature = signed_value(&params.client_signature_scheme, &client_sk, &value, &time, &mut rng);
    let m3 = client
        .verifiable_randomization_create(
            (day.clone(), time.clone()),
            time.clone(),
            value.clone(),
            signature,
            &mut rng,
            false,
        )
        .unwrap();
    let (accepted, reported) = server
        .verifiable_randomization_verify(&m3, (day.clone(), time.clone()), false)
        .unwrap();
    assert!(accepted);

    // the accepted value equals the reference mechanism's output
    let client_randomness = client.storage.client_randomness.clone().unwrap();
    let server_seed = client.storage.server_seed.clone().unwrap();
    let server_randomness = expand_randomness_indexed(&MockConfig, &server_seed, ps.randomness_bytes);
    let randomness = xor_bytes(&client_randomness, &server_randomness);
    let gamma_enc = params.gamma_as_bytes(ps.gamma_bytes).unwrap();
    let expected = ldp_apply(&ps, &gamma_enc, &randomness, &value);
    assert_eq!(reported, expected);
}

#[test]
fn base_server_message_from_another_key_fails_client_verification() {
    let mut rng = MockRng::from_seed(vec![9, 9]);
    let ps = spec();
    let params = ParametersBase::setup(&MockConfig, b"0.5".to_vec(), &mut rng).unwrap();
    let (proving_key, verifying_key) = MockConfig.zkp_keygen_base(&ps, &params, &mut rng);
    let server =
        ServerBase::new(MockConfig, ps, params.clone(), verifying_key.clone(), &mut rng).unwrap();
    let other_server =
        ServerBase::new(MockConfig, ps, params.clone(), verifying_key, &mut rng).unwrap();
    let (client_pk, _client_sk) =
        MockConfig.sig_keygen(&params.client_signature_scheme, &mut rng);
    let mut client = ClientBase::new(
        MockConfig,
        ps,
        params.clone(),
        server.get_signature_public_key(),
        client_pk,
        proving_key,
    )
    .unwrap();

    let m1 = client.generate_randomness_create(vec![5u8], &mut rng);
    // the answer comes back signed under a different key
    let m2 = other_server.generate_randomness_create(&m1, &mut rng).unwrap();
    assert!(!client.generate_randomness_verify(&m2).unwrap());
    // the honest answer still verifies
    let m2_honest = server.generate_randomness_create(&m1, &mut rng).unwrap();
    assert!(client.generate_randomness_verify(&m2_honest).unwrap());
}

#[test]
fn base_tampered_randomization_message_is_never_accepted_unchanged() {
    let mut rng = MockRng::from_seed(vec![7]);
    let ps = spec();
    let params = ParametersBase::setup(&MockConfig, b"0.5".to_vec(), &mut rng).unwrap();
    let (proving_key, verifying_key) = MockConfig.zkp_keygen_base(&ps, &params, &mut rng);
    let server =
        ServerBase::new(MockConfig, ps, params.clone(), verifying_key, &mut rng).unwrap();
    let (client_pk, client_sk) =
        MockConfig.sig_keygen(&params.client_signature_scheme, &mut rng);
    let mut client = ClientBase::new(
        MockConfig,
        ps,
        params.clone(),
        server.get_signature_public_key(),
        client_pk,
        proving_key,
    )
    .unwrap();

    let day = vec![4u8];
    let time = vec![5u8];
    let m1 = client.generate_randomness_create(time.clone(), &mut rng);
    let m2 = server.generate_randomness_create(&m1, &mut rng).unwrap();
    assert!(client.generate_randomness_verify(&m2).unwrap());
    let value = vec![3u8];
    let signature = signed_value(&params.client_signature_scheme, &client_sk, &value, &time, &mut rng);
    let m3 = client
        .verifiable_randomization_create(
            (day.clone(), time.clone()),
            time.clone(),
            value,
            signature,
            &mut rng,
            false,
        )
        .unwrap();

    // flipping any single byte must not yield an accepted message
    for i in 0..m3.len() {
        let mut tampered = m3.clone();
        tampered[i] ^= 1;
        match server.verifiable_randomization_verify(&tampered, (day.clone(), time.clone()), false)
        {
            Ok((accepted, _)) => assert!(!accepted, "byte {} slipped through", i),
            Err(VldpError::Generic(_)) => {}
            Err(VldpError::Client(_)) => panic!("unexpected state error"),
        }
    }
}

#[test]
fn base_relation_enforces_the_time_window() {
    let mut rng = MockRng::from_seed(vec![11]);
    let ps = spec();
    let params = ParametersBase::setup(&MockConfig, b"0.5".to_vec(), &mut rng).unwrap();
    let gamma_enc = params.gamma_as_bytes(ps.gamma_bytes).unwrap();
    let (client_pk, client_sk) =
        MockConfig.sig_keygen(&params.client_signature_scheme, &mut rng);
    let day = vec![4u8];
    let next_day = vec![5u8];

    let build = |time: Vec<u8>, rng: &mut MockRng| -> WitnessBase {
        let client_randomness = vec![17u8, 170u8];
        let server_randomness = vec![3u8, 7u8];
        let commitment_randomness = vec![5u8; 32];
        let commitment = MockConfig.commit_with(
            &params.client_commitment_scheme,
            &client_randomness,
            &commitment_randomness,
        );
        let value = vec![3u8];
        let signature =
            signed_value(&params.client_signature_scheme, &client_sk, &value, &time, rng);
        let randomness = xor_bytes(&client_randomness, &server_randomness);
        let ldp_value = ldp_apply(&ps, &gamma_enc, &randomness, &value);
        WitnessBase {
            ldp_value,
            time_lower_bound: day.clone(),
            time_upper_bound: next_day.clone(),
            client_sig_pk: client_pk.clone(),
            client_randomness_commitment: commitment,
            server_randomness,
            true_value: value,
            time,
            true_value_signature: signature,
            client_randomness,
            commitment_randomness,
        }
    };

    // time = day + 1: inside the window (strict lower, inclusive upper)
    let w_ok = build(vec![5u8], &mut rng);
    assert!(circuit_eval_base(
        &MockConfig,
        &ps,
        &params.client_commitment_scheme,
        &params.client_signature_scheme,
        &gamma_enc,
        &w_ok,
    ));
    // time = day: on the exclusive lower bound
    let w_low = build(vec![4u8], &mut rng);
    assert!(!circuit_eval_base(
        &MockConfig,
        &ps,
        &params.client_commitment_scheme,
        &params.client_signature_scheme,
        &gamma_enc,
        &w_low,
    ));
    // time = day + 2: beyond the upper bound
    let w_high = build(vec![6u8], &mut rng);
    assert!(!circuit_eval_base(
        &MockConfig,
        &ps,
        &params.client_commitment_scheme,
        &params.client_signature_scheme,
        &gamma_enc,
        &w_high,
    ));
}

#[test]
fn shuffle_protocol_accepts_honest_run() {
    let mut rng = MockRng::from_seed(vec![21]);
    let ps = spec();
    let params = ParametersShuffle::setup(&MockConfig, b"0.5".to_vec(), &mut rng).unwrap();
    let (proving_key, verifying_key) = MockConfig.zkp_keygen_shuffle(&ps, &params, &mut rng);
    let server =
        ServerShuffle::new(MockConfig, ps, params.clone(), verifying_key, &mut rng).unwrap();
    let (client_pk, client_sk) =
        MockConfig.sig_keygen(&params.client_signature_scheme, &mut rng);
    let mut client = ClientShuffle::new(
        MockConfig,
        ps,
        params.clone(),
        server.get_signature_public_key(),
        client_pk,
        proving_key,
    )
    .unwrap();

    let m1 = client.generate_randomness_create(&mut rng);
    let m2 = server.generate_randomness_create(&m1, &mut rng).unwrap();
    assert!(client.generate_randomness_verify(&m2).unwrap());

    let day = vec![4u8];
    let time = vec![5u8];
    let value = vec![6u8];
    let signature = signed_value(&params.client_signature_scheme, &client_sk, &value, &time, &mut rng);
    let points = vec![vec![13u8; 32]];
    let m3 = client
        .verifiable_randomization_create(
            (day.clone(), time.clone()),
            time.clone(),
            value,
            signature,
            &points,
            &mut rng,
            false,
        )
        .unwrap();
    let (accepted, reported) = server
        .verifiable_randomization_verify(&m3, (day, time), &points, false)
        .unwrap();
    assert!(accepted);

    // the accepted value equals the reference mechanism's output
    let client_seed = client.storage.client_seed.clone().unwrap();
    let server_seed = client.storage.server_seed.clone().unwrap();
    let seed = xor_bytes(&client_seed, &server_seed);
    let randomness = vldp::circuit::expand_randomness_with_points(
        &MockConfig,
        &seed,
        &points,
        ps.randomness_bytes,
    );
    let gamma_enc = params.gamma_as_bytes(ps.gamma_bytes).unwrap();
    let expected = ldp_apply(&ps, &gamma_enc, &randomness, &vec![6u8]);
    assert_eq!(reported, expected);
}

#[test]
fn expand_server_binds_the_leaf_index() {
    let mut rng = MockRng::from_seed(vec![31]);
    let ps = spec();
    let params = ParametersExpand::setup(&MockConfig, b"0.5".to_vec(), &mut rng).unwrap();
    let (proving_key, verifying_key) = MockConfig.zkp_keygen_expand(&ps, &params, &mut rng);
    let server =
        ServerExpand::new(MockConfig, ps, params.clone(), verifying_key, &mut rng).unwrap();
    let (client_pk, client_sk) =
        MockConfig.sig_keygen(&params.client_signature_scheme, &mut rng);

    // an honestly assembled Expand randomization message for leaf index 2
    let day = vec![4u8];
    let time = vec![5u8];
    let value = vec![3u8];
    let server_seed = vec![8u8; 32];
    let points = vec![vec![13u8; 32]];
    let server_randomness = vldp::circuit::expand_randomness_with_points(
        &MockConfig,
        &server_seed,
        &points,
        ps.randomness_bytes,
    );
    let client_randomness = vec![17u8, 170u8];
    let randomness = xor_bytes(&client_randomness, &server_randomness);
    let gamma_enc = params.gamma_as_bytes(ps.gamma_bytes).unwrap();
    let ldp_value = ldp_apply(&ps, &gamma_enc, &randomness, &value);
    let witness = WitnessExpand {
        ldp_value,
        time_lower_bound: day.clone(),
        time_upper_bound: time.clone(),
        client_sig_pk: client_pk.clone(),
        client_merkle_tree_root: vec![1u8; 32],
        index: 2,
        server_randomness,
        true_value: value.clone(),
        time: time.clone(),
        true_value_signature: signed_value(
            &params.client_signature_scheme,
            &client_sk,
            &value,
            &time,
            &mut rng,
        ),
        client_randomness,
        commitment_randomness: vec![5u8; 32],
        merkle_path: Vec::new(),
    };
    let proof = MockConfig.zkp_prove_expand(
        &proving_key,
        &ps,
        &params,
        &gamma_enc,
        &witness,
        &mut rng,
    );
    let sig_input = vldp::messages_expand::GenerateRandomnessSignatureInputExpand {
        client_merkle_tree_root: witness.client_merkle_tree_root.clone(),
        client_signature_public_key: client_pk.clone(),
        server_seed: server_seed.clone(),
    };
    let server_signature = MockConfig.sig_sign(
        &params.server_signature_scheme,
        &server.sig_sk,
        &sig_input.serialize(),
        &mut rng,
    );
    let message = VerifiableRandomizationMessageExpand {
        client_sig_pk: client_pk,
        client_merkle_tree_root: witness.client_merkle_tree_root.clone(),
        server_seed,
        server_signature,
        proof,
        ldp_value,
    };
    let bytes = message.serialize();

    // accepted at the index it was proved for
    let (ok_same, v_same) = server
        .verifiable_randomization_verify(&bytes, (day.clone(), time.clone()), &points, 2, false)
        .unwrap();
    assert!(ok_same);
    assert_eq!(v_same, ldp_value);
    // rejected when the same message claims another leaf index
    let (ok_other, _) = server
        .verifiable_randomization_verify(&bytes, (day, time), &points, 3, false)
        .unwrap();
    assert!(!ok_other);
}

#[test]
fn reading_storage_before_its_phase_is_a_state_error() {
    let mut rng = MockRng::from_seed(vec![41]);
    let ps = spec();
    let params = ParametersBase::setup(&MockConfig, b"0.5".to_vec(), &mut rng).unwrap();
    let (proving_key, _verifying_key) = MockConfig.zkp_keygen_base(&ps, &params, &mut rng);
    let (client_pk, _sk) = MockConfig.sig_keygen(&params.client_signature_scheme, &mut rng);
    let client = ClientBase::new(
        MockConfig,
        ps,
        params,
        vec![0u8; 32],
        client_pk,
        proving_key,
    )
    .unwrap();
    let r = client.verifiable_randomization_create(
        (vec![4u8], vec![5u8]),
        vec![5u8],
        vec![3u8],
        vec![0u8; 32],
        &mut rng,
        true,
    );
    assert!(matches!(r, Err(VldpError::Client(_))));
}

#[test]
fn setup_rejects_gamma_out_of_range() {
    let mut rng = MockRng::from_seed(vec![51]);
    assert!(ParametersBase::setup(&MockConfig, b"1.25".to_vec(), &mut rng).is_err());
    assert!(ParametersBase::setup(&MockConfig, b"0".to_vec(), &mut rng).is_err());
    assert!(ParametersShuffle::setup(&MockConfig, b"0.9".to_vec(), &mut rng).is_ok());
    assert!(ParametersExpand::setup(&MockConfig, b"1".to_vec(), &mut rng).is_ok());
}

#[test]
fn expand_server_answers_randomness_requests() {
    let mut rng = MockRng::from_seed(vec![61]);
    let ps = spec();
    let params = ParametersExpand::setup(&MockConfig, b"0.5".to_vec(), &mut rng).unwrap();
    let (_proving_key, verifying_key) = MockConfig.zkp_keygen_expand(&ps, &params, &mut rng);
    let server =
        ServerExpand::new(MockConfig, ps, params.clone(), verifying_key, &mut rng).unwrap();
    let (client_pk, _sk) = MockConfig.sig_keygen(&params.client_signature_scheme, &mut rng);

    let opening = vldp::messages_expand::GenerateRandomnessMessageClientExpand {
        client_merkle_tree_root: vec![1u8; 32],
        client_signature_public_key: client_pk.clone(),
    };
    let reply_bytes = server
        .generate_randomness_create(&opening.serialize(), &mut rng)
        .unwrap();
    let reply =
        vldp::messages_expand::GenerateRandomnessMessageServerExpand::deserialize(&reply_bytes)
            .unwrap();
    assert_eq!(reply.server_seed.len(), 32);

    // the signature covers root, client key and seed, in that order
    let sig_input = vldp::messages_expand::GenerateRandomnessSignatureInputExpand {
        client_merkle_tree_root: vec![1u8; 32],
        client_signature_public_key: client_pk,
        server_seed: reply.server_seed.clone(),
    };
    assert!(MockConfig.sig_verify(
        &params.server_signature_scheme,
        &server.sig_pk,
        &sig_input.serialize(),
        &reply.server_signature,
    ));
    // garbage is rejected
    assert!(server
        .generate_randomness_create(&vec![0u8; 3], &mut rng)
        .is_err());
}
