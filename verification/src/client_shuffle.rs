//! The client of the Shuffle scheme.
//!
//! Shuffle clients commit to a short seed instead of the full randomness;
//! the session randomness is derived inside the circuit from the combined
//! client and server seeds over public evaluation points, and the whole
//! signature chain is checked in zero knowledge so that the final message
//! can travel through a shuffler without identifying its sender.

use vstd::prelude::*;

verus! {

use crate::bytes::{le_nat, xor_seq};
use crate::circuit::{expand_with_points, expand_randomness_with_points, shuffle_publics,
    shuffle_relation_given, WitnessShuffle};
use crate::codec::clone_bytes;
use crate::config::{Config, EntropySource};
use crate::error::{ClientError, GenericError, VldpError};
use crate::gamma::{gamma_encodes, gamma_encoding};
use crate::ldp::{ldp_apply, ldp_value_spec, ProtocolSpec};
use crate::messages_shuffle::{GenerateRandomnessMessageClientShuffle,
    GenerateRandomnessMessageServerShuffle, GenerateRandomnessSignatureInputShuffle,
    VerifiableRandomizationMessageShuffle};
use crate::params::ParametersShuffle;

/// Storage of values between the steps of one Shuffle session.  Each field
/// is written once by the phase that produces it; reading it earlier is a
/// state violation, not a protocol failure.
pub struct ClientShuffleStorage {
    pub client_seed: Option<Vec<u8>>,
    pub client_seed_commitment_randomness: Option<Vec<u8>>,
    pub client_seed_commitment: Option<Vec<u8>>,
    pub server_seed: Option<Vec<u8>>,
    pub server_signature: Option<Vec<u8>>,
}

impl ClientShuffleStorage {
    /// An empty session store.
    pub fn new() -> (r: Self)
        ensures
            r.client_seed is None,
            r.client_seed_commitment_randomness is None,
            r.client_seed_commitment is None,
            r.server_seed is None,
            r.server_signature is None,
    {
        ClientShuffleStorage {
            client_seed: None,
            client_seed_commitment_randomness: None,
            client_seed_commitment: None,
            server_seed: None,
            server_signature: None,
        }
    }
}

/// The Shuffle scheme client.
pub struct ClientShuffle<C: Config> {
    pub config: C,
    pub ps: ProtocolSpec,
    pub parameters: ParametersShuffle,
    pub server_sig_pk: Vec<u8>,
    pub client_sig_pk: Vec<u8>,
    pub proving_key: Vec<u8>,
    pub storage: ClientShuffleStorage,
}

impl<C: Config> ClientShuffle<C> {
    /// The storage is coherent: stored seeds have the PRF's width, the
    /// stored commitment opens to the stored seed, and a stored server
    /// signature has been verified over the canonical signing input.
    pub open spec fn wf(&self) -> bool {
        &&& self.ps.wf()
        &&& match self.storage.client_seed {
            Some(cs) => cs@.len() == 32,
            None => true,
        }
        &&& match self.storage.client_seed_commitment {
            Some(c) => {
                &&& self.storage.client_seed matches Some(cs)
                &&& self.storage.client_seed_commitment_randomness matches Some(crr)
                &&& c@ == C::commit_spec(self.parameters.client_commitment_scheme@, cs@, crr@)
            },
            None => true,
        }
        &&& match self.storage.server_seed {
            Some(s) => s@.len() == 32,
            None => true,
        }
        &&& match self.storage.server_signature {
            Some(g) => {
                &&& self.storage.client_seed_commitment matches Some(c)
                &&& self.storage.server_seed matches Some(s)
                &&& C::sig_verify_spec(
                    self.parameters.server_signature_scheme@,
                    self.server_sig_pk@,
                    GenerateRandomnessSignatureInputShuffle::enc(
                        c@,
                        self.client_sig_pk@,
                        s@,
                    ),
                    g@,
                )
            },
            None => true,
        }
    }

    /// A new client with the given instance widths, parameters, key
    /// material and proving key.  Fails exactly when the widths are
    /// inconsistent.
    pub fn new(
        config: C,
        ps: ProtocolSpec,
        parameters: ParametersShuffle,
        server_sig_pk: Vec<u8>,
        client_sig_pk: Vec<u8>,
        proving_key: Vec<u8>,
    ) -> (r: Result<Self, VldpError>)
        ensures
            match r {
                Ok(c) => {
                    &&& ps.wf()
                    &&& c.wf()
                    &&& c.ps == ps
                    &&& c.parameters == parameters
                    &&& c.server_sig_pk@ == server_sig_pk@
                    &&& c.client_sig_pk@ == client_sig_pk@
                    &&& c.proving_key@ == proving_key@
                    &&& c.storage.client_seed_commitment is None
                    &&& c.storage.server_seed is None
                    &&& c.storage.server_signature is None
                },
                Err(_) => !ps.wf(),
            },
    {
        if !ps.validate() {
            return Err(
                VldpError::Generic(
                    GenericError::ParseError("inconsistent byte widths".to_string()),
                ),
            );
        }
        Ok(
            ClientShuffle {
                config,
                ps,
                parameters,
                server_sig_pk,
                client_sig_pk,
                proving_key,
                storage: ClientShuffleStorage::new(),
            },
        )
    }

    /// First step of the randomness-generation phase: choose a fresh seed,
    /// commit to it, store everything, and return the serialized opening
    /// message.
    pub fn generate_randomness_create(&mut self, rng: &mut C::Rng) -> (r: Vec<u8>)
        requires
            old(self).wf(),
        ensures
            final(self).wf(),
            final(self).ps == old(self).ps,
            final(self).parameters == old(self).parameters,
            final(self).server_sig_pk@ == old(self).server_sig_pk@,
            final(self).client_sig_pk@ == old(self).client_sig_pk@,
            final(self).proving_key@ == old(self).proving_key@,
            final(self).storage.server_seed is None,
            final(self).storage.server_signature is None,
            final(self).storage.client_seed matches Some(cs) && cs@.len() == 32,
            final(self).storage.client_seed_commitment matches Some(c) && r@
                == GenerateRandomnessMessageClientShuffle::enc(c@, old(self).client_sig_pk@),
    {
        let client_seed = rng.fill_bytes(32);
        let commitment_randomness = self.config.sample_commitment_randomness(rng);
        let commitment = self.config.commit_with(
            &self.parameters.client_commitment_scheme,
            &client_seed,
            &commitment_randomness,
        );
        let message = GenerateRandomnessMessageClientShuffle {
            client_seed_commitment: clone_bytes(&commitment),
            client_signature_public_key: clone_bytes(&self.client_sig_pk),
        };
        let serialized = message.serialize();
        self.storage.client_seed = Some(client_seed);
        self.storage.client_seed_commitment_randomness = Some(commitment_randomness);
        self.storage.client_seed_commitment = Some(commitment);
        self.storage.server_seed = None;
        self.storage.server_signature = None;
        serialized
    }

    /// Second step of the randomness-generation phase: check the server's
    /// signature over the seed commitment, the client key and the server
    /// seed, and store the seed and signature on success.  `Ok(false)`
    /// means the signature did not verify; the session must be abandoned.
    pub fn generate_randomness_verify(&mut self, server_message: &Vec<u8>) -> (r: Result<
        bool,
        VldpError,
    >)
        requires
            old(self).wf(),
        ensures
            final(self).wf(),
            final(self).ps == old(self).ps,
            final(self).parameters == old(self).parameters,
            final(self).server_sig_pk@ == old(self).server_sig_pk@,
            final(self).client_sig_pk@ == old(self).client_sig_pk@,
            final(self).proving_key@ == old(self).proving_key@,
            final(self).storage.client_seed == old(self).storage.client_seed,
            final(self).storage.client_seed_commitment_randomness == old(
                self,
            ).storage.client_seed_commitment_randomness,
            final(self).storage.client_seed_commitment == old(
                self,
            ).storage.client_seed_commitment,
            match r {
                Ok(accepted) => {
                    &&& old(self).storage.client_seed_commitment matches Some(c)
                    &&& exists|seed: Seq<u8>, sig: Seq<u8>|
                        {
                            &&& server_message@ == GenerateRandomnessMessageServerShuffle::enc(
                                seed,
                                sig,
                            )
                            &&& seed.len() == 32
                            &&& accepted == C::sig_verify_spec(
                                old(self).parameters.server_signature_scheme@,
                                old(self).server_sig_pk@,
                                GenerateRandomnessSignatureInputShuffle::enc(
                                    c@,
                                    old(self).client_sig_pk@,
                                    seed,
                                ),
                                sig,
                            )
                            &&& accepted ==> (final(self).storage.server_seed matches Some(s)
                                && s@ == seed)
                            &&& accepted ==> (final(self).storage.server_signature matches Some(g)
                                && g@ == sig)
                        }
                    &&& !accepted ==> final(self).storage.server_seed == old(
                        self,
                    ).storage.server_seed && final(self).storage.server_signature == old(
                        self,
                    ).storage.server_signature
                },
                Err(VldpError::Client(_)) => old(self).storage.client_seed_commitment is None
                    && *final(self) == *old(self),
                Err(VldpError::Generic(_)) => (forall|seed: Seq<u8>, sig: Seq<u8>|
                    seed.len() == 32 && sig.len() <= u64::MAX
                        ==> GenerateRandomnessMessageServerShuffle::enc(seed, sig)
                        != server_message@) && *final(self) == *old(self),
            },
    {
        let decoded = GenerateRandomnessMessageServerShuffle::deserialize(server_message);
        match decoded {
            None => Err(
                VldpError::Generic(
                    GenericError::ParseError("malformed server message".to_string()),
                ),
            ),
            Some(msg) => {
                if msg.server_seed.len() != 32 {
                    proof {
                        assert forall|seed: Seq<u8>, sig: Seq<u8>|
                            seed.len() == 32 && sig.len()
                                <= u64::MAX implies GenerateRandomnessMessageServerShuffle::enc(
                            seed,
                            sig,
                        ) != server_message@ by {
                            if GenerateRandomnessMessageServerShuffle::enc(seed, sig)
                                == server_message@ {
                                crate::codec::lemma_blocks_enc_injective(
                                    seq![seed, sig],
                                    seq![msg.server_seed@, msg.server_signature@],
                                );
                            }
                        }
                    }
                    return Err(
                        VldpError::Generic(
                            GenericError::ParseError("malformed server seed".to_string()),
                        ),
                    );
                }
                let commitment = match &self.storage.client_seed_commitment {
                    Some(c) => clone_bytes(c),
                    None => {
                        return Err(VldpError::Client(ClientError::UnobtainedValue));
                    },
                };
                let signature_input = GenerateRandomnessSignatureInputShuffle {
                    client_seed_commitment: commitment,
                    client_signature_public_key: clone_bytes(&self.client_sig_pk),
                    server_seed: clone_bytes(&msg.server_seed),
                };
                let signature_input_bytes = signature_input.serialize();
                let accepted = self.config.sig_verify(
                    &self.parameters.server_signature_scheme,
                    &self.server_sig_pk,
                    &signature_input_bytes,
                    &msg.server_signature,
                );
                if accepted {
                    self.storage.server_seed = Some(msg.server_seed);
                    self.storage.server_signature = Some(msg.server_signature);
                }
                Ok(accepted)
            },
        }
    }

    /// The randomize phase: combine both seeds, derive the session
    /// randomness over the public evaluation points, apply the mechanism,
    /// prove the circuit relation over the result, and return the
    /// serialized randomization message.
    ///
    /// With `skip_proof` the proof is left empty; that path is only for
    /// measurements and tests, never for a live deployment.
    pub fn verifiable_randomization_create(
        &self,
        time_bounds: (Vec<u8>, Vec<u8>),
        input_value_time: Vec<u8>,
        input_value: Vec<u8>,
        input_value_signature: Vec<u8>,
        prf_eval_points: &Vec<Vec<u8>>,
        zkp_rng: &mut C::Rng,
        skip_proof: bool,
    ) -> (r: Result<Vec<u8>, VldpError>)
        requires
            self.wf(),
            time_bounds.0@.len() == self.ps.time_bytes,
            time_bounds.1@.len() == self.ps.time_bytes,
            input_value_time@.len() == self.ps.time_bytes,
            input_value@.len() == self.ps.input_bytes,
            !self.ps.is_real_input ==> le_nat(input_value@) <= u64::MAX,
            forall|i: int|
                0 <= i < prf_eval_points@.len() ==> #[trigger] prf_eval_points@[i]@.len() == 32,
        ensures
            match r {
                Ok(b) => {
                    &&& self.storage.client_seed matches Some(cs)
                    &&& self.storage.client_seed_commitment is Some
                    &&& self.storage.client_seed_commitment_randomness is Some
                    &&& self.storage.server_seed matches Some(seed)
                    &&& self.storage.server_signature matches Some(sig)
                    &&& gamma_encodes(self.parameters.gamma@, self.ps.gamma_bytes as nat)
                    &&& {
                        let gamma_enc = gamma_encoding(
                            self.parameters.gamma@,
                            self.ps.gamma_bytes as nat,
                        );
                        let randomness = expand_with_points::<C>(
                            xor_seq(cs@, seed@),
                            prf_eval_points.deep_view(),
                            self.ps.randomness_bytes as nat,
                        );
                        let v = ldp_value_spec(self.ps, gamma_enc, randomness, input_value@);
                        exists|pf: Seq<u8>|
                            #![trigger VerifiableRandomizationMessageShuffle::enc(pf, (v as u64))]
                            {
                                &&& b@ == VerifiableRandomizationMessageShuffle::enc(
                                    pf,
                                    (v as u64),
                                )
                                &&& (!skip_proof && C::sig_verify_spec(
                                    self.parameters.client_signature_scheme@,
                                    self.client_sig_pk@,
                                    input_value@ + input_value_time@,
                                    input_value_signature@,
                                ) && le_nat(time_bounds.0@) < le_nat(input_value_time@) && le_nat(
                                    input_value_time@,
                                ) <= le_nat(time_bounds.1@)) ==> forall|vk: Seq<u8>|
                                    #[trigger] C::zkp_keypair_spec(self.proving_key@, vk)
                                        ==> C::zkp_verify_spec(
                                        vk,
                                        shuffle_publics(
                                            (v as u64),
                                            time_bounds.0@,
                                            time_bounds.1@,
                                            self.server_sig_pk@,
                                            prf_eval_points.deep_view(),
                                        ),
                                        pf,
                                    )
                            }
                    }
                },
                Err(VldpError::Client(_)) => self.storage.client_seed is None
                    || self.storage.client_seed_commitment is None
                    || self.storage.client_seed_commitment_randomness is None
                    || self.storage.server_seed is None || self.storage.server_signature is None,
                Err(VldpError::Generic(_)) => {
                    &&& self.storage.client_seed is Some
                    &&& self.storage.client_seed_commitment is Some
                    &&& self.storage.client_seed_commitment_randomness is Some
                    &&& self.storage.server_seed is Some
                    &&& self.storage.server_signature is Some
                    &&& !gamma_encodes(self.parameters.gamma@, self.ps.gamma_bytes as nat)
                },
            },
    {
        let client_seed = match &self.storage.client_seed {
            Some(cs) => clone_bytes(cs),
            None => {
                return Err(VldpError::Client(ClientError::UnobtainedValue));
            },
        };
        let server_seed = match &self.storage.server_seed {
            Some(s) => clone_bytes(s),
            None => {
                return Err(VldpError::Client(ClientError::UnobtainedValue));
            },
        };
        let commitment_randomness = match &self.storage.client_seed_commitment_randomness {
            Some(crr) => clone_bytes(crr),
            None => {
                return Err(VldpError::Client(ClientError::UnobtainedValue));
            },
        };
        let commitment = match &self.storage.client_seed_commitment {
            Some(c) => clone_bytes(c),
            None => {
                return Err(VldpError::Client(ClientError::UnobtainedValue));
            },
        };
        let server_signature = match &self.storage.server_signature {
            Some(g) => clone_bytes(g),
            None => {
                return Err(VldpError::Client(ClientError::UnobtainedValue));
            },
        };
        let seed = crate::bytes::xor_bytes(&client_seed, &server_seed);
        let randomness = expand_randomness_with_points(
            &self.config,
            &seed,
            prf_eval_points,
            self.ps.randomness_bytes,
        );
        let gamma_enc = self.parameters.gamma_as_bytes(self.ps.gamma_bytes)?;
        let ldp_value = ldp_apply(&self.ps, &gamma_enc, &randomness, &input_value);
        let mut points_copy: Vec<Vec<u8>> = Vec::new();
        let mut i: usize = 0;
        while i < prf_eval_points.len()
            invariant
                i <= prf_eval_points@.len(),
                points_copy@.len() == i,
                forall|t: int| 0 <= t < i ==> #[trigger] points_copy@[t]@
                    == prf_eval_points@[t]@,
            decreases prf_eval_points@.len() - i,
        {
            points_copy.push(clone_bytes(&prf_eval_points[i]));
            i = i + 1;
        }
        proof {
            assert(points_copy.deep_view() =~~= prf_eval_points.deep_view());
        }
        let witness = WitnessShuffle {
            ldp_value,
            time_lower_bound: clone_bytes(&time_bounds.0),
            time_upper_bound: clone_bytes(&time_bounds.1),
            server_sig_pk: clone_bytes(&self.server_sig_pk),
            prf_eval_points: points_copy,
            true_value: clone_bytes(&input_value),
            time: clone_bytes(&input_value_time),
            true_value_signature: clone_bytes(&input_value_signature),
            client_sig_pk: clone_bytes(&self.client_sig_pk),
            client_seed: clone_bytes(&client_seed),
            server_seed: clone_bytes(&server_seed),
            client_seed_commitment: clone_bytes(&commitment),
            commitment_randomness,
            server_signature: clone_bytes(&server_signature),
        };
        let proof_bytes: Vec<u8> = if skip_proof {
            Vec::new()
        } else {
            self.config.zkp_prove_shuffle(
                &self.proving_key,
                &self.ps,
                &self.parameters,
                &gamma_enc,
                &witness,
                zkp_rng,
            )
        };
        let ghost pf = proof_bytes@;
        let message = VerifiableRandomizationMessageShuffle { proof: proof_bytes, ldp_value };
        let serialized = message.serialize();
        proof {
            let gamma_s = gamma_encoding(self.parameters.gamma@, self.ps.gamma_bytes as nat);
            let rnd = expand_with_points::<C>(
                xor_seq(self.storage.client_seed->0@, self.storage.server_seed->0@),
                prf_eval_points.deep_view(),
                self.ps.randomness_bytes as nat,
            );
            let v = ldp_value_spec(self.ps, gamma_s, rnd, input_value@);
            assert(xor_seq(witness.client_seed@, witness.server_seed@) =~= seed@);
            assert(randomness@ == rnd);
            assert(ldp_value == v);
            assert(serialized@ == VerifiableRandomizationMessageShuffle::enc(pf, (v as u64)));
            // the honest witness satisfies the circuit relation whenever the
            // given signature is valid and the time lies inside the window;
            // the server's own signature was checked when it was stored
            if !skip_proof && C::sig_verify_spec(
                self.parameters.client_signature_scheme@,
                self.client_sig_pk@,
                input_value@ + input_value_time@,
                input_value_signature@,
            ) && le_nat(time_bounds.0@) < le_nat(input_value_time@) && le_nat(input_value_time@)
                <= le_nat(time_bounds.1@) {
                let wrnd = Seq::new(
                    self.ps.randomness_bytes as nat,
                    |j: int|
                        if j / 32 < witness.prf_eval_points.deep_view().len() {
                            C::prf_spec(
                                xor_seq(witness.client_seed@, witness.server_seed@),
                                witness.prf_eval_points.deep_view()[j / 32],
                            )[j % 32]
                        } else {
                            0u8
                        },
                );
                assert(wrnd =~= rnd);
                assert(shuffle_relation_given(
                    self.ps,
                    gamma_s,
                    witness,
                    wrnd,
                    witness.client_seed_commitment@ == C::commit_spec(
                        self.parameters.client_commitment_scheme@,
                        witness.client_seed@,
                        witness.commitment_randomness@,
                    ),
                    C::sig_verify_spec(
                        self.parameters.server_signature_scheme@,
                        witness.server_sig_pk@,
                        GenerateRandomnessSignatureInputShuffle::enc(
                            witness.client_seed_commitment@,
                            witness.client_sig_pk@,
                            witness.server_seed@,
                        ),
                        witness.server_signature@,
                    ),
                    C::sig_verify_spec(
                        self.parameters.client_signature_scheme@,
                        witness.client_sig_pk@,
                        witness.true_value@ + witness.time@,
                        witness.true_value_signature@,
                    ),
                ));
            }
        }
        Ok(serialized)
    }
}

} // verus!
