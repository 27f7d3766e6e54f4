//! The client of the Base scheme.
//!
//! One session runs in two phases.  In the randomness-generation phase the
//! client derives fresh session randomness from a seed, commits to it and
//! sends the commitment; the server answers with its own seed, signed
//! together with the commitment and the client's key.  In the randomize
//! phase the client combines both randomness shares, applies the mechanism
//! and proves in zero knowledge that it did so correctly.

use vstd::prelude::*;

verus! {

use crate::bytes::{le_nat, xor_seq};
use crate::circuit::{base_publics, base_relation_given, expand_indexed,
    expand_randomness_indexed, WitnessBase};
use crate::codec::clone_bytes;
use crate::config::{Config, EntropySource};
use crate::error::{ClientError, GenericError, VldpError};
use crate::gamma::{gamma_encodes, gamma_encoding};
use crate::ldp::{ldp_apply, ldp_value_spec, ProtocolSpec};
use crate::messages_base::{GenerateRandomnessMessageClientBase,
    GenerateRandomnessMessageServerBase, GenerateRandomnessSignatureInputBase,
    VerifiableRandomizationMessageBase};
use crate::params::ParametersBase;

/// Storage of values between the steps of one Base session.  Each field is
/// written once by the phase that produces it; reading it earlier is a
/// state violation, not a protocol failure.
pub struct ClientBaseStorage {
    pub client_randomness: Option<Vec<u8>>,
    pub client_randomness_commitment_randomness: Option<Vec<u8>>,
    pub client_randomness_commitment: Option<Vec<u8>>,
    pub server_seed: Option<Vec<u8>>,
    pub server_signature: Option<Vec<u8>>,
}

impl ClientBaseStorage {
    /// An empty session store.
    pub fn new() -> (r: Self)
        ensures
            r.client_randomness is None,
            r.client_randomness_commitment_randomness is None,
            r.client_randomness_commitment is None,
            r.server_seed is None,
            r.server_signature is None,
    {
        ClientBaseStorage {
            client_randomness: None,
            client_randomness_commitment_randomness: None,
            client_randomness_commitment: None,
            server_seed: None,
            server_signature: None,
        }
    }
}

/// The Base scheme client.
pub struct ClientBase<C: Config> {
    pub config: C,
    pub ps: ProtocolSpec,
    pub parameters: ParametersBase,
    pub server_sig_pk: Vec<u8>,
    pub client_sig_pk: Vec<u8>,
    pub proving_key: Vec<u8>,
    pub storage: ClientBaseStorage,
}

impl<C: Config> ClientBase<C> {
    /// The storage is coherent with this client's parameters: whatever has
    /// been filled in has the right width, and the stored commitment opens
    /// to the stored randomness.
    pub open spec fn wf(&self) -> bool {
        &&& self.ps.wf()
        &&& match self.storage.client_randomness {
            Some(cr) => cr@.len() == self.ps.randomness_bytes,
            None => true,
        }
        &&& match self.storage.client_randomness_commitment {
            Some(c) => {
                &&& self.storage.client_randomness matches Some(cr)
                &&& self.storage.client_randomness_commitment_randomness matches Some(crr)
                &&& c@ == C::commit_spec(self.parameters.client_commitment_scheme@, cr@, crr@)
            },
            None => true,
        }
        &&& match self.storage.server_seed {
            Some(s) => s@.len() == 32,
            None => true,
        }
    }

    /// A new client with the given instance widths, parameters, key
    /// material and proving key.  Fails exactly when the widths are
    /// inconsistent.
    pub fn new(
        config: C,
        ps: ProtocolSpec,
        parameters: ParametersBase,
        server_sig_pk: Vec<u8>,
        client_sig_pk: Vec<u8>,
        proving_key: Vec<u8>,
    ) -> (r: Result<Self, VldpError>)
        ensures
            match r {
                Ok(c) => {
                    &&& ps.wf()
                    &&& c.wf()
                    &&& c.ps == ps
                    &&& c.parameters == parameters
                    &&& c.server_sig_pk@ == server_sig_pk@
                    &&& c.client_sig_pk@ == client_sig_pk@
                    &&& c.proving_key@ == proving_key@
                    &&& c.storage.client_randomness_commitment is None
                    &&& c.storage.server_seed is None
                    &&& c.storage.server_signature is None
                },
                Err(_) => !ps.wf(),
            },
    {
        if !ps.validate() {
            return Err(
                VldpError::Generic(
                    GenericError::ParseError("inconsistent byte widths".to_string()),
                ),
            );
        }
        Ok(
            ClientBase {
                config,
                ps,
                parameters,
                server_sig_pk,
                client_sig_pk,
                proving_key,
                storage: ClientBaseStorage::new(),
            },
        )
    }

    /// First step of the randomness-generation phase: derive fresh session
    /// randomness from a new seed, commit to it, store everything, and
    /// return the serialized opening message.
    pub fn generate_randomness_create(&mut self, time: Vec<u8>, rng: &mut C::Rng) -> (r: Vec<u8>)
        requires
            old(self).wf(),
            time@.len() == old(self).ps.time_bytes,
        ensures
            final(self).wf(),
            final(self).ps == old(self).ps,
            final(self).parameters == old(self).parameters,
            final(self).server_sig_pk@ == old(self).server_sig_pk@,
            final(self).client_sig_pk@ == old(self).client_sig_pk@,
            final(self).proving_key@ == old(self).proving_key@,
            final(self).storage.server_seed == old(self).storage.server_seed,
            final(self).storage.server_signature == old(self).storage.server_signature,
            final(self).storage.client_randomness matches Some(cr) && cr@.len() == old(
                self,
            ).ps.randomness_bytes && exists|seed: Seq<u8>|
                seed.len() == 32 && cr@ == #[trigger] expand_indexed::<C>(
                    seed,
                    old(self).ps.randomness_bytes as nat,
                ),
            final(self).storage.client_randomness_commitment matches Some(c) && r@
                == GenerateRandomnessMessageClientBase::enc(
                c@,
                old(self).client_sig_pk@,
                time@,
            ),
    {
        let client_seed = rng.fill_bytes(32);
        let client_randomness = expand_randomness_indexed(
            &self.config,
            &client_seed,
            self.ps.randomness_bytes,
        );
        proof {
            assert(client_randomness@ == expand_indexed::<C>(
                client_seed@,
                self.ps.randomness_bytes as nat,
            ));
        }
        let commitment_randomness = self.config.sample_commitment_randomness(rng);
        let commitment = self.config.commit_with(
            &self.parameters.client_commitment_scheme,
            &client_randomness,
            &commitment_randomness,
        );
        let message = GenerateRandomnessMessageClientBase {
            client_randomness_commitment: clone_bytes(&commitment),
            client_signature_public_key: clone_bytes(&self.client_sig_pk),
            time,
        };
        let serialized = message.serialize();
        self.storage.client_randomness = Some(client_randomness);
        self.storage.client_randomness_commitment_randomness = Some(commitment_randomness);
        self.storage.client_randomness_commitment = Some(commitment);
        serialized
    }

    /// Second step of the randomness-generation phase: check the server's
    /// signature over the commitment, the client key and the server seed,
    /// and store the seed and signature on success.  `Ok(false)` means the
    /// signature did not verify; the session must then be abandoned.
    pub fn generate_randomness_verify(&mut self, server_message: &Vec<u8>) -> (r: Result<
        bool,
        VldpError,
    >)
        requires
            old(self).wf(),
        ensures
            final(self).wf(),
            final(self).ps == old(self).ps,
            final(self).parameters == old(self).parameters,
            final(self).server_sig_pk@ == old(self).server_sig_pk@,
            final(self).client_sig_pk@ == old(self).client_sig_pk@,
            final(self).proving_key@ == old(self).proving_key@,
            final(self).storage.client_randomness == old(self).storage.client_randomness,
            final(self).storage.client_randomness_commitment_randomness == old(
                self,
            ).storage.client_randomness_commitment_randomness,
            final(self).storage.client_randomness_commitment == old(
                self,
            ).storage.client_randomness_commitment,
            match r {
                Ok(accepted) => {
                    &&& old(self).storage.client_randomness_commitment matches Some(c)
                    &&& exists|seed: Seq<u8>, sig: Seq<u8>|
                        {
                            &&& server_message@ == GenerateRandomnessMessageServerBase::enc(
                                seed,
                                sig,
                            )
                            &&& seed.len() == 32
                            &&& accepted == C::sig_verify_spec(
                                old(self).parameters.server_signature_scheme@,
                                old(self).server_sig_pk@,
                                GenerateRandomnessSignatureInputBase::enc(
                                    c@,
                                    old(self).client_sig_pk@,
                                    seed,
                                ),
                                sig,
                            )
                            &&& accepted ==> (final(self).storage.server_seed matches Some(s)
                                && s@ == seed)
                            &&& accepted ==> (final(self).storage.server_signature matches Some(g)
                                && g@ == sig)
                        }
                    &&& !accepted ==> final(self).storage.server_seed == old(
                        self,
                    ).storage.server_seed && final(self).storage.server_signature == old(
                        self,
                    ).storage.server_signature
                },
                Err(VldpError::Client(_)) => old(self).storage.client_randomness_commitment
                    is None && *final(self) == *old(self),
                Err(VldpError::Generic(_)) => (forall|seed: Seq<u8>, sig: Seq<u8>|
                    seed.len() == 32 && sig.len() <= u64::MAX
                        ==> GenerateRandomnessMessageServerBase::enc(seed, sig)
                        != server_message@) && *final(self) == *old(self),
            },
    {
        let decoded = GenerateRandomnessMessageServerBase::deserialize(server_message);
        match decoded {
            None => Err(
                VldpError::Generic(
                    GenericError::ParseError("malformed server message".to_string()),
                ),
            ),
            Some(msg) => {
                if msg.server_seed.len() != 32 {
                    proof {
                        assert forall|seed: Seq<u8>, sig: Seq<u8>|
                            seed.len() == 32 && sig.len()
                                <= u64::MAX implies GenerateRandomnessMessageServerBase::enc(
                            seed,
                            sig,
                        ) != server_message@ by {
                            if GenerateRandomnessMessageServerBase::enc(seed, sig)
                                == server_message@ {
                                crate::codec::lemma_blocks_enc_injective(
                                    seq![seed, sig],
                                    seq![msg.server_seed@, msg.server_signature@],
                                );
                            }
                        }
                    }
                    return Err(
                        VldpError::Generic(
                            GenericError::ParseError("malformed server seed".to_string()),
                        ),
                    );
                }
                let commitment = match &self.storage.client_randomness_commitment {
                    Some(c) => clone_bytes(c),
                    None => {
                        return Err(VldpError::Client(ClientError::UnobtainedValue));
                    },
                };
                let signature_input = GenerateRandomnessSignatureInputBase {
                    client_randomness_commitment: commitment,
                    client_signature_public_key: clone_bytes(&self.client_sig_pk),
                    server_seed: clone_bytes(&msg.server_seed),
                };
                let signature_input_bytes = signature_input.serialize();
                let accepted = self.config.sig_verify(
                    &self.parameters.server_signature_scheme,
                    &self.server_sig_pk,
                    &signature_input_bytes,
                    &msg.server_signature,
                );
                if accepted {
                    self.storage.server_seed = Some(msg.server_seed);
                    self.storage.server_signature = Some(msg.server_signature);
                }
                Ok(accepted)
            },
        }
    }

    /// The randomize phase: combine both randomness shares, apply the
    /// mechanism, prove the circuit relation over the result, and return
    /// the serialized randomization message.
    ///
    /// With `skip_proof` the proof is left empty; that path is only for
    /// measurements and tests, never for a live deployment.
    pub fn verifiable_randomization_create(
        &self,
        time_bounds: (Vec<u8>, Vec<u8>),
        input_value_time: Vec<u8>,
        input_value: Vec<u8>,
        input_value_signature: Vec<u8>,
        zkp_rng: &mut C::Rng,
        skip_proof: bool,
    ) -> (r: Result<Vec<u8>, VldpError>)
        requires
            self.wf(),
            time_bounds.0@.len() == self.ps.time_bytes,
            time_bounds.1@.len() == self.ps.time_bytes,
            input_value_time@.len() == self.ps.time_bytes,
            input_value@.len() == self.ps.input_bytes,
            !self.ps.is_real_input ==> le_nat(input_value@) <= u64::MAX,
        ensures
            match r {
                Ok(b) => {
                    &&& self.storage.client_randomness matches Some(cr)
                    &&& self.storage.client_randomness_commitment matches Some(c)
                    &&& self.storage.client_randomness_commitment_randomness is Some
                    &&& self.storage.server_seed matches Some(seed)
                    &&& self.storage.server_signature matches Some(sig)
                    &&& gamma_encodes(self.parameters.gamma@, self.ps.gamma_bytes as nat)
                    &&& {
                        let gamma_enc = gamma_encoding(
                            self.parameters.gamma@,
                            self.ps.gamma_bytes as nat,
                        );
                        let server_randomness = expand_indexed::<C>(
                            seed@,
                            self.ps.randomness_bytes as nat,
                        );
                        let randomness = xor_seq(cr@, server_randomness);
                        let v = ldp_value_spec(self.ps, gamma_enc, randomness, input_value@);
                        exists|pf: Seq<u8>|
                            #![trigger VerifiableRandomizationMessageBase::enc(
                                self.client_sig_pk@, c@, seed@, sig@, pf, (v as u64))]
                            {
                                &&& b@ == VerifiableRandomizationMessageBase::enc(
                                    self.client_sig_pk@,
                                    c@,
                                    seed@,
                                    sig@,
                                    pf,
                                    (v as u64),
                                )
                                &&& (!skip_proof && C::sig_verify_spec(
                                    self.parameters.client_signature_scheme@,
                                    self.client_sig_pk@,
                                    input_value@ + input_value_time@,
                                    input_value_signature@,
                                ) && le_nat(time_bounds.0@) < le_nat(input_value_time@) && le_nat(
                                    input_value_time@,
                                ) <= le_nat(time_bounds.1@)) ==> forall|vk: Seq<u8>|
                                    #[trigger] C::zkp_keypair_spec(self.proving_key@, vk)
                                        ==> C::zkp_verify_spec(
                                        vk,
                                        base_publics(
                                            (v as u64),
                                            time_bounds.0@,
                                            time_bounds.1@,
                                            self.client_sig_pk@,
                                            c@,
                                            server_randomness,
                                        ),
                                        pf,
                                    )
                            }
                    }
                },
                Err(VldpError::Client(_)) => self.storage.client_randomness is None
                    || self.storage.client_randomness_commitment is None
                    || self.storage.client_randomness_commitment_randomness is None
                    || self.storage.server_seed is None || self.storage.server_signature is None,
                Err(VldpError::Generic(_)) => {
                    &&& self.storage.client_randomness is Some
                    &&& self.storage.client_randomness_commitment is Some
                    &&& self.storage.client_randomness_commitment_randomness is Some
                    &&& self.storage.server_seed is Some
                    &&& self.storage.server_signature is Some
                    &&& !gamma_encodes(self.parameters.gamma@, self.ps.gamma_bytes as nat)
                },
            },
    {
        let server_seed = match &self.storage.server_seed {
            Some(s) => clone_bytes(s),
            None => {
                return Err(VldpError::Client(ClientError::UnobtainedValue));
            },
        };
        let client_randomness = match &self.storage.client_randomness {
            Some(cr) => clone_bytes(cr),
            None => {
                return Err(VldpError::Client(ClientError::UnobtainedValue));
            },
        };
        let commitment_randomness = match &self.storage.client_randomness_commitment_randomness {
            Some(crr) => clone_bytes(crr),
            None => {
                return Err(VldpError::Client(ClientError::UnobtainedValue));
            },
        };
        let commitment = match &self.storage.client_randomness_commitment {
            Some(c) => clone_bytes(c),
            None => {
                return Err(VldpError::Client(ClientError::UnobtainedValue));
            },
        };
        let server_signature = match &self.storage.server_signature {
            Some(g) => clone_bytes(g),
            None => {
                return Err(VldpError::Client(ClientError::UnobtainedValue));
            },
        };
        let server_randomness = expand_randomness_indexed(
            &self.config,
            &server_seed,
            self.ps.randomness_bytes,
        );
        let randomness = crate::bytes::xor_bytes(&client_randomness, &server_randomness);
        let gamma_enc = self.parameters.gamma_as_bytes(self.ps.gamma_bytes)?;
        let ldp_value = ldp_apply(&self.ps, &gamma_enc, &randomness, &input_value);
        let witness = WitnessBase {
            ldp_value,
            time_lower_bound: clone_bytes(&time_bounds.0),
            time_upper_bound: clone_bytes(&time_bounds.1),
            client_sig_pk: clone_bytes(&self.client_sig_pk),
            client_randomness_commitment: clone_bytes(&commitment),
            server_randomness: clone_bytes(&server_randomness),
            true_value: clone_bytes(&input_value),
            time: clone_bytes(&input_value_time),
            true_value_signature: clone_bytes(&input_value_signature),
            client_randomness: clone_bytes(&client_randomness),
            commitment_randomness,
        };
        let proof_bytes: Vec<u8> = if skip_proof {
            Vec::new()
        } else {
            self.config.zkp_prove_base(
                &self.proving_key,
                &self.ps,
                &self.parameters,
                &gamma_enc,
                &witness,
                zkp_rng,
            )
        };
        let ghost pf = proof_bytes@;
        let message = VerifiableRandomizationMessageBase {
            client_sig_pk: clone_bytes(&self.client_sig_pk),
            client_randomness_commitment: commitment,
            server_seed,
            server_signature,
            proof: proof_bytes,
            ldp_value,
        };
        let serialized = message.serialize();
        proof {
            let gamma_s = gamma_encoding(self.parameters.gamma@, self.ps.gamma_bytes as nat);
            let sr = expand_indexed::<C>(
                self.storage.server_seed->0@,
                self.ps.randomness_bytes as nat,
            );
            let rnd = xor_seq(self.storage.client_randomness->0@, sr);
            let v = ldp_value_spec(self.ps, gamma_s, rnd, input_value@);
            assert(xor_seq(witness.client_randomness@, witness.server_randomness@) =~= rnd);
            assert(ldp_value == v);
            assert(serialized@ == VerifiableRandomizationMessageBase::enc(
                self.client_sig_pk@,
                self.storage.client_randomness_commitment->0@,
                self.storage.server_seed->0@,
                self.storage.server_signature->0@,
                pf,
                (v as u64),
            ));
            // the honest witness satisfies the circuit relation whenever the
            // given signature is valid and the time lies inside the window
            if !skip_proof && C::sig_verify_spec(
                self.parameters.client_signature_scheme@,
                self.client_sig_pk@,
                input_value@ + input_value_time@,
                input_value_signature@,
            ) && le_nat(time_bounds.0@) < le_nat(input_value_time@) && le_nat(input_value_time@)
                <= le_nat(time_bounds.1@) {
                assert(base_relation_given(
                    self.ps,
                    gamma_s,
                    witness,
                    witness.client_randomness_commitment@ == C::commit_spec(
                        self.parameters.client_commitment_scheme@,
                        witness.client_randomness@,
                        witness.commitment_randomness@,
                    ),
                    C::sig_verify_spec(
                        self.parameters.client_signature_scheme@,
                        witness.client_sig_pk@,
                        witness.true_value@ + witness.time@,
                        witness.true_value_signature@,
                    ),
                ));
            }
        }
        Ok(serialized)
    }
}

} // verus!
