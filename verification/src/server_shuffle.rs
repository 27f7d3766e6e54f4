//! The server of the Shuffle scheme.
//!
//! In the randomize phase a Shuffle server sees only a proof and a value,
//! arriving through a shuffler; its own signature and the client's key are
//! checked inside the circuit, so verification is a single proof check over
//! the canonical public inputs.

use vstd::prelude::*;

verus! {

use crate::circuit::{build_shuffle_publics, shuffle_publics};
use crate::codec::clone_bytes;
use crate::config::{Config, EntropySource};
use crate::error::{GenericError, VldpError};
use crate::ldp::ProtocolSpec;
use crate::messages_shuffle::{GenerateRandomnessMessageClientShuffle,
    GenerateRandomnessMessageServerShuffle, GenerateRandomnessSignatureInputShuffle,
    VerifiableRandomizationMessageShuffle};
use crate::params::ParametersShuffle;

/// The Shuffle scheme server.
pub struct ServerShuffle<C: Config> {
    pub config: C,
    pub ps: ProtocolSpec,
    pub parameters: ParametersShuffle,
    pub sig_pk: Vec<u8>,
    pub sig_sk: Vec<u8>,
    pub verifying_key: Vec<u8>,
}

impl<C: Config> ServerShuffle<C> {
    /// The widths are consistent and the server holds a matching signing
    /// keypair.
    pub open spec fn wf(&self) -> bool {
        &&& self.ps.wf()
        &&& C::sig_keypair_spec(
            self.parameters.server_signature_scheme@,
            self.sig_pk@,
            self.sig_sk@,
        )
    }

    /// A new server with the given instance widths, parameters and
    /// verifying key; generates a fresh long-term signing keypair.  Fails
    /// exactly when the widths are inconsistent.
    pub fn new(
        config: C,
        ps: ProtocolSpec,
        parameters: ParametersShuffle,
        verifying_key: Vec<u8>,
        rng: &mut C::Rng,
    ) -> (r: Result<Self, VldpError>)
        ensures
            match r {
                Ok(s) => {
                    &&& ps.wf()
                    &&& s.wf()
                    &&& s.ps == ps
                    &&& s.parameters == parameters
                    &&& s.verifying_key@ == verifying_key@
                },
                Err(_) => !ps.wf(),
            },
    {
        if !ps.validate() {
            return Err(
                VldpError::Generic(
                    GenericError::ParseError("inconsistent byte widths".to_string()),
                ),
            );
        }
        let (sig_pk, sig_sk) = config.sig_keygen(&parameters.server_signature_scheme, rng);
        Ok(ServerShuffle { config, ps, parameters, sig_pk, sig_sk, verifying_key })
    }

    /// The server's long-term signature public key.
    pub fn get_signature_public_key(&self) -> (r: Vec<u8>)
        ensures
            r@ == self.sig_pk@,
    {
        clone_bytes(&self.sig_pk)
    }

    /// The randomness-generation step: decode the client's opening message,
    /// choose a fresh seed, sign the canonical signing input over the seed
    /// commitment, the client key and the seed, and return the serialized
    /// answer.
    pub fn generate_randomness_create(&self, client_message: &Vec<u8>, rng: &mut C::Rng) -> (r:
        Result<Vec<u8>, VldpError>)
        requires
            self.wf(),
        ensures
            match r {
                Ok(b) => exists|c: Seq<u8>, p: Seq<u8>, seed: Seq<u8>, sig: Seq<u8>|
                    #![trigger GenerateRandomnessMessageClientShuffle::enc(c, p),
                        GenerateRandomnessMessageServerShuffle::enc(seed, sig)]
                    {
                        &&& GenerateRandomnessMessageClientShuffle::enc(c, p) == client_message@
                        &&& seed.len() == 32
                        &&& b@ == GenerateRandomnessMessageServerShuffle::enc(seed, sig)
                        &&& C::sig_verify_spec(
                            self.parameters.server_signature_scheme@,
                            self.sig_pk@,
                            GenerateRandomnessSignatureInputShuffle::enc(c, p, seed),
                            sig,
                        )
                    },
                Err(_) => forall|c: Seq<u8>, p: Seq<u8>|
                    c.len() <= u64::MAX && p.len() <= u64::MAX
                        ==> GenerateRandomnessMessageClientShuffle::enc(c, p) != client_message@,
            },
    {
        let decoded = GenerateRandomnessMessageClientShuffle::deserialize(client_message);
        match decoded {
            None => Err(
                VldpError::Generic(
                    GenericError::ParseError("malformed client message".to_string()),
                ),
            ),
            Some(msg) => {
                let server_seed = rng.fill_bytes(32);
                let ghost c = msg.client_seed_commitment@;
                let ghost p = msg.client_signature_public_key@;
                let signature_input = GenerateRandomnessSignatureInputShuffle::new(
                    msg,
                    clone_bytes(&server_seed),
                );
                let signature_input_bytes = signature_input.serialize();
                let server_signature = self.config.sig_sign(
                    &self.parameters.server_signature_scheme,
                    &self.sig_sk,
                    &signature_input_bytes,
                    rng,
                );
                let reply = GenerateRandomnessMessageServerShuffle {
                    server_seed,
                    server_signature,
                };
                let serialized = reply.serialize();
                proof {
                    assert(GenerateRandomnessMessageClientShuffle::enc(c, p) == client_message@);
                }
                Ok(serialized)
            },
        }
    }

    /// The verify step: decode the randomization message and delegate to
    /// the proof system over the canonical public-input order, built from
    /// the time bounds, the server's key and the public evaluation points.
    ///
    /// With `skip_proof` the proof check is skipped; that path is only for
    /// measurements and tests, never for a live deployment.
    pub fn verifiable_randomization_verify(
        &self,
        client_message: &Vec<u8>,
        time_bounds: (Vec<u8>, Vec<u8>),
        prf_eval_points: &Vec<Vec<u8>>,
        skip_proof: bool,
    ) -> (r: Result<(bool, u64), VldpError>)
        requires
            self.wf(),
            time_bounds.0@.len() == self.ps.time_bytes,
            time_bounds.1@.len() == self.ps.time_bytes,
        ensures
            match r {
                Ok(outcome) => exists|f: Seq<u8>, v: u64|
                    #![trigger VerifiableRandomizationMessageShuffle::enc(f, v)]
                    {
                        &&& VerifiableRandomizationMessageShuffle::enc(f, v) == client_message@
                        &&& outcome.1 == v
                        &&& skip_proof ==> outcome.0 == true
                        &&& !skip_proof ==> outcome.0 == C::zkp_verify_spec(
                            self.verifying_key@,
                            shuffle_publics(
                                v,
                                time_bounds.0@,
                                time_bounds.1@,
                                self.sig_pk@,
                                prf_eval_points.deep_view(),
                            ),
                            f,
                        )
                    },
                Err(_) => forall|f: Seq<u8>, v: u64|
                    f.len() <= u64::MAX ==> VerifiableRandomizationMessageShuffle::enc(f, v)
                        != client_message@,
            },
    {
        let decoded = VerifiableRandomizationMessageShuffle::deserialize(client_message);
        match decoded {
            None => Err(
                VldpError::Generic(
                    GenericError::ParseError("malformed client message".to_string()),
                ),
            ),
            Some(msg) => {
                if skip_proof {
                    return Ok((true, msg.ldp_value));
                }
                let publics = build_shuffle_publics(
                    msg.ldp_value,
                    &time_bounds.0,
                    &time_bounds.1,
                    &self.sig_pk,
                    prf_eval_points,
                );
                let accepted = self.config.zkp_verify(&self.verifying_key, &publics, &msg.proof);
                Ok((accepted, msg.ldp_value))
            },
        }
    }
}

} // verus!
