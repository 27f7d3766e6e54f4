//! The server of the Base scheme.
//!
//! The server is stateless across sessions but for its long-term signing
//! keypair and the proof-verifying key.  It answers randomness-generation
//! requests with a signed seed, and checks randomization messages by
//! re-verifying its own signature, re-deriving its randomness contribution
//! from the seed, and handing the rebuilt public inputs to the proof
//! system.

use vstd::prelude::*;

verus! {

use crate::circuit::{base_publics, build_base_publics, expand_indexed,
    expand_randomness_indexed};
use crate::codec::clone_bytes;
use crate::config::{Config, EntropySource};
use crate::error::{GenericError, VldpError};
use crate::ldp::ProtocolSpec;
use crate::messages_base::{GenerateRandomnessMessageClientBase,
    GenerateRandomnessMessageServerBase, GenerateRandomnessSignatureInputBase,
    VerifiableRandomizationMessageBase};
use crate::params::ParametersBase;

/// The Base scheme server.
pub struct ServerBase<C: Config> {
    pub config: C,
    pub ps: ProtocolSpec,
    pub parameters: ParametersBase,
    pub sig_pk: Vec<u8>,
    pub sig_sk: Vec<u8>,
    pub verifying_key: Vec<u8>,
}

impl<C: Config> ServerBase<C> {
    /// The widths are consistent and the server holds a matching signing
    /// keypair.
    pub open spec fn wf(&self) -> bool {
        &&& self.ps.wf()
        &&& C::sig_keypair_spec(
            self.parameters.server_signature_scheme@,
            self.sig_pk@,
            self.sig_sk@,
        )
    }

    /// A new server with the given instance widths, parameters and
    /// verifying key; generates a fresh long-term signing keypair.  Fails
    /// exactly when the widths are inconsistent.
    pub fn new(
        config: C,
        ps: ProtocolSpec,
        parameters: ParametersBase,
        verifying_key: Vec<u8>,
        rng: &mut C::Rng,
    ) -> (r: Result<Self, VldpError>)
        ensures
            match r {
                Ok(s) => {
                    &&& ps.wf()
                    &&& s.wf()
                    &&& s.ps == ps
                    &&& s.parameters == parameters
                    &&& s.verifying_key@ == verifying_key@
                },
                Err(_) => !ps.wf(),
            },
    {
        if !ps.validate() {
            return Err(
                VldpError::Generic(
                    GenericError::ParseError("inconsistent byte widths".to_string()),
                ),
            );
        }
        let (sig_pk, sig_sk) = config.sig_keygen(&parameters.server_signature_scheme, rng);
        Ok(ServerBase { config, ps, parameters, sig_pk, sig_sk, verifying_key })
    }

    /// The server's long-term signature public key.
    pub fn get_signature_public_key(&self) -> (r: Vec<u8>)
        ensures
            r@ == self.sig_pk@,
    {
        clone_bytes(&self.sig_pk)
    }

    /// The randomness-generation step: decode the client's opening message,
    /// choose a fresh seed, sign the canonical signing input over the
    /// commitment, the client key and the seed, and return the serialized
    /// answer.
    pub fn generate_randomness_create(&self, client_message: &Vec<u8>, rng: &mut C::Rng) -> (r:
        Result<Vec<u8>, VldpError>)
        requires
            self.wf(),
        ensures
            match r {
                Ok(b) => exists|c: Seq<u8>, p: Seq<u8>, t: Seq<u8>, seed: Seq<u8>, sig: Seq<u8>|
                    #![trigger GenerateRandomnessMessageClientBase::enc(c, p, t),
                        GenerateRandomnessMessageServerBase::enc(seed, sig)]
                    {
                        &&& GenerateRandomnessMessageClientBase::enc(c, p, t) == client_message@
                        &&& t.len() == self.ps.time_bytes
                        &&& seed.len() == 32
                        &&& b@ == GenerateRandomnessMessageServerBase::enc(seed, sig)
                        &&& C::sig_verify_spec(
                            self.parameters.server_signature_scheme@,
                            self.sig_pk@,
                            GenerateRandomnessSignatureInputBase::enc(c, p, seed),
                            sig,
                        )
                    },
                Err(_) => forall|c: Seq<u8>, p: Seq<u8>, t: Seq<u8>|
                    c.len() <= u64::MAX && p.len() <= u64::MAX && t.len() == self.ps.time_bytes
                        ==> GenerateRandomnessMessageClientBase::enc(c, p, t) != client_message@,
            },
    {
        let decoded = GenerateRandomnessMessageClientBase::deserialize(
            client_message,
            self.ps.time_bytes,
        );
        match decoded {
            None => Err(
                VldpError::Generic(
                    GenericError::ParseError("malformed client message".to_string()),
                ),
            ),
            Some(msg) => {
                let server_seed = rng.fill_bytes(32);
                let ghost c = msg.client_randomness_commitment@;
                let ghost p = msg.client_signature_public_key@;
                let ghost t = msg.time@;
                let signature_input = GenerateRandomnessSignatureInputBase::new(
                    msg,
                    clone_bytes(&server_seed),
                );
                let signature_input_bytes = signature_input.serialize();
                let server_signature = self.config.sig_sign(
                    &self.parameters.server_signature_scheme,
                    &self.sig_sk,
                    &signature_input_bytes,
                    rng,
                );
                let reply = GenerateRandomnessMessageServerBase {
                    server_seed,
                    server_signature,
                };
                let serialized = reply.serialize();
                proof {
                    assert(GenerateRandomnessMessageClientBase::enc(c, p, t) == client_message@);
                }
                Ok(serialized)
            },
        }
    }

    /// The verify step: decode the randomization message, re-check the
    /// server's own signature over the rebuilt signing input, re-derive the
    /// server randomness from the seed, and delegate to the proof system
    /// over the canonical public-input order.  A failed signature yields
    /// `(false, u64::MAX)` without touching the proof system.
    ///
    /// With `skip_proof` the proof check is skipped; that path is only for
    /// measurements and tests, never for a live deployment.
    pub fn verifiable_randomization_verify(
        &self,
        client_message: &Vec<u8>,
        time_bounds: (Vec<u8>, Vec<u8>),
        skip_proof: bool,
    ) -> (r: Result<(bool, u64), VldpError>)
        requires
            self.wf(),
            time_bounds.0@.len() == self.ps.time_bytes,
            time_bounds.1@.len() == self.ps.time_bytes,
        ensures
            match r {
                Ok(outcome) => exists|
                    k: Seq<u8>,
                    c: Seq<u8>,
                    s: Seq<u8>,
                    g: Seq<u8>,
                    f: Seq<u8>,
                    v: u64,
                |
                    {
                        &&& #[trigger] VerifiableRandomizationMessageBase::enc(k, c, s, g, f, v)
                            == client_message@
                        &&& s.len() == 32
                        &&& {
                            let sig_ok = C::sig_verify_spec(
                                self.parameters.server_signature_scheme@,
                                self.sig_pk@,
                                GenerateRandomnessSignatureInputBase::enc(c, k, s),
                                g,
                            );
                            &&& !sig_ok ==> outcome == (false, u64::MAX)
                            &&& sig_ok ==> outcome.1 == v
                            &&& sig_ok && skip_proof ==> outcome.0 == true
                            &&& sig_ok && !skip_proof ==> outcome.0 == C::zkp_verify_spec(
                                self.verifying_key@,
                                base_publics(
                                    v,
                                    time_bounds.0@,
                                    time_bounds.1@,
                                    k,
                                    c,
                                    expand_indexed::<C>(s, self.ps.randomness_bytes as nat),
                                ),
                                f,
                            )
                        }
                    },
                Err(_) => forall|k: Seq<u8>, c: Seq<u8>, s: Seq<u8>, g: Seq<u8>, f: Seq<u8>, v: u64|
                    k.len() <= u64::MAX && c.len() <= u64::MAX && s.len() == 32 && g.len()
                        <= u64::MAX && f.len() <= u64::MAX
                        ==> VerifiableRandomizationMessageBase::enc(k, c, s, g, f, v)
                        != client_message@,
            },
    {
        let decoded = VerifiableRandomizationMessageBase::deserialize(client_message);
        match decoded {
            None => Err(
                VldpError::Generic(
                    GenericError::ParseError("malformed client message".to_string()),
                ),
            ),
            Some(msg) => {
                if msg.server_seed.len() != 32 {
                    proof {
                        assert forall|
                            k: Seq<u8>,
                            c: Seq<u8>,
                            s: Seq<u8>,
                            g: Seq<u8>,
                            f: Seq<u8>,
                            v: u64,
                        |
                            k.len() <= u64::MAX && c.len() <= u64::MAX && s.len() == 32 && g.len()
                                <= u64::MAX && f.len()
                                <= u64::MAX implies VerifiableRandomizationMessageBase::enc(
                            k,
                            c,
                            s,
                            g,
                            f,
                            v,
                        ) != client_message@ by {
                            if VerifiableRandomizationMessageBase::enc(k, c, s, g, f, v)
                                == client_message@ {
                                crate::bytes::lemma_u64_le_seq(v);
                                crate::bytes::lemma_u64_le_seq(msg.ldp_value);
                                crate::codec::lemma_blocks_enc_injective(
                                    seq![k, c, s, g, f, crate::bytes::u64_le_seq(v)],
                                    seq![
                                        msg.client_sig_pk@,
                                        msg.client_randomness_commitment@,
                                        msg.server_seed@,
                                        msg.server_signature@,
                                        msg.proof@,
                                        crate::bytes::u64_le_seq(msg.ldp_value),
                                    ],
                                );
                            }
                        }
                    }
                    return Err(
                        VldpError::Generic(
                            GenericError::ParseError("malformed server seed".to_string()),
                        ),
                    );
                }
                let signature_input = GenerateRandomnessSignatureInputBase {
                    client_randomness_commitment: clone_bytes(&msg.client_randomness_commitment),
                    client_signature_public_key: clone_bytes(&msg.client_sig_pk),
                    server_seed: clone_bytes(&msg.server_seed),
                };
                let signature_input_bytes = signature_input.serialize();
                let sig_ok = self.config.sig_verify(
                    &self.parameters.server_signature_scheme,
                    &self.sig_pk,
                    &signature_input_bytes,
                    &msg.server_signature,
                );
                if !sig_ok {
                    return Ok((false, u64::MAX));
                }
                if skip_proof {
                    return Ok((true, msg.ldp_value));
                }
                let server_randomness = expand_randomness_indexed(
                    &self.config,
                    &msg.server_seed,
                    self.ps.randomness_bytes,
                );
                let publics = build_base_publics(
                    msg.ldp_value,
                    &time_bounds.0,
                    &time_bounds.1,
                    &msg.client_sig_pk,
                    &msg.client_randomness_commitment,
                    &server_randomness,
                );
                let accepted = self.config.zkp_verify(&self.verifying_key, &publics, &msg.proof);
                Ok((accepted, msg.ldp_value))
            },
        }
    }
}

} // verus!
