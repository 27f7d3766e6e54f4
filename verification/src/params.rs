//! Parameter bundles, one per scheme variant.
//!
//! A bundle holds the gamma literal and the parameters of each primitive,
//! generated once by a randomized setup and shared read-only afterwards.
//! Setup fails exactly when gamma lies outside `(0, 1]`.

use vstd::prelude::*;

verus! {

use crate::config::Config;
use crate::error::{GenericError, VldpError};
use crate::gamma::{gamma_as_bytes, gamma_encodes, gamma_encoding, gamma_in_range, validate_gamma};

/// All parameters of the Base scheme.
#[derive(Clone)]
pub struct ParametersBase {
    pub gamma: Vec<u8>,
    pub client_commitment_scheme: Vec<u8>,
    pub server_signature_scheme: Vec<u8>,
    pub client_signature_scheme: Vec<u8>,
}

/// The hash parameters of the Expand scheme's commitment tree: one set for
/// hashing leaves, one for hashing two child nodes into a parent.
#[derive(Clone)]
pub struct ClientMerkleTreeParameters {
    pub leaf_crh_params: Vec<u8>,
    pub two_to_one_crh_params: Vec<u8>,
}

impl ClientMerkleTreeParameters {
    /// Generate new parameters for the commitment tree.
    pub fn setup<C: Config>(config: &C, rng: &mut C::Rng) -> Self {
        let (leaf_crh_params, two_to_one_crh_params) = config.merkle_setup(rng);
        ClientMerkleTreeParameters { leaf_crh_params, two_to_one_crh_params }
    }
}

/// All parameters of the Expand scheme.
#[derive(Clone)]
pub struct ParametersExpand {
    pub gamma: Vec<u8>,
    pub client_commitment_scheme: Vec<u8>,
    pub server_signature_scheme: Vec<u8>,
    pub client_signature_scheme: Vec<u8>,
    pub client_merkle_tree_scheme: ClientMerkleTreeParameters,
}

/// All parameters of the Shuffle scheme.
#[derive(Clone)]
pub struct ParametersShuffle {
    pub gamma: Vec<u8>,
    pub client_commitment_scheme: Vec<u8>,
    pub server_signature_scheme: Vec<u8>,
    pub client_signature_scheme: Vec<u8>,
}

impl ParametersBase {
    /// Set up the Base scheme for the given gamma literal: check the range
    /// and generate parameters for every primitive.
    pub fn setup<C: Config>(config: &C, gamma: Vec<u8>, rng: &mut C::Rng) -> (r: Result<
        Self,
        VldpError,
    >)
        ensures
            match r {
                Ok(p) => gamma_in_range(gamma@) && p.gamma@ == gamma@,
                Err(_) => !gamma_in_range(gamma@),
            },
    {
        if !validate_gamma(&gamma) {
            return Err(
                VldpError::Generic(
                    GenericError::ParseError("gamma must lie in (0, 1]".to_string()),
                ),
            );
        }
        Ok(
            ParametersBase {
                gamma,
                client_commitment_scheme: config.commitment_setup(rng),
                server_signature_scheme: config.signature_setup(rng),
                client_signature_scheme: config.signature_setup(rng),
            },
        )
    }

    /// The fixed-width byte encoding of gamma; deterministic in the stored
    /// literal and the width, and successful exactly when the encoding
    /// exists.
    pub fn gamma_as_bytes(&self, width: usize) -> (r: Result<Vec<u8>, VldpError>)
        requires
            1 <= width <= 4096,
        ensures
            match r {
                Ok(b) => gamma_encodes(self.gamma@, width as nat) && b@ == gamma_encoding(
                    self.gamma@,
                    width as nat,
                ) && b@.len() == width,
                Err(e) => e is Generic && !gamma_encodes(self.gamma@, width as nat),
            },
    {
        match gamma_as_bytes(&self.gamma, width) {
            Ok(b) => Ok(b),
            Err(e) => Err(VldpError::Generic(e)),
        }
    }
}

impl ParametersExpand {
    /// Set up the Expand scheme for the given gamma literal: check the
    /// range and generate parameters for every primitive, the commitment
    /// tree's hashes included.
    pub fn setup<C: Config>(config: &C, gamma: Vec<u8>, rng: &mut C::Rng) -> (r: Result<
        Self,
        VldpError,
    >)
        ensures
            match r {
                Ok(p) => gamma_in_range(gamma@) && p.gamma@ == gamma@,
                Err(_) => !gamma_in_range(gamma@),
            },
    {
        if !validate_gamma(&gamma) {
            return Err(
                VldpError::Generic(
                    GenericError::ParseError("gamma must lie in (0, 1]".to_string()),
                ),
            );
        }
        Ok(
            ParametersExpand {
                gamma,
                client_commitment_scheme: config.commitment_setup(rng),
                server_signature_scheme: config.signature_setup(rng),
                client_signature_scheme: config.signature_setup(rng),
                client_merkle_tree_scheme: ClientMerkleTreeParameters::setup(config, rng),
            },
        )
    }

    /// The fixed-width byte encoding of gamma; deterministic in the stored
    /// literal and the width, and successful exactly when the encoding
    /// exists.
    pub fn gamma_as_bytes(&self, width: usize) -> (r: Result<Vec<u8>, VldpError>)
        requires
            1 <= width <= 4096,
        ensures
            match r {
                Ok(b) => gamma_encodes(self.gamma@, width as nat) && b@ == gamma_encoding(
                    self.gamma@,
                    width as nat,
                ) && b@.len() == width,
                Err(e) => e is Generic && !gamma_encodes(self.gamma@, width as nat),
            },
    {
        match gamma_as_bytes(&self.gamma, width) {
            Ok(b) => Ok(b),
            Err(e) => Err(VldpError::Generic(e)),
        }
    }
}

impl ParametersShuffle {
    /// Set up the Shuffle scheme for the given gamma literal: check the
    /// range and generate parameters for every primitive.
    pub fn setup<C: Config>(config: &C, gamma: Vec<u8>, rng: &mut C::Rng) -> (r: Result<
        Self,
        VldpError,
    >)
        ensures
            match r {
                Ok(p) => gamma_in_range(gamma@) && p.gamma@ == gamma@,
                Err(_) => !gamma_in_range(gamma@),
            },
    {
        if !validate_gamma(&gamma) {
            return Err(
                VldpError::Generic(
                    GenericError::ParseError("gamma must lie in (0, 1]".to_string()),
                ),
            );
        }
        Ok(
            ParametersShuffle {
                gamma,
                client_commitment_scheme: config.commitment_setup(rng),
                server_signature_scheme: config.signature_setup(rng),
                client_signature_scheme: config.signature_setup(rng),
            },
        )
    }

    /// The fixed-width byte encoding of gamma; deterministic in the stored
    /// literal and the width, and successful exactly when the encoding
    /// exists.
    pub fn gamma_as_bytes(&self, width: usize) -> (r: Result<Vec<u8>, VldpError>)
        requires
            1 <= width <= 4096,
        ensures
            match r {
                Ok(b) => gamma_encodes(self.gamma@, width as nat) && b@ == gamma_encoding(
                    self.gamma@,
                    width as nat,
                ) && b@.len() == width,
                Err(e) => e is Generic && !gamma_encodes(self.gamma@, width as nat),
            },
    {
        match gamma_as_bytes(&self.gamma, width) {
            Ok(b) => Ok(b),
            Err(e) => Err(VldpError::Generic(e)),
        }
    }
}

} // verus!
