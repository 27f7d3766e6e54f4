//! Verifiable local differential privacy: clients randomize a private value
//! with a discretized randomized-response mechanism and prove, in zero
//! knowledge, that the randomization was applied correctly to a value bound
//! by a prior signature; servers issue session randomness and check the
//! resulting proofs.

pub mod bytes;
pub mod circuit;
pub mod client_base;
pub mod client_shuffle;
pub mod codec;
pub mod config;
pub mod crh;
pub mod error;
pub mod gamma;
pub mod laws;
pub mod ldp;
pub mod messages_base;
pub mod messages_expand;
pub mod messages_shuffle;
pub mod mock;
pub mod params;
pub mod server_base;
pub mod server_expand;
pub mod server_shuffle;

pub use error::{ClientError, GenericError, VldpError};
