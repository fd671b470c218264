use vstd::prelude::*;

use crate::types::{Attestation, CertChain, MeasurementLog, Nonce};

verus! {

/// Anything that attests on behalf of a VM instance: the mock, a client of
/// the command channel, or a hardware-backed root of trust. Callers rely on
/// nothing but these three operations.
pub trait AttestationSigner {
    type Error;

    /// One attestation per participating root of trust, entangled with the
    /// nonce and user data, in chaining order (innermost evidence first);
    /// no partial list on failure.
    fn attest(&self, nonce: &Nonce, user_data: &[u8]) -> Result<Vec<Attestation>, Self::Error>;

    /// All relevant measurement logs, in the order in which a verifier
    /// concatenates them.
    fn get_measurement_logs(&self) -> Result<Vec<MeasurementLog>, Self::Error>;

    /// One certificate chain per root of trust that signs, leaf first.
    fn get_cert_chains(&self) -> Result<Vec<CertChain>, Self::Error>;
}

} // verus!
