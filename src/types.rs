use vstd::prelude::*;

verus! {

/// Length in bytes of a challenger's nonce.
pub const NONCE_LEN: usize = 32;

/// User chosen value, probably random data. Must not be reused.
#[derive(Debug, Clone, Copy)]
pub struct Nonce(pub [u8; 32]);

/// Identity of the root of trust that produced a piece of evidence.
#[derive(Debug, Clone, Copy, PartialEq, Eq, Structural)]
pub enum RotType {
    /// The hardware root of trust of the host platform.
    OxidePlatform,
    /// The root of trust of the VM instance, which wraps the platform one.
    OxideInstance,
}

/// One signed statement from one root of trust; `data` is encoded as `rot`
/// dictates.
#[derive(Debug, Clone)]
pub struct Attestation {
    pub rot: RotType,
    pub data: Vec<u8>,
}

/// The measurement log of one root of trust.
#[derive(Debug, Clone)]
pub struct MeasurementLog {
    pub rot: RotType,
    pub data: Vec<u8>,
}

/// The certificate path of one root of trust's signing key, leaf first, each
/// certificate DER encoded.
#[derive(Debug, Clone)]
pub struct CertChain {
    pub rot: RotType,
    pub certs: Vec<Vec<u8>>,
}

#[verifier::external_type_specification]
#[verifier::external_body]
pub struct ExGetrandomError(getrandom::Error);

/// Relies on `getrandom::fill`: fills the buffer from the operating system's
/// secure random source, or reports that the source could not be read.
#[verifier::external_body]
fn platform_random_32() -> (r: Result<[u8; 32], getrandom::Error>) {
    let mut buf = [0u8; 32];
    match getrandom::fill(&mut buf[..]) {
        Ok(()) => Ok(buf),
        Err(e) => Err(e),
    }
}

/// Why a nonce could not be made.
#[derive(Debug, Clone, Copy, PartialEq, Eq, Structural)]
pub enum NonceError {
    /// The secure random source could not be read.
    RngUnavailable,
}

impl Nonce {
    /// A fresh nonce from the platform's secure random source.
    pub fn from_platform_rng() -> (r: Result<Nonce, NonceError>)
        ensures
            r matches Err(e) ==> e == NonceError::RngUnavailable,
    {
        match platform_random_32() {
            Ok(bytes) => Ok(Nonce(bytes)),
            Err(_) => Err(NonceError::RngUnavailable),
        }
    }

    /// A nonce holding the given bytes.
    pub fn from_bytes(bytes: [u8; 32]) -> (r: Nonce)
        ensures
            r.0@ == bytes@,
    {
        Nonce(bytes)
    }

    /// The nonce's bytes, in order.
    pub fn to_vec(&self) -> (r: Vec<u8>)
        ensures
            r@ == self.0@,
    {
        let mut r: Vec<u8> = Vec::new();
        let mut i: usize = 0;
        while i < NONCE_LEN
            invariant
                i <= NONCE_LEN,
                self.0@.len() == NONCE_LEN,
                r@ == self.0@.subrange(0, i as int),
            decreases NONCE_LEN - i,
        {
            r.push(self.0[i]);
            i = i + 1;
            assert(r@ =~= self.0@.subrange(0, i as int));
        }
        assert(r@ =~= self.0@);
        r
    }
}

impl RotType {
    /// Whether this root of trust signs attestations with a key of its own,
    /// and so has a certificate chain.
    pub open spec fn spec_signs(self) -> bool {
        self == RotType::OxidePlatform
    }

    /// Whether this root of trust signs attestations with a key of its own.
    pub fn signs(&self) -> (r: bool)
        ensures
            r == self.spec_signs(),
    {
        match self {
            RotType::OxidePlatform => true,
            RotType::OxideInstance => false,
        }
    }
}

} // verus!
