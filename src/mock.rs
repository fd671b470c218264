use vstd::prelude::*;

use crate::digest::{
    chained_digest_input, inner_nonce, inner_nonce_input, push_bytes, sha256_of,
};
use crate::types::{Attestation, CertChain, MeasurementLog, Nonce, RotType};
use crate::verify::{has_log, log_bytes};

verus! {

/// Errors of the instance root of trust mock itself; failures of the
/// platform attester it wraps are reported by that attester.
#[derive(Debug, Clone, Copy, PartialEq, Eq, Structural)]
pub enum AttestMockError {
    /// A statement or log did not fit the buffer sized for its schema.
    Serialize,
    /// This root of trust has no certificate chain of its own.
    NoCertChain(RotType),
    /// The platform attester handed over no certificate.
    EmptyCertChain,
}

/// A copy of the bytes.
pub fn copy_bytes(v: &Vec<u8>) -> (r: Vec<u8>)
    ensures
        r@ == v@,
{
    let mut r: Vec<u8> = Vec::new();
    push_bytes(&mut r, v.as_slice());
    r
}

/// Keeps the first `written` bytes of a buffer into which a statement was
/// serialized; `None` means the serializer found the buffer too small.
pub fn take_serialized(buf: Vec<u8>, written: Option<usize>) -> (r: Result<Vec<u8>, AttestMockError>)
    ensures
        written is Some && written->Some_0 <= buf@.len() ==> (r matches Ok(d) && d@
            == buf@.subrange(0, written->Some_0 as int)),
        written is None || written->Some_0 > buf@.len() ==> r == Err::<Vec<u8>, AttestMockError>(
            AttestMockError::Serialize,
        ),
{
    match written {
        None => Err(AttestMockError::Serialize),
        Some(n) => {
            if n > buf.len() {
                Err(AttestMockError::Serialize)
            } else {
                let mut data = buf;
                data.truncate(n);
                Ok(data)
            }
        },
    }
}

/// The shape of the measurement logs that the mock hands out: the platform
/// log first, then the instance log, which is empty because the mock measures
/// nothing of its own.
pub open spec fn is_mock_log_set(logs: Seq<MeasurementLog>, platform_log: Seq<u8>) -> bool {
    &&& logs.len() == 2
    &&& logs[0].rot == RotType::OxidePlatform
    &&& logs[0].data@ == platform_log
    &&& logs[1].rot == RotType::OxideInstance
    &&& logs[1].data@.len() == 0
}

/// Stands in for the VM-instance root of trust: it binds the challenger's
/// nonce and user data into the nonce that the wrapped platform attester
/// signs, and re-wraps that attester's log and certificates. It keeps no
/// state: each call is handed what the platform attester returned for it.
pub struct AttestMock {}

impl AttestMock {
    /// The instance root of trust mock.
    pub fn new() -> (r: AttestMock) {
        AttestMock {}
    }

    /// The only nonce the wrapped platform attester sees: SHA-256 of the
    /// challenger's nonce followed by the user data.
    pub fn platform_nonce(&self, nonce: &Nonce, user_data: &[u8]) -> (r: [u8; 32])
        ensures
            r@ == sha256_of(inner_nonce_input(nonce.0@, user_data@)),
    {
        inner_nonce(nonce, user_data)
    }

    /// The attestations returned to the challenger: the platform attester's
    /// serialized statement, alone and tagged as platform evidence.
    pub fn attestations(&self, statement: Vec<u8>) -> (r: Vec<Attestation>)
        ensures
            r@.len() == 1,
            r@[0].rot == RotType::OxidePlatform,
            r@[0].data@ == statement@,
    {
        let mut r: Vec<Attestation> = Vec::new();
        r.push(Attestation { rot: RotType::OxidePlatform, data: statement });
        r
    }

    /// All measurement logs, in order of concatenation, around the platform
    /// attester's serialized log.
    pub fn get_measurement_logs(&self, platform_log: Vec<u8>) -> (r: Vec<MeasurementLog>)
        ensures
            is_mock_log_set(r@, platform_log@),
    {
        let mut r: Vec<MeasurementLog> = Vec::new();
        r.push(MeasurementLog { rot: RotType::OxidePlatform, data: platform_log });
        r.push(MeasurementLog { rot: RotType::OxideInstance, data: Vec::new() });
        r
    }

    /// The certificate chain of one root of trust, from the platform
    /// attester's certificates, leaf first. The instance root of trust signs
    /// nothing, so it has no chain: that is an error, never an empty chain;
    /// and a platform chain without a certificate is an error too.
    pub fn get_cert_chain(&self, rot: RotType, platform_certs: Vec<Vec<u8>>) -> (r: Result<
        CertChain,
        AttestMockError,
    >)
        ensures
            rot == RotType::OxidePlatform && platform_certs@.len() > 0 ==> (r matches Ok(c)
                && c.rot == RotType::OxidePlatform && c.certs@ == platform_certs@),
            rot == RotType::OxidePlatform && platform_certs@.len() == 0 ==> r == Err::<
                CertChain,
                AttestMockError,
            >(AttestMockError::EmptyCertChain),
            rot == RotType::OxideInstance ==> r == Err::<CertChain, AttestMockError>(
                AttestMockError::NoCertChain(RotType::OxideInstance),
            ),
            r matches Ok(c) ==> c.certs@.len() >= 1,
    {
        match rot {
            RotType::OxidePlatform => {
                if platform_certs.len() == 0 {
                    Err(AttestMockError::EmptyCertChain)
                } else {
                    Ok(CertChain { rot: RotType::OxidePlatform, certs: platform_certs })
                }
            },
            RotType::OxideInstance => Err(AttestMockError::NoCertChain(RotType::OxideInstance)),
        }
    }

    /// One certificate chain per root of trust that signs: the platform's
    /// alone, which must hold a certificate.
    pub fn get_cert_chains(&self, platform_certs: Vec<Vec<u8>>) -> (r: Result<
        Vec<CertChain>,
        AttestMockError,
    >)
        ensures
            platform_certs@.len() == 0 ==> r == Err::<Vec<CertChain>, AttestMockError>(
                AttestMockError::EmptyCertChain,
            ),
            platform_certs@.len() > 0 ==> (r matches Ok(cs) && cs@.len() == 1 && cs@[0].rot
                == RotType::OxidePlatform && cs@[0].certs@ == platform_certs@),
            r matches Ok(cs) ==> forall|i: int|
                0 <= i < cs@.len() ==> (#[trigger] cs@[i]).certs@.len() >= 1 && cs@[i].rot
                    == RotType::OxidePlatform,
    {
        let c = self.get_cert_chain(RotType::OxidePlatform, platform_certs)?;
        let mut r: Vec<CertChain> = Vec::new();
        r.push(c);
        Ok(r)
    }
}

/// Digest chaining agreement: for the logs that the mock hands out, the
/// challenger finds an instance log, and the digest it reconstructs from that
/// log, the nonce and the user data is the very nonce that the mock handed to
/// the platform attester.
pub proof fn lemma_digest_chaining_agreement(
    logs: Seq<MeasurementLog>,
    platform_log: Seq<u8>,
    nonce: Nonce,
    user_data: Seq<u8>,
)
    requires
        is_mock_log_set(logs, platform_log),
    ensures
        has_log(logs, RotType::OxideInstance),
        sha256_of(chained_digest_input(log_bytes(logs, RotType::OxideInstance), nonce.0@, user_data))
            == sha256_of(inner_nonce_input(nonce.0@, user_data)),
{
    assert(logs[1].rot == RotType::OxideInstance);
    assert(logs.drop_last().drop_last() =~= Seq::<MeasurementLog>::empty());
    assert(logs.drop_last().last() == logs[0]);
    assert(logs.last() == logs[1]);
    let first = logs.drop_last();
    assert(log_bytes(first.drop_last(), RotType::OxideInstance) == Seq::<u8>::empty());
    assert(log_bytes(first, RotType::OxideInstance) == log_bytes(
        first.drop_last(),
        RotType::OxideInstance,
    ));
    assert(log_bytes(logs, RotType::OxideInstance) =~= Seq::<u8>::empty());
    assert(chained_digest_input(Seq::<u8>::empty(), nonce.0@, user_data) =~= inner_nonce_input(
        nonce.0@,
        user_data,
    ));
}

} // verus!
