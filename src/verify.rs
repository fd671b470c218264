use vstd::prelude::*;

use crate::cert::{
    chain_parses, check_chain, check_pem_bundle, der_certificate_parses, pem_blank, pem_chain_parses,
};
use crate::digest::{chained_digest, chained_digest_input, sha256_of};
use crate::types::{Attestation, CertChain, MeasurementLog, Nonce, RotType};

verus! {

/// Why a challenger rejects an attestation, or could not start checking one.
#[derive(Debug, Clone, Copy, PartialEq, Eq, Structural)]
pub enum VerifyError {
    /// Neither a trusted root nor self-signed mode was chosen.
    MissingRootTrust,
    /// Both a trusted root and self-signed mode were chosen.
    ConflictingRootTrust,
    /// The trusted root bundle is not valid PEM.
    RootCertDecode,
    /// A certificate of a chain is not valid DER.
    CertDecode,
    /// A chain was offered for a root of trust that never signs.
    ChainForNonSigningRot(RotType),
    /// No chain was offered for the platform root of trust.
    MissingCertChain,
    /// The platform root of trust's chain holds no certificate.
    EmptyCertChain,
    /// No measurement log was offered for this root of trust.
    MissingLog(RotType),
    /// The attester returned other than exactly one attestation.
    AttestationCount,
    /// The single attestation came from this root of trust, not the platform.
    UnexpectedRot(RotType),
    /// A certificate chain did not validate against the trusted root.
    ChainRejected,
    /// The attestation's signature or measurements did not verify.
    AttestationRejected,
    /// A challenge was told something it was not waiting for.
    UnexpectedEvent,
}

/// How the challenger anchors certificate chains.
#[derive(Debug, Clone)]
pub enum RootTrust {
    /// Against a PEM bundle of trusted roots.
    Root(Vec<u8>),
    /// Against each chain's own self-signed root.
    SelfSigned,
}

/// Picks the trust anchor from the challenger's options: exactly one of a
/// root bundle and self-signed mode must be chosen, and the bundle must
/// decode.
pub fn select_root_trust(root_pem: Option<Vec<u8>>, self_signed: bool) -> (r: Result<
    RootTrust,
    VerifyError,
>)
    ensures
        root_pem is None && !self_signed ==> r == Err::<RootTrust, VerifyError>(
            VerifyError::MissingRootTrust,
        ),
        root_pem is Some && self_signed ==> r == Err::<RootTrust, VerifyError>(
            VerifyError::ConflictingRootTrust,
        ),
        root_pem is None && self_signed ==> r matches Ok(RootTrust::SelfSigned),
        root_pem is Some && !self_signed ==> {
            let p = root_pem->Some_0;
            &&& !pem_blank(p@) && pem_chain_parses(p@) ==> (r matches Ok(RootTrust::Root(q)) && q@
                == p@)
            &&& pem_blank(p@) || !pem_chain_parses(p@) ==> r == Err::<RootTrust, VerifyError>(
                VerifyError::RootCertDecode,
            )
        },
{
    match root_pem {
        None => {
            if self_signed {
                Ok(RootTrust::SelfSigned)
            } else {
                Err(VerifyError::MissingRootTrust)
            }
        },
        Some(p) => {
            if self_signed {
                Err(VerifyError::ConflictingRootTrust)
            } else {
                match check_pem_bundle(&p) {
                    Ok(()) => Ok(RootTrust::Root(p)),
                    Err(_) => Err(VerifyError::RootCertDecode),
                }
            }
        },
    }
}

/// Whether every chain belongs to a root of trust that signs.
pub open spec fn chains_all_signing(chains: Seq<CertChain>) -> bool {
    forall|i: int| 0 <= i < chains.len() ==> (#[trigger] chains[i]).rot.spec_signs()
}

/// Whether every certificate of every chain decodes.
pub open spec fn chains_all_parse(chains: Seq<CertChain>) -> bool {
    forall|i: int| 0 <= i < chains.len() ==> chain_parses(#[trigger] chains[i])
}

/// Checks the fetched chains before they are validated: each must belong to a
/// root of trust that signs (a chain for one that never signs is a broken
/// attester, not something to skip), and each certificate must decode.
pub fn check_chains(chains: &Vec<CertChain>) -> (r: Result<(), VerifyError>)
    ensures
        r is Ok <==> chains_all_signing(chains@) && chains_all_parse(chains@),
        !chains_all_signing(chains@) ==> r == Err::<(), VerifyError>(
            VerifyError::ChainForNonSigningRot(RotType::OxideInstance),
        ),
        chains_all_signing(chains@) && !chains_all_parse(chains@) ==> r == Err::<
            (),
            VerifyError,
        >(VerifyError::CertDecode),
{
    let mut i: usize = 0;
    while i < chains.len()
        invariant
            i <= chains@.len(),
            forall|j: int| 0 <= j < i ==> (#[trigger] chains@[j]).rot.spec_signs(),
        decreases chains@.len() - i,
    {
        if !chains[i].rot.signs() {
            return Err(VerifyError::ChainForNonSigningRot(chains[i].rot));
        }
        i = i + 1;
    }
    let mut k: usize = 0;
    while k < chains.len()
        invariant
            k <= chains@.len(),
            chains_all_signing(chains@),
            forall|j: int| 0 <= j < k ==> chain_parses(#[trigger] chains@[j]),
        decreases chains@.len() - k,
    {
        if check_chain(&chains[k]).is_err() {
            return Err(VerifyError::CertDecode);
        }
        k = k + 1;
    }
    Ok(())
}

/// Whether some log belongs to the given root of trust.
pub open spec fn has_log(logs: Seq<MeasurementLog>, rot: RotType) -> bool {
    exists|i: int| 0 <= i < logs.len() && (#[trigger] logs[i]).rot == rot
}

/// The payloads of the logs of one root of trust, concatenated in order.
pub open spec fn log_bytes(logs: Seq<MeasurementLog>, rot: RotType) -> Seq<u8>
    decreases logs.len(),
{
    if logs.len() == 0 {
        Seq::empty()
    } else {
        let prefix = log_bytes(logs.drop_last(), rot);
        if logs.last().rot == rot {
            prefix + logs.last().data@
        } else {
            prefix
        }
    }
}

/// The index of the first log of the given root of trust.
pub fn find_log(logs: &Vec<MeasurementLog>, rot: RotType) -> (r: Option<usize>)
    ensures
        r is None <==> !has_log(logs@, rot),
        r matches Some(i) ==> i < logs@.len() && logs@[i as int].rot == rot && forall|j: int|
            0 <= j < i ==> (#[trigger] logs@[j]).rot != rot,
{
    let mut i: usize = 0;
    while i < logs.len()
        invariant
            i <= logs@.len(),
            forall|j: int| 0 <= j < i ==> (#[trigger] logs@[j]).rot != rot,
        decreases logs@.len() - i,
    {
        if logs[i].rot == rot {
            return Some(i);
        }
        i = i + 1;
    }
    None
}

/// The payloads of the logs of one root of trust, concatenated in the order
/// in which the attester returned them; missing logs are an error.
pub fn collect_log(logs: &Vec<MeasurementLog>, rot: RotType) -> (r: Result<Vec<u8>, VerifyError>)
    ensures
        r is Err <==> !has_log(logs@, rot),
        r matches Ok(b) ==> b@ == log_bytes(logs@, rot),
        r matches Err(e) ==> e == VerifyError::MissingLog(rot),
{
    if find_log(logs, rot).is_none() {
        return Err(VerifyError::MissingLog(rot));
    }
    let mut out: Vec<u8> = Vec::new();
    let mut i: usize = 0;
    while i < logs.len()
        invariant
            i <= logs@.len(),
            out@ == log_bytes(logs@.subrange(0, i as int), rot),
        decreases logs@.len() - i,
    {
        proof {
            let s = logs@.subrange(0, i + 1);
            assert(s.drop_last() =~= logs@.subrange(0, i as int));
            assert(s.last() == logs@[i as int]);
        }
        if logs[i].rot == rot {
            crate::digest::push_bytes(&mut out, logs[i].data.as_slice());
        }
        i = i + 1;
    }
    assert(logs@.subrange(0, logs@.len() as int) =~= logs@);
    Ok(out)
}

/// Reconstructs, independently of the attester, the digest that the platform
/// root of trust must have signed: SHA-256 of the instance root of trust's
/// log, the nonce and the user data. A missing instance log is an error.
pub fn reconstruct_digest(logs: &Vec<MeasurementLog>, nonce: &Nonce, user_data: &[u8]) -> (r:
    Result<[u8; 32], VerifyError>)
    ensures
        r is Err <==> !has_log(logs@, RotType::OxideInstance),
        r matches Ok(d) ==> d@ == sha256_of(
            chained_digest_input(log_bytes(logs@, RotType::OxideInstance), nonce.0@, user_data@),
        ),
        r matches Err(e) ==> e == VerifyError::MissingLog(RotType::OxideInstance),
{
    let log = collect_log(logs, RotType::OxideInstance)?;
    Ok(chained_digest(log.as_slice(), nonce, user_data))
}

/// The payload of the single attestation, which must come from the platform
/// root of trust.
pub fn single_platform_attestation(attestations: &Vec<Attestation>) -> (r: Result<
    &Vec<u8>,
    VerifyError,
>)
    ensures
        attestations@.len() != 1 ==> r matches Err(VerifyError::AttestationCount),
        attestations@.len() == 1 && attestations@[0].rot != RotType::OxidePlatform ==> r matches Err(
            VerifyError::UnexpectedRot(RotType::OxideInstance),
        ),
        r matches Ok(d) ==> attestations@.len() == 1 && attestations@[0].rot
            == RotType::OxidePlatform && d@ == attestations@[0].data@,
        attestations@.len() == 1 && attestations@[0].rot == RotType::OxidePlatform ==> r is Ok,
{
    if attestations.len() != 1 {
        return Err(VerifyError::AttestationCount);
    }
    let a = &attestations[0];
    if a.rot != RotType::OxidePlatform {
        return Err(VerifyError::UnexpectedRot(a.rot));
    }
    Ok(&a.data)
}

/// Whether some chain belongs to the given root of trust.
pub open spec fn has_chain(chains: Seq<CertChain>, rot: RotType) -> bool {
    exists|i: int| 0 <= i < chains.len() && (#[trigger] chains[i]).rot == rot
}

/// Whether the chain at index `i` is the first of the platform root of trust.
pub open spec fn is_first_platform_chain(chains: Seq<CertChain>, i: int) -> bool {
    &&& 0 <= i < chains.len()
    &&& chains[i].rot == RotType::OxidePlatform
    &&& forall|j: int| 0 <= j < i ==> (#[trigger] chains[j]).rot != RotType::OxidePlatform
}

/// Whether the first platform chain starts with a certificate that decodes.
pub open spec fn leaf_available(chains: Seq<CertChain>) -> bool {
    exists|i: int|
        #![trigger chains[i]]
        is_first_platform_chain(chains, i) && chains[i].certs@.len() > 0 && der_certificate_parses(
            chains[i].certs@[0]@,
        )
}

/// Whether the first platform chain holds no certificate.
pub open spec fn leaf_missing(chains: Seq<CertChain>) -> bool {
    exists|i: int| #![trigger chains[i]] is_first_platform_chain(chains, i) && chains[i].certs@.len() == 0
}

/// Whether the first certificate of the first platform chain does not decode.
pub open spec fn leaf_undecodable(chains: Seq<CertChain>) -> bool {
    exists|i: int|
        #![trigger chains[i]]
        is_first_platform_chain(chains, i) && chains[i].certs@.len() > 0 && !der_certificate_parses(
            chains[i].certs@[0]@,
        )
}

/// Whether the bytes are the first certificate of the first platform chain.
pub open spec fn is_leaf(chains: Seq<CertChain>, leaf: Seq<u8>) -> bool {
    exists|i: int|
        #![trigger chains[i]]
        is_first_platform_chain(chains, i) && chains[i].certs@.len() > 0 && leaf == chains[i].certs@[0]@
}

/// The signing certificate of the platform root of trust: the first
/// certificate of its first chain, which must decode.
pub fn leaf_certificate(chains: &Vec<CertChain>) -> (r: Result<&Vec<u8>, VerifyError>)
    ensures
        r is Ok <==> leaf_available(chains@),
        r matches Ok(c) ==> is_leaf(chains@, c@),
        !has_chain(chains@, RotType::OxidePlatform) ==> r == Err::<&Vec<u8>, VerifyError>(
            VerifyError::MissingCertChain,
        ),
        leaf_missing(chains@) ==> r == Err::<&Vec<u8>, VerifyError>(VerifyError::EmptyCertChain),
        leaf_undecodable(chains@) ==> r == Err::<&Vec<u8>, VerifyError>(VerifyError::CertDecode),
{
    let mut i: usize = 0;
    while i < chains.len()
        invariant
            i <= chains@.len(),
            forall|j: int| 0 <= j < i ==> (#[trigger] chains@[j]).rot != RotType::OxidePlatform,
        decreases chains@.len() - i,
    {
        let chain = &chains[i];
        if chain.rot == RotType::OxidePlatform {
            assert(is_first_platform_chain(chains@, i as int));
            assert forall|k: int| #[trigger]
                is_first_platform_chain(chains@, k) implies k == i as int by {
                if k < i as int {
                    assert(chains@[k].rot != RotType::OxidePlatform);
                } else if k > i as int {
                    assert(chains@[i as int].rot != RotType::OxidePlatform);
                }
            }
            if chain.certs.len() == 0 {
                return Err(VerifyError::EmptyCertChain);
            }
            let leaf = &chain.certs[0];
            if crate::cert::check_certificate(leaf).is_err() {
                return Err(VerifyError::CertDecode);
            }
            assert(is_leaf(chains@, leaf@));
            return Ok(leaf);
        }
        i = i + 1;
    }
    assert forall|k: int| !#[trigger] is_first_platform_chain(chains@, k) by {
        if 0 <= k < chains@.len() {
            assert(chains@[k].rot != RotType::OxidePlatform);
        }
    }
    Err(VerifyError::MissingCertChain)
}

/// Whether the challenger accepts: every chain validated and the attestation
/// verified.
pub open spec fn accepts(chain_results: Seq<bool>, attestation_ok: bool) -> bool {
    (forall|i: int| 0 <= i < chain_results.len() ==> #[trigger] chain_results[i]) && attestation_ok
}

/// The final decision, from the outcome of validating each certificate chain
/// and of verifying the attestation. Either failure rejects.
pub fn decide(chain_results: &Vec<bool>, attestation_ok: bool) -> (r: Result<(), VerifyError>)
    ensures
        r is Ok <==> accepts(chain_results@, attestation_ok),
        r matches Err(e) ==> (e == VerifyError::ChainRejected && exists|i: int|
            0 <= i < chain_results@.len() && !#[trigger] chain_results@[i]) || (e
            == VerifyError::AttestationRejected && !attestation_ok),
{
    let mut i: usize = 0;
    while i < chain_results.len()
        invariant
            i <= chain_results@.len(),
            forall|j: int| 0 <= j < i ==> #[trigger] chain_results@[j],
        decreases chain_results@.len() - i,
    {
        if !chain_results[i] {
            return Err(VerifyError::ChainRejected);
        }
        i = i + 1;
    }
    if attestation_ok {
        Ok(())
    } else {
        Err(VerifyError::AttestationRejected)
    }
}

/// The decision is a conjunction with no short cut: the challenger accepts
/// exactly when chain validation and attestation verification both succeed,
/// and turning either outcome into a failure turns acceptance into rejection.
pub proof fn lemma_accepts_iff_both(chain_results: Seq<bool>, attestation_ok: bool, i: int)
    ensures
        accepts(chain_results, attestation_ok) <==> (forall|j: int|
            0 <= j < chain_results.len() ==> #[trigger] chain_results[j]) && attestation_ok,
        !accepts(chain_results, false),
        0 <= i < chain_results.len() ==> !accepts(chain_results.update(i, false), attestation_ok),
{
    if 0 <= i < chain_results.len() {
        assert(!chain_results.update(i, false)[i]);
    }
}

} // verus!
