use vstd::prelude::*;

use crate::digest::{chained_digest_input, sha256_of};
use crate::types::{Attestation, CertChain, MeasurementLog, Nonce, RotType};
use crate::verify::{
    accepts, chains_all_parse, chains_all_signing, check_chains, collect_log, decide, has_chain,
    has_log, is_leaf, leaf_available, leaf_certificate, leaf_missing, leaf_undecodable, log_bytes,
    reconstruct_digest, single_platform_attestation, VerifyError,
};

verus! {

/// Where a challenge stands.
#[derive(Debug, Clone, Copy, PartialEq, Eq, Structural)]
pub enum Phase {
    /// Waiting for the attester's certificate chains.
    AwaitingChains,
    /// Waiting for the outcome of validating the next chain.
    ValidatingChains,
    /// Waiting for the attester's measurement logs.
    AwaitingLogs,
    /// Waiting for the attester's attestations.
    AwaitingAttestations,
    /// Waiting for the outcome of verifying the attestation.
    VerifyingAttestation,
    /// Decided.
    Finished,
}

/// What the challenger's caller does next.
#[derive(Debug)]
pub enum Action {
    /// Validate the chain at this index against the trust anchor and report
    /// whether it validated.
    ValidateChain(usize),
    /// Fetch the attester's measurement logs.
    FetchLogs,
    /// Ask the attester to attest to the challenge's nonce and user data.
    Attest,
    /// Verify the signed statement with the leaf certificate, the platform
    /// log, and the digest the statement must carry, and report the outcome.
    VerifyAttestation { statement: Vec<u8>, leaf: Vec<u8>, platform_log: Vec<u8>, digest: [u8; 32] },
    /// The challenge is decided.
    Done(Result<(), VerifyError>),
}

/// What the challenger's caller reports back.
#[derive(Debug)]
pub enum Event {
    CertChains(Vec<CertChain>),
    ChainValidated(bool),
    Logs(Vec<MeasurementLog>),
    Attestations(Vec<Attestation>),
    AttestationVerified(bool),
}

/// The challenger's side of one attestation: the order of its steps and the
/// decisions between them. The first step is to fetch the certificate chains.
pub struct Challenge {
    pub nonce: Nonce,
    pub user_data: Vec<u8>,
    pub phase: Phase,
    pub chains: Vec<CertChain>,
    pub chain_results: Vec<bool>,
    pub logs: Vec<MeasurementLog>,
}

/// Whether a phase waits for this kind of event.
pub open spec fn expects(phase: Phase, event: Event) -> bool {
    match phase {
        Phase::AwaitingChains => event is CertChains,
        Phase::ValidatingChains => event is ChainValidated,
        Phase::AwaitingLogs => event is Logs,
        Phase::AwaitingAttestations => event is Attestations,
        Phase::VerifyingAttestation => event is AttestationVerified,
        Phase::Finished => false,
    }
}

/// Whether an action ends the challenge with this outcome.
pub open spec fn is_done(a: Action, r: Result<(), VerifyError>) -> bool {
    a matches Action::Done(x) && x == r
}

impl Challenge {
    /// The challenge's invariant: the chains under validation are those that
    /// passed the first checks, and once past validation there is one result
    /// per chain.
    pub open spec fn wf(&self) -> bool {
        &&& self.phase == Phase::AwaitingChains ==> self.chains@.len() == 0
            && self.chain_results@.len() == 0
        &&& self.phase == Phase::ValidatingChains ==> self.chain_results@.len()
            < self.chains@.len()
        &&& (self.phase == Phase::AwaitingLogs || self.phase == Phase::AwaitingAttestations
            || self.phase == Phase::VerifyingAttestation) ==> self.chain_results@.len()
            == self.chains@.len()
        &&& self.phase != Phase::AwaitingChains ==> chains_all_signing(self.chains@)
            && chains_all_parse(self.chains@)
    }

    /// A challenge of the given nonce and user data, waiting for chains.
    pub fn new(nonce: Nonce, user_data: Vec<u8>) -> (r: Challenge)
        ensures
            r.nonce == nonce,
            r.user_data@ == user_data@,
            r.phase == Phase::AwaitingChains,
            r.chains@.len() == 0,
            r.chain_results@.len() == 0,
            r.logs@.len() == 0,
            r.wf(),
    {
        Challenge {
            nonce,
            user_data,
            phase: Phase::AwaitingChains,
            chains: Vec::new(),
            chain_results: Vec::new(),
            logs: Vec::new(),
        }
    }

    fn finish(&mut self, r: Result<(), VerifyError>) -> (a: Action)
        ensures
            final(self).phase == Phase::Finished,
            final(self).nonce == old(self).nonce,
            final(self).user_data@ == old(self).user_data@,
            final(self).chains@ == old(self).chains@,
            final(self).chain_results@ == old(self).chain_results@,
            final(self).logs@ == old(self).logs@,
            is_done(a, r),
    {
        self.phase = Phase::Finished;
        Action::Done(r)
    }

    /// The next chain to validate, or the step after the chains.
    fn after_chain(&mut self) -> (a: Action)
        ensures
            final(self).nonce == old(self).nonce,
            final(self).user_data@ == old(self).user_data@,
            final(self).chains@ == old(self).chains@,
            final(self).chain_results@ == old(self).chain_results@,
            final(self).logs@ == old(self).logs@,
            old(self).chain_results@.len() < old(self).chains@.len() ==> final(self).phase
                == Phase::ValidatingChains && a == Action::ValidateChain(
                old(self).chain_results@.len() as usize,
            ),
            old(self).chain_results@.len() >= old(self).chains@.len() ==> final(self).phase
                == Phase::AwaitingLogs && a == Action::FetchLogs,
    {
        if self.chain_results.len() < self.chains.len() {
            self.phase = Phase::ValidatingChains;
            Action::ValidateChain(self.chain_results.len())
        } else {
            self.phase = Phase::AwaitingLogs;
            Action::FetchLogs
        }
    }

    /// Takes in what the caller reports and says what to do next. An event
    /// that the current phase does not wait for ends the challenge.
    pub fn step(&mut self, event: Event) -> (a: Action)
        requires
            old(self).wf(),
        ensures
            final(self).wf(),
            final(self).nonce == old(self).nonce,
            final(self).user_data@ == old(self).user_data@,
            a is Done <==> final(self).phase == Phase::Finished,
            // Chains: a chain of a root of trust that never signs, or one that
            // does not decode, ends the challenge; else each is validated.
            old(self).phase == Phase::AwaitingChains ==> (event matches Event::CertChains(c) ==> {
                &&& !chains_all_signing(c@) ==> is_done(
                    a,
                    Err(VerifyError::ChainForNonSigningRot(RotType::OxideInstance)),
                )
                &&& chains_all_signing(c@) && !chains_all_parse(c@) ==> is_done(
                    a,
                    Err(VerifyError::CertDecode),
                )
                &&& chains_all_signing(c@) && chains_all_parse(c@) ==> {
                    &&& final(self).chains@ == c@
                    &&& final(self).chain_results@.len() == 0
                    &&& c@.len() > 0 ==> final(self).phase == Phase::ValidatingChains && a
                        == Action::ValidateChain(0)
                    &&& c@.len() == 0 ==> final(self).phase == Phase::AwaitingLogs && a
                        == Action::FetchLogs
                }
            }),
            // One result is recorded per chain, in order, before the logs.
            old(self).phase == Phase::ValidatingChains ==> (event matches Event::ChainValidated(ok)
                ==> {
                &&& final(self).chain_results@ == old(self).chain_results@.push(ok)
                &&& final(self).chains@ == old(self).chains@
                &&& final(self).chain_results@.len() < old(self).chains@.len() ==> final(self).phase
                    == Phase::ValidatingChains && a == Action::ValidateChain(
                    final(self).chain_results@.len() as usize,
                )
                &&& final(self).chain_results@.len() == old(self).chains@.len() ==> final(self).phase
                    == Phase::AwaitingLogs && a == Action::FetchLogs
            }),
            old(self).phase == Phase::AwaitingLogs ==> (event matches Event::Logs(l) ==> {
                &&& final(self).logs@ == l@
                &&& final(self).chains@ == old(self).chains@
                &&& final(self).chain_results@ == old(self).chain_results@
                &&& final(self).phase == Phase::AwaitingAttestations
                &&& a == Action::Attest
            }),
            // The attestation: it must be the single platform one, both logs
            // must be there, and the leaf must decode; the digest handed on is
            // reconstructed from the instance log.
            old(self).phase == Phase::AwaitingAttestations ==> (event matches Event::Attestations(
                atts,
            ) ==> {
                let one = atts@.len() == 1 && atts@[0].rot == RotType::OxidePlatform;
                let logs_ok = has_log(old(self).logs@, RotType::OxideInstance) && has_log(
                    old(self).logs@,
                    RotType::OxidePlatform,
                );
                &&& atts@.len() != 1 ==> is_done(a, Err(VerifyError::AttestationCount))
                &&& atts@.len() == 1 && atts@[0].rot != RotType::OxidePlatform ==> is_done(
                    a,
                    Err(VerifyError::UnexpectedRot(RotType::OxideInstance)),
                )
                &&& one && !has_log(old(self).logs@, RotType::OxideInstance) ==> is_done(
                    a,
                    Err(VerifyError::MissingLog(RotType::OxideInstance)),
                )
                &&& one && has_log(old(self).logs@, RotType::OxideInstance) && !has_log(
                    old(self).logs@,
                    RotType::OxidePlatform,
                ) ==> is_done(a, Err(VerifyError::MissingLog(RotType::OxidePlatform)))
                &&& one && logs_ok && !has_chain(old(self).chains@, RotType::OxidePlatform)
                    ==> is_done(a, Err(VerifyError::MissingCertChain))
                &&& one && logs_ok && leaf_missing(old(self).chains@) ==> is_done(
                    a,
                    Err(VerifyError::EmptyCertChain),
                )
                &&& one && logs_ok && leaf_undecodable(old(self).chains@) ==> is_done(
                    a,
                    Err(VerifyError::CertDecode),
                )
                &&& one && logs_ok && leaf_available(old(self).chains@) ==> a is VerifyAttestation
                &&& (a matches Action::VerifyAttestation { statement, leaf, digest, platform_log }
                    ==> {
                    &&& final(self).phase == Phase::VerifyingAttestation
                    &&& one && logs_ok && leaf_available(old(self).chains@)
                    &&& statement@ == atts@[0].data@
                    &&& digest@ == sha256_of(
                        chained_digest_input(
                            log_bytes(old(self).logs@, RotType::OxideInstance),
                            old(self).nonce.0@,
                            old(self).user_data@,
                        ),
                    )
                    &&& platform_log@ == log_bytes(old(self).logs@, RotType::OxidePlatform)
                    &&& is_leaf(old(self).chains@, leaf@)
                })
            }),
            // The decision: one validated result per fetched chain, all of
            // them true, and the attestation verified.
            old(self).phase == Phase::VerifyingAttestation ==> (event matches Event::AttestationVerified(
                ok,
            ) ==> {
                &&& final(self).phase == Phase::Finished
                &&& old(self).chain_results@.len() == old(self).chains@.len()
                &&& (a matches Action::Done(r) && (r is Ok <==> accepts(
                    old(self).chain_results@,
                    ok,
                )))
            }),
            !expects(old(self).phase, event) ==> final(self).phase == Phase::Finished && is_done(
                a,
                Err(VerifyError::UnexpectedEvent),
            ),
    {
        match (self.phase, event) {
            (Phase::AwaitingChains, Event::CertChains(c)) => {
                match check_chains(&c) {
                    Err(e) => self.finish(Err(e)),
                    Ok(()) => {
                        self.chains = c;
                        self.chain_results = Vec::new();
                        self.after_chain()
                    },
                }
            },
            (Phase::ValidatingChains, Event::ChainValidated(ok)) => {
                self.chain_results.push(ok);
                self.after_chain()
            },
            (Phase::AwaitingLogs, Event::Logs(l)) => {
                self.logs = l;
                self.phase = Phase::AwaitingAttestations;
                Action::Attest
            },
            (Phase::AwaitingAttestations, Event::Attestations(atts)) => {
                let statement = match single_platform_attestation(&atts) {
                    Ok(s) => crate::mock::copy_bytes(s),
                    Err(e) => {
                        return self.finish(Err(e));
                    },
                };
                let digest = match reconstruct_digest(&self.logs, &self.nonce, self.user_data.as_slice()) {
                    Ok(d) => d,
                    Err(e) => {
                        return self.finish(Err(e));
                    },
                };
                let platform_log = match collect_log(&self.logs, RotType::OxidePlatform) {
                    Ok(p) => p,
                    Err(e) => {
                        return self.finish(Err(e));
                    },
                };
                let leaf = match leaf_certificate(&self.chains) {
                    Ok(c) => crate::mock::copy_bytes(c),
                    Err(e) => {
                        return self.finish(Err(e));
                    },
                };
                self.phase = Phase::VerifyingAttestation;
                Action::VerifyAttestation { statement, leaf, platform_log, digest }
            },
            (Phase::VerifyingAttestation, Event::AttestationVerified(ok)) => {
                let r = decide(&self.chain_results, ok);
                self.finish(r)
            },
            _ => self.finish(Err(VerifyError::UnexpectedEvent)),
        }
    }
}

} // verus!
