use vstd::prelude::*;
use x509_cert::der::Decode;

use crate::types::CertChain;

verus! {

/// Whether the bytes are one DER-encoded X.509 certificate.
pub uninterp spec fn der_certificate_parses(der: Seq<u8>) -> bool;

/// Whether the bytes are a sequence of PEM-encoded X.509 certificates.
pub uninterp spec fn pem_chain_parses(pem: Seq<u8>) -> bool;

/// Relies on `der::Decode::from_der` for `x509_cert::Certificate`: whether it
/// succeeds depends on the bytes alone.
#[verifier::external_body]
fn certificate_from_der_ok(der: &Vec<u8>) -> (r: bool)
    ensures
        r == der_certificate_parses(der@),
{
    x509_cert::Certificate::from_der(der.as_slice()).is_ok()
}

/// Whether the bytes are nothing but line breaks (none at all included).
pub open spec fn pem_blank(s: Seq<u8>) -> bool {
    forall|i: int| 0 <= i < s.len() ==> (#[trigger] s[i] == 10 || s[i] == 13)
}

/// Relies on `x509_cert::Certificate::load_pem_chain`: whether it succeeds
/// depends on the bytes alone. It strips trailing line breaks and then steps
/// back one byte, so it is only called on input that is not blank.
#[verifier::external_body]
fn certificates_from_pem_ok(pem: &Vec<u8>) -> (r: bool)
    requires
        !pem_blank(pem@),
    ensures
        r == pem_chain_parses(pem@),
{
    x509_cert::Certificate::load_pem_chain(pem.as_slice()).is_ok()
}

/// Why a certificate could not be decoded.
#[derive(Debug, Clone, Copy, PartialEq, Eq, Structural)]
pub enum CertDecodeError {
    /// A certificate of a chain is not valid DER.
    Der,
    /// The trusted root bundle is not valid PEM.
    Pem,
}

/// Checks that the bytes are one DER certificate.
pub fn check_certificate(der: &Vec<u8>) -> (r: Result<(), CertDecodeError>)
    ensures
        r is Ok <==> der_certificate_parses(der@),
        r matches Err(e) ==> e == CertDecodeError::Der,
{
    if certificate_from_der_ok(der) {
        Ok(())
    } else {
        Err(CertDecodeError::Der)
    }
}

/// Whether the bytes are nothing but line breaks.
fn is_pem_blank(pem: &Vec<u8>) -> (r: bool)
    ensures
        r == pem_blank(pem@),
{
    let mut i: usize = 0;
    while i < pem.len()
        invariant
            i <= pem@.len(),
            forall|j: int| 0 <= j < i ==> (#[trigger] pem@[j] == 10 || pem@[j] == 13),
        decreases pem@.len() - i,
    {
        if pem[i] != 10 && pem[i] != 13 {
            return false;
        }
        i = i + 1;
    }
    true
}

/// Checks that the bytes are a PEM bundle of certificates; a blank bundle
/// holds none.
pub fn check_pem_bundle(pem: &Vec<u8>) -> (r: Result<(), CertDecodeError>)
    ensures
        r is Ok <==> !pem_blank(pem@) && pem_chain_parses(pem@),
        r matches Err(e) ==> e == CertDecodeError::Pem,
{
    if is_pem_blank(pem) {
        return Err(CertDecodeError::Pem);
    }
    if certificates_from_pem_ok(pem) {
        Ok(())
    } else {
        Err(CertDecodeError::Pem)
    }
}

/// Whether every certificate of the chain is valid DER.
pub open spec fn chain_parses(chain: CertChain) -> bool {
    forall|i: int|
        0 <= i < chain.certs@.len() ==> der_certificate_parses(#[trigger] chain.certs@[i]@)
}

/// Checks every certificate of a chain, leaf first.
pub fn check_chain(chain: &CertChain) -> (r: Result<(), CertDecodeError>)
    ensures
        r is Ok <==> chain_parses(*chain),
        r matches Err(e) ==> e == CertDecodeError::Der,
{
    let mut i: usize = 0;
    while i < chain.certs.len()
        invariant
            i <= chain.certs@.len(),
            forall|j: int| 0 <= j < i ==> der_certificate_parses(#[trigger] chain.certs@[j]@),
        decreases chain.certs@.len() - i,
    {
        check_certificate(&chain.certs[i])?;
        i = i + 1;
    }
    Ok(())
}

} // verus!
