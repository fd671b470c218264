use vm_attest_trait::digest::inner_nonce;
use vm_attest_trait::mock::{take_serialized, AttestMock, AttestMockError};
use vm_attest_trait::types::{Nonce, RotType};
use vm_attest_trait::verify::reconstruct_digest;

fn setup() -> AttestMock {
    AttestMock::new()
}

fn platform_certs() -> Vec<Vec<u8>> {
    vec![vec![0x30, 0x03, 0x02, 0x01, 0x01], vec![0x30, 0x03, 0x02, 0x01, 0x02]]
}

fn platform_log() -> Vec<u8> {
    vec![9, 8, 7, 6]
}

#[test]
fn get_measurement_logs() {
    let attest = setup();

    let logs = attest.get_measurement_logs(platform_log());
    for log in logs {
        match log.rot {
            RotType::OxidePlatform => assert!(!log.data.is_empty()),
            RotType::OxideInstance => assert!(log.data.is_empty()),
        }
    }
}

#[test]
fn get_cert_chain() {
    let attest = setup();

    let _ = attest.get_cert_chain(RotType::OxidePlatform, platform_certs());
}

#[test]
fn attest() {
    let attest = setup();

    let nonce = Nonce::from_platform_rng().expect("Nonce from platform RNG");
    let user_data = vec![0u8, 1];

    let signed = attest.platform_nonce(&nonce, &user_data);
    let attestations = attest.attestations(signed.to_vec());
    assert_eq!(attestations.len(), 1);
}

#[test]
fn measurement_logs_in_order_of_concatenation() {
    let logs = setup().get_measurement_logs(platform_log());
    assert_eq!(logs.len(), 2);
    assert_eq!(logs[0].rot, RotType::OxidePlatform);
    assert_eq!(logs[0].data, vec![9, 8, 7, 6]);
    assert_eq!(logs[1].rot, RotType::OxideInstance);
}

#[test]
fn platform_cert_chain_is_forwarded_unchanged() {
    let chain =
        setup().get_cert_chain(RotType::OxidePlatform, platform_certs()).expect("platform chain");
    assert_eq!(chain.rot, RotType::OxidePlatform);
    assert_eq!(chain.certs, platform_certs());
    let chains = setup().get_cert_chains(platform_certs()).expect("platform chains");
    assert_eq!(chains.len(), 1);
    assert_eq!(chains[0].certs, platform_certs());
}

#[test]
fn empty_platform_cert_chain_is_an_error() {
    assert_eq!(
        setup().get_cert_chain(RotType::OxidePlatform, vec![]).err(),
        Some(AttestMockError::EmptyCertChain)
    );
    assert_eq!(setup().get_cert_chains(vec![]).err(), Some(AttestMockError::EmptyCertChain));
}

#[test]
fn instance_rot_has_no_cert_chain() {
    let r = setup().get_cert_chain(RotType::OxideInstance, platform_certs());
    assert_eq!(r.err(), Some(AttestMockError::NoCertChain(RotType::OxideInstance)));
}

#[test]
fn platform_nonce_binds_nonce_and_user_data() {
    let expected: [u8; 32] = [
        83, 250, 144, 40, 216, 104, 60, 65, 161, 156, 252, 110, 156, 69, 124, 199, 89, 30, 155,
        170, 21, 230, 104, 21, 109, 147, 14, 71, 216, 138, 185, 86,
    ];
    assert_eq!(setup().platform_nonce(&Nonce::from_bytes([0u8; 32]), &[0, 1]), expected);
}

#[test]
fn attestation_wraps_statement_as_platform_evidence() {
    let a = setup().attestations(vec![5, 6, 7]);
    assert_eq!(a.len(), 1);
    assert_eq!(a[0].rot, RotType::OxidePlatform);
    assert_eq!(a[0].data, vec![5, 6, 7]);
}

#[test]
fn serialized_buffer_is_truncated() {
    assert_eq!(take_serialized(vec![1, 2, 3, 0, 0], Some(3)), Ok(vec![1, 2, 3]));
    assert_eq!(take_serialized(vec![1, 2], Some(2)), Ok(vec![1, 2]));
}

#[test]
fn serialization_overflow_is_an_error() {
    assert_eq!(take_serialized(vec![0; 4], None), Err(AttestMockError::Serialize));
    assert_eq!(take_serialized(vec![0; 4], Some(5)), Err(AttestMockError::Serialize));
}

#[test]
fn verifier_digest_matches_mock_nonce() {
    let mock = setup();
    let mut bytes = [0u8; 32];
    bytes[0] = 1;
    bytes[1] = 2;
    let nonce = Nonce::from_bytes(bytes);
    let user_data = [66u8, 77, 88, 99];
    let signed = mock.platform_nonce(&nonce, &user_data);
    let logs = mock.get_measurement_logs(platform_log());
    assert_eq!(reconstruct_digest(&logs, &nonce, &user_data), Ok(signed));
    assert_eq!(signed, inner_nonce(&nonce, &user_data));
}
