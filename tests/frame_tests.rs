use vm_attest_trait::frame::{frame_record, split_record, FrameError, RecordReader, NEWLINE};
use vm_attest_trait::mock::AttestMock;
use vm_attest_trait::types::{Nonce, RotType};

fn attest_command() -> Vec<u8> {
    let mut nonce = String::from("[1,2");
    for _ in 0..30 {
        nonce.push_str(",0");
    }
    nonce.push(']');
    format!("{{\"Attest\":{{\"nonce\":{},\"user_data\":[66,77,88,99]}}}}", nonce).into_bytes()
}

#[test]
fn frame_appends_one_newline() {
    assert_eq!(frame_record(&b"[1,2]".to_vec()), Ok(b"[1,2]\n".to_vec()));
    assert_eq!(frame_record(&Vec::new()), Ok(vec![NEWLINE]));
}

#[test]
fn frame_refuses_embedded_newline() {
    assert_eq!(frame_record(&b"a\nb".to_vec()), Err(FrameError::EmbeddedNewline));
}

#[test]
fn split_waits_for_terminator() {
    assert_eq!(split_record(&b"{\"Attest\"".to_vec()), None);
    assert_eq!(split_record(&Vec::new()), None);
}

#[test]
fn split_takes_first_record() {
    assert_eq!(
        split_record(&b"one\ntwo\n".to_vec()),
        Some((b"one".to_vec(), b"two\n".to_vec()))
    );
    assert_eq!(split_record(&b"\n".to_vec()), Some((Vec::new(), Vec::new())));
}

#[test]
fn frame_then_split_round_trips() {
    let record = attest_command();
    let mut framed = frame_record(&record).unwrap();
    framed.extend_from_slice(b"trailing");
    assert_eq!(split_record(&framed), Some((record, b"trailing".to_vec())));
}

#[test]
fn reader_collects_record_across_chunks() {
    let framed = frame_record(&attest_command()).unwrap();
    let (head, tail) = framed.split_at(10);
    let mut reader = RecordReader::new();
    assert_eq!(reader.receive(head), None);
    assert_eq!(reader.receive(tail), Some(attest_command()));
    assert_eq!(reader.receive(b""), None);
}

#[test]
fn fresh_reader_per_connection_sees_no_stale_bytes() {
    let mut first = RecordReader::new();
    assert_eq!(first.receive(b"partial"), None);
    let mut second = RecordReader::new();
    assert_eq!(second.receive(b"cmd\n"), Some(b"cmd".to_vec()));
}

#[test]
fn attest_command_elicits_one_response_line_with_one_attestation() {
    let mut reader = RecordReader::new();
    let mut wire = attest_command();
    wire.push(NEWLINE);
    let line = reader.receive(&wire).expect("one full command line");
    let command: serde_json::Value = serde_json::from_slice(&line).expect("command is JSON");
    let args = &command["Attest"];
    let mut nonce = [0u8; 32];
    for (i, b) in args["nonce"].as_array().unwrap().iter().enumerate() {
        nonce[i] = b.as_u64().unwrap() as u8;
    }
    let user_data: Vec<u8> =
        args["user_data"].as_array().unwrap().iter().map(|b| b.as_u64().unwrap() as u8).collect();
    assert_eq!(user_data, vec![66, 77, 88, 99]);

    let mock = AttestMock::new();
    let signed = mock.platform_nonce(&Nonce::from_bytes(nonce), &user_data);
    let attestations = mock.attestations(signed.to_vec());
    assert_eq!(attestations.len(), 1);
    assert_eq!(attestations[0].rot, RotType::OxidePlatform);

    let mut body = String::from("[");
    body.push_str("{\"rot\":\"OxidePlatform\",\"data\":");
    body.push_str(&serde_json::to_string(&attestations[0].data).unwrap());
    body.push_str("}]");
    let response = frame_record(&body.into_bytes()).unwrap();
    assert_eq!(response.iter().filter(|b| **b == NEWLINE).count(), 1);
    let (line, rest) = split_record(&response).unwrap();
    assert!(rest.is_empty());
    let parsed: serde_json::Value = serde_json::from_slice(&line).unwrap();
    assert_eq!(parsed.as_array().unwrap().len(), 1);
}
