use scid_verifier::gateway::{lookup_path, parse_transaction, transaction_from_response, FetchError};
use scid_verifier::transaction::TxOutput;

fn sample_tx_hex() -> String {
    let mut s = String::new();
    s.push_str("01000000");
    s.push_str("01");
    s.push_str(&"00".repeat(32));
    s.push_str("ffffffff");
    s.push_str("00");
    s.push_str("ffffffff");
    s.push_str("02");
    s.push_str("00e1f50500000000");
    s.push_str("0151");
    s.push_str("1027000000000000");
    s.push_str("026a00");
    s.push_str("00000000");
    s
}

#[test]
fn parses_sample_transaction() {
    let tx = parse_transaction(&sample_tx_hex().into_bytes()).unwrap();
    assert_eq!(
        tx.outputs,
        vec![
            TxOutput { value: 100_000_000, script_pubkey: vec![0x51] },
            TxOutput { value: 10_000, script_pubkey: vec![0x6a, 0x00] },
        ]
    );
    assert_eq!(tx.output_count(), 2);
}

#[test]
fn parses_upper_case_hex() {
    let tx = parse_transaction(&sample_tx_hex().to_uppercase().into_bytes()).unwrap();
    assert_eq!(tx.outputs[1].script_pubkey, vec![0x6a, 0x00]);
}

#[test]
fn non_hex_body_is_malformed() {
    assert_eq!(parse_transaction(&b"zz".to_vec()), Err(FetchError::Malformed));
    assert_eq!(parse_transaction(&b"0g".to_vec()), Err(FetchError::Malformed));
    assert_eq!(parse_transaction(&b"abc".to_vec()), Err(FetchError::Malformed));
}

#[test]
fn non_utf8_body_is_malformed() {
    assert_eq!(parse_transaction(&vec![0xff, 0xfe, 0x30, 0x31]), Err(FetchError::Malformed));
    assert_eq!(
        transaction_from_response(Some(vec![0xc3, 0x28])),
        Err(FetchError::Malformed)
    );
}

#[test]
fn hex_that_is_no_transaction_is_malformed() {
    assert_eq!(parse_transaction(&b"deadbeef".to_vec()), Err(FetchError::Malformed));
    assert_eq!(parse_transaction(&Vec::new()), Err(FetchError::Malformed));
    let mut truncated = sample_tx_hex();
    truncated.truncate(truncated.len() - 8);
    assert_eq!(parse_transaction(&truncated.into_bytes()), Err(FetchError::Malformed));
    let mut trailing = sample_tx_hex();
    trailing.push_str("00");
    assert_eq!(parse_transaction(&trailing.into_bytes()), Err(FetchError::Malformed));
}

#[test]
fn missing_response_is_unreachable() {
    assert_eq!(transaction_from_response(None), Err(FetchError::Unreachable));
}

#[test]
fn response_with_transaction_is_parsed() {
    let tx = transaction_from_response(Some(sample_tx_hex().into_bytes())).unwrap();
    assert_eq!(tx.outputs[0].value, 100_000_000);
}

#[test]
fn lookup_path_spells_coordinates() {
    assert_eq!(lookup_path(100, 5), "getTransaction/100/5");
    assert_eq!(lookup_path(0, 0), "getTransaction/0/0");
    assert_eq!(lookup_path(16_777_215, 4_294_967_295), "getTransaction/16777215/4294967295");
    assert_eq!(lookup_path(10, 1090), "getTransaction/10/1090");
}
