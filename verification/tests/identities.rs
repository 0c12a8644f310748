use dcap_verify::identity::{ConfigId, MrEnclave, MrSigner, CONFIG_ID_SIZE, MEASUREMENT_SIZE};

#[test]
fn from_sgx_mr_enclave() {
    let raw = [5u8; 32];
    let mr_enclave: MrEnclave = raw.into();
    assert_eq!(mr_enclave.0, raw);
}

#[test]
fn sgx_mr_enclave_from_mr_enclave() {
    let mr_enclave = MrEnclave::default();
    assert_eq!(mr_enclave.to_bytes(), [0u8; 32]);
}

#[test]
fn from_sgx_mr_signer() {
    let raw = [9u8; 32];
    let mr_signer: MrSigner = raw.into();
    assert_eq!(mr_signer.0, raw);
}

#[test]
fn sgx_mr_signer_from_mr_signer() {
    let mr_signer = MrSigner::default();
    assert_eq!(mr_signer.to_bytes(), [0u8; 32]);
}

#[test]
fn display_mr_enclave() {
    let mr_enclave = MrEnclave::from([1u8; MEASUREMENT_SIZE]);

    let display_string = mr_enclave.to_display_string();
    let expected_string = "MrEnclave: 0101_0101_0101_0101_0101_0101_0101_0101_0101_0101_0101_0101_0101_0101_0101_0101";

    assert_eq!(display_string, expected_string);
}

#[test]
fn display_mr_signer() {
    let mr_signer = MrSigner::from([1u8; MEASUREMENT_SIZE]);

    let display_string = mr_signer.to_display_string();
    let expected_string = "MrSigner: 0101_0101_0101_0101_0101_0101_0101_0101_0101_0101_0101_0101_0101_0101_0101_0101";

    assert_eq!(display_string, expected_string);
}

#[test]
fn display_uses_uppercase_hex_digits() {
    let mut raw = [0u8; 32];
    raw[0] = 0xAB;
    raw[1] = 0xCD;
    raw[2] = 0xEF;
    raw[3] = 0x09;
    let mr_enclave = MrEnclave::from(raw);
    let display_string = mr_enclave.to_display_string();
    let expected_string = "MrEnclave: ABCD_EF09_0000_0000_0000_0000_0000_0000_0000_0000_0000_0000_0000_0000_0000_0000";
    assert_eq!(display_string, expected_string);
}

#[test]
fn display_config_id() {
    let mut raw = [0u8; CONFIG_ID_SIZE];
    raw[62] = 0x10;
    raw[63] = 0x2F;
    let config_id = ConfigId::from(raw);
    let display_string = config_id.to_display_string();
    let expected_string = "0000_0000_0000_0000_0000_0000_0000_0000_0000_0000_0000_0000_0000_0000_0000_0000_0000_0000_0000_0000_0000_0000_0000_0000_0000_0000_0000_0000_0000_0000_0000_102F";
    assert_eq!(display_string, expected_string);
}

#[test]
fn mr_enclave_round_trip() {
    let mut raw = [0u8; 32];
    for (i, byte) in raw.iter_mut().enumerate() {
        *byte = i as u8;
    }
    let mr_enclave = MrEnclave::from(raw);
    assert_eq!(mr_enclave.to_bytes(), raw);
}

#[test]
fn mr_signer_round_trip() {
    let mut raw = [0u8; 32];
    for (i, byte) in raw.iter_mut().enumerate() {
        *byte = 255 - i as u8;
    }
    let mr_signer = MrSigner::from(raw);
    assert_eq!(mr_signer.to_bytes(), raw);
}

#[test]
fn config_id_round_trip() {
    let mut raw = [0u8; CONFIG_ID_SIZE];
    for (i, byte) in raw.iter_mut().enumerate() {
        *byte = i as u8;
    }
    let config_id = ConfigId::from(raw);
    assert_eq!(config_id.to_bytes(), raw);
}

#[test]
fn config_id_default_is_all_zero() {
    let config_id = ConfigId::default();
    assert_eq!(config_id.to_bytes(), [0u8; CONFIG_ID_SIZE]);
}

#[test]
fn ct_eq_equal_values() {
    let a = MrEnclave::from([7u8; 32]);
    let b = MrEnclave::from([7u8; 32]);
    assert!(a.ct_eq(&b));
    assert!(a.ct_eq(&a));
    let c = ConfigId::default();
    let d = ConfigId::default();
    assert!(c.ct_eq(&d));
    let e = MrSigner::from([3u8; 32]);
    let f = MrSigner::from([3u8; 32]);
    assert!(e.ct_eq(&f));
}

#[test]
fn ct_eq_differs_in_first_byte() {
    let mut raw = [7u8; 32];
    raw[0] = 8;
    let a = MrEnclave::from([7u8; 32]);
    let b = MrEnclave::from(raw);
    assert!(!a.ct_eq(&b));
}

#[test]
fn ct_eq_differs_in_last_byte() {
    let mut raw = [7u8; 32];
    raw[31] = 6;
    let a = MrEnclave::from([7u8; 32]);
    let b = MrEnclave::from(raw);
    assert!(!a.ct_eq(&b));
}

#[test]
fn ct_eq_config_id_differs_in_middle_byte() {
    let mut raw = [0u8; CONFIG_ID_SIZE];
    raw[32] = 1;
    let a = ConfigId::default();
    let b = ConfigId::from(raw);
    assert!(!a.ct_eq(&b));
}
