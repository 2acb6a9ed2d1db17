use deno_bindgen_cli::results::{
    convert_pubkey, into_operation_result, wrap_value, SerializableAccount,
};

#[test]
fn success_becomes_an_empty_operation_result() {
    let r = into_operation_result(Ok(()));
    assert!(r.error.is_none());
}

#[test]
fn failure_keeps_its_message() {
    let r = into_operation_result(Err("broken".to_string()));
    assert_eq!(r.error.as_deref(), Some("broken"));
}

#[test]
fn wrapped_success_has_a_value_and_no_error() {
    let (value, error) = wrap_value(Ok(42u64));
    assert_eq!(value, Some(42));
    assert!(error.is_none());
}

#[test]
fn wrapped_failure_has_an_error_and_no_value() {
    let (value, error) = wrap_value::<u64>(Err("boom".to_string()));
    assert!(value.is_none());
    assert_eq!(error.as_deref(), Some("boom"));
}

#[test]
fn a_32_byte_key_converts() {
    let bytes: Vec<u8> = (0u8..32).collect();
    let key = convert_pubkey(&bytes).unwrap();
    assert_eq!(key.to_vec(), bytes);
}

#[test]
fn a_short_key_is_rejected_with_the_fixed_message() {
    let bytes = vec![1u8, 2, 3];
    let e = convert_pubkey(&bytes).unwrap_err();
    assert_eq!(e, "expected 32 byte public key");
}

#[test]
fn a_long_key_is_rejected() {
    let bytes = vec![0u8; 33];
    assert!(convert_pubkey(&bytes).is_err());
}

#[test]
fn serializable_account_holds_plain_values() {
    let a = SerializableAccount {
        lamports: 5,
        data: vec![1, 2, 3],
        owner: [7u8; 32],
        executable: false,
        rent_epoch: 9,
    };
    let b = a.clone();
    assert_eq!(b.lamports, 5);
    assert_eq!(b.data, vec![1, 2, 3]);
    assert_eq!(b.owner, [7u8; 32]);
    assert!(!b.executable);
    assert_eq!(b.rent_epoch, 9);
}
