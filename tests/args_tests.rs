use verify_bytecode::args::{decode_encoded_args, encode_constructor_args, resolve_constructor_args};
use verify_bytecode::types::VerifyError;

#[test]
fn typed_args_win_over_hex_and_reported() {
    let onchain = vec![1, 2, 3, 4, 5, 6];
    let r = resolve_constructor_args(vec![9], Some(vec![7, 7]), Some(vec![8]), Some(&onchain), 2);
    assert_eq!(r, vec![7, 7]);
}

#[test]
fn hex_args_win_over_reported_and_are_not_rederived() {
    let onchain = vec![1, 2, 3, 4, 5, 6];
    let r = resolve_constructor_args(vec![9], None, Some(vec![8]), Some(&onchain), 2);
    assert_eq!(r, vec![8]);
}

#[test]
fn reported_args_kept_when_they_end_the_input() {
    let onchain = vec![1, 2, 3, 4, 5, 6];
    let r = resolve_constructor_args(vec![5, 6], None, None, Some(&onchain), 2);
    assert_eq!(r, vec![5, 6]);
}

#[test]
fn reported_args_rederived_from_tail() {
    let onchain = vec![1, 2, 3, 4, 5, 6];
    let r = resolve_constructor_args(vec![9, 9], None, None, Some(&onchain), 4);
    assert_eq!(r, vec![5, 6]);
}

#[test]
fn short_onchain_input_keeps_reported_args() {
    let onchain = vec![1, 2, 3];
    let r = resolve_constructor_args(vec![9, 9], None, None, Some(&onchain), 4);
    assert_eq!(r, vec![9, 9]);
}

#[test]
fn predeploy_keeps_reported_args() {
    let r = resolve_constructor_args(vec![9, 9], None, None, None, 4);
    assert_eq!(r, vec![9, 9]);
}

#[test]
fn argument_count_mismatch_is_refused() {
    let types = Some(vec!["uint256".to_string(), "address".to_string(), "bool".to_string()]);
    let args = vec!["1".to_string(), "true".to_string()];
    assert_eq!(
        encode_constructor_args(&types, &args),
        Err(VerifyError::ArgCountMismatch { expected: 3, got: 2 })
    );
}

#[test]
fn constructor_args_are_abi_encoded() {
    let types = Some(vec!["uint256".to_string(), "bool".to_string()]);
    let args = vec!["258".to_string(), "true".to_string()];
    let r = encode_constructor_args(&types, &args).unwrap();
    let mut expected = vec![0u8; 64];
    expected[30] = 1;
    expected[31] = 2;
    expected[63] = 1;
    assert_eq!(r, expected);
}

#[test]
fn no_constructor_encodes_nothing() {
    assert_eq!(encode_constructor_args(&None, &vec![]), Ok(vec![]));
}

#[test]
fn values_for_missing_constructor_are_refused() {
    assert_eq!(
        encode_constructor_args(&None, &vec!["1".to_string(), "2".to_string()]),
        Err(VerifyError::ArgCountMismatch { expected: 0, got: 2 })
    );
}

#[test]
fn unparsable_value_is_an_encoding_error() {
    let types = Some(vec!["uint256".to_string()]);
    let args = vec!["not a number".to_string()];
    assert_eq!(encode_constructor_args(&types, &args), Err(VerifyError::AbiEncoding));
    let types = Some(vec!["no_such_type".to_string()]);
    assert_eq!(encode_constructor_args(&types, &vec!["1".to_string()]), Err(VerifyError::AbiEncoding));
}

#[test]
fn hex_args_are_decoded() {
    assert_eq!(decode_encoded_args("0x0102ff"), Ok(vec![1, 2, 0xff]));
    assert_eq!(decode_encoded_args("0XAbCd"), Ok(vec![0xab, 0xcd]));
    assert_eq!(decode_encoded_args(""), Ok(vec![]));
    assert_eq!(decode_encoded_args("0x"), Ok(vec![]));
}

#[test]
fn bad_hex_args_are_refused() {
    assert_eq!(decode_encoded_args("abc"), Err(VerifyError::InvalidHex));
    assert_eq!(decode_encoded_args("zz"), Err(VerifyError::InvalidHex));
}
