use verify_bytecode::matcher::{match_bytecodes, match_with_metadata_verdicts};
use verify_bytecode::types::MatchType;

fn with_metadata(body: &[u8], meta: &[u8]) -> Vec<u8> {
    let mut v = body.to_vec();
    v.extend_from_slice(meta);
    v.push((meta.len() >> 8) as u8);
    v.push(meta.len() as u8);
    v
}

#[test]
fn identical_code_is_exact() {
    let code = vec![0x60, 0x80, 0x60, 0x40, 0x52];
    assert_eq!(match_bytecodes(&code, &code, &vec![], false), MatchType::Exact);
    assert_eq!(match_bytecodes(&code, &code, &vec![1, 2], true), MatchType::Exact);
    assert_eq!(match_bytecodes(&vec![], &vec![], &vec![], false), MatchType::Exact);
}

#[test]
fn metadata_drift_is_partial() {
    let body = [0x60, 0x80, 0x60, 0x40, 0x52];
    let local = with_metadata(&body, &[0xa1, 0x01, 0x02, 0x03, 0x04]);
    let remote = with_metadata(&body, &[0xa1, 0x09, 0x09, 0x09, 0x09]);
    assert_eq!(match_bytecodes(&local, &remote, &vec![], true), MatchType::Partial);
    assert_eq!(match_bytecodes(&local, &remote, &vec![], false), MatchType::Partial);
}

#[test]
fn creation_code_masks_constructor_args() {
    let body = [0x60, 0x80, 0x60, 0x40, 0x52];
    let mut local = with_metadata(&body, &[0xa1, 0x01, 0x02]);
    let mut remote = with_metadata(&body, &[0xa1, 0x07, 0x08]);
    let args = vec![0, 0, 0, 5];
    local.extend_from_slice(&args);
    remote.extend_from_slice(&args);
    assert_eq!(match_bytecodes(&local, &remote, &args, false), MatchType::Partial);
    // Runtime comparison does not strip the argument suffix, so the metadata is not found.
    assert_eq!(match_bytecodes(&local, &remote, &args, true), MatchType::NoMatch);
}

#[test]
fn differing_code_is_no_match() {
    let local = with_metadata(&[0x60, 0x80], &[0xa1, 0x01]);
    let remote = with_metadata(&[0x60, 0x81], &[0xa1, 0x01]);
    assert_eq!(match_bytecodes(&local, &remote, &vec![], true), MatchType::NoMatch);
    assert_eq!(match_bytecodes(&vec![1, 2, 3], &vec![1, 2, 4], &vec![], false), MatchType::NoMatch);
}

#[test]
fn trailer_that_is_not_cbor_is_not_metadata() {
    let local = with_metadata(&[0x60, 0x80], &[0xff, 0x01]);
    let remote = with_metadata(&[0x60, 0x80], &[0xff, 0x02]);
    assert_eq!(match_bytecodes(&local, &remote, &vec![], true), MatchType::NoMatch);
}

#[test]
fn any_cbor_value_counts_as_metadata() {
    let local = with_metadata(&[0x60, 0x80], &[0x18, 0x20]);
    let remote = with_metadata(&[0x60, 0x80], &[0x18, 0x21]);
    assert_eq!(match_bytecodes(&local, &remote, &vec![], true), MatchType::Partial);
}

#[test]
fn args_longer_than_code_is_no_match() {
    let local = vec![1, 2];
    let remote = vec![1, 3];
    assert_eq!(match_bytecodes(&local, &remote, &vec![9, 9, 9], false), MatchType::NoMatch);
}

#[test]
fn verdicts_decide_metadata_stripping() {
    let local = with_metadata(&[0x60, 0x80], &[0x01, 0x02]);
    let remote = with_metadata(&[0x60, 0x80], &[0x03, 0x04]);
    assert_eq!(match_with_metadata_verdicts(&local, &remote, &vec![], true, true, true), MatchType::Partial);
    assert_eq!(match_with_metadata_verdicts(&local, &remote, &vec![], true, true, false), MatchType::NoMatch);
    assert_eq!(match_with_metadata_verdicts(&local, &local, &vec![], true, false, false), MatchType::Exact);
    let args = vec![0xaa];
    let mut l2 = local.clone();
    l2.extend_from_slice(&args);
    let mut r2 = remote.clone();
    r2.extend_from_slice(&args);
    assert_eq!(match_with_metadata_verdicts(&l2, &r2, &args, false, true, true), MatchType::Partial);
    assert_eq!(match_with_metadata_verdicts(&vec![1], &vec![2], &vec![0xaa, 0xbb], false, true, true), MatchType::NoMatch);
}
