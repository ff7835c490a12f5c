//! Comparison of a locally derived bytecode with the one found on chain.
use vstd::prelude::*;

use crate::bytes::{copy_range, prefix_eq};
use crate::types::MatchType;

verus! {

/// The metadata length that the last two bytes of `b` announce (big-endian).
pub open spec fn announced_metadata_len(b: Seq<u8>) -> int
    recommends
        b.len() >= 2,
{
    b[b.len() - 2] as int * 256 + b[b.len() - 1] as int
}

/// Whether `b` starts with a well-formed CBOR value, as `ciborium` reads it.
pub uninterp spec fn cbor_value_decodes(b: Seq<u8>) -> bool;

/// Relies on `ciborium::from_reader`: whether a CBOR value can be read from the
/// start of `b`. The answer depends on the bytes alone.
#[verifier::external_body]
fn decodes_as_cbor(b: &Vec<u8>) -> (r: bool)
    ensures
        r == cbor_value_decodes(b@),
{
    ciborium::from_reader::<ciborium::Value, _>(b.as_slice()).is_ok()
}

/// The region that the two final bytes of `b` announce as compiler metadata.
pub open spec fn metadata_region(b: Seq<u8>) -> Seq<u8> {
    b.subrange(b.len() - 2 - announced_metadata_len(b), b.len() - 2)
}

/// Whether the two final bytes of `b` announce a region that fits before them.
pub open spec fn announces_region(b: Seq<u8>) -> bool {
    b.len() >= 2 && announced_metadata_len(b) + 2 <= b.len()
}

/// Whether `b` ends in a compiler metadata region: a CBOR value whose byte
/// length is announced by the two final bytes.
pub open spec fn has_metadata(b: Seq<u8>) -> bool {
    announces_region(b) && cbor_value_decodes(metadata_region(b))
}

/// `b` without its announced region and length bytes when `decodes` says the
/// region is a CBOR value; `b` itself otherwise.
pub open spec fn strip_given(b: Seq<u8>, decodes: bool) -> Seq<u8> {
    if announces_region(b) && decodes {
        b.take(b.len() - 2 - announced_metadata_len(b))
    } else {
        b
    }
}

/// `b` with its trailing metadata region (and its length bytes) removed, if it has one.
pub open spec fn strip_metadata(b: Seq<u8>) -> Seq<u8> {
    strip_given(b, has_metadata(b))
}

/// The part of `b` whose metadata is looked for: for creation code with known
/// constructor arguments, `b` without an argument-sized suffix.
pub open spec fn compared_part(b: Seq<u8>, args: Seq<u8>, is_runtime: bool) -> Seq<u8> {
    if args.len() == 0 || is_runtime || args.len() > b.len() {
        b
    } else {
        b.take(b.len() - args.len())
    }
}

/// The outcome of comparing `local` with `remote`, given whether the region
/// announced at the end of each compared part decodes as CBOR.
pub open spec fn match_given(
    local: Seq<u8>,
    remote: Seq<u8>,
    args: Seq<u8>,
    is_runtime: bool,
    local_decodes: bool,
    remote_decodes: bool,
) -> MatchType {
    if local == remote {
        MatchType::Exact
    } else if (args.len() == 0 || is_runtime || (args.len() <= local.len() && args.len() <= remote.len()))
        && strip_given(compared_part(local, args, is_runtime), local_decodes) == strip_given(
            compared_part(remote, args, is_runtime),
            remote_decodes,
        ) {
        MatchType::Partial
    } else {
        MatchType::NoMatch
    }
}

/// Whether the two codes agree once metadata, and for creation code the known
/// constructor-argument suffix, are masked.
pub open spec fn partial_match(local: Seq<u8>, remote: Seq<u8>, args: Seq<u8>, is_runtime: bool) -> bool {
    (args.len() == 0 || is_runtime || (args.len() <= local.len() && args.len() <= remote.len()))
        && strip_metadata(compared_part(local, args, is_runtime)) == strip_metadata(
        compared_part(remote, args, is_runtime),
    )
}

/// The outcome of comparing `local` with `remote`.
pub open spec fn match_of(local: Seq<u8>, remote: Seq<u8>, args: Seq<u8>, is_runtime: bool) -> MatchType {
    if local == remote {
        MatchType::Exact
    } else if partial_match(local, remote, args, is_runtime) {
        MatchType::Partial
    } else {
        MatchType::NoMatch
    }
}

/// The end of the part of `b` whose metadata is looked for.
fn compared_end(b: &Vec<u8>, args: &Vec<u8>, is_runtime: bool) -> (r: usize)
    ensures
        r <= b@.len(),
        b@.take(r as int) == compared_part(b@, args@, is_runtime),
{
    if args.len() == 0 || is_runtime || args.len() > b.len() {
        assert(b@.take(b@.len() as int) =~= b@);
        b.len()
    } else {
        b.len() - args.len()
    }
}

/// Whether `b[..end]` announces a metadata region that decodes as CBOR.
fn metadata_verdict(b: &Vec<u8>, end: usize) -> (r: bool)
    requires
        end <= b@.len(),
    ensures
        r == has_metadata(b@.take(end as int)),
{
    let ghost s = b@.take(end as int);
    if end < 2 {
        return false;
    }
    let m: usize = (b[end - 2] as usize) * 256 + (b[end - 1] as usize);
    assert(m == announced_metadata_len(s));
    if m > end - 2 {
        return false;
    }
    let region = copy_range(b, end - 2 - m, end - 2);
    assert(region@ =~= metadata_region(s));
    decodes_as_cbor(&region)
}

/// The length of `b[..end]` once its announced region is removed, where
/// `decodes` says whether that region is a CBOR value.
fn stripped_len(b: &Vec<u8>, end: usize, decodes: bool) -> (r: usize)
    requires
        end <= b@.len(),
    ensures
        r <= end,
        b@.take(r as int) == strip_given(b@.take(end as int), decodes),
{
    let ghost s = b@.take(end as int);
    if end < 2 || !decodes {
        return end;
    }
    let m: usize = (b[end - 2] as usize) * 256 + (b[end - 1] as usize);
    assert(m == announced_metadata_len(s));
    if m > end - 2 {
        return end;
    }
    let r = end - 2 - m;
    assert(b@.take(r as int) =~= s.take(s.len() - 2 - announced_metadata_len(s)));
    r
}

/// Compares a locally derived bytecode with the on-chain one, given whether the
/// region announced at the end of each side's compared part is a CBOR value.
pub fn match_with_metadata_verdicts(
    local: &Vec<u8>,
    remote: &Vec<u8>,
    constructor_args: &Vec<u8>,
    is_runtime: bool,
    local_decodes: bool,
    remote_decodes: bool,
) -> (r: MatchType)
    ensures
        r == match_given(local@, remote@, constructor_args@, is_runtime, local_decodes, remote_decodes),
{
    assert(local@.take(local@.len() as int) =~= local@);
    assert(remote@.take(remote@.len() as int) =~= remote@);
    if prefix_eq(local, local.len(), remote, remote.len()) {
        return MatchType::Exact;
    }
    let n = constructor_args.len();
    if !(n == 0 || is_runtime || (n <= local.len() && n <= remote.len())) {
        return MatchType::NoMatch;
    }
    let e1 = compared_end(local, constructor_args, is_runtime);
    let e2 = compared_end(remote, constructor_args, is_runtime);
    let n1 = stripped_len(local, e1, local_decodes);
    let n2 = stripped_len(remote, e2, remote_decodes);
    if prefix_eq(local, n1, remote, n2) {
        MatchType::Partial
    } else {
        MatchType::NoMatch
    }
}

/// Compares a locally derived bytecode with the on-chain one.
///
/// Byte equality gives `Exact`. Otherwise each side loses its trailing metadata
/// region and, for creation code, the constructor-argument suffix; equality of
/// what remains gives `Partial`, anything else `NoMatch`.
pub fn match_bytecodes(local: &Vec<u8>, remote: &Vec<u8>, constructor_args: &Vec<u8>, is_runtime: bool) -> (r: MatchType)
    ensures
        r == match_of(local@, remote@, constructor_args@, is_runtime),
{
    let e1 = compared_end(local, constructor_args, is_runtime);
    let e2 = compared_end(remote, constructor_args, is_runtime);
    let d1 = metadata_verdict(local, e1);
    let d2 = metadata_verdict(remote, e2);
    match_with_metadata_verdicts(local, remote, constructor_args, is_runtime, d1, d2)
}

/// Any bytecode compared with itself is an exact match, whatever the
/// constructor arguments and whichever kind of code it is.
pub proof fn lemma_match_reflexive(code: Seq<u8>, args: Seq<u8>, is_runtime: bool)
    ensures
        match_of(code, code, args, is_runtime) == MatchType::Exact,
{
}

} // verus!
