//! Resolution of the constructor-argument bytes appended to the creation code.
use vstd::prelude::*;

use alloy_dyn_abi::{DynSolType, DynSolValue};

use crate::bytes::{bytes_end_with, copy_range, ends_with, opt_view};
use crate::types::VerifyError;

verus! {

/// Whether `c` is an ASCII hex digit, in either case.
pub open spec fn is_hex_digit(c: char) -> bool {
    ('0' <= c && c <= '9') || ('a' <= c && c <= 'f') || ('A' <= c && c <= 'F')
}

/// The value of the hex digit `c`.
pub open spec fn hex_digit_value(c: char) -> int {
    if '0' <= c && c <= '9' {
        c as int - '0' as int
    } else if 'a' <= c && c <= 'f' {
        c as int - 'a' as int + 10
    } else {
        c as int - 'A' as int + 10
    }
}

/// `s` without a leading `0x` or `0X`.
pub open spec fn hex_body(s: Seq<char>) -> Seq<char> {
    if s.len() >= 2 && s[0] == '0' && (s[1] == 'x' || s[1] == 'X') {
        s.skip(2)
    } else {
        s
    }
}

/// Whether `s` is an even number of hex digits, after an optional `0x` prefix.
pub open spec fn valid_hex(s: Seq<char>) -> bool {
    let b = hex_body(s);
    b.len() % 2 == 0 && forall|i: int| 0 <= i < b.len() ==> is_hex_digit(#[trigger] b[i])
}

/// The bytes that the digit pairs of a valid hex string spell.
pub open spec fn hex_decoded(s: Seq<char>) -> Seq<u8> {
    let b = hex_body(s);
    Seq::new(
        (b.len() / 2) as nat,
        |i: int| (hex_digit_value(b[2 * i]) * 16 + hex_digit_value(b[2 * i + 1])) as u8,
    )
}

/// Relies on `alloy_primitives::hex::decode` (the `const-hex` crate): it accepts
/// an even number of hex digits of either case after an optional `0x`/`0X`
/// prefix, and returns the bytes they spell.
#[verifier::external_body]
fn hex_decode(s: &str) -> (r: Option<Vec<u8>>)
    ensures
        match r {
            Some(v) => valid_hex(s@) && v@ == hex_decoded(s@),
            None => !valid_hex(s@),
        },
{
    alloy_primitives::hex::decode(s).ok()
}

/// The text of each string.
pub open spec fn str_views(s: Seq<String>) -> Seq<Seq<char>> {
    Seq::new(s.len(), |i: int| s[i]@)
}

/// The ABI encoding of the tuple of `values` read as the Solidity types
/// `types`, or `None` when a type name or a value cannot be read.
pub uninterp spec fn abi_args_encoding(types: Seq<Seq<char>>, values: Seq<Seq<char>>) -> Option<Seq<u8>>;

/// Relies on `alloy_dyn_abi`: `DynSolType::parse` reads each type name,
/// `DynSolType::coerce_str` reads the matching value, and
/// `DynSolValue::abi_encode` encodes the tuple of them. The result depends on
/// the texts alone.
#[verifier::external_body]
fn abi_encode_args(types: &Vec<String>, values: &Vec<String>) -> (r: Option<Vec<u8>>)
    requires
        types@.len() == values@.len(),
    ensures
        opt_view(r) == abi_args_encoding(str_views(types@), str_views(values@)),
{
    let tokens: Option<Vec<DynSolValue>> =
        types.iter().zip(values).map(|(t, v)| DynSolType::parse(t).ok()?.coerce_str(v).ok()).collect();
    tokens.map(|t| DynSolValue::Tuple(t).abi_encode())
}

/// Decodes constructor arguments that were supplied already ABI-encoded, as hex.
pub fn decode_encoded_args(s: &str) -> (r: Result<Vec<u8>, VerifyError>)
    ensures
        match r {
            Ok(v) => valid_hex(s@) && v@ == hex_decoded(s@),
            Err(e) => !valid_hex(s@) && e == VerifyError::InvalidHex,
        },
{
    match hex_decode(s) {
        Some(v) => Ok(v),
        None => Err(VerifyError::InvalidHex),
    }
}

/// ABI-encodes user-supplied constructor values against the constructor's
/// declared parameter types; an artifact without a constructor declares none.
/// A count that differs from the declared one is refused before anything is
/// encoded.
pub fn encode_constructor_args(param_types: &Option<Vec<String>>, args: &Vec<String>) -> (r: Result<Vec<u8>, VerifyError>)
    ensures
        match param_types {
            None => if args@.len() == 0 {
                r matches Ok(v) && v@.len() == 0
            } else {
                r == Err::<Vec<u8>, VerifyError>(VerifyError::ArgCountMismatch { expected: 0, got: args.len() })
            },
            Some(t) => if t@.len() != args@.len() {
                r == Err::<Vec<u8>, VerifyError>(VerifyError::ArgCountMismatch { expected: t.len(), got: args.len() })
            } else {
                match abi_args_encoding(str_views(t@), str_views(args@)) {
                    Some(b) => r matches Ok(v) && v@ == b,
                    None => r == Err::<Vec<u8>, VerifyError>(VerifyError::AbiEncoding),
                }
            },
        },
{
    match param_types {
        None => {
            if args.len() != 0 {
                Err(VerifyError::ArgCountMismatch { expected: 0, got: args.len() })
            } else {
                Ok(Vec::new())
            }
        },
        Some(types) => {
            if types.len() != args.len() {
                return Err(VerifyError::ArgCountMismatch { expected: types.len(), got: args.len() });
            }
            match abi_encode_args(types, args) {
                Some(b) => Ok(b),
                None => Err(VerifyError::AbiEncoding),
            }
        },
    }
}

/// The constructor arguments that a run uses.
///
/// Explicit values (`typed`, already encoded) win over pre-encoded hex bytes
/// (`hex`), which win over the explorer-reported bytes. Only when neither was
/// supplied, and an on-chain creation input is known that does not end with the
/// reported bytes but is at least as long as the local creation bytecode, the
/// arguments are taken as the tail of that input beyond the local bytecode.
pub open spec fn resolved_args(
    reported: Seq<u8>,
    typed: Option<Seq<u8>>,
    hex: Option<Seq<u8>>,
    onchain_creation: Option<Seq<u8>>,
    local_len: nat,
) -> Seq<u8> {
    match typed {
        Some(t) => t,
        None => match hex {
            Some(h) => h,
            None => match onchain_creation {
                Some(c) => if needs_rederivation(reported, c, local_len) {
                    c.skip(local_len as int)
                } else {
                    reported
                },
                None => reported,
            },
        },
    }
}

/// Whether the reported arguments are replaced by the tail of the on-chain input.
pub open spec fn needs_rederivation(reported: Seq<u8>, onchain_creation: Seq<u8>, local_len: nat) -> bool {
    !ends_with(onchain_creation, reported) && onchain_creation.len() >= local_len
}

/// Picks the constructor arguments of a run; see `resolved_args`. The on-chain
/// creation input is `None` for a predeployed contract, which has none.
pub fn resolve_constructor_args(
    reported: Vec<u8>,
    typed: Option<Vec<u8>>,
    hex: Option<Vec<u8>>,
    onchain_creation: Option<&Vec<u8>>,
    local_len: usize,
) -> (r: Vec<u8>)
    ensures
        r@ == resolved_args(
            reported@,
            opt_view(typed),
            opt_view(hex),
            match onchain_creation { Some(c) => Some(c@), None => None },
            local_len as nat,
        ),
{
    if let Some(t) = typed {
        return t;
    }
    if let Some(h) = hex {
        return h;
    }
    match onchain_creation {
        Some(c) => {
            if !bytes_end_with(c, &reported) && c.len() >= local_len {
                let r = copy_range(c, local_len, c.len());
                assert(r@ =~= c@.skip(local_len as int));
                r
            } else {
                reported
            }
        },
        None => reported,
    }
}

/// Precedence of the argument sources: explicit values win, then explicit hex,
/// and neither explicit source is ever replaced by re-derived bytes.
pub proof fn lemma_args_precedence(
    reported: Seq<u8>,
    typed: Option<Seq<u8>>,
    hex: Option<Seq<u8>>,
    onchain_creation: Option<Seq<u8>>,
    local_len: nat,
)
    ensures
        typed matches Some(t) ==> resolved_args(reported, typed, hex, onchain_creation, local_len) == t,
        typed is None ==> (hex matches Some(h) ==> resolved_args(reported, typed, hex, onchain_creation, local_len) == h),
        typed is None && hex is None ==> {
            let r = resolved_args(reported, typed, hex, onchain_creation, local_len);
            r == reported || (onchain_creation matches Some(c) && r == c.skip(local_len as int))
        },
{
}

/// The reported arguments are replaced exactly when no explicit source was
/// given, an on-chain creation input is known, it does not end with the reported
/// bytes, and it is at least as long as the local bytecode; otherwise they are
/// kept unchanged.
pub proof fn lemma_rederivation_condition(
    reported: Seq<u8>,
    typed: Option<Seq<u8>>,
    hex: Option<Seq<u8>>,
    onchain_creation: Option<Seq<u8>>,
    local_len: nat,
)
    ensures
        (resolved_args(reported, typed, hex, onchain_creation, local_len) != reported) <==> (
            (typed matches Some(t) && t != reported)
            || (typed is None && (hex matches Some(h) && h != reported))
            || (typed is None && hex is None && (onchain_creation matches Some(c)
                && needs_rederivation(reported, c, local_len)))
        ),
{
    if let Some(c) = onchain_creation {
        if typed is None && hex is None && needs_rederivation(reported, c, local_len) {
            let tail = c.skip(local_len as int);
            if tail == reported {
                assert(c.subrange(c.len() - reported.len(), c.len() as int) =~= tail);
            }
        }
    }
}

} // verus!
