//! Input checks of a verification run and the payload it deploys.
use vstd::prelude::*;

use crate::args::{resolve_constructor_args, resolved_args};
use crate::bytes::{concat_bytes, opt_view};
use crate::matcher::{match_bytecodes, match_of};
use crate::types::{MatchType, VerifyError};

verus! {

/// Refuses an address that holds no code.
pub fn check_onchain_code(code: &Vec<u8>) -> (r: Result<(), VerifyError>)
    ensures
        code@.len() > 0 <==> r is Ok,
        code@.len() == 0 ==> r == Err::<(), VerifyError>(VerifyError::NoBytecode),
{
    if code.len() == 0 {
        Err(VerifyError::NoBytecode)
    } else {
        Ok(())
    }
}

/// Refuses a run whose declared contract name is not the one the explorer reports.
pub fn check_contract_name(reported: &Option<String>, declared: &String) -> (r: Result<(), VerifyError>)
    ensures
        (reported matches Some(n) && n@ == declared@) <==> r is Ok,
        r is Err ==> r == Err::<(), VerifyError>(VerifyError::ContractNameMismatch),
{
    match reported {
        Some(n) => {
            if n.eq(declared) {
                Ok(())
            } else {
                Err(VerifyError::ContractNameMismatch)
            }
        },
        None => Err(VerifyError::ContractNameMismatch),
    }
}

/// The local creation bytecode; `None` stands for bytecode with unlinked
/// library references, which cannot be verified.
pub fn local_creation_code(linked: Option<Vec<u8>>) -> (r: Result<Vec<u8>, VerifyError>)
    ensures
        r == match linked {
            Some(b) => Ok::<Vec<u8>, VerifyError>(b),
            None => Err(VerifyError::UnlinkedBytecode),
        },
{
    match linked {
        Some(b) => Ok(b),
        None => Err(VerifyError::UnlinkedBytecode),
    }
}

/// The creation payload that is compared and deployed: the local creation
/// bytecode followed by exactly the resolved constructor arguments.
pub fn deployable_payload(local: &Vec<u8>, constructor_args: &Vec<u8>) -> (r: Vec<u8>)
    ensures
        r@ == local@ + constructor_args@,
        r@.skip(local@.len() as int) == constructor_args@,
{
    let r = concat_bytes(local, constructor_args);
    assert(r@.skip(local@.len() as int) =~= constructor_args@);
    r
}

/// The constructor arguments of a run and the creation payload built from
/// them, fixed once and used by every comparison that follows.
pub struct SettledArgs {
    constructor_args: Vec<u8>,
    payload: Vec<u8>,
}

impl SettledArgs {
    /// The resolved constructor arguments.
    pub closed spec fn args_view(&self) -> Seq<u8> {
        self.constructor_args@
    }

    /// The creation payload.
    pub closed spec fn payload_view(&self) -> Seq<u8> {
        self.payload@
    }

    /// Resolves the constructor arguments (see `resolved_args`) and appends
    /// them to the local creation bytecode.
    pub fn settle(
        local: &Vec<u8>,
        reported: Vec<u8>,
        typed: Option<Vec<u8>>,
        hex: Option<Vec<u8>>,
        onchain_creation: Option<&Vec<u8>>,
    ) -> (r: SettledArgs)
        ensures
            r.args_view() == resolved_args(
                reported@,
                opt_view(typed),
                opt_view(hex),
                match onchain_creation { Some(c) => Some(c@), None => None },
                local@.len(),
            ),
            r.payload_view() == local@ + r.args_view(),
    {
        let constructor_args = resolve_constructor_args(reported, typed, hex, onchain_creation, local.len());
        let payload = deployable_payload(local, &constructor_args);
        SettledArgs { constructor_args, payload }
    }

    /// The resolved constructor arguments.
    pub fn constructor_args(&self) -> (r: &Vec<u8>)
        ensures
            r@ == self.args_view(),
    {
        &self.constructor_args
    }

    /// The creation payload: local creation bytecode, then the arguments.
    pub fn payload(&self) -> (r: &Vec<u8>)
        ensures
            r@ == self.payload_view(),
    {
        &self.payload
    }

    /// Compares the payload with the on-chain creation code.
    pub fn compare_creation(&self, onchain_creation: &Vec<u8>) -> (r: MatchType)
        ensures
            r == match_of(self.payload_view(), onchain_creation@, self.args_view(), false),
    {
        match_bytecodes(&self.payload, onchain_creation, &self.constructor_args, false)
    }

    /// Compares the runtime code of a historical replay with the on-chain runtime code.
    pub fn compare_replayed_runtime(&self, deployed: &Vec<u8>, onchain_runtime: &Vec<u8>) -> (r: MatchType)
        ensures
            r == match_of(deployed@, onchain_runtime@, self.args_view(), true),
    {
        match_bytecodes(deployed, onchain_runtime, &self.constructor_args, true)
    }
}

} // verus!
