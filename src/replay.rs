//! Reconstruction of the historical deployment that is replayed on a fork.
use vstd::prelude::*;

use crate::bytes::{bytes_eq, concat_bytes, copy_range, opt_view};
use crate::types::VerifyError;

verus! {

/// Balance, in wei, given to the synthetic deployer of a predeployed contract.
pub const GENESIS_DEPLOYER_BALANCE: u128 = 100_000_000_000_000_000_000;

/// The block at which a predeployed contract is deployed, and to which its fork is pinned.
pub const GENESIS_BLOCK: u64 = 0;

/// Length in bytes of the salt that precedes the payload of a deterministic-deployer call.
pub const SALT_LEN: usize = 32;

/// Length in bytes of an address.
pub const ADDRESS_LEN: usize = 20;

/// The canonical deterministic-deployer factory, 0x4e59b44847b379578588920ca78fbf26c0b4956c.
pub open spec fn create2_deployer() -> Seq<u8> {
    seq![
        0x4eu8, 0x59, 0xb4, 0x48, 0x47, 0xb3, 0x79, 0x57, 0x85, 0x88,
        0x92, 0x0c, 0xa7, 0x8f, 0xbf, 0x26, 0xc0, 0xb4, 0x95, 0x6c,
    ]
}

/// The canonical deterministic-deployer factory address.
pub fn create2_deployer_address() -> (r: Vec<u8>)
    ensures
        r@ == create2_deployer(),
{
    let r: Vec<u8> = vec![
        0x4e, 0x59, 0xb4, 0x48, 0x47, 0xb3, 0x79, 0x57, 0x85, 0x88,
        0x92, 0x0c, 0xa7, 0x8f, 0xbf, 0x26, 0xc0, 0xb4, 0x95, 0x6c,
    ];
    assert(r@ =~= create2_deployer());
    r
}

/// The address of the synthetic deployer of a predeployed contract: all zero but a final 1.
pub open spec fn genesis_deployer() -> Seq<u8> {
    Seq::new(20, |i: int| if i == 19 { 1u8 } else { 0u8 })
}

/// The address of the synthetic deployer of a predeployed contract.
pub fn genesis_deployer_address() -> (r: Vec<u8>)
    ensures
        r@ == genesis_deployer(),
{
    let mut r: Vec<u8> = Vec::new();
    let mut i: usize = 0;
    while i < ADDRESS_LEN
        invariant
            i <= ADDRESS_LEN,
            r@.len() == i,
            forall|j: int| 0 <= j < i ==> r@[j] == (if j == 19 { 1u8 } else { 0u8 }),
        decreases ADDRESS_LEN - i,
    {
        if i == ADDRESS_LEN - 1 {
            r.push(1);
        } else {
            r.push(0);
        }
        i = i + 1;
    }
    assert(r@ =~= genesis_deployer());
    r
}


/// How a replayed creation transaction deploys the contract.
#[derive(Clone, Copy, Debug, PartialEq, Eq, Structural)]
pub enum ReplayKind {
    /// A top-level contract-creation transaction.
    Create,
    /// A call to the deterministic-deployer factory with a salt-prefixed payload.
    Create2Factory,
}

/// The creation code that a creation transaction carries: its whole input when
/// it created the target itself, or the input after the salt when it called
/// the deterministic deployer.
pub open spec fn creation_code_of(
    input: Seq<u8>,
    receipt_to: Option<Seq<u8>>,
    contract_address: Option<Seq<u8>>,
    target: Seq<u8>,
) -> Option<Seq<u8>> {
    if receipt_to is None && contract_address == Some(target) {
        Some(input)
    } else if receipt_to == Some(create2_deployer()) && input.len() >= SALT_LEN {
        Some(input.skip(SALT_LEN as int))
    } else {
        None
    }
}

/// Whether `o` holds exactly the bytes `b`.
fn opt_eq(o: &Option<Vec<u8>>, b: &Vec<u8>) -> (r: bool)
    ensures
        r == (opt_view(*o) == Some(b@)),
{
    match o {
        Some(v) => bytes_eq(v, b),
        None => false,
    }
}

/// Reads the creation code out of the creation transaction's input.
pub fn extract_creation_code(
    input: &Vec<u8>,
    receipt_to: &Option<Vec<u8>>,
    contract_address: &Option<Vec<u8>>,
    target: &Vec<u8>,
) -> (r: Result<Vec<u8>, VerifyError>)
    ensures
        match creation_code_of(input@, opt_view(*receipt_to), opt_view(*contract_address), target@) {
            Some(c) => r matches Ok(v) && v@ == c,
            None => r == Err::<Vec<u8>, VerifyError>(VerifyError::CreationCodeUnavailable),
        },
{
    let factory = create2_deployer_address();
    if receipt_to.is_none() && opt_eq(contract_address, target) {
        let r = copy_range(input, 0, input.len());
        assert(r@ =~= input@);
        Ok(r)
    } else if opt_eq(receipt_to, &factory) && input.len() >= SALT_LEN {
        let r = copy_range(input, SALT_LEN, input.len());
        assert(r@ =~= input@.skip(SALT_LEN as int));
        Ok(r)
    } else {
        Err(VerifyError::CreationCodeUnavailable)
    }
}

/// The input of the replayed creation transaction: the local payload for a
/// plain creation, the on-chain salt followed by the local payload for a
/// deterministic-deployer call, nothing for any other target.
pub open spec fn replay_input_of(to: Option<Seq<u8>>, input: Seq<u8>, payload: Seq<u8>) -> Option<(Seq<u8>, ReplayKind)> {
    match to {
        None => Some((payload, ReplayKind::Create)),
        Some(a) => if a == create2_deployer() && input.len() >= SALT_LEN {
            Some((input.take(SALT_LEN as int) + payload, ReplayKind::Create2Factory))
        } else {
            None
        },
    }
}

/// The error for a transaction whose input cannot be replaced by the local payload.
pub open spec fn replay_input_error(to: Option<Seq<u8>>) -> VerifyError {
    if to == Some(create2_deployer()) {
        VerifyError::CreationCodeUnavailable
    } else {
        VerifyError::NotCreationTransaction
    }
}

/// Builds the input of the replayed creation transaction; see `replay_input_of`.
pub fn replay_input(to: &Option<Vec<u8>>, input: &Vec<u8>, payload: &Vec<u8>) -> (r: Result<(Vec<u8>, ReplayKind), VerifyError>)
    ensures
        match replay_input_of(opt_view(*to), input@, payload@) {
            Some((bytes, kind)) => r matches Ok((v, k)) && v@ == bytes && k == kind,
            None => r == Err::<(Vec<u8>, ReplayKind), VerifyError>(replay_input_error(opt_view(*to))),
        },
{
    match to {
        None => {
            let r = copy_range(payload, 0, payload.len());
            assert(r@ =~= payload@);
            Ok((r, ReplayKind::Create))
        },
        Some(a) => {
            let factory = create2_deployer_address();
            if !bytes_eq(a, &factory) {
                Err(VerifyError::NotCreationTransaction)
            } else if input.len() < SALT_LEN {
                Err(VerifyError::CreationCodeUnavailable)
            } else {
                let salt = copy_range(input, 0, SALT_LEN);
                let r = concat_bytes(&salt, payload);
                assert(salt@ =~= input@.take(SALT_LEN as int));
                Ok((r, ReplayKind::Create2Factory))
            }
        },
    }
}

/// A deterministic-deployer replay keeps the on-chain 32-byte salt byte for
/// byte, and follows it with exactly the local payload.
pub proof fn lemma_salt_preserved(input: Seq<u8>, payload: Seq<u8>)
    requires
        input.len() >= SALT_LEN,
    ensures
        replay_input_of(Some(create2_deployer()), input, payload) matches Some((bytes, kind)) && {
            &&& kind == ReplayKind::Create2Factory
            &&& bytes.take(SALT_LEN as int) == input.take(SALT_LEN as int)
            &&& bytes.skip(SALT_LEN as int) == payload
        },
{
    let bytes = input.take(SALT_LEN as int) + payload;
    assert(bytes.take(SALT_LEN as int) =~= input.take(SALT_LEN as int));
    assert(bytes.skip(SALT_LEN as int) =~= payload);
}

/// How the user named the block to verify at.
#[derive(Clone, Copy, Debug, PartialEq, Eq, Structural)]
pub enum BlockSelector {
    /// A literal block number.
    Number(u64),
    /// A tag or hash, which a replay cannot use.
    Other,
}

/// The block at which the creation is replayed: the user's block number if one
/// was given, else the block of the creation transaction.
pub fn simulation_block(selector: Option<BlockSelector>, tx_block: Option<u64>) -> (r: Result<u64, VerifyError>)
    ensures
        r == match selector {
            Some(BlockSelector::Number(n)) => Ok::<u64, VerifyError>(n),
            Some(BlockSelector::Other) => Err(VerifyError::InvalidBlock),
            None => match tx_block {
                Some(b) => Ok(b),
                None => Err(VerifyError::MissingBlockNumber),
            },
        },
{
    match selector {
        Some(BlockSelector::Number(n)) => Ok(n),
        Some(BlockSelector::Other) => Err(VerifyError::InvalidBlock),
        None => match tx_block {
            Some(b) => Ok(b),
            None => Err(VerifyError::MissingBlockNumber),
        },
    }
}

/// The block that the fork is pinned to, and at which the sender's nonce is
/// read, for a replay at `simulation`: the one before it.
pub fn fork_block(simulation: u64) -> (r: Result<u64, VerifyError>)
    ensures
        simulation == 0 ==> r == Err::<u64, VerifyError>(VerifyError::ReplayAtGenesis),
        simulation > 0 ==> r == Ok::<u64, VerifyError>((simulation - 1) as u64),
{
    if simulation == 0 {
        Err(VerifyError::ReplayAtGenesis)
    } else {
        Ok(simulation - 1)
    }
}

/// The address that the deterministic deployer returned from its call.
pub fn deployed_address_from_call(result: &Vec<u8>) -> (r: Result<Vec<u8>, VerifyError>)
    ensures
        result@.len() == ADDRESS_LEN ==> (r matches Ok(a) && a@ == result@),
        result@.len() != ADDRESS_LEN ==> r == Err::<Vec<u8>, VerifyError>(
            VerifyError::BadCallResult { len: result.len() },
        ),
{
    if result.len() != ADDRESS_LEN {
        return Err(VerifyError::BadCallResult { len: result.len() });
    }
    let r = copy_range(result, 0, result.len());
    assert(r@ =~= result@);
    Ok(r)
}

/// The runtime code read back after a deployment: the account must exist and
/// hold code.
pub fn deployed_runtime_code(account_code: Option<Option<Vec<u8>>>) -> (r: Result<Vec<u8>, VerifyError>)
    ensures
        match account_code {
            None => r == Err::<Vec<u8>, VerifyError>(VerifyError::MissingDeployedAccount),
            Some(None) => r == Err::<Vec<u8>, VerifyError>(VerifyError::MissingDeployedCode),
            Some(Some(c)) => r == Ok::<Vec<u8>, VerifyError>(c),
        },
{
    match account_code {
        None => Err(VerifyError::MissingDeployedAccount),
        Some(None) => Err(VerifyError::MissingDeployedCode),
        Some(Some(c)) => Ok(c),
    }
}

} // verus!
