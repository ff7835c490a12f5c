//! The execution context of a replay: block values copied from the historical
//! header, and the transaction that is executed on the fork.
use vstd::prelude::*;

use crate::bytes::{copy_range, opt_view};
use crate::replay::{genesis_deployer, genesis_deployer_address, replay_input, replay_input_error, replay_input_of, ReplayKind};
use crate::types::VerifyError;

verus! {

/// The fields of a historical block header that a replay reads.
#[derive(Debug)]
pub struct BlockHeader {
    pub timestamp: u64,
    pub miner: Vec<u8>,
    /// Big-endian.
    pub difficulty: Vec<u8>,
    pub mix_hash: Option<Vec<u8>>,
    pub base_fee_per_gas: Option<u128>,
    pub gas_limit: u128,
}

/// The block context that op-codes observe during a replay.
#[derive(Debug)]
pub struct BlockEnv {
    pub number: u64,
    pub timestamp: u64,
    pub coinbase: Vec<u8>,
    /// Big-endian.
    pub difficulty: Vec<u8>,
    pub prevrandao: Option<Vec<u8>>,
    pub basefee: u128,
    pub gas_limit: u128,
}

/// A transaction executed on the fork.
#[derive(Debug)]
pub struct ReplayTx {
    pub from: Vec<u8>,
    pub to: Option<Vec<u8>>,
    pub input: Vec<u8>,
    pub nonce: u64,
    pub gas: u128,
    pub gas_price: Option<u128>,
    pub max_fee_per_gas: Option<u128>,
}

/// 32 zero bytes, the value of an absent mix hash.
pub open spec fn zero_word() -> Seq<u8> {
    Seq::new(32, |i: int| 0u8)
}

/// The base fee of a header, zero when it has none.
pub open spec fn base_fee_of(h: BlockHeader) -> u128 {
    match h.base_fee_per_gas {
        Some(f) => f,
        None => 0,
    }
}

fn zero_bytes(n: usize) -> (r: Vec<u8>)
    ensures
        r@ == Seq::new(n as nat, |i: int| 0u8),
{
    let mut r: Vec<u8> = Vec::new();
    let mut i: usize = 0;
    while i < n
        invariant
            i <= n,
            r@ == Seq::new(i as nat, |j: int| 0u8),
        decreases n - i,
    {
        r.push(0);
        i = i + 1;
        assert(r@ =~= Seq::new(i as nat, |j: int| 0u8));
    }
    r
}

fn copy_all(v: &Vec<u8>) -> (r: Vec<u8>)
    ensures
        r@ == v@,
{
    let r = copy_range(v, 0, v.len());
    assert(r@ =~= v@);
    r
}

/// Copies the historical block's timestamp, coinbase, difficulty, randomness,
/// base fee and gas limit into the replay context; the block number stays.
pub fn apply_block_header(env: &mut BlockEnv, header: &BlockHeader)
    ensures
        final(env).number == old(env).number,
        final(env).timestamp == header.timestamp,
        final(env).coinbase@ == header.miner@,
        final(env).difficulty@ == header.difficulty@,
        final(env).prevrandao matches Some(p) && p@ == match header.mix_hash {
            Some(m) => m@,
            None => zero_word(),
        },
        final(env).basefee == base_fee_of(*header),
        final(env).gas_limit == header.gas_limit,
{
    env.timestamp = header.timestamp;
    env.coinbase = copy_all(&header.miner);
    env.difficulty = copy_all(&header.difficulty);
    env.prevrandao = Some(
        match &header.mix_hash {
            Some(m) => copy_all(m),
            None => zero_bytes(32),
        },
    );
    env.basefee = match header.base_fee_per_gas {
        Some(f) => f,
        None => 0,
    };
    env.gas_limit = header.gas_limit;
}

/// The transaction that deploys `payload` at genesis for a predeployed contract:
/// sent by the synthetic deployer with nonce zero, creating a contract, and
/// priced from the genesis header when there is one.
pub fn genesis_transaction(payload: Vec<u8>, header: &Option<BlockHeader>) -> (r: ReplayTx)
    ensures
        r.from@ == genesis_deployer(),
        r.to is None,
        r.input@ == payload@,
        r.nonce == 0,
        match header {
            Some(h) => r.gas == h.gas_limit && r.gas_price == Some(base_fee_of(*h)) && r.max_fee_per_gas == Some(
                base_fee_of(*h),
            ),
            None => r.gas == 0 && r.gas_price is None && r.max_fee_per_gas is None,
        },
{
    let from = genesis_deployer_address();
    match header {
        Some(h) => {
            let fee = match h.base_fee_per_gas {
                Some(f) => f,
                None => 0,
            };
            ReplayTx {
                from,
                to: None,
                input: payload,
                nonce: 0,
                gas: h.gas_limit,
                gas_price: Some(fee),
                max_fee_per_gas: Some(fee),
            }
        },
        None => ReplayTx { from, to: None, input: payload, nonce: 0, gas: 0, gas_price: None, max_fee_per_gas: None },
    }
}

/// Turns the historical creation transaction into the one replayed on the fork:
/// its nonce becomes the sender's nonce as of the block before, and its input
/// becomes the local payload (after the on-chain salt, for a
/// deterministic-deployer call). Everything else is kept.
pub fn prepare_replay_transaction(tx: ReplayTx, prev_block_nonce: u64, payload: &Vec<u8>) -> (r: Result<(ReplayTx, ReplayKind), VerifyError>)
    ensures
        match replay_input_of(opt_view(tx.to), tx.input@, payload@) {
            Some((bytes, kind)) => r matches Ok((t, k)) && {
                &&& k == kind
                &&& t.input@ == bytes
                &&& t.nonce == prev_block_nonce
                &&& t.from == tx.from
                &&& t.to == tx.to
                &&& t.gas == tx.gas
                &&& t.gas_price == tx.gas_price
                &&& t.max_fee_per_gas == tx.max_fee_per_gas
            },
            None => r matches Err(e) && e == replay_input_error(opt_view(tx.to)),
        },
{
    match replay_input(&tx.to, &tx.input, payload) {
        Ok((input, kind)) => Ok((ReplayTx { input, nonce: prev_block_nonce, ..tx }, kind)),
        Err(e) => Err(e),
    }
}

} // verus!
