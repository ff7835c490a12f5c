use verify_bytecode::env::{apply_block_header, genesis_transaction, prepare_replay_transaction, BlockEnv, BlockHeader, ReplayTx};
use verify_bytecode::replay::{
    create2_deployer_address, deployed_address_from_call, deployed_runtime_code, extract_creation_code, fork_block,
    genesis_deployer_address, replay_input, simulation_block, BlockSelector, ReplayKind,
};
use verify_bytecode::types::VerifyError;

fn target() -> Vec<u8> {
    vec![0xaa; 20]
}

fn salted(salt: u8, payload: &[u8]) -> Vec<u8> {
    let mut v = vec![salt; 32];
    v.extend_from_slice(payload);
    v
}

#[test]
fn create2_deployer_is_canonical() {
    let a = create2_deployer_address();
    assert_eq!(a.len(), 20);
    assert_eq!(a[0], 0x4e);
    assert_eq!(a[19], 0x6c);
}

#[test]
fn creation_code_of_plain_creation_is_whole_input() {
    let input = vec![1, 2, 3];
    assert_eq!(extract_creation_code(&input, &None, &Some(target()), &target()), Ok(vec![1, 2, 3]));
}

#[test]
fn creation_code_of_factory_call_skips_salt() {
    let input = salted(7, &[1, 2, 3]);
    let to = Some(create2_deployer_address());
    assert_eq!(extract_creation_code(&input, &to, &None, &target()), Ok(vec![1, 2, 3]));
}

#[test]
fn creation_code_unavailable_otherwise() {
    let input = vec![1, 2, 3];
    assert_eq!(
        extract_creation_code(&input, &Some(vec![1; 20]), &None, &target()),
        Err(VerifyError::CreationCodeUnavailable)
    );
    assert_eq!(
        extract_creation_code(&input, &None, &Some(vec![1; 20]), &target()),
        Err(VerifyError::CreationCodeUnavailable)
    );
    assert_eq!(
        extract_creation_code(&input, &Some(create2_deployer_address()), &None, &target()),
        Err(VerifyError::CreationCodeUnavailable)
    );
}

#[test]
fn factory_replay_keeps_salt() {
    let input = salted(0x5a, &[0xde, 0xad]);
    let (bytes, kind) = replay_input(&Some(create2_deployer_address()), &input, &vec![1, 2, 3, 4]).unwrap();
    assert_eq!(kind, ReplayKind::Create2Factory);
    assert_eq!(bytes, salted(0x5a, &[1, 2, 3, 4]));
}

#[test]
fn plain_replay_uses_payload() {
    let (bytes, kind) = replay_input(&None, &vec![9, 9], &vec![1, 2]).unwrap();
    assert_eq!(kind, ReplayKind::Create);
    assert_eq!(bytes, vec![1, 2]);
}

#[test]
fn replay_of_other_call_is_refused() {
    assert_eq!(replay_input(&Some(vec![1; 20]), &vec![], &vec![1]), Err(VerifyError::NotCreationTransaction));
    assert_eq!(
        replay_input(&Some(create2_deployer_address()), &vec![0; 31], &vec![1]),
        Err(VerifyError::CreationCodeUnavailable)
    );
}

#[test]
fn simulation_block_choice() {
    assert_eq!(simulation_block(Some(BlockSelector::Number(12)), Some(5)), Ok(12));
    assert_eq!(simulation_block(Some(BlockSelector::Other), Some(5)), Err(VerifyError::InvalidBlock));
    assert_eq!(simulation_block(None, Some(5)), Ok(5));
    assert_eq!(simulation_block(None, None), Err(VerifyError::MissingBlockNumber));
}

#[test]
fn fork_is_pinned_one_block_back() {
    assert_eq!(fork_block(100), Ok(99));
    assert_eq!(fork_block(1), Ok(0));
    assert_eq!(fork_block(0), Err(VerifyError::ReplayAtGenesis));
}

#[test]
fn factory_call_must_return_an_address() {
    assert_eq!(deployed_address_from_call(&vec![3; 20]), Ok(vec![3; 20]));
    assert_eq!(deployed_address_from_call(&vec![3; 32]), Err(VerifyError::BadCallResult { len: 32 }));
}

#[test]
fn deployed_code_must_exist() {
    assert_eq!(deployed_runtime_code(Some(Some(vec![1]))), Ok(vec![1]));
    assert_eq!(deployed_runtime_code(Some(None)), Err(VerifyError::MissingDeployedCode));
    assert_eq!(deployed_runtime_code(None), Err(VerifyError::MissingDeployedAccount));
}

fn header() -> BlockHeader {
    BlockHeader {
        timestamp: 1_700_000_000,
        miner: vec![0x11; 20],
        difficulty: vec![0x22; 32],
        mix_hash: None,
        base_fee_per_gas: Some(7),
        gas_limit: 30_000_000,
    }
}

#[test]
fn block_header_is_copied_into_env() {
    let mut env = BlockEnv {
        number: 42,
        timestamp: 0,
        coinbase: vec![],
        difficulty: vec![],
        prevrandao: None,
        basefee: 0,
        gas_limit: 0,
    };
    apply_block_header(&mut env, &header());
    assert_eq!(env.number, 42);
    assert_eq!(env.timestamp, 1_700_000_000);
    assert_eq!(env.coinbase, vec![0x11; 20]);
    assert_eq!(env.difficulty, vec![0x22; 32]);
    assert_eq!(env.prevrandao, Some(vec![0; 32]));
    assert_eq!(env.basefee, 7);
    assert_eq!(env.gas_limit, 30_000_000);
}

#[test]
fn genesis_transaction_is_sent_by_synthetic_deployer() {
    let tx = genesis_transaction(vec![1, 2], &Some(header()));
    let mut deployer = vec![0; 20];
    deployer[19] = 1;
    assert_eq!(genesis_deployer_address(), deployer);
    assert_eq!(tx.from, deployer);
    assert_eq!(tx.to, None);
    assert_eq!(tx.input, vec![1, 2]);
    assert_eq!(tx.nonce, 0);
    assert_eq!(tx.gas, 30_000_000);
    assert_eq!(tx.gas_price, Some(7));
    assert_eq!(tx.max_fee_per_gas, Some(7));
    let bare = genesis_transaction(vec![], &None);
    assert_eq!(bare.gas, 0);
    assert_eq!(bare.gas_price, None);
}

#[test]
fn replayed_transaction_takes_previous_nonce_and_local_input() {
    let tx = ReplayTx {
        from: vec![5; 20],
        to: Some(create2_deployer_address()),
        input: salted(3, &[0xee]),
        nonce: 90,
        gas: 1000,
        gas_price: Some(2),
        max_fee_per_gas: None,
    };
    let (t, kind) = prepare_replay_transaction(tx, 17, &vec![1, 2]).unwrap();
    assert_eq!(kind, ReplayKind::Create2Factory);
    assert_eq!(t.nonce, 17);
    assert_eq!(t.input, salted(3, &[1, 2]));
    assert_eq!(t.from, vec![5; 20]);
    assert_eq!(t.gas, 1000);
    assert_eq!(t.gas_price, Some(2));
}
