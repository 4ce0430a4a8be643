use cross_chain_swap::escrow::{EscrowError, Immutables};
use cross_chain_swap::factory::{
    allow_multiple_fills, create_immutables, is_valid_partial_fill, parse_extra_data_args,
    validate_order, BaseEscrowFactory, EscrowFactory, FactoryError, U256,
};
use cross_chain_swap::fee::{
    calculate_fee_amount, is_fee_applicable, parse_fee_config, split_fee, validate_fee_config,
    FeeConfig, FeeTakerError,
};
use cross_chain_swap::hashing::{create_validation_key, hash_pair, hash_secret};
use cross_chain_swap::merkle::{
    extract_parts_amount, extract_post_interaction_data, extract_root, parse_taker_data,
    process_merkle_proof, validate_merkle_proof, validate_partial_fill, InvalidatorError,
    MerkleStorageInvalidator, ValidationData,
};
use cross_chain_swap::orders::{MakerTraits, Order};
use cross_chain_swap::timelocks::Timelocks;

fn account(i: usize) -> String {
    ["alice", "bob", "charlie", "danny", "eugene", "fargo"][i].to_string()
}

/// Leaves of an eight-leaf tree: the hashes of eight secrets.
fn leaves() -> Vec<[u8; 32]> {
    (0..8u8).map(|i| hash_secret(&[i + 10; 32])).collect()
}

/// Every level of the tree, leaves first.
fn levels() -> Vec<Vec<[u8; 32]>> {
    let mut levels = vec![leaves()];
    while levels.last().unwrap().len() > 1 {
        let prev = levels.last().unwrap();
        let next: Vec<[u8; 32]> = prev.chunks(2).map(|p| hash_pair(&p[0], &p[1])).collect();
        levels.push(next);
    }
    levels
}

fn root() -> [u8; 32] {
    levels().last().unwrap()[0]
}

fn proof_for(index: usize) -> Vec<[u8; 32]> {
    let levels = levels();
    let mut proof = Vec::new();
    let mut i = index;
    for level in &levels[..levels.len() - 1] {
        proof.push(level[i ^ 1]);
        i /= 2;
    }
    proof
}

fn taker_data(index: usize) -> Vec<u8> {
    let mut data = (index as u64).to_le_bytes().to_vec();
    data.extend_from_slice(&leaves()[index]);
    for node in proof_for(index) {
        data.extend_from_slice(&node);
    }
    data
}

fn hashlock_info(parts: u16) -> [u8; 32] {
    let mut info = root();
    info[0] = (parts >> 8) as u8;
    info[1] = parts as u8;
    info
}

fn extra_data(info: [u8; 32], deposit: u128, timelocks: &Timelocks) -> Vec<u8> {
    let mut data = info.to_vec();
    data.extend_from_slice(&deposit.to_le_bytes());
    data.extend_from_slice(&[0u8; 16]);
    for v in [
        timelocks.deployed_at,
        timelocks.src_withdrawal,
        timelocks.src_public_withdrawal,
        timelocks.src_cancellation,
        timelocks.src_public_cancellation,
        timelocks.dst_withdrawal,
        timelocks.dst_public_withdrawal,
        timelocks.dst_cancellation,
    ] {
        data.extend_from_slice(&v.to_le_bytes());
    }
    data
}

fn timelocks() -> Timelocks {
    Timelocks {
        deployed_at: 0,
        src_withdrawal: 100,
        src_public_withdrawal: 200,
        src_cancellation: 300,
        src_public_cancellation: 400,
        dst_withdrawal: 50,
        dst_public_withdrawal: 150,
        dst_cancellation: 250,
    }
}

fn order(making_amount: u128) -> Order {
    Order {
        salt: 12345,
        maker: account(0),
        receiver: account(1),
        maker_asset: account(2),
        taker_asset: account(5),
        making_amount,
        taking_amount: 1000,
        maker_traits: MakerTraits::default(),
    }
}

fn factory() -> BaseEscrowFactory {
    BaseEscrowFactory::new(
        account(4),
        account(2),
        account(2),
        account(3),
        3600,
        7200,
        account(1),
        account(5),
    )
}

fn fill(
    f: &mut BaseEscrowFactory,
    leaf_index: usize,
    making: u128,
    remaining: u128,
) -> Result<Immutables, FactoryError> {
    let extra = extra_data(hashlock_info(4), 10, &timelocks());
    f.taker_interaction(&account(4), &taker_data(leaf_index), &[7u8; 32], &extra)?;
    f.post_interaction(&order(100), &[7u8; 32], &account(1), making, remaining, &extra, 5000)
}

#[test]
fn merkle_proofs_reconstruct_the_root() {
    for i in 0..8 {
        let proof = proof_for(i);
        assert_eq!(process_merkle_proof(&proof, leaves()[i], i as u64), Ok(root()));
        assert!(validate_merkle_proof(&proof, leaves()[i], i as u64, root()));
        assert!(!validate_merkle_proof(&proof, leaves()[i], (i ^ 1) as u64, root()));
    }
    assert_eq!(process_merkle_proof(&[], leaves()[3], 3), Ok(leaves()[3]));
}

#[test]
fn proof_against_another_root_is_rejected() {
    let mut other = root();
    other[31] ^= 1;
    for i in 0..8 {
        assert!(!validate_merkle_proof(&proof_for(i), leaves()[i], i as u64, other));
    }
    let mut inv = MerkleStorageInvalidator::new(account(4));
    for index in [0usize, 3, 7] {
        assert_eq!(
            inv.taker_interaction(&account(4), &[0u8; 4], &[7u8; 32], &other, &taker_data(index)),
            Err(InvalidatorError::InvalidProof)
        );
    }
    assert!(!inv.has_validation_data(&create_validation_key(&[7u8; 32], &other)));
}

#[test]
fn invalidator_records_validated_secret() {
    let mut inv = MerkleStorageInvalidator::new(account(4));
    assert_eq!(
        inv.taker_interaction(&account(0), &[0u8; 4], &[7u8; 32], &root(), &taker_data(2)),
        Err(InvalidatorError::AccessDenied)
    );
    assert_eq!(
        inv.taker_interaction(&account(4), &[0u8; 3], &[7u8; 32], &root(), &taker_data(2)),
        Err(InvalidatorError::InvalidExtension)
    );
    assert_eq!(
        inv.taker_interaction(&account(4), &[0u8; 4], &[7u8; 32], &root(), &[0u8; 39]),
        Err(InvalidatorError::InvalidExtraData)
    );
    assert_eq!(inv.taker_interaction(&account(4), &[0u8; 4], &[7u8; 32], &root(), &taker_data(2)), Ok(()));
    let key = create_validation_key(&[7u8; 32], &root());
    let record = inv.get_last_validated(&key).unwrap();
    assert_eq!(record.leaf, leaves()[2]);
    assert_eq!(record.index, 3);
    assert_eq!(inv.get_limit_order_protocol(), account(4));
}

#[test]
fn merkle_storage_invalidator_contract_test_new() {
    let contract = MerkleStorageInvalidator::new(account(1));
    assert_eq!(contract.get_limit_order_protocol(), account(1));
}

#[test]
fn test_validation_data_storage() {
    let mut contract = MerkleStorageInvalidator::new(account(1));
    let key = [1u8; 32];
    let validation_data = ValidationData { leaf: [2u8; 32], index: 5 };
    contract.last_validated.insert(key.to_vec(), validation_data);
    assert!(contract.has_validation_data(&key));
    let retrieved = contract.get_last_validated(&key).unwrap();
    assert_eq!(retrieved.leaf, [2u8; 32]);
    assert_eq!(retrieved.index, 5);
}

#[test]
fn parts_in_order_succeed() {
    let mut f = factory();
    let im = fill(&mut f, 0, 25, 100).unwrap();
    assert_eq!(im.hashlock, leaves()[0]);
    assert_eq!(fill(&mut f, 1, 25, 75).unwrap().hashlock, leaves()[1]);
    assert_eq!(fill(&mut f, 2, 25, 50).unwrap().hashlock, leaves()[2]);
    let last = fill(&mut f, 4, 25, 25).unwrap();
    assert_eq!(last.hashlock, leaves()[4]);
    assert_eq!(last.amount, 25);
    assert_eq!(last.safety_deposit, 10);
    assert_eq!(last.timelocks.deployed_at, 5000);
    assert_eq!(last.timelocks.src_cancellation, 300);
    assert_eq!(last.maker, account(0));
    assert_eq!(last.taker, account(1));
    assert_eq!(last.token, account(2));
}

#[test]
fn parts_out_of_order_fail_at_the_third() {
    let mut f = factory();
    assert!(fill(&mut f, 0, 25, 100).is_ok());
    assert!(fill(&mut f, 2, 50, 75).is_ok());
    assert_eq!(fill(&mut f, 1, 25, 25).err(), Some(FactoryError::InvalidPartialFill));
}

#[test]
fn skipping_a_part_fails() {
    let mut f = factory();
    assert!(fill(&mut f, 0, 25, 100).is_ok());
    assert_eq!(fill(&mut f, 2, 25, 75).err(), Some(FactoryError::InvalidPartialFill));
}

#[test]
fn factory_taker_interaction_errors() {
    let mut f = factory();
    let extra = extra_data(hashlock_info(4), 10, &timelocks());
    assert_eq!(
        f.taker_interaction(&account(0), &taker_data(0), &[7u8; 32], &extra),
        Err(FactoryError::AccessDenied)
    );
    assert_eq!(
        f.taker_interaction(&account(4), &taker_data(0), &[7u8; 32], &extra[..100]),
        Err(FactoryError::InvalidExtraData)
    );
    assert_eq!(
        f.taker_interaction(&account(4), &[0u8; 39], &[7u8; 32], &extra),
        Err(FactoryError::InvalidExtension)
    );
    let mut wrong = taker_data(0);
    wrong[8] ^= 1;
    assert_eq!(f.taker_interaction(&account(4), &wrong, &[7u8; 32], &extra), Err(FactoryError::InvalidProof));
    assert_eq!(f.taker_interaction(&account(4), &taker_data(0), &[7u8; 32], &extra), Ok(()));
    let key = create_validation_key(&[7u8; 32], &extract_root(&hashlock_info(4)));
    assert_eq!(f.get_validation_data(&key).unwrap().index, 1);
}

#[test]
fn single_shot_orders_use_the_hashlock_field() {
    let f = factory();
    let mut o = order(100);
    o.maker_traits.use_bit_invalidator = true;
    let info = [9u8; 32];
    let extra = extra_data(info, 10, &timelocks());
    let im = f.post_interaction(&o, &[7u8; 32], &account(1), 100, 100, &extra, 42).unwrap();
    assert_eq!(im.hashlock, info);
    assert_eq!(im.timelocks.deployed_at, 42);
}

#[test]
fn post_interaction_errors() {
    let f = factory();
    let extra = extra_data(hashlock_info(4), 10, &timelocks());
    let mut bad = order(100);
    bad.making_amount = 0;
    assert_eq!(f.post_interaction(&bad, &[7u8; 32], &account(1), 25, 100, &extra, 0).err(), Some(FactoryError::InvalidOrder));
    assert_eq!(f.post_interaction(&order(100), &[7u8; 32], &account(1), 25, 100, &extra[..64], 0).err(), Some(FactoryError::InvalidExtraData));
    let one_part = extra_data(hashlock_info(1), 10, &timelocks());
    assert_eq!(f.post_interaction(&order(100), &[7u8; 32], &account(1), 25, 100, &one_part, 0).err(), Some(FactoryError::InvalidSecretsAmount));
    assert_eq!(f.post_interaction(&order(100), &[7u8; 32], &account(1), 25, 100, &extra, 0).err(), Some(FactoryError::InvalidPartialFill));
}

#[test]
fn base_escrow_factory_contract_test_new() {
    let contract = factory();
    assert_eq!(contract.get_limit_order_protocol(), account(4));
    assert_eq!(contract.get_fee_token(), account(2));
    assert_eq!(contract.get_access_token(), account(2));
    assert_eq!(contract.get_owner(), account(3));
    assert_eq!(contract.get_rescue_delay_src(), 3600);
    assert_eq!(contract.get_rescue_delay_dst(), 7200);
    assert_eq!(contract.get_escrow_src_implementation(), account(1));
    assert_eq!(contract.get_escrow_dst_implementation(), account(5));
}

#[test]
fn ordering_rule_values() {
    assert_eq!(validate_partial_fill(25, 100, 100, 4, 1), Ok(true));
    assert_eq!(validate_partial_fill(25, 100, 100, 4, 2), Ok(false));
    assert_eq!(validate_partial_fill(25, 75, 100, 4, 2), Ok(true));
    assert_eq!(validate_partial_fill(50, 75, 100, 4, 3), Ok(true));
    assert_eq!(validate_partial_fill(25, 25, 100, 4, 5), Ok(true));
    assert_eq!(validate_partial_fill(25, 25, 100, 4, 4), Ok(false));
    assert_eq!(validate_partial_fill(10, 90, 100, 4, 1), Ok(false));
    assert_eq!(validate_partial_fill(1, 3, 3, 4, 2), Ok(true));
    assert_eq!(validate_partial_fill(25, 100, 100, 1, 1), Err(EscrowError::InvalidSecretsAmount));
}

#[test]
fn fixed_part_rule_values() {
    assert!(is_valid_partial_fill(25, 75, 100, 4, 0));
    assert!(is_valid_partial_fill(50, 50, 100, 4, 1));
    assert!(!is_valid_partial_fill(25, 70, 100, 4, 0));
    assert!(!is_valid_partial_fill(25, 75, 100, 1, 0));
}

#[test]
fn taker_data_layout() {
    assert_eq!(parse_taker_data(&[0u8; 39]).err(), Some(InvalidatorError::InvalidExtraData));
    let mut bytes = taker_data(5);
    bytes.extend_from_slice(&[1u8; 20]);
    let d = parse_taker_data(&bytes).unwrap();
    assert_eq!(d.idx, 5);
    assert_eq!(d.secret_hash, leaves()[5]);
    assert_eq!(d.proof, proof_for(5));
    assert_eq!(extract_post_interaction_data(&[1, 2, 3]), Err(InvalidatorError::InvalidExtension));
    assert_eq!(extract_post_interaction_data(&[1, 2, 3, 4]), Ok(&[1u8, 2, 3, 4][..]));
}

#[test]
fn hashlock_field_layout() {
    let info = hashlock_info(0x0104);
    assert_eq!(extract_parts_amount(&info), 0x0104);
    let r = extract_root(&info);
    assert_eq!(&r[..2], &[0, 0]);
    assert_eq!(&r[2..], &root()[2..]);
}

#[test]
fn extra_data_decoding() {
    let extra = extra_data([1u8; 32], 77, &timelocks());
    let args = parse_extra_data_args(&extra).unwrap();
    assert_eq!(args.hashlock_info, [1u8; 32]);
    assert_eq!(args.deposits, U256::from(77));
    assert_eq!(args.timelocks, timelocks());
    assert_eq!(parse_extra_data_args(&extra[..127]).err(), Some(FactoryError::InvalidExtraData));
    let mut wide = extra.clone();
    wide[60] = 1;
    assert_eq!(parse_extra_data_args(&wide).err(), Some(FactoryError::InvalidExtraData));
}

#[test]
fn test_order_validation() {
    let valid_order = order(1000);
    assert!(validate_order(&valid_order));
    let mut invalid_order = valid_order.clone();
    invalid_order.making_amount = 0;
    invalid_order.taking_amount = 0;
    assert!(!validate_order(&invalid_order));
    assert!(allow_multiple_fills(&MakerTraits::default()));
}

#[test]
fn immutables_from_order() {
    let im = create_immutables(&order(100), [7u8; 32], [8u8; 32], account(1), 60, 5, timelocks());
    assert_eq!(im.maker, account(0));
    assert_eq!(im.token, account(2));
    assert_eq!(im.amount, 60);
}

fn dst_immutables(token: &str) -> Immutables {
    Immutables {
        order_hash: [1u8; 32],
        hashlock: [2u8; 32],
        maker: account(0),
        taker: account(1),
        token: token.to_string(),
        amount: 1000,
        safety_deposit: 100,
        timelocks: timelocks(),
    }
}

#[test]
fn escrow_factory_test_new() {
    let contract = EscrowFactory::new(account(2), account(3), [1u8; 32], [2u8; 32]);
    assert_eq!(contract.get_escrow_src_implementation(), account(2));
    assert_eq!(contract.get_escrow_dst_implementation(), account(3));
    assert_eq!(contract.get_proxy_src_bytecode_hash(), [1u8; 32]);
    assert_eq!(contract.get_proxy_dst_bytecode_hash(), [2u8; 32]);
}

#[test]
fn destination_escrow_creation() {
    let f = EscrowFactory::new(account(2), account(3), [1u8; 32], [2u8; 32]);
    let token = dst_immutables("danny");
    assert_eq!(f.create_dst_escrow(&token, 2000, 99, 1000).err(), Some(EscrowError::InsufficientEscrowBalance));
    let (im, salt) = f.create_dst_escrow(&token, 2000, 100, 1000).unwrap();
    assert_eq!(im.timelocks.deployed_at, 1000);
    assert_eq!(salt, cross_chain_swap::escrow::hash_immutables(&im));
    assert_eq!(f.create_dst_escrow(&token, 1249, 100, 1000).err(), Some(EscrowError::InvalidCreationTime));
    let native = dst_immutables("near");
    assert_eq!(f.create_dst_escrow(&native, 2000, 100, 1000).err(), Some(EscrowError::InsufficientEscrowBalance));
    assert!(f.create_dst_escrow(&native, 2000, 1100, 1000).is_ok());
}

#[test]
fn fee_arithmetic() {
    assert_eq!(calculate_fee_amount(10000, 30), 30);
    assert_eq!(calculate_fee_amount(999, 10), 0);
    assert_eq!(calculate_fee_amount(u128::MAX, 2), u128::MAX / 10000);
    let config = FeeConfig { fee_amount: 30, fee_receiver: account(3), custom_receiver: false };
    assert!(is_fee_applicable(&config));
    assert_eq!(split_fee(100, &config), Ok((70, 30)));
    assert_eq!(split_fee(30, &config), Err(FeeTakerError::InvalidAmount));
    assert_eq!(validate_fee_config(&config, &account(1)), Err(FeeTakerError::InconsistentFee));
    assert_eq!(validate_fee_config(&config, &account(3)), Ok(()));
}

#[test]
fn fee_config_decoding() {
    assert_eq!(parse_fee_config(&[0u8; 31], account(3)).err(), Some(FeeTakerError::InvalidAmount));
    let mut ext = 500u128.to_le_bytes().to_vec();
    ext.push(1);
    ext.extend_from_slice(&[0u8; 15]);
    let c = parse_fee_config(&ext, account(3)).unwrap();
    assert_eq!(c.fee_amount, 500);
    assert!(c.custom_receiver);
    assert_eq!(c.fee_receiver, account(3));
}

#[test]
fn error_names() {
    assert_eq!(FactoryError::InvalidPartialFill.as_ref(), "InvalidPartialFill");
    assert_eq!(InvalidatorError::InvalidProof.as_ref(), "InvalidProof");
    assert_eq!(EscrowError::TimelockExpired.as_ref(), "TimelockExpired");
    assert_eq!(FeeTakerError::InconsistentFee.as_ref(), "InconsistentFee");
    assert_eq!(
        cross_chain_swap::orders::LimitOrderError::MismatchArraysLengths.as_ref(),
        "MismatchArraysLengths"
    );
}

#[test]
fn zero_defaults() {
    let v = ValidationData::default();
    assert_eq!((v.leaf, v.index), ([0u8; 32], 0));
    let d = cross_chain_swap::merkle::TakerData::default();
    assert_eq!((d.idx, d.secret_hash, d.proof.len()), (0, [0u8; 32], 0));
    assert_eq!(U256::default(), U256::from(0));
    let a = cross_chain_swap::factory::ExtraDataArgs::default();
    assert_eq!(a.timelocks, Timelocks::default());
    assert_eq!(Timelocks::default().get(cross_chain_swap::timelocks::TimelockStage::DstCancellation), 0);
}

#[test]
fn validated_index_never_goes_down() {
    let mut inv = MerkleStorageInvalidator::new(account(4));
    assert_eq!(inv.taker_interaction(&account(4), &[0u8; 4], &[7u8; 32], &root(), &taker_data(5)), Ok(()));
    assert_eq!(
        inv.taker_interaction(&account(4), &[0u8; 4], &[7u8; 32], &root(), &taker_data(1)),
        Err(InvalidatorError::InvalidPartialFill)
    );
    assert_eq!(
        inv.taker_interaction(&account(4), &[0u8; 4], &[7u8; 32], &root(), &taker_data(5)),
        Err(InvalidatorError::InvalidPartialFill)
    );
    let key = create_validation_key(&[7u8; 32], &root());
    assert_eq!(inv.get_last_validated(&key).unwrap().index, 6);
    assert_eq!(inv.taker_interaction(&account(4), &[0u8; 4], &[7u8; 32], &root(), &taker_data(6)), Ok(()));
    assert_eq!(inv.get_last_validated(&key).unwrap().index, 7);

    let mut f = factory();
    let extra = extra_data(hashlock_info(4), 10, &timelocks());
    assert_eq!(f.taker_interaction(&account(4), &taker_data(3), &[7u8; 32], &extra), Ok(()));
    assert_eq!(
        f.taker_interaction(&account(4), &taker_data(2), &[7u8; 32], &extra),
        Err(FactoryError::InvalidPartialFill)
    );
}

#[test]
fn largest_index_is_rejected_not_assumed_away() {
    let mut data = taker_data(0);
    data[..8].copy_from_slice(&u64::MAX.to_le_bytes());
    let mut inv = MerkleStorageInvalidator::new(account(4));
    assert_eq!(
        inv.taker_interaction(&account(0), &[0u8; 4], &[7u8; 32], &root(), &data),
        Err(InvalidatorError::AccessDenied)
    );
    assert_eq!(
        inv.taker_interaction(&account(4), &[0u8; 4], &[7u8; 32], &root(), &data),
        Err(InvalidatorError::InvalidProof)
    );
    let mut valid = taker_data(7);
    valid[..8].copy_from_slice(&u64::MAX.to_le_bytes());
    assert_eq!(
        inv.taker_interaction(&account(4), &[0u8; 4], &[7u8; 32], &root(), &valid),
        Err(InvalidatorError::InvalidPartialFill)
    );
    assert_eq!(validate_partial_fill(0, 0, 0, 1, 0), Err(EscrowError::InvalidSecretsAmount));
    assert!(!is_valid_partial_fill(1, 0, u128::MAX, 1, u64::MAX));
}
