use cross_chain_swap::invalidator::{BitInvalidatorData, OrderMixin, RemainingInvalidator};
use cross_chain_swap::orders::{
    calculate_making_amount, calculate_taking_amount, get_receiver, hash_extension,
    hash_maker_traits, hash_order, validate_extension, validate_order_amounts, Extension,
    LimitOrderError, MakerTraits, Order, OrderLib, TakerTraits,
};

fn account(i: usize) -> String {
    ["alice", "bob", "charlie", "danny", "eugene", "fargo"][i].to_string()
}

fn create_test_order() -> Order {
    Order {
        salt: 12345,
        maker: account(0),
        receiver: account(1),
        maker_asset: account(2),
        taker_asset: account(3),
        making_amount: 1000,
        taking_amount: 1000,
        maker_traits: MakerTraits::default(),
    }
}

fn bit_traits(nonce: u64) -> MakerTraits {
    MakerTraits { use_bit_invalidator: true, nonce_or_epoch: nonce, ..MakerTraits::default() }
}

#[test]
fn test_maker_traits_functionality() {
    let mut traits = MakerTraits::default();
    assert!(!traits.use_bit_invalidator());
    assert!(!traits.use_epoch_manager());
    assert!(!traits.has_extension());
    assert_eq!(traits.nonce_or_epoch(), 0);
    assert_eq!(traits.series(), 0);

    traits.use_bit_invalidator = true;
    traits.use_epoch_manager = true;
    traits.has_extension = true;
    traits.nonce_or_epoch = 123;
    traits.series = 456;

    assert!(traits.use_bit_invalidator());
    assert!(traits.use_epoch_manager());
    assert!(traits.has_extension());
    assert_eq!(traits.nonce_or_epoch(), 123);
    assert_eq!(traits.series(), 456);
}

#[test]
fn test_taker_traits_functionality() {
    let mut traits = TakerTraits::default();
    assert!(!traits.allow_multiple_fills());
    assert!(!traits.allow_partial_fill());
    assert!(!traits.allow_expired_orders());
    assert!(!traits.allow_private_orders());

    traits.allow_multiple_fills = true;
    traits.allow_partial_fill = true;
    traits.allow_expired_orders = true;
    traits.allow_private_orders = true;

    assert!(traits.allow_multiple_fills());
    assert!(traits.allow_partial_fill());
    assert!(traits.allow_expired_orders());
    assert!(traits.allow_private_orders());
}

#[test]
fn order_lib_test_new() {
    let contract = OrderLib::new([0u8; 32]);
    assert_eq!(contract.get_domain_separator(), [0u8; 32]);
}

#[test]
fn test_hash_order() {
    let contract = OrderLib::new([0u8; 32]);
    let order = create_test_order();
    let hash = contract.hash_order(&order);
    assert_eq!(hash.len(), 32);
    assert_eq!(hash, hash_order(&order, &[0u8; 32]));
}

#[test]
fn test_get_receiver() {
    let contract = OrderLib::new([0u8; 32]);
    let order = create_test_order();
    assert_eq!(contract.get_receiver(&order), account(1));
}

#[test]
fn zero_receiver_means_maker() {
    let mut order = create_test_order();
    order.receiver = "0x0000000000000000000000000000000000000000".to_string();
    assert_eq!(get_receiver(&order), account(0));
}

#[test]
fn test_validate_extension() {
    let contract = OrderLib::new([0u8; 32]);
    let order = create_test_order();
    let extension = Extension::empty();
    assert!(contract.validate_extension(&order, &extension).is_ok());
}

#[test]
fn test_extension_functionality() {
    let extension = Extension::empty();
    assert!(extension.maker_amount_data.is_empty());
    assert!(extension.taker_amount_data.is_empty());
    assert!(extension.permit_data.is_empty());
    assert!(extension.pre_interaction_data.is_empty());
    assert!(extension.post_interaction_data.is_empty());
    assert_eq!(validate_extension(&create_test_order(), &extension), Ok(true));
}

#[test]
fn extension_errors() {
    let mut order = create_test_order();
    let mut extension = Extension::empty();
    extension.predicate_data = vec![1, 2, 3];
    assert_eq!(
        validate_extension(&order, &extension),
        Err(LimitOrderError::UnexpectedOrderExtension)
    );
    order.maker_traits.has_extension = true;
    assert_eq!(
        validate_extension(&order, &Extension::empty()),
        Err(LimitOrderError::MissingOrderExtension)
    );
    assert_eq!(validate_extension(&order, &extension), Err(LimitOrderError::InvalidExtensionHash));
    let h = hash_extension(&extension);
    order.salt = u64::from_le_bytes([h[0], h[1], h[2], h[3], h[4], h[5], h[6], h[7]]);
    assert_eq!(validate_extension(&order, &extension), Ok(true));
}

#[test]
fn test_order_hash_calculation() {
    let order = create_test_order();
    let hash = hash_order(&order, &[1u8; 32]);
    assert_eq!(hash.len(), 32);
    assert_eq!(hash, hash_order(&order, &[1u8; 32]));
    assert_ne!(hash, hash_order(&order, &[2u8; 32]));
    let mut other = order.clone();
    other.maker_traits.series = 1;
    assert_ne!(hash, hash_order(&other, &[1u8; 32]));
    assert_ne!(hash_maker_traits(&order.maker_traits), hash_maker_traits(&other.maker_traits));
}

#[test]
fn test_order_amount_calculations() {
    let order = create_test_order();
    let e = Extension::empty();
    assert_eq!(calculate_making_amount(&order, &e, order.taking_amount, 1000, &[0u8; 32]), Ok(order.taking_amount));
    assert_eq!(calculate_taking_amount(&order, &e, order.making_amount, 1000, &[0u8; 32]), Ok(order.making_amount));
}

#[test]
fn amounts_follow_the_order_rate() {
    let mut order = create_test_order();
    order.making_amount = 300;
    order.taking_amount = 200;
    let e = Extension::empty();
    assert_eq!(calculate_making_amount(&order, &e, 50, 300, &[0u8; 32]), Ok(75));
    assert_eq!(calculate_taking_amount(&order, &e, 75, 300, &[0u8; 32]), Ok(50));
    order.taking_amount = 0;
    assert_eq!(calculate_making_amount(&order, &e, 50, 300, &[0u8; 32]), Err(LimitOrderError::SwapWithZeroAmount));
    let mut with_getter = Extension::empty();
    with_getter.maker_amount_data = vec![1];
    assert_eq!(calculate_making_amount(&order, &with_getter, 50, 300, &[0u8; 32]), Ok(50));
}

#[test]
fn order_amounts_validation() {
    let order = create_test_order();
    assert!(validate_order_amounts(&order, order.taking_amount));
    assert!(!validate_order_amounts(&order, 0));
    assert!(!validate_order_amounts(&order, 1001));
}

#[test]
fn process_order_returns_making_amount() {
    let lib = OrderLib::new([0u8; 32]);
    let order = create_test_order();
    assert_eq!(lib.process_order(&order, &Extension::empty(), 400), Ok(400));
    assert_eq!(lib.process_order(&order, &Extension::empty(), 0), Err(LimitOrderError::SwapWithZeroAmount));
}

#[test]
fn bit_invalidator_data_slots() {
    let mut data = BitInvalidatorData::new();
    assert!(!data.check_slot(1));
    assert_eq!(data.mass_invalidate(256 + 17, 9), 9);
    assert!(data.check_slot(1));
    assert!(!data.check_slot(0));
    data.mass_invalidate(300, 0);
    assert_eq!(data.slots.len(), 1);
}

#[test]
fn remaining_invalidator_values() {
    assert_eq!(RemainingInvalidator::fully_filled().remaining(), 0);
    assert_eq!(RemainingInvalidator::new(55).remaining(), 55);
}

#[test]
fn order_mixin_test_new() {
    let contract = OrderMixin::new([1u8; 32], account(2));
    assert_eq!(contract.get_domain_separator(), [1u8; 32]);
    assert_eq!(contract.get_weth(), account(2));
    assert!(!contract.is_paused());
}

#[test]
fn order_mixin_test_pause_unpause() {
    let mut contract = OrderMixin::new([1u8; 32], account(2));
    contract.pause();
    assert!(contract.is_paused());
    contract.unpause();
    assert!(!contract.is_paused());
}

#[test]
fn order_mixin_test_cancel_order() {
    let mut contract = OrderMixin::new([1u8; 32], account(2));
    let order_hash = [1u8; 32];
    contract.cancel_order(&account(1), &MakerTraits::default(), &order_hash);
    assert_eq!(contract.remaining_invalidator_for_order(&account(1), &order_hash), 0);
    assert_eq!(contract.raw_remaining_invalidator_for_order(&account(1), &order_hash), Some(0));
}

#[test]
fn mixin_bit_invalidator_starts_clear() {
    let contract = OrderMixin::new([0u8; 32], account(1));
    assert!(!contract.bit_invalidator_for_order(&account(1), 0));
}

#[test]
fn large_orders_fill_in_small_parts() {
    let mut mixin = OrderMixin::new([0u8; 32], account(5));
    let mut order = create_test_order();
    order.making_amount = u128::MAX / 2;
    order.taking_amount = u128::MAX / 2;
    assert_eq!(mixin.fill_order(&order, &Extension::empty(), 2), Ok(2));
    assert_eq!(
        mixin.fill_order(&order, &Extension::empty(), u128::MAX / 4),
        Err(LimitOrderError::InvalidAmounts)
    );
}

#[test]
fn fill_checks_the_extension() {
    let mut mixin = OrderMixin::new([0u8; 32], account(5));
    let mut order = create_test_order();
    order.maker_traits.has_extension = true;
    assert_eq!(mixin.fill_order(&order, &Extension::empty(), 10), Err(LimitOrderError::MissingOrderExtension));
    let mut extension = Extension::empty();
    extension.predicate_data = vec![1];
    assert_eq!(mixin.fill_order(&order, &extension, 10), Err(LimitOrderError::InvalidExtensionHash));
    let plain = create_test_order();
    assert_eq!(mixin.fill_order(&plain, &extension, 10), Err(LimitOrderError::UnexpectedOrderExtension));
}

#[test]
fn mismatched_bulk_cancel_changes_nothing() {
    let mut mixin = OrderMixin::new([0u8; 32], account(5));
    let maker = account(0);
    assert!(mixin.cancel_orders(&maker, &vec![MakerTraits::default()], &vec![]).is_err());
    assert_eq!(mixin.raw_remaining_invalidator_for_order(&maker, &[0u8; 32]), None);
}

#[test]
fn cancelled_slot_invalidates_every_nonce_in_it() {
    let mut mixin = OrderMixin::new([0u8; 32], account(5));
    let maker = account(0);
    mixin.cancel_order(&maker, &bit_traits(0x305), &[0u8; 32]);
    for nonce in [0x300u64, 0x301, 0x3ff] {
        let mut order = create_test_order();
        order.maker_traits = bit_traits(nonce);
        assert!(mixin.is_order_invalidated(&order, &[9u8; 32]));
        assert_eq!(mixin.fill_order(&order, &Extension::empty(), 10), Err(LimitOrderError::InvalidatedOrder));
    }
    let mut outside = create_test_order();
    outside.maker_traits = bit_traits(0x400);
    assert!(!mixin.is_order_invalidated(&outside, &[9u8; 32]));
    let mut other_maker = create_test_order();
    other_maker.maker = account(1);
    other_maker.maker_traits = bit_traits(0x300);
    assert!(!mixin.is_order_invalidated(&other_maker, &[9u8; 32]));
    mixin.cancel_order(&maker, &MakerTraits::default(), &[3u8; 32]);
    let mut order = create_test_order();
    order.maker_traits = bit_traits(0x3aa);
    assert!(mixin.is_order_invalidated(&order, &[9u8; 32]));
}

#[test]
fn remaining_amount_fills_decrease_until_exhausted() {
    let mut mixin = OrderMixin::new([0u8; 32], account(5));
    let order = create_test_order();
    let hash = hash_order(&order, &[0u8; 32]);
    assert!(!mixin.is_order_invalidated(&order, &hash));
    assert_eq!(mixin.raw_remaining_invalidator_for_order(&order.maker, &hash), None);
    assert_eq!(mixin.fill_order(&order, &Extension::empty(), 400), Ok(400));
    assert_eq!(mixin.remaining_invalidator_for_order(&order.maker, &hash), 600);
    assert_eq!(mixin.fill_order(&order, &Extension::empty(), 700), Err(LimitOrderError::TakingAmountExceeded));
    assert_eq!(mixin.fill_order(&order, &Extension::empty(), 600), Ok(600));
    assert_eq!(mixin.remaining_invalidator_for_order(&order.maker, &hash), 0);
    assert!(mixin.is_order_invalidated(&order, &hash));
    assert_eq!(mixin.fill_order(&order, &Extension::empty(), 1), Err(LimitOrderError::InvalidatedOrder));
}

#[test]
fn fill_rejections() {
    let mut mixin = OrderMixin::new([0u8; 32], account(5));
    let order = create_test_order();
    assert_eq!(mixin.fill_order(&order, &Extension::empty(), 0), Err(LimitOrderError::SwapWithZeroAmount));
    assert_eq!(mixin.fill_order(&order, &Extension::empty(), 1001), Err(LimitOrderError::TakingAmountExceeded));
    mixin.pause();
    assert_eq!(mixin.fill_order(&order, &Extension::empty(), 10), Err(LimitOrderError::ContractPaused));
}

#[test]
fn cancelled_order_cannot_be_filled() {
    let mut mixin = OrderMixin::new([0u8; 32], account(5));
    let order = create_test_order();
    let hash = hash_order(&order, &[0u8; 32]);
    mixin.cancel_order(&order.maker, &order.maker_traits, &hash);
    assert!(mixin.is_order_invalidated(&order, &hash));
    assert_eq!(mixin.fill_order(&order, &Extension::empty(), 10), Err(LimitOrderError::InvalidatedOrder));
}

#[test]
fn cancel_orders_requires_equal_lengths() {
    let mut mixin = OrderMixin::new([0u8; 32], account(5));
    let maker = account(0);
    assert_eq!(
        mixin.cancel_orders(&maker, &vec![MakerTraits::default()], &vec![]),
        Err(LimitOrderError::MismatchArraysLengths)
    );
    assert_eq!(
        mixin.cancel_orders(&maker, &vec![MakerTraits::default(), bit_traits(0x1234)], &vec![[4u8; 32], [5u8; 32]]),
        Ok(())
    );
    assert_eq!(mixin.raw_remaining_invalidator_for_order(&maker, &[4u8; 32]), Some(0));
    assert!(mixin.bit_invalidator_for_order(&maker, 0x12));
}
