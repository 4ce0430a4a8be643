//! Limit orders: their traits, extensions, digests and amount arithmetic.
use vstd::prelude::*;
use vstd::utf8::encode_utf8;
use crate::bytes::{append_bytes, append_le_u128, append_le_u64, bytes_eq, le_u128, le_u64, read_le_u64};
use crate::hashing::{keccak256, keccak256_of};

verus! {

/// Flags and slot selectors a maker attaches to an order.
#[derive(Clone, Copy, Debug, PartialEq, Eq, Structural)]
pub struct MakerTraits {
    pub use_bit_invalidator: bool,
    pub use_epoch_manager: bool,
    pub has_extension: bool,
    pub nonce_or_epoch: u64,
    pub series: u64,
}

impl Default for MakerTraits {
    fn default() -> (r: Self)
        ensures
            r == (MakerTraits {
                use_bit_invalidator: false,
                use_epoch_manager: false,
                has_extension: false,
                nonce_or_epoch: 0,
                series: 0,
            }),
    {
        MakerTraits {
            use_bit_invalidator: false,
            use_epoch_manager: false,
            has_extension: false,
            nonce_or_epoch: 0,
            series: 0,
        }
    }
}

impl MakerTraits {
    pub fn use_bit_invalidator(&self) -> (r: bool)
        ensures
            r == self.use_bit_invalidator,
    {
        self.use_bit_invalidator
    }

    pub fn use_epoch_manager(&self) -> (r: bool)
        ensures
            r == self.use_epoch_manager,
    {
        self.use_epoch_manager
    }

    pub fn has_extension(&self) -> (r: bool)
        ensures
            r == self.has_extension,
    {
        self.has_extension
    }

    pub fn nonce_or_epoch(&self) -> (r: u64)
        ensures
            r == self.nonce_or_epoch,
    {
        self.nonce_or_epoch
    }

    pub fn series(&self) -> (r: u64)
        ensures
            r == self.series,
    {
        self.series
    }
}

/// Flags a taker attaches to a fill.
#[derive(Clone, Copy, Debug, PartialEq, Eq, Structural)]
pub struct TakerTraits {
    pub allow_multiple_fills: bool,
    pub allow_partial_fill: bool,
    pub allow_expired_orders: bool,
    pub allow_private_orders: bool,
}

impl Default for TakerTraits {
    fn default() -> (r: Self)
        ensures
            r == (TakerTraits {
                allow_multiple_fills: false,
                allow_partial_fill: false,
                allow_expired_orders: false,
                allow_private_orders: false,
            }),
    {
        TakerTraits {
            allow_multiple_fills: false,
            allow_partial_fill: false,
            allow_expired_orders: false,
            allow_private_orders: false,
        }
    }
}

impl TakerTraits {
    pub fn allow_multiple_fills(&self) -> (r: bool)
        ensures
            r == self.allow_multiple_fills,
    {
        self.allow_multiple_fills
    }

    pub fn allow_partial_fill(&self) -> (r: bool)
        ensures
            r == self.allow_partial_fill,
    {
        self.allow_partial_fill
    }

    pub fn allow_expired_orders(&self) -> (r: bool)
        ensures
            r == self.allow_expired_orders,
    {
        self.allow_expired_orders
    }

    pub fn allow_private_orders(&self) -> (r: bool)
        ensures
            r == self.allow_private_orders,
    {
        self.allow_private_orders
    }
}

/// A limit order, as signed by its maker.
#[derive(Clone, Debug)]
pub struct Order {
    pub salt: u64,
    pub maker: String,
    pub receiver: String,
    pub maker_asset: String,
    pub taker_asset: String,
    pub making_amount: u128,
    pub taking_amount: u128,
    pub maker_traits: MakerTraits,
}

/// Optional data attached to an order.
#[derive(Clone, Debug)]
pub struct Extension {
    pub maker_amount_data: Vec<u8>,
    pub taker_amount_data: Vec<u8>,
    pub predicate_data: Vec<u8>,
    pub permit_data: Vec<u8>,
    pub pre_interaction_data: Vec<u8>,
    pub post_interaction_data: Vec<u8>,
}

impl Extension {
    /// An extension with every part empty.
    pub fn empty() -> (r: Self)
        ensures
            extension_is_empty(r),
    {
        Extension {
            maker_amount_data: Vec::new(),
            taker_amount_data: Vec::new(),
            predicate_data: Vec::new(),
            permit_data: Vec::new(),
            pre_interaction_data: Vec::new(),
            post_interaction_data: Vec::new(),
        }
    }

    pub fn maker_amount_data(&self) -> (r: &[u8])
        ensures
            r@ == self.maker_amount_data@,
    {
        self.maker_amount_data.as_slice()
    }

    pub fn taker_amount_data(&self) -> (r: &[u8])
        ensures
            r@ == self.taker_amount_data@,
    {
        self.taker_amount_data.as_slice()
    }

    pub fn predicate_data(&self) -> (r: &[u8])
        ensures
            r@ == self.predicate_data@,
    {
        self.predicate_data.as_slice()
    }

    pub fn permit_data(&self) -> (r: &[u8])
        ensures
            r@ == self.permit_data@,
    {
        self.permit_data.as_slice()
    }

    pub fn pre_interaction_data(&self) -> (r: &[u8])
        ensures
            r@ == self.pre_interaction_data@,
    {
        self.pre_interaction_data.as_slice()
    }

    pub fn post_interaction_data(&self) -> (r: &[u8])
        ensures
            r@ == self.post_interaction_data@,
    {
        self.post_interaction_data.as_slice()
    }
}

/// Why a limit-order operation was rejected.
#[derive(Clone, Copy, Debug, PartialEq, Eq, Structural)]
pub enum LimitOrderError {
    InvalidatedOrder,
    TakingAmountExceeded,
    PrivateOrder,
    InvalidSignature,
    OrderExpired,
    WrongSeriesNonce,
    SwapWithZeroAmount,
    PartialFillNotAllowed,
    OrderIsNotSuitableForMassInvalidation,
    EpochManagerAndBitInvalidatorsAreIncompatible,
    ReentrancyDetected,
    PredicateIsNotTrue,
    TakingAmountTooHigh,
    MakingAmountTooLow,
    TransferFromMakerToTakerFailed,
    TransferFromTakerToMakerFailed,
    MismatchArraysLengths,
    InvalidPermit2Transfer,
    MissingOrderExtension,
    UnexpectedOrderExtension,
    InvalidExtensionHash,
    ContractPaused,
    OrderInvalidated,
    InvalidAmounts,
    InvalidExtension,
}

impl LimitOrderError {
    /// The name of the error.
    pub open spec fn name(&self) -> Seq<char> {
        match self {
            LimitOrderError::InvalidatedOrder => "InvalidatedOrder"@,
            LimitOrderError::TakingAmountExceeded => "TakingAmountExceeded"@,
            LimitOrderError::PrivateOrder => "PrivateOrder"@,
            LimitOrderError::InvalidSignature => "InvalidSignature"@,
            LimitOrderError::OrderExpired => "OrderExpired"@,
            LimitOrderError::WrongSeriesNonce => "WrongSeriesNonce"@,
            LimitOrderError::SwapWithZeroAmount => "SwapWithZeroAmount"@,
            LimitOrderError::PartialFillNotAllowed => "PartialFillNotAllowed"@,
            LimitOrderError::OrderIsNotSuitableForMassInvalidation => "OrderIsNotSuitableForMassInvalidation"@,
            LimitOrderError::EpochManagerAndBitInvalidatorsAreIncompatible => "EpochManagerAndBitInvalidatorsAreIncompatible"@,
            LimitOrderError::ReentrancyDetected => "ReentrancyDetected"@,
            LimitOrderError::PredicateIsNotTrue => "PredicateIsNotTrue"@,
            LimitOrderError::TakingAmountTooHigh => "TakingAmountTooHigh"@,
            LimitOrderError::MakingAmountTooLow => "MakingAmountTooLow"@,
            LimitOrderError::TransferFromMakerToTakerFailed => "TransferFromMakerToTakerFailed"@,
            LimitOrderError::TransferFromTakerToMakerFailed => "TransferFromTakerToMakerFailed"@,
            LimitOrderError::MismatchArraysLengths => "MismatchArraysLengths"@,
            LimitOrderError::InvalidPermit2Transfer => "InvalidPermit2Transfer"@,
            LimitOrderError::MissingOrderExtension => "MissingOrderExtension"@,
            LimitOrderError::UnexpectedOrderExtension => "UnexpectedOrderExtension"@,
            LimitOrderError::InvalidExtensionHash => "InvalidExtensionHash"@,
            LimitOrderError::ContractPaused => "ContractPaused"@,
            LimitOrderError::OrderInvalidated => "OrderInvalidated"@,
            LimitOrderError::InvalidAmounts => "InvalidAmounts"@,
            LimitOrderError::InvalidExtension => "InvalidExtension"@,
        }
    }

    /// The name of the error.
    pub fn as_ref(&self) -> (r: &'static str)
        ensures
            r@ == self.name(),
    {
        match self {
            LimitOrderError::InvalidatedOrder => "InvalidatedOrder",
            LimitOrderError::TakingAmountExceeded => "TakingAmountExceeded",
            LimitOrderError::PrivateOrder => "PrivateOrder",
            LimitOrderError::InvalidSignature => "InvalidSignature",
            LimitOrderError::OrderExpired => "OrderExpired",
            LimitOrderError::WrongSeriesNonce => "WrongSeriesNonce",
            LimitOrderError::SwapWithZeroAmount => "SwapWithZeroAmount",
            LimitOrderError::PartialFillNotAllowed => "PartialFillNotAllowed",
            LimitOrderError::OrderIsNotSuitableForMassInvalidation => "OrderIsNotSuitableForMassInvalidation",
            LimitOrderError::EpochManagerAndBitInvalidatorsAreIncompatible => "EpochManagerAndBitInvalidatorsAreIncompatible",
            LimitOrderError::ReentrancyDetected => "ReentrancyDetected",
            LimitOrderError::PredicateIsNotTrue => "PredicateIsNotTrue",
            LimitOrderError::TakingAmountTooHigh => "TakingAmountTooHigh",
            LimitOrderError::MakingAmountTooLow => "MakingAmountTooLow",
            LimitOrderError::TransferFromMakerToTakerFailed => "TransferFromMakerToTakerFailed",
            LimitOrderError::TransferFromTakerToMakerFailed => "TransferFromTakerToMakerFailed",
            LimitOrderError::MismatchArraysLengths => "MismatchArraysLengths",
            LimitOrderError::InvalidPermit2Transfer => "InvalidPermit2Transfer",
            LimitOrderError::MissingOrderExtension => "MissingOrderExtension",
            LimitOrderError::UnexpectedOrderExtension => "UnexpectedOrderExtension",
            LimitOrderError::InvalidExtensionHash => "InvalidExtensionHash",
            LimitOrderError::ContractPaused => "ContractPaused",
            LimitOrderError::OrderInvalidated => "OrderInvalidated",
            LimitOrderError::InvalidAmounts => "InvalidAmounts",
            LimitOrderError::InvalidExtension => "InvalidExtension",
        }
    }
}


/// The bytes of an account identifier.
pub open spec fn id_bytes(id: String) -> Seq<u8> {
    encode_utf8(id@)
}

fn append_id(out: &mut Vec<u8>, id: &String)
    ensures
        final(out)@ == old(out)@ + id_bytes(*id),
{
    append_bytes(out, id.as_str().as_bytes());
}

/// The byte encoding of maker traits that is hashed.
pub open spec fn maker_traits_bytes(t: MakerTraits) -> Seq<u8> {
    seq![
        if t.use_bit_invalidator { 1u8 } else { 0u8 },
        if t.use_epoch_manager { 1u8 } else { 0u8 },
        if t.has_extension { 1u8 } else { 0u8 },
    ] + le_u64(t.nonce_or_epoch) + le_u64(t.series)
}

/// Hashes maker traits.
pub fn hash_maker_traits(traits: &MakerTraits) -> (r: [u8; 32])
    ensures
        r@ == keccak256_of(maker_traits_bytes(*traits)),
{
    let mut data: Vec<u8> = Vec::new();
    data.push(if traits.use_bit_invalidator { 1u8 } else { 0u8 });
    data.push(if traits.use_epoch_manager { 1u8 } else { 0u8 });
    data.push(if traits.has_extension { 1u8 } else { 0u8 });
    append_le_u64(&mut data, traits.nonce_or_epoch);
    append_le_u64(&mut data, traits.series);
    assert(data@ =~= maker_traits_bytes(*traits));
    keccak256(data.as_slice())
}

/// The byte encoding of an order under a domain separator that is hashed.
pub open spec fn order_bytes(order: Order, domain_separator: Seq<u8>) -> Seq<u8> {
    domain_separator + le_u64(order.salt) + id_bytes(order.maker) + id_bytes(order.receiver)
        + id_bytes(order.maker_asset) + id_bytes(order.taker_asset) + le_u128(order.making_amount)
        + le_u128(order.taking_amount) + keccak256_of(maker_traits_bytes(order.maker_traits))
}

/// The order hash: the digest of the order's encoding.
pub open spec fn order_hash_of(order: Order, domain_separator: Seq<u8>) -> Seq<u8> {
    keccak256_of(order_bytes(order, domain_separator))
}

/// Computes the hash of an order under a domain separator.
pub fn hash_order(order: &Order, domain_separator: &[u8; 32]) -> (r: [u8; 32])
    ensures
        r@ == order_hash_of(*order, domain_separator@),
{
    let mut data: Vec<u8> = Vec::new();
    append_bytes(&mut data, domain_separator.as_slice());
    append_le_u64(&mut data, order.salt);
    append_id(&mut data, &order.maker);
    append_id(&mut data, &order.receiver);
    append_id(&mut data, &order.maker_asset);
    append_id(&mut data, &order.taker_asset);
    append_le_u128(&mut data, order.making_amount);
    append_le_u128(&mut data, order.taking_amount);
    let traits_hash = hash_maker_traits(&order.maker_traits);
    append_bytes(&mut data, traits_hash.as_slice());
    assert(data@ =~= order_bytes(*order, domain_separator@));
    keccak256(data.as_slice())
}

/// Whether every part of an extension is empty.
pub open spec fn extension_is_empty(e: Extension) -> bool {
    &&& e.maker_amount_data@.len() == 0
    &&& e.taker_amount_data@.len() == 0
    &&& e.predicate_data@.len() == 0
    &&& e.permit_data@.len() == 0
    &&& e.pre_interaction_data@.len() == 0
    &&& e.post_interaction_data@.len() == 0
}

/// The parts of an extension, one after the other.
pub open spec fn extension_bytes(e: Extension) -> Seq<u8> {
    e.maker_amount_data@ + e.taker_amount_data@ + e.predicate_data@ + e.permit_data@
        + e.pre_interaction_data@ + e.post_interaction_data@
}

/// Hashes an extension.
pub fn hash_extension(extension: &Extension) -> (r: [u8; 32])
    ensures
        r@ == keccak256_of(extension_bytes(*extension)),
{
    let mut data: Vec<u8> = Vec::new();
    append_bytes(&mut data, extension.maker_amount_data());
    append_bytes(&mut data, extension.taker_amount_data());
    append_bytes(&mut data, extension.predicate_data());
    append_bytes(&mut data, extension.permit_data());
    append_bytes(&mut data, extension.pre_interaction_data());
    append_bytes(&mut data, extension.post_interaction_data());
    assert(data@ =~= extension_bytes(*extension));
    keccak256(data.as_slice())
}

/// The error, if any, with which an order's extension is rejected: an order
/// that declares an extension needs a non-empty one whose hash starts with
/// the order's salt; an order that declares none must carry an empty one.
pub open spec fn extension_error(order: Order, e: Extension) -> Option<LimitOrderError> {
    if order.maker_traits.has_extension {
        if extension_is_empty(e) {
            Some(LimitOrderError::MissingOrderExtension)
        } else if read_le_u64(keccak256_of(extension_bytes(e)), 0) != order.salt {
            Some(LimitOrderError::InvalidExtensionHash)
        } else {
            None
        }
    } else if !extension_is_empty(e) {
        Some(LimitOrderError::UnexpectedOrderExtension)
    } else {
        None
    }
}

/// Checks an order's extension.
pub fn validate_extension(order: &Order, extension: &Extension) -> (r: Result<bool, LimitOrderError>)
    ensures
        match extension_error(*order, *extension) {
            Some(e) => r == Err::<bool, LimitOrderError>(e),
            None => r == Ok::<bool, LimitOrderError>(true),
        },
{
    let empty = extension.maker_amount_data().is_empty() && extension.taker_amount_data().is_empty()
        && extension.predicate_data().is_empty() && extension.permit_data().is_empty()
        && extension.pre_interaction_data().is_empty()
        && extension.post_interaction_data().is_empty();
    if order.maker_traits.has_extension() {
        if empty {
            return Err(LimitOrderError::MissingOrderExtension);
        }
        let extension_hash = hash_extension(extension);
        let hash_lower = crate::bytes::load_le_u64(extension_hash.as_slice(), 0);
        if hash_lower != order.salt {
            return Err(LimitOrderError::InvalidExtensionHash);
        }
    } else {
        if !empty {
            return Err(LimitOrderError::UnexpectedOrderExtension);
        }
    }
    Ok(true)
}

/// The making amount for a requested taking amount: proportional to the
/// order's rate when the extension carries no amount getter, else the
/// requested amount itself.
pub open spec fn making_amount_for(order: Order, e: Extension, requested_taking_amount: u128) -> Result<u128, LimitOrderError> {
    if e.maker_amount_data@.len() == 0 {
        if order.taking_amount == 0 {
            Err(LimitOrderError::SwapWithZeroAmount)
        } else {
            Ok(((order.making_amount * requested_taking_amount) / order.taking_amount as int) as u128)
        }
    } else {
        Ok(requested_taking_amount)
    }
}

/// The taking amount for a requested making amount, symmetric to
/// `making_amount_for`.
pub open spec fn taking_amount_for(order: Order, e: Extension, requested_making_amount: u128) -> Result<u128, LimitOrderError> {
    if e.taker_amount_data@.len() == 0 {
        if order.making_amount == 0 {
            Err(LimitOrderError::SwapWithZeroAmount)
        } else {
            Ok(((order.taking_amount * requested_making_amount) / order.making_amount as int) as u128)
        }
    } else {
        Ok(requested_making_amount)
    }
}

/// Whether the making amount for `requested_taking_amount` would be computed
/// from a product that does not fit in 128 bits.
pub open spec fn rate_overflows(order: Order, e: Extension, requested_taking_amount: u128) -> bool {
    e.maker_amount_data@.len() == 0 && order.taking_amount != 0 && order.making_amount
        * requested_taking_amount > u128::MAX
}

/// Checks `rate_overflows`.
pub fn check_rate_overflows(order: &Order, extension: &Extension, requested_taking_amount: u128) -> (r: bool)
    ensures
        r == rate_overflows(*order, *extension, requested_taking_amount),
{
    extension.maker_amount_data().is_empty() && order.taking_amount != 0
        && order.making_amount.checked_mul(requested_taking_amount).is_none()
}

/// Computes `making_amount_for`.
pub fn calculate_making_amount(
    order: &Order,
    extension: &Extension,
    requested_taking_amount: u128,
    _remaining_making_amount: u128,
    _order_hash: &[u8; 32],
) -> (r: Result<u128, LimitOrderError>)
    requires
        extension.maker_amount_data@.len() == 0 && order.taking_amount != 0 ==> order.making_amount
            * requested_taking_amount <= u128::MAX,
    ensures
        r == making_amount_for(*order, *extension, requested_taking_amount),
{
    if extension.maker_amount_data().is_empty() {
        if order.taking_amount == 0 {
            return Err(LimitOrderError::SwapWithZeroAmount);
        }
        return Ok((order.making_amount * requested_taking_amount) / order.taking_amount);
    }
    Ok(requested_taking_amount)
}

/// Computes `taking_amount_for`.
pub fn calculate_taking_amount(
    order: &Order,
    extension: &Extension,
    requested_making_amount: u128,
    _remaining_making_amount: u128,
    _order_hash: &[u8; 32],
) -> (r: Result<u128, LimitOrderError>)
    requires
        extension.taker_amount_data@.len() == 0 && order.making_amount != 0 ==> order.taking_amount
            * requested_making_amount <= u128::MAX,
    ensures
        r == taking_amount_for(*order, *extension, requested_making_amount),
{
    if extension.taker_amount_data().is_empty() {
        if order.making_amount == 0 {
            return Err(LimitOrderError::SwapWithZeroAmount);
        }
        return Ok((order.taking_amount * requested_making_amount) / order.making_amount);
    }
    Ok(requested_making_amount)
}

/// The receiver an order names in place of the maker to mean "the maker".
pub const ZERO_ADDRESS: &'static str = "0x0000000000000000000000000000000000000000";

/// Who receives the taker's asset: the order's receiver, or the maker when
/// the receiver is the zero address.
pub fn get_receiver(order: &Order) -> (r: String)
    ensures
        id_bytes(order.receiver) == encode_utf8(ZERO_ADDRESS@) ==> r == order.maker,
        id_bytes(order.receiver) != encode_utf8(ZERO_ADDRESS@) ==> r == order.receiver,
{
    if bytes_eq(order.receiver.as_str().as_bytes(), ZERO_ADDRESS.as_bytes()) {
        order.maker.clone()
    } else {
        order.receiver.clone()
    }
}

/// Whether a fill may take `taking_amount`: a positive amount within the
/// order's taking amount.
pub fn validate_order_amounts(order: &Order, taking_amount: u128) -> (r: bool)
    ensures
        r == (taking_amount != 0 && taking_amount <= order.taking_amount),
{
    taking_amount != 0 && taking_amount <= order.taking_amount
}

/// Order processing under one domain separator.
pub struct OrderLib {
    pub domain_separator: [u8; 32],
}

impl OrderLib {
    pub fn new(domain_separator: [u8; 32]) -> (r: Self)
        ensures
            r.domain_separator == domain_separator,
    {
        OrderLib { domain_separator }
    }

    pub fn get_domain_separator(&self) -> (r: [u8; 32])
        ensures
            r == self.domain_separator,
    {
        self.domain_separator
    }

    pub fn hash_order(&self, order: &Order) -> (r: [u8; 32])
        ensures
            r@ == order_hash_of(*order, self.domain_separator@),
    {
        hash_order(order, &self.domain_separator)
    }

    pub fn get_receiver(&self, order: &Order) -> (r: String)
        ensures
            id_bytes(order.receiver) == encode_utf8(ZERO_ADDRESS@) ==> r == order.maker,
            id_bytes(order.receiver) != encode_utf8(ZERO_ADDRESS@) ==> r == order.receiver,
    {
        get_receiver(order)
    }

    pub fn validate_extension(&self, order: &Order, extension: &Extension) -> (r: Result<bool, LimitOrderError>)
        ensures
            match extension_error(*order, *extension) {
                Some(e) => r == Err::<bool, LimitOrderError>(e),
                None => r == Ok::<bool, LimitOrderError>(true),
            },
    {
        validate_extension(order, extension)
    }

    /// Decides a fill of `taking_amount`: the making amount the maker owes
    /// the taker, once the amount and the extension are checked. The two
    /// transfers of the swap are the caller's to perform.
    pub fn process_order(&self, order: &Order, extension: &Extension, taking_amount: u128) -> (r: Result<u128, LimitOrderError>)
        ensures
            taking_amount == 0 ==> r == Err::<u128, LimitOrderError>(LimitOrderError::SwapWithZeroAmount),
            taking_amount != 0 && rate_overflows(*order, *extension, taking_amount) ==> r == Err::<
                u128,
                LimitOrderError,
            >(LimitOrderError::InvalidAmounts),
            taking_amount != 0 && !rate_overflows(*order, *extension, taking_amount) ==> r == (
            match making_amount_for(*order, *extension, taking_amount) {
                Err(e) => Err(e),
                Ok(m) => match extension_error(*order, *extension) {
                    Some(e) => Err(e),
                    None => Ok(m),
                },
            }),
    {
        if taking_amount == 0 {
            return Err(LimitOrderError::SwapWithZeroAmount);
        }
        if check_rate_overflows(order, extension, taking_amount) {
            return Err(LimitOrderError::InvalidAmounts);
        }
        let order_hash = self.hash_order(order);
        let making_amount = match calculate_making_amount(order, extension, taking_amount, order.making_amount, &order_hash) {
            Ok(m) => m,
            Err(e) => return Err(e),
        };
        match self.validate_extension(order, extension) {
            Ok(_) => {},
            Err(e) => return Err(e),
        }
        Ok(making_amount)
    }
}

} // verus!
