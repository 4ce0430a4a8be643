//! Escrow factories: derive the immutables of each leg from an order and a
//! fill, resolving the hashlock of orders that are filled in parts.
use vstd::prelude::*;
use crate::bytes::{bytes_eq, bytes_to_vec, load_bytes32, load_le_u128, load_le_u64, read_le_u128, read_le_u64};
use crate::escrow::{escrow_salt_of, hash_immutables, EscrowError, Immutables};
use crate::hashing::{create_validation_key, validation_key_of};
use crate::merkle::{
    advances, check_advances, indices_never_decrease, extract_parts_amount, extract_root, merkle_root, nodes_of, parse_taker_data,
    partial_fill_ok, process_merkle_proof, proof_nodes, shortened, taker_data_of,
    validate_partial_fill, TakerData, ValidationData,
};
use crate::orders::{id_bytes, MakerTraits, Order};
use vstd::utf8::encode_utf8;
use crate::store::ByteMap;
use crate::timelocks::Timelocks;

verus! {

/// An unsigned amount as carried in extra data.
#[derive(Clone, Copy, Debug, PartialEq, Eq, Structural)]
pub struct U256 {
    pub value: u128,
}

impl Default for U256 {
    fn default() -> (r: Self)
        ensures
            r.value == 0,
    {
        U256 { value: 0 }
    }
}

impl From<u128> for U256 {
    fn from(value: u128) -> (r: Self) {
        U256 { value }
    }
}

impl vstd::std_specs::convert::FromSpecImpl<u128> for U256 {
    open spec fn obeys_from_spec() -> bool {
        true
    }

    open spec fn from_spec(v: u128) -> Self {
        U256 { value: v }
    }
}

/// The arguments of escrow creation that an order's extension carries.
#[derive(Clone, Copy, Debug)]
pub struct ExtraDataArgs {
    pub hashlock_info: [u8; 32],
    pub deposits: U256,
    pub timelocks: Timelocks,
}

impl Default for ExtraDataArgs {
    fn default() -> (r: Self)
        ensures
            r.hashlock_info@ == Seq::new(32, |i: int| 0u8),
            r.deposits.value == 0,
            r.timelocks == Timelocks::default_spec(),
    {
        let r = ExtraDataArgs {
            hashlock_info: [0u8; 32],
            deposits: U256 { value: 0 },
            timelocks: Timelocks::default(),
        };
        assert(r.hashlock_info@ =~= Seq::new(32, |i: int| 0u8));
        r
    }
}

/// Why a factory operation was rejected.
#[derive(Clone, Copy, Debug, PartialEq, Eq, Structural)]
pub enum FactoryError {
    InvalidOrder,
    InvalidExtension,
    InvalidExtraData,
    InvalidSecretsAmount,
    InvalidPartialFill,
    TransferFailed,
    InvalidAmount,
    OnlyOwner,
    InvalidAccessToken,
    AccessDenied,
    InvalidProof,
}

impl FactoryError {
    /// The name of the error.
    pub open spec fn name(&self) -> Seq<char> {
        match self {
            FactoryError::InvalidOrder => "InvalidOrder"@,
            FactoryError::InvalidExtension => "InvalidExtension"@,
            FactoryError::InvalidExtraData => "InvalidExtraData"@,
            FactoryError::InvalidSecretsAmount => "InvalidSecretsAmount"@,
            FactoryError::InvalidPartialFill => "InvalidPartialFill"@,
            FactoryError::TransferFailed => "TransferFailed"@,
            FactoryError::InvalidAmount => "InvalidAmount"@,
            FactoryError::OnlyOwner => "OnlyOwner"@,
            FactoryError::InvalidAccessToken => "InvalidAccessToken"@,
            FactoryError::AccessDenied => "AccessDenied"@,
            FactoryError::InvalidProof => "InvalidProof"@,
        }
    }

    /// The name of the error.
    pub fn as_ref(&self) -> (r: &'static str)
        ensures
            r@ == self.name(),
    {
        match self {
            FactoryError::InvalidOrder => "InvalidOrder",
            FactoryError::InvalidExtension => "InvalidExtension",
            FactoryError::InvalidExtraData => "InvalidExtraData",
            FactoryError::InvalidSecretsAmount => "InvalidSecretsAmount",
            FactoryError::InvalidPartialFill => "InvalidPartialFill",
            FactoryError::TransferFailed => "TransferFailed",
            FactoryError::InvalidAmount => "InvalidAmount",
            FactoryError::OnlyOwner => "OnlyOwner",
            FactoryError::InvalidAccessToken => "InvalidAccessToken",
            FactoryError::AccessDenied => "AccessDenied",
            FactoryError::InvalidProof => "InvalidProof",
        }
    }
}


/// The length of encoded extra data.
pub const EXTRA_DATA_LEN: usize = 128;

/// The timelocks encoded as eight little-endian `u64` from offset `at`.
pub open spec fn timelocks_at(b: Seq<u8>, at: int) -> Timelocks {
    Timelocks {
        deployed_at: read_le_u64(b, at),
        src_withdrawal: read_le_u64(b, at + 8),
        src_public_withdrawal: read_le_u64(b, at + 16),
        src_cancellation: read_le_u64(b, at + 24),
        src_public_cancellation: read_le_u64(b, at + 32),
        dst_withdrawal: read_le_u64(b, at + 40),
        dst_public_withdrawal: read_le_u64(b, at + 48),
        dst_cancellation: read_le_u64(b, at + 56),
    }
}

/// Whether `b` is well-formed extra data: exactly 128 bytes, whose deposit
/// field (bytes 32 to 64) fits in 128 bits.
pub open spec fn extra_data_well_formed(b: Seq<u8>) -> bool {
    b.len() == EXTRA_DATA_LEN && read_le_u128(b, 48) == 0
}

/// Whether `a` is what well-formed extra data `b` encodes: the 32-byte
/// hashlock field, the deposit as a 32-byte little-endian amount, then the
/// timelocks.
pub open spec fn extra_data_of(a: ExtraDataArgs, b: Seq<u8>) -> bool {
    &&& a.hashlock_info@ == b.subrange(0, 32)
    &&& a.deposits.value == read_le_u128(b, 32)
    &&& a.timelocks == timelocks_at(b, 64)
}

/// Decodes the extra data of an order's extension.
pub fn parse_extra_data_args(extra_data: &[u8]) -> (r: Result<ExtraDataArgs, FactoryError>)
    ensures
        extra_data_well_formed(extra_data@) <==> r is Ok,
        !extra_data_well_formed(extra_data@) ==> r == Err::<ExtraDataArgs, FactoryError>(
            FactoryError::InvalidExtraData,
        ),
        r matches Ok(a) ==> extra_data_of(a, extra_data@),
{
    if extra_data.len() != EXTRA_DATA_LEN {
        return Err(FactoryError::InvalidExtraData);
    }
    if load_le_u128(extra_data, 48) != 0 {
        return Err(FactoryError::InvalidExtraData);
    }
    let hashlock_info = load_bytes32(extra_data, 0);
    let deposits = U256 { value: load_le_u128(extra_data, 32) };
    let timelocks = Timelocks {
        deployed_at: load_le_u64(extra_data, 64),
        src_withdrawal: load_le_u64(extra_data, 72),
        src_public_withdrawal: load_le_u64(extra_data, 80),
        src_cancellation: load_le_u64(extra_data, 88),
        src_public_cancellation: load_le_u64(extra_data, 96),
        dst_withdrawal: load_le_u64(extra_data, 104),
        dst_public_withdrawal: load_le_u64(extra_data, 112),
        dst_cancellation: load_le_u64(extra_data, 120),
    };
    Ok(ExtraDataArgs { hashlock_info, deposits, timelocks })
}

/// Whether an order is well formed: positive amounts and named parties.
pub open spec fn order_valid(order: Order) -> bool {
    &&& order.making_amount > 0
    &&& order.taking_amount > 0
    &&& order.maker@.len() > 0
    &&& order.receiver@.len() > 0
    &&& order.maker_asset@.len() > 0
    &&& order.taker_asset@.len() > 0
}

/// Checks that an order is well formed.
pub fn validate_order(order: &Order) -> (r: bool)
    ensures
        r == order_valid(*order),
{
    order.making_amount > 0 && order.taking_amount > 0 && !order.maker.as_str().is_empty()
        && !order.receiver.as_str().is_empty() && !order.maker_asset.as_str().is_empty()
        && !order.taker_asset.as_str().is_empty()
}

/// The immutables of the source leg of a fill.
pub fn create_immutables(
    order: &Order,
    order_hash: [u8; 32],
    hashlock: [u8; 32],
    taker: String,
    making_amount: u128,
    safety_deposit: u128,
    timelocks: Timelocks,
) -> (r: Immutables)
    ensures
        r.order_hash == order_hash,
        r.hashlock == hashlock,
        r.maker == order.maker,
        r.taker == taker,
        r.token == order.maker_asset,
        r.amount == making_amount,
        r.safety_deposit == safety_deposit,
        r.timelocks == timelocks,
{
    Immutables {
        order_hash,
        hashlock,
        maker: order.maker.clone(),
        taker,
        token: order.maker_asset.clone(),
        amount: making_amount,
        safety_deposit,
        timelocks,
    }
}

/// Whether an order may be filled in several parts: exactly when it does not
/// use the bit invalidator, which makes an order single-shot.
pub fn allow_multiple_fills(traits: &MakerTraits) -> (r: bool)
    ensures
        r == !traits.use_bit_invalidator,
{
    !traits.use_bit_invalidator()
}

/// Whether a fill is exactly the part after `validated_index` of an order of
/// `order_making_amount` split into `parts_amount` parts, and leaves the rest.
pub fn is_valid_partial_fill(
    making_amount: u128,
    remaining_making_amount: u128,
    order_making_amount: u128,
    parts_amount: u128,
    validated_index: u64,
) -> (r: bool)
    requires
        parts_amount >= 2 ==> order_making_amount * (validated_index + 1) <= u128::MAX,
    ensures
        r == (parts_amount >= 2 && making_amount == order_making_amount * (validated_index + 1)
            / parts_amount as int && making_amount <= order_making_amount && remaining_making_amount
            == order_making_amount - making_amount),
{
    if parts_amount < 2 {
        return false;
    }
    let expected = order_making_amount * (validated_index as u128 + 1) / parts_amount;
    making_amount == expected && making_amount <= order_making_amount && remaining_making_amount
        == order_making_amount - making_amount
}

/// Whether `parts` can be the part count of an order of `order_making_amount`:
/// at least two, and small enough that the ordering arithmetic of partial
/// fills stays within 128 bits.
pub open spec fn parts_amount_ok(parts: u128, order_making_amount: u128) -> bool {
    2 <= parts && order_making_amount * parts <= u128::MAX
}

/// The validation record stored under `key`, or the empty record.
pub open spec fn record_or_empty(validated: Map<Seq<u8>, ValidationData>, key: Seq<u8>) -> (u64, Seq<u8>) {
    if validated.contains_key(key) {
        (validated[key].index, validated[key].leaf@)
    } else {
        (0, Seq::new(32, |i: int| 0u8))
    }
}

/// The hashlock of the source leg of a fill. A single-shot order uses the
/// hashlock field as is. An order filled in parts uses the leaf last
/// validated for it under its root, provided the fill respects the ordering
/// rule against the recorded index.
pub open spec fn src_hashlock(
    validated: Map<Seq<u8>, ValidationData>,
    order: Order,
    order_hash: Seq<u8>,
    making_amount: u128,
    remaining_making_amount: u128,
    hashlock_info: Seq<u8>,
) -> Result<Seq<u8>, FactoryError> {
    if order.maker_traits.use_bit_invalidator {
        Ok(hashlock_info)
    } else {
        let parts = (hashlock_info[0] * 256 + hashlock_info[1]) as u128;
        if !parts_amount_ok(parts, order.making_amount) {
            Err(FactoryError::InvalidSecretsAmount)
        } else {
            let rec = record_or_empty(validated, validation_key_of(order_hash, shortened(hashlock_info)));
            if !(0 < making_amount <= remaining_making_amount <= order.making_amount)
                || !partial_fill_ok(
                making_amount as int,
                remaining_making_amount as int,
                order.making_amount as int,
                parts as int,
                rec.0 as int,
            ) {
                Err(FactoryError::InvalidPartialFill)
            } else {
                Ok(rec.1)
            }
        }
    }
}

/// A factory that creates source escrows for orders filled whole or in parts,
/// validating the secret of each part by a Merkle proof.
pub struct BaseEscrowFactory {
    pub limit_order_protocol: String,
    pub fee_token: String,
    pub access_token: String,
    pub owner: String,
    pub rescue_delay_src: u32,
    pub rescue_delay_dst: u32,
    pub escrow_src_implementation: String,
    pub escrow_dst_implementation: String,
    pub proxy_src_bytecode_hash: [u8; 32],
    pub proxy_dst_bytecode_hash: [u8; 32],
    /// Validation records, per validation key.
    pub validated_data: ByteMap<ValidationData>,
}

impl BaseEscrowFactory {
    /// A factory owned by `owner`, with no validation record.
    pub fn new(
        limit_order_protocol: String,
        fee_token: String,
        access_token: String,
        owner: String,
        rescue_delay_src: u32,
        rescue_delay_dst: u32,
        escrow_src_implementation: String,
        escrow_dst_implementation: String,
    ) -> (r: Self)
        ensures
            r.limit_order_protocol == limit_order_protocol,
            r.fee_token == fee_token,
            r.access_token == access_token,
            r.owner == owner,
            r.rescue_delay_src == rescue_delay_src,
            r.rescue_delay_dst == rescue_delay_dst,
            r.escrow_src_implementation == escrow_src_implementation,
            r.escrow_dst_implementation == escrow_dst_implementation,
            r.validated_data@ == Map::<Seq<u8>, ValidationData>::empty(),
    {
        BaseEscrowFactory {
            limit_order_protocol,
            fee_token,
            access_token,
            owner,
            rescue_delay_src,
            rescue_delay_dst,
            escrow_src_implementation,
            escrow_dst_implementation,
            proxy_src_bytecode_hash: [0u8; 32],
            proxy_dst_bytecode_hash: [0u8; 32],
            validated_data: ByteMap::new(),
        }
    }

    /// Resolves the hashlock of the source leg of a fill (see `src_hashlock`).
    fn resolve_hashlock(
        &self,
        order: &Order,
        order_hash: &[u8; 32],
        making_amount: u128,
        remaining_making_amount: u128,
        hashlock_info: &[u8; 32],
    ) -> (r: Result<[u8; 32], FactoryError>)
        ensures
            match src_hashlock(
                self.validated_data@,
                *order,
                order_hash@,
                making_amount,
                remaining_making_amount,
                hashlock_info@,
            ) {
                Ok(h) => r matches Ok(x) && x@ == h,
                Err(e) => r == Err::<[u8; 32], FactoryError>(e),
            },
    {
        if !allow_multiple_fills(&order.maker_traits) {
            return Ok(*hashlock_info);
        }
        let parts_amount = extract_parts_amount(hashlock_info);
        if parts_amount < 2 {
            return Err(FactoryError::InvalidSecretsAmount);
        }
        if order.making_amount.checked_mul(parts_amount).is_none() {
            return Err(FactoryError::InvalidSecretsAmount);
        }
        let root_shortened = extract_root(hashlock_info);
        let key = create_validation_key(order_hash, &root_shortened);
        let validated = match self.validated_data.get(key.as_slice()) {
            Some(v) => *v,
            None => ValidationData::empty(),
        };
        if !(0 < making_amount && making_amount <= remaining_making_amount
            && remaining_making_amount <= order.making_amount) {
            return Err(FactoryError::InvalidPartialFill);
        }
        match validate_partial_fill(
            making_amount,
            remaining_making_amount,
            order.making_amount,
            parts_amount as u64,
            validated.index,
        ) {
            Ok(true) => Ok(validated.leaf),
            _ => Err(FactoryError::InvalidPartialFill),
        }
    }

    /// Derives the immutables of the source escrow of a fill; deploying the
    /// escrow is the caller's to do. `now` is the deployment time.
    pub fn post_interaction(
        &self,
        order: &Order,
        order_hash: &[u8; 32],
        taker: &String,
        making_amount: u128,
        remaining_making_amount: u128,
        extra_data: &[u8],
        now: u64,
    ) -> (r: Result<Immutables, FactoryError>)
        ensures
            !order_valid(*order) ==> r == Err::<Immutables, FactoryError>(FactoryError::InvalidOrder),
            order_valid(*order) && !extra_data_well_formed(extra_data@) ==> r == Err::<
                Immutables,
                FactoryError,
            >(FactoryError::InvalidExtraData),
            order_valid(*order) && extra_data_well_formed(extra_data@) ==> match src_hashlock(
                self.validated_data@,
                *order,
                order_hash@,
                making_amount,
                remaining_making_amount,
                extra_data@.subrange(0, 32),
            ) {
                Err(e) => r == Err::<Immutables, FactoryError>(e),
                Ok(h) => r matches Ok(im) && {
                    &&& im.order_hash == *order_hash
                    &&& im.hashlock@ == h
                    &&& im.maker == order.maker
                    &&& im.taker == *taker
                    &&& im.token == order.maker_asset
                    &&& im.amount == making_amount
                    &&& im.safety_deposit == read_le_u128(extra_data@, 32)
                    &&& im.timelocks == (Timelocks { deployed_at: now, ..timelocks_at(extra_data@, 64) })
                },
            },
    {
        if !validate_order(order) {
            return Err(FactoryError::InvalidOrder);
        }
        let args = match parse_extra_data_args(extra_data) {
            Ok(a) => a,
            Err(e) => return Err(e),
        };
        let hashlock = match self.resolve_hashlock(
            order,
            order_hash,
            making_amount,
            remaining_making_amount,
            &args.hashlock_info,
        ) {
            Ok(h) => h,
            Err(e) => return Err(e),
        };
        let mut timelocks = args.timelocks;
        timelocks.set_deployed_at(now);
        Ok(
            create_immutables(
                order,
                *order_hash,
                hashlock,
                taker.clone(),
                making_amount,
                args.deposits.value,
                timelocks,
            ),
        )
    }

    /// The taker data an extension carries, in the layout `parse_taker_data`
    /// reads.
    pub fn extract_proof_data(&self, extension: &[u8]) -> (r: Result<TakerData, FactoryError>)
        ensures
            extension@.len() < 40 <==> r == Err::<TakerData, FactoryError>(
                FactoryError::InvalidExtension,
            ),
            extension@.len() >= 40 <==> r is Ok,
            r matches Ok(d) ==> taker_data_of(d, extension@),
    {
        match parse_taker_data(extension) {
            Ok(d) => Ok(d),
            Err(_) => Err(FactoryError::InvalidExtension),
        }
    }

    /// Validates the secret a taker presents for one part of an order filled
    /// in parts, and records it with the index the next part must present.
    /// Only the limit order protocol may call this.
    pub fn taker_interaction(
        &mut self,
        caller: &String,
        extension: &[u8],
        order_hash: &[u8; 32],
        extra_data: &[u8],
    ) -> (r: Result<(), FactoryError>)
        ensures
            ({
                let root = shortened(extra_data@.subrange(0, 32));
                let key = validation_key_of(order_hash@, root);
                let leaf = extension@.subrange(8, 40);
                let idx = read_le_u64(extension@, 0);
                let err = if caller@ != old(self).limit_order_protocol@ {
                    Some(FactoryError::AccessDenied)
                } else if !extra_data_well_formed(extra_data@) {
                    Some(FactoryError::InvalidExtraData)
                } else if extension@.len() < 40 {
                    Some(FactoryError::InvalidExtension)
                } else if shortened(merkle_root(proof_nodes(extension@), leaf, idx)) != root {
                    Some(FactoryError::InvalidProof)
                } else if !advances(old(self).validated_data@, key, idx) {
                    Some(FactoryError::InvalidPartialFill)
                } else {
                    None::<FactoryError>
                };
                match r {
                    Ok(()) => {
                        &&& err is None
                        &&& final(self).validated_data@ == old(self).validated_data@.insert(
                            key,
                            final(self).validated_data@[key],
                        )
                        &&& final(self).validated_data@[key].leaf@ == leaf
                        &&& final(self).validated_data@[key].index == idx + 1
                    },
                    Err(e) => err == Some(e) && final(self).validated_data@ == old(
                        self,
                    ).validated_data@,
                }
            }),
            final(self).limit_order_protocol == old(self).limit_order_protocol,
            indices_never_decrease(old(self).validated_data@, final(self).validated_data@),
    {
        if *caller != self.limit_order_protocol {
            return Err(FactoryError::AccessDenied);
        }
        let args = match parse_extra_data_args(extra_data) {
            Ok(a) => a,
            Err(e) => return Err(e),
        };
        let proof_data = match self.extract_proof_data(extension) {
            Ok(d) => d,
            Err(e) => return Err(e),
        };
        assert(nodes_of(proof_data.proof@) == proof_nodes(extension@));
        let root_shortened = extract_root(&args.hashlock_info);
        let key = create_validation_key(order_hash, &root_shortened);
        let computed = match process_merkle_proof(
            proof_data.proof.as_slice(),
            proof_data.secret_hash,
            proof_data.idx,
        ) {
            Ok(c) => c,
            Err(_) => return Err(FactoryError::InvalidProof),
        };
        let computed_shortened = extract_root(&computed);
        if !bytes_eq(computed_shortened.as_slice(), root_shortened.as_slice()) {
            return Err(FactoryError::InvalidProof);
        }
        if !check_advances(&self.validated_data, &key, proof_data.idx) {
            return Err(FactoryError::InvalidPartialFill);
        }
        let record = ValidationData { leaf: proof_data.secret_hash, index: proof_data.idx + 1 };
        self.validated_data.insert(bytes_to_vec(key.as_slice()), record);
        Ok(())
    }

    /// The validation record stored under `key`.
    pub fn get_validation_data(&self, key: &[u8; 32]) -> (r: Option<ValidationData>)
        ensures
            match r {
                Some(v) => self.validated_data@.contains_key(key@) && v == self.validated_data@[key@],
                None => !self.validated_data@.contains_key(key@),
            },
    {
        match self.validated_data.get(key.as_slice()) {
            Some(v) => Some(*v),
            None => None,
        }
    }

    pub fn get_limit_order_protocol(&self) -> (r: String)
        ensures
            r == self.limit_order_protocol,
    {
        self.limit_order_protocol.clone()
    }

    pub fn get_fee_token(&self) -> (r: String)
        ensures
            r == self.fee_token,
    {
        self.fee_token.clone()
    }

    pub fn get_access_token(&self) -> (r: String)
        ensures
            r == self.access_token,
    {
        self.access_token.clone()
    }

    pub fn get_owner(&self) -> (r: String)
        ensures
            r == self.owner,
    {
        self.owner.clone()
    }

    pub fn get_rescue_delay_src(&self) -> (r: u32)
        ensures
            r == self.rescue_delay_src,
    {
        self.rescue_delay_src
    }

    pub fn get_rescue_delay_dst(&self) -> (r: u32)
        ensures
            r == self.rescue_delay_dst,
    {
        self.rescue_delay_dst
    }

    pub fn get_escrow_src_implementation(&self) -> (r: String)
        ensures
            r == self.escrow_src_implementation,
    {
        self.escrow_src_implementation.clone()
    }

    pub fn get_escrow_dst_implementation(&self) -> (r: String)
        ensures
            r == self.escrow_dst_implementation,
    {
        self.escrow_dst_implementation.clone()
    }
}

/// The token name that stands for the ledger's native currency.
pub const NATIVE_TOKEN: &'static str = "near";

/// The native amount that must come with the creation of a destination
/// escrow: the safety deposit, plus the amount itself when the leg's token is
/// the native currency.
pub open spec fn dst_native_amount(im: Immutables) -> int {
    if id_bytes(im.token) == encode_utf8(NATIVE_TOKEN@) {
        im.safety_deposit + im.amount
    } else {
        im.safety_deposit as int
    }
}

/// Creates destination escrows.
pub struct EscrowFactory {
    pub escrow_src_implementation: String,
    pub escrow_dst_implementation: String,
    pub proxy_src_bytecode_hash: [u8; 32],
    pub proxy_dst_bytecode_hash: [u8; 32],
}

impl EscrowFactory {
    pub fn new(
        escrow_src_implementation: String,
        escrow_dst_implementation: String,
        proxy_src_bytecode_hash: [u8; 32],
        proxy_dst_bytecode_hash: [u8; 32],
    ) -> (r: Self)
        ensures
            r.escrow_src_implementation == escrow_src_implementation,
            r.escrow_dst_implementation == escrow_dst_implementation,
            r.proxy_src_bytecode_hash == proxy_src_bytecode_hash,
            r.proxy_dst_bytecode_hash == proxy_dst_bytecode_hash,
    {
        EscrowFactory {
            escrow_src_implementation,
            escrow_dst_implementation,
            proxy_src_bytecode_hash,
            proxy_dst_bytecode_hash,
        }
    }

    /// Decides the creation of a destination escrow at time `now`, funded
    /// with `attached_deposit` of native currency: the funding must match
    /// `dst_native_amount`, and the leg's cancellation must not start after
    /// `src_cancellation_timestamp`, the start of cancellation on the source
    /// leg. Returns the leg's immutables, deployed now, and the salt that
    /// addresses its escrow.
    pub fn create_dst_escrow(
        &self,
        dst_immutables: &Immutables,
        src_cancellation_timestamp: u64,
        attached_deposit: u128,
        now: u64,
    ) -> (r: Result<(Immutables, [u8; 32]), EscrowError>)
        ensures
            attached_deposit != dst_native_amount(*dst_immutables) ==> r == Err::<
                (Immutables, [u8; 32]),
                EscrowError,
            >(EscrowError::InsufficientEscrowBalance),
            attached_deposit == dst_native_amount(*dst_immutables) && now
                + dst_immutables.timelocks.dst_cancellation > src_cancellation_timestamp ==> r
                == Err::<(Immutables, [u8; 32]), EscrowError>(EscrowError::InvalidCreationTime),
            attached_deposit == dst_native_amount(*dst_immutables) && now
                + dst_immutables.timelocks.dst_cancellation <= src_cancellation_timestamp ==> (r matches Ok(
                p,
            ) && {
                let im = p.0;
                &&& im.order_hash == dst_immutables.order_hash
                &&& im.hashlock == dst_immutables.hashlock
                &&& im.maker == dst_immutables.maker
                &&& im.taker == dst_immutables.taker
                &&& im.token == dst_immutables.token
                &&& im.amount == dst_immutables.amount
                &&& im.safety_deposit == dst_immutables.safety_deposit
                &&& im.timelocks == (Timelocks { deployed_at: now, ..dst_immutables.timelocks })
                &&& p.1@ == escrow_salt_of(im)
            }),
    {
        let native = crate::bytes::bytes_eq(dst_immutables.token.as_str().as_bytes(), NATIVE_TOKEN.as_bytes());
        let native_amount = if native {
            dst_immutables.safety_deposit.checked_add(dst_immutables.amount)
        } else {
            Some(dst_immutables.safety_deposit)
        };
        match native_amount {
            Some(n) => {
                if attached_deposit != n {
                    return Err(EscrowError::InsufficientEscrowBalance);
                }
            },
            None => return Err(EscrowError::InsufficientEscrowBalance),
        }
        let mut timelocks = dst_immutables.timelocks;
        timelocks.set_deployed_at(now);
        match now.checked_add(timelocks.dst_cancellation) {
            Some(dst_cancellation_start) => {
                if dst_cancellation_start > src_cancellation_timestamp {
                    return Err(EscrowError::InvalidCreationTime);
                }
            },
            None => return Err(EscrowError::InvalidCreationTime),
        }
        let immutables = Immutables {
            order_hash: dst_immutables.order_hash,
            hashlock: dst_immutables.hashlock,
            maker: dst_immutables.maker.clone(),
            taker: dst_immutables.taker.clone(),
            token: dst_immutables.token.clone(),
            amount: dst_immutables.amount,
            safety_deposit: dst_immutables.safety_deposit,
            timelocks,
        };
        let salt = hash_immutables(&immutables);
        Ok((immutables, salt))
    }

    pub fn get_escrow_src_implementation(&self) -> (r: String)
        ensures
            r == self.escrow_src_implementation,
    {
        self.escrow_src_implementation.clone()
    }

    pub fn get_escrow_dst_implementation(&self) -> (r: String)
        ensures
            r == self.escrow_dst_implementation,
    {
        self.escrow_dst_implementation.clone()
    }

    pub fn get_proxy_src_bytecode_hash(&self) -> (r: [u8; 32])
        ensures
            r == self.proxy_src_bytecode_hash,
    {
        self.proxy_src_bytecode_hash
    }

    pub fn get_proxy_dst_bytecode_hash(&self) -> (r: [u8; 32])
        ensures
            r == self.proxy_dst_bytecode_hash,
    {
        self.proxy_dst_bytecode_hash
    }
}

} // verus!
