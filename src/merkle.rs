//! Merkle multi-secret validation: one secret per part of an order that may
//! be filled in several steps.
use vstd::prelude::*;
use crate::bytes::{bytes_to_vec, load_bytes32, load_le_u64, read_le_u64};
use crate::escrow::EscrowError;
use crate::hashing::{create_validation_key, hash_pair, pair_hash_of, validation_key_of};
use crate::store::ByteMap;
use vstd::arithmetic::div_mod::{
    lemma_div_is_ordered_by_denominator, lemma_div_multiples_vanish, lemma_mod_multiples_basic,
};

verus! {

/// The last validated leaf of an order under a root, and the index that the
/// next fill is expected to present.
#[derive(Clone, Copy, Debug)]
pub struct ValidationData {
    pub leaf: [u8; 32],
    pub index: u64,
}

impl ValidationData {
    /// The record of an order that was never validated.
    pub fn empty() -> (r: Self)
        ensures
            r.index == 0,
            r.leaf@ == Seq::new(32, |i: int| 0u8),
    {
        let r = ValidationData { leaf: [0u8; 32], index: 0 };
        assert(r.leaf@ =~= Seq::new(32, |i: int| 0u8));
        r
    }
}

impl Default for ValidationData {
    fn default() -> (r: Self)
        ensures
            r.index == 0,
            r.leaf@ == Seq::new(32, |i: int| 0u8),
    {
        ValidationData::empty()
    }
}

/// What a taker presents to unlock one part: the leaf index, the secret's
/// hash, and the proof that the hash is that leaf.
#[derive(Clone, Debug)]
pub struct TakerData {
    pub idx: u64,
    pub secret_hash: [u8; 32],
    pub proof: Vec<[u8; 32]>,
}

impl Default for TakerData {
    fn default() -> (r: Self)
        ensures
            r.idx == 0,
            r.secret_hash@ == Seq::new(32, |i: int| 0u8),
            r.proof@.len() == 0,
    {
        let r = TakerData { idx: 0, secret_hash: [0u8; 32], proof: Vec::new() };
        assert(r.secret_hash@ =~= Seq::new(32, |i: int| 0u8));
        r
    }
}

/// Why a Merkle validation was rejected.
#[derive(Clone, Copy, Debug, PartialEq, Eq, Structural)]
pub enum InvalidatorError {
    AccessDenied,
    InvalidProof,
    InvalidExtension,
    InvalidExtraData,
    InvalidPartialFill,
}

impl InvalidatorError {
    /// The name of the error.
    pub open spec fn name(&self) -> Seq<char> {
        match self {
            InvalidatorError::AccessDenied => "AccessDenied"@,
            InvalidatorError::InvalidProof => "InvalidProof"@,
            InvalidatorError::InvalidExtension => "InvalidExtension"@,
            InvalidatorError::InvalidExtraData => "InvalidExtraData"@,
            InvalidatorError::InvalidPartialFill => "InvalidPartialFill"@,
        }
    }

    /// The name of the error.
    pub fn as_ref(&self) -> (r: &'static str)
        ensures
            r@ == self.name(),
    {
        match self {
            InvalidatorError::AccessDenied => "AccessDenied",
            InvalidatorError::InvalidProof => "InvalidProof",
            InvalidatorError::InvalidExtension => "InvalidExtension",
            InvalidatorError::InvalidExtraData => "InvalidExtraData",
            InvalidatorError::InvalidPartialFill => "InvalidPartialFill",
        }
    }
}


/// Bit `i` of `index`; bits past the width of the index are zero.
pub open spec fn index_bit(index: u64, i: int) -> u64 {
    if 0 <= i < 64 {
        (index >> (i as u64)) & 1u64
    } else {
        0
    }
}

/// The node reached from `leaf` after the first `n` levels of `proof`: at
/// level `i` the current node is the left child when bit `i` of `index` is
/// zero, the right child otherwise.
pub open spec fn merkle_node(proof: Seq<Seq<u8>>, leaf: Seq<u8>, index: u64, n: nat) -> Seq<u8>
    decreases n,
{
    if n == 0 {
        leaf
    } else {
        let cur = merkle_node(proof, leaf, index, (n - 1) as nat);
        let sibling = proof[n - 1];
        if index_bit(index, n - 1) == 0 {
            pair_hash_of(cur, sibling)
        } else {
            pair_hash_of(sibling, cur)
        }
    }
}

/// The root that `proof` reconstructs from `leaf` at `index`.
pub open spec fn merkle_root(proof: Seq<Seq<u8>>, leaf: Seq<u8>, index: u64) -> Seq<u8> {
    merkle_node(proof, leaf, index, proof.len())
}

/// The bytes of each node of a proof.
pub open spec fn nodes_of(proof: Seq<[u8; 32]>) -> Seq<Seq<u8>> {
    proof.map_values(|a: [u8; 32]| a@)
}

/// Reconstructs the root from a leaf, its index and the proof.
pub fn process_merkle_proof(proof: &[[u8; 32]], leaf: [u8; 32], index: u64) -> (r: Result<
    [u8; 32],
    InvalidatorError,
>)
    ensures
        r matches Ok(root) && root@ == merkle_root(nodes_of(proof@), leaf@, index),
{
    let mut current = leaf;
    let mut i: usize = 0;
    while i < proof.len()
        invariant
            i <= proof@.len(),
            current@ == merkle_node(nodes_of(proof@), leaf@, index, i as nat),
        decreases proof@.len() - i,
    {
        let bit: u64 = if i < 64 {
            (index >> (i as u64)) & 1u64
        } else {
            0
        };
        if bit == 0 {
            current = hash_pair(&current, &proof[i]);
        } else {
            current = hash_pair(&proof[i], &current);
        }
        i = i + 1;
    }
    Ok(current)
}

/// Whether `proof` shows that `leaf` sits at `index` under `root`.
pub fn validate_merkle_proof(proof: &[[u8; 32]], leaf: [u8; 32], index: u64, root: [u8; 32]) -> (r:
    bool)
    ensures
        r == (merkle_root(nodes_of(proof@), leaf@, index) == root@),
{
    match process_merkle_proof(proof, leaf, index) {
        Ok(computed) => crate::bytes::bytes_eq(computed.as_slice(), root.as_slice()),
        Err(_) => false,
    }
}

/// The layout of taker data: an 8-byte little-endian index, the 32-byte
/// secret hash, then the proof as whole 32-byte nodes (a trailing partial
/// node is ignored).
pub open spec fn taker_data_of(d: TakerData, bytes: Seq<u8>) -> bool {
    &&& d.idx == read_le_u64(bytes, 0)
    &&& d.secret_hash@ == bytes.subrange(8, 40)
    &&& nodes_of(d.proof@) == proof_nodes(bytes)
}

/// The proof nodes that taker data carries after its first 40 bytes.
pub open spec fn proof_nodes(bytes: Seq<u8>) -> Seq<Seq<u8>> {
    Seq::new(
        ((bytes.len() - 40) / 32) as nat,
        |k: int| bytes.subrange(40 + 32 * k, 72 + 32 * k),
    )
}

/// Decodes taker data.
pub fn parse_taker_data(extra_data: &[u8]) -> (r: Result<TakerData, InvalidatorError>)
    ensures
        extra_data@.len() < 40 <==> r == Err::<TakerData, InvalidatorError>(
            InvalidatorError::InvalidExtraData,
        ),
        extra_data@.len() >= 40 <==> r is Ok,
        r matches Ok(d) ==> taker_data_of(d, extra_data@),
{
    if extra_data.len() < 40 {
        return Err(InvalidatorError::InvalidExtraData);
    }
    let idx = load_le_u64(extra_data, 0);
    let secret_hash = load_bytes32(extra_data, 8);
    let count: usize = (extra_data.len() - 40) / 32;
    let mut proof: Vec<[u8; 32]> = Vec::new();
    let mut k: usize = 0;
    while k < count
        invariant
            count == (extra_data@.len() - 40) / 32,
            extra_data@.len() >= 40,
            k <= count,
            proof@.len() == k,
            forall|j: int|
                0 <= j < k ==> #[trigger] proof@[j]@ == extra_data@.subrange(40 + 32 * j, 72 + 32 * j),
        decreases count - k,
    {
        let len = extra_data.len();
        assert(40 + 32 * k + 32 <= len) by (nonlinear_arith)
            requires
                k < count,
                count == (len - 40) / 32,
                len >= 40,
        ;
        let node = load_bytes32(extra_data, 40 + 32 * k);
        proof.push(node);
        k = k + 1;
    }
    assert(nodes_of(proof@) =~= proof_nodes(extra_data@));
    Ok(TakerData { idx, secret_hash, proof })
}

/// The post-interaction data of an extension: at least four bytes.
pub fn extract_post_interaction_data(extension: &[u8]) -> (r: Result<&[u8], InvalidatorError>)
    ensures
        extension@.len() < 4 ==> r == Err::<&[u8], InvalidatorError>(
            InvalidatorError::InvalidExtension,
        ),
        extension@.len() >= 4 ==> (r matches Ok(d) && d@ == extension@),
{
    if extension.len() < 4 {
        return Err(InvalidatorError::InvalidExtension);
    }
    Ok(extension)
}

/// A root shortened to its low 240 bits: the first two bytes cleared.
pub open spec fn shortened(root: Seq<u8>) -> Seq<u8> {
    seq![0u8, 0u8] + root.subrange(2, 32)
}

/// The Merkle root committed to by a hashlock field, shortened to the 240
/// bits that follow the part count.
pub fn extract_root(hashlock_info: &[u8; 32]) -> (r: [u8; 32])
    ensures
        r@ == shortened(hashlock_info@),
{
    let mut root = *hashlock_info;
    root[0] = 0;
    root[1] = 0;
    assert(root@ =~= shortened(hashlock_info@));
    root
}

/// The number of parts committed to by a hashlock field: its top sixteen
/// bits, the first two bytes read big-endian.
pub fn extract_parts_amount(hashlock_info: &[u8; 32]) -> (r: u128)
    ensures
        r == hashlock_info@[0] * 256 + hashlock_info@[1],
{
    (hashlock_info[0] as u128) * 256 + (hashlock_info[1] as u128)
}

/// `a / b` rounded up.
pub open spec fn ceil_div(a: int, b: int) -> int {
    if a % b == 0 {
        a / b
    } else {
        a / b + 1
    }
}

/// Computes `a / b` rounded up.
fn ceil_div_u128(a: u128, b: u128) -> (r: u128)
    requires
        b > 0,
    ensures
        r == ceil_div(a as int, b as int),
{
    let q = a / b;
    if a % b == 0 {
        q
    } else {
        proof {
            assert(b >= 2);
            lemma_div_is_ordered_by_denominator(a as int, 2, b as int);
        }
        q + 1
    }
}

/// The index of the part in which the filled total `filled` ends, when an
/// order of `order` units is split into `parts` equal parts.
pub open spec fn fill_index(filled: int, parts: int, order: int) -> int {
    ceil_div(filled * parts, order) - 1
}

/// The ordering rule for a fill of `making` units of an order of `order`
/// units, of which `remaining` were unfilled before it, split into `parts`
/// parts, against the validated index recorded for the order.
///
/// A fill that completes the order must present the index one past the last
/// part; any other fill after the first must cross into a new part and
/// present the index after the part it ends in; the first fill must present
/// the index after the part it ends in.
pub open spec fn partial_fill_ok(making: int, remaining: int, order: int, parts: int, validated_index: int) -> bool {
    let calculated = fill_index(order - remaining + making, parts, order);
    if remaining == making {
        validated_index == calculated + 2
    } else if order != remaining {
        fill_index(order - remaining, parts, order) != calculated && validated_index == calculated + 1
    } else {
        validated_index == calculated + 1
    }
}

/// After `k` of four equal parts of `q` units, the filled total ends in part
/// `k - 1`.
proof fn lemma_whole_parts(q: int, k: int)
    requires
        q > 0,
        k >= 0,
    ensures
        fill_index(k * q, 4, 4 * q) == k - 1,
{
    assert(k * q * 4 == k * (4 * q)) by (nonlinear_arith);
    lemma_mod_multiples_basic(k, 4 * q);
    assert((4 * q) * k == k * (4 * q)) by (nonlinear_arith);
    lemma_div_multiples_vanish(k, 4 * q);
}

/// An order of four equal parts of `q` units, filled a part at a time, is
/// accepted when the fills present the indices 1, 2, 3 and then 5, one past
/// the last part. Presented out of order, as 1 and then 3 for a fill of two
/// parts, the last part with index 2 is rejected.
pub proof fn lemma_four_equal_parts(q: int)
    requires
        q > 0,
    ensures
        partial_fill_ok(q, 4 * q, 4 * q, 4, 1),
        partial_fill_ok(q, 3 * q, 4 * q, 4, 2),
        partial_fill_ok(q, 2 * q, 4 * q, 4, 3),
        partial_fill_ok(q, q, 4 * q, 4, 5),
        partial_fill_ok(2 * q, 3 * q, 4 * q, 4, 3),
        !partial_fill_ok(q, q, 4 * q, 4, 2),
{
    lemma_whole_parts(q, 1);
    lemma_whole_parts(q, 2);
    lemma_whole_parts(q, 3);
    lemma_whole_parts(q, 4);
    assert(4 * q - 4 * q + q == 1 * q) by (nonlinear_arith);
    assert(4 * q - 3 * q + q == 2 * q) by (nonlinear_arith);
    assert(4 * q - 3 * q == 1 * q) by (nonlinear_arith);
    assert(4 * q - 2 * q + q == 3 * q) by (nonlinear_arith);
    assert(4 * q - 2 * q == 2 * q) by (nonlinear_arith);
    assert(4 * q - q + q == 4 * q) by (nonlinear_arith);
    assert(4 * q - q == 3 * q) by (nonlinear_arith);
    assert(4 * q - 3 * q + 2 * q == 3 * q) by (nonlinear_arith);
}

/// Checks a partial fill against the ordering rule.
pub fn validate_partial_fill(
    making_amount: u128,
    remaining_making_amount: u128,
    order_making_amount: u128,
    parts_amount: u64,
    validated_index: u64,
) -> (r: Result<bool, EscrowError>)
    requires
        parts_amount >= 2 ==> 0 < making_amount <= remaining_making_amount <= order_making_amount,
        parts_amount >= 2 ==> order_making_amount * parts_amount <= u128::MAX,
    ensures
        parts_amount < 2 ==> r == Err::<bool, EscrowError>(EscrowError::InvalidSecretsAmount),
        parts_amount >= 2 ==> r == Ok::<bool, EscrowError>(
            partial_fill_ok(
                making_amount as int,
                remaining_making_amount as int,
                order_making_amount as int,
                parts_amount as int,
                validated_index as int,
            ),
        ),
{
    if parts_amount < 2 {
        return Err(EscrowError::InvalidSecretsAmount);
    }
    let p = parts_amount as u128;
    let filled_before = order_making_amount - remaining_making_amount;
    let filled_after = filled_before + making_amount;
    assert(filled_after * p <= order_making_amount * p) by (nonlinear_arith)
        requires
            filled_after <= order_making_amount,
    ;
    assert(filled_before * p <= order_making_amount * p) by (nonlinear_arith)
        requires
            filled_before <= order_making_amount,
    ;
    let ceil_after = ceil_div_u128(filled_after * p, order_making_amount);
    let valid = if remaining_making_amount == making_amount {
        validated_index >= 1 && (validated_index - 1) as u128 == ceil_after
    } else if order_making_amount != remaining_making_amount {
        let ceil_before = ceil_div_u128(filled_before * p, order_making_amount);
        ceil_before != ceil_after && validated_index as u128 == ceil_after
    } else {
        validated_index as u128 == ceil_after
    };
    Ok(valid)
}

/// Whether validating leaf `idx` moves the record under `key` forward: the
/// index it would record, `idx + 1`, exists and lies above the one recorded.
pub open spec fn advances(validated: Map<Seq<u8>, ValidationData>, key: Seq<u8>, idx: u64) -> bool {
    idx < u64::MAX && (validated.contains_key(key) ==> validated[key].index < idx + 1)
}

/// No recorded index is lost or goes down.
pub open spec fn indices_never_decrease(
    before: Map<Seq<u8>, ValidationData>,
    after: Map<Seq<u8>, ValidationData>,
) -> bool {
    forall|k: Seq<u8>|
        #[trigger] before.contains_key(k) ==> after.contains_key(k) && before[k].index
            <= after[k].index
}

/// Checks that validating leaf `idx` moves the record under `key` forward.
pub fn check_advances(validated: &ByteMap<ValidationData>, key: &[u8; 32], idx: u64) -> (r: bool)
    ensures
        r == advances(validated@, key@, idx),
{
    if idx == u64::MAX {
        return false;
    }
    match validated.get(key.as_slice()) {
        Some(v) => v.index < idx + 1,
        None => true,
    }
}

/// The error, if any, with which a taker interaction is rejected.
pub open spec fn taker_interaction_error(
    authorized: bool,
    extension: Seq<u8>,
    root: Seq<u8>,
    extra_data: Seq<u8>,
    validated: Map<Seq<u8>, ValidationData>,
    key: Seq<u8>,
) -> Option<InvalidatorError> {
    if !authorized {
        Some(InvalidatorError::AccessDenied)
    } else if extension.len() < 4 {
        Some(InvalidatorError::InvalidExtension)
    } else if extra_data.len() < 40 {
        Some(InvalidatorError::InvalidExtraData)
    } else if merkle_root(proof_nodes(extra_data), extra_data.subrange(8, 40), read_le_u64(extra_data, 0))
        != root {
        Some(InvalidatorError::InvalidProof)
    } else if !advances(validated, key, read_le_u64(extra_data, 0)) {
        Some(InvalidatorError::InvalidPartialFill)
    } else {
        None
    }
}

/// Records, per order and root, the last secret validated by a Merkle proof.
pub struct MerkleStorageInvalidator {
    pub limit_order_protocol: String,
    pub last_validated: ByteMap<ValidationData>,
}

impl MerkleStorageInvalidator {
    pub fn new(limit_order_protocol: String) -> (r: Self)
        ensures
            r.limit_order_protocol == limit_order_protocol,
            r.last_validated@ == Map::<Seq<u8>, ValidationData>::empty(),
    {
        MerkleStorageInvalidator { limit_order_protocol, last_validated: ByteMap::new() }
    }

    /// Validates the secret a taker presents for one part of an order, and
    /// records it together with the index the next part must present.
    ///
    /// Only the limit order protocol may call this. `root` is the Merkle root
    /// the maker committed to for the order.
    pub fn taker_interaction(
        &mut self,
        caller: &String,
        extension: &[u8],
        order_hash: &[u8; 32],
        root: &[u8; 32],
        extra_data: &[u8],
    ) -> (r: Result<(), InvalidatorError>)
        ensures
            ({
                let key = validation_key_of(order_hash@, root@);
                let err = taker_interaction_error(
                    caller@ == old(self).limit_order_protocol@,
                    extension@,
                    root@,
                    extra_data@,
                    old(self).last_validated@,
                    key,
                );
                match r {
                    Ok(()) => {
                        &&& err is None
                        &&& final(self).last_validated@ == old(self).last_validated@.insert(
                            key,
                            final(self).last_validated@[key],
                        )
                        &&& final(self).last_validated@[key].leaf@ == extra_data@.subrange(8, 40)
                        &&& final(self).last_validated@[key].index == read_le_u64(extra_data@, 0)
                            + 1
                        &&& final(self).limit_order_protocol == old(self).limit_order_protocol
                    },
                    Err(e) => err == Some(e) && final(self).last_validated@
                        == old(self).last_validated@ && final(self).limit_order_protocol
                        == old(self).limit_order_protocol,
                }
            }),
            extra_data@.len() >= 40 && merkle_root(
                proof_nodes(extra_data@),
                extra_data@.subrange(8, 40),
                read_le_u64(extra_data@, 0),
            ) != root@ ==> r == Err::<(), InvalidatorError>(InvalidatorError::InvalidProof) || r
                == Err::<(), InvalidatorError>(InvalidatorError::AccessDenied) || r == Err::<
                (),
                InvalidatorError,
            >(InvalidatorError::InvalidExtension),
            indices_never_decrease(old(self).last_validated@, final(self).last_validated@),
    {
        if *caller != self.limit_order_protocol {
            return Err(InvalidatorError::AccessDenied);
        }
        if let Err(e) = extract_post_interaction_data(extension) {
            return Err(e);
        }
        let taker_data = match parse_taker_data(extra_data) {
            Ok(d) => d,
            Err(e) => return Err(e),
        };
        assert(nodes_of(taker_data.proof@) == proof_nodes(extra_data@));
        let root_shortened = *root;
        let key = create_validation_key(order_hash, &root_shortened);
        if !validate_merkle_proof(
            taker_data.proof.as_slice(),
            taker_data.secret_hash,
            taker_data.idx,
            root_shortened,
        ) {
            return Err(InvalidatorError::InvalidProof);
        }
        if !check_advances(&self.last_validated, &key, taker_data.idx) {
            return Err(InvalidatorError::InvalidPartialFill);
        }
        let record = ValidationData { leaf: taker_data.secret_hash, index: taker_data.idx + 1 };
        self.last_validated.insert(bytes_to_vec(key.as_slice()), record);
        Ok(())
    }

    pub fn get_limit_order_protocol(&self) -> (r: String)
        ensures
            r == self.limit_order_protocol,
    {
        self.limit_order_protocol.clone()
    }

    /// The validation record stored under `key`.
    pub fn get_last_validated(&self, key: &[u8; 32]) -> (r: Option<ValidationData>)
        ensures
            match r {
                Some(v) => self.last_validated@.contains_key(key@) && v == self.last_validated@[key@],
                None => !self.last_validated@.contains_key(key@),
            },
    {
        match self.last_validated.get(key.as_slice()) {
            Some(v) => Some(*v),
            None => None,
        }
    }

    /// Whether a validation record is stored under `key`.
    pub fn has_validation_data(&self, key: &[u8; 32]) -> (r: bool)
        ensures
            r == self.last_validated@.contains_key(key@),
    {
        self.last_validated.contains_key(key.as_slice())
    }
}

} // verus!
