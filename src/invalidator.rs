//! The order invalidation engine: two strategies that keep an order from
//! being filled after it was cancelled, or beyond its amount.
use vstd::prelude::*;
use crate::bytes::{append_bytes, bytes_to_vec};
use crate::orders::{
    calculate_making_amount, check_rate_overflows, extension_error, hash_order, id_bytes,
    making_amount_for, order_hash_of, rate_overflows, validate_extension, Extension,
    LimitOrderError, MakerTraits, Order,
};
use crate::store::ByteMap;

verus! {

/// The slot of 256 orders that a nonce belongs to.
pub open spec fn slot_of(nonce_or_epoch: u64) -> u64 {
    nonce_or_epoch >> 8u64
}

/// The invalidated slots of one maker.
#[derive(Debug)]
pub struct BitInvalidatorData {
    pub slots: Vec<u64>,
}

impl BitInvalidatorData {
    pub fn new() -> (r: Self)
        ensures
            r.slots@ == Seq::<u64>::empty(),
    {
        BitInvalidatorData { slots: Vec::new() }
    }

    /// A copy holding the same slots.
    pub fn duplicate(&self) -> (r: Self)
        ensures
            r.slots@ == self.slots@,
    {
        let mut slots: Vec<u64> = Vec::new();
        let mut i: usize = 0;
        while i < self.slots.len()
            invariant
                i <= self.slots@.len(),
                slots@ == self.slots@.subrange(0, i as int),
            decreases self.slots@.len() - i,
        {
            slots.push(self.slots[i]);
            i = i + 1;
            assert(slots@ =~= self.slots@.subrange(0, i as int));
        }
        assert(self.slots@.subrange(0, i as int) =~= self.slots@);
        BitInvalidatorData { slots }
    }

    /// Whether `slot` is invalidated.
    pub fn check_slot(&self, slot: u64) -> (r: bool)
        ensures
            r == self.slots@.contains(slot),
    {
        let mut i: usize = 0;
        while i < self.slots.len()
            invariant
                i <= self.slots@.len(),
                forall|j: int| 0 <= j < i ==> self.slots@[j] != slot,
            decreases self.slots@.len() - i,
        {
            if self.slots[i] == slot {
                return true;
            }
            i = i + 1;
        }
        false
    }

    /// Invalidates the whole slot of `nonce_or_epoch`, and hands back
    /// `additional_mask`.
    pub fn mass_invalidate(&mut self, nonce_or_epoch: u64, additional_mask: u64) -> (r: u64)
        ensures
            r == additional_mask,
            forall|s: u64|
                final(self).slots@.contains(s) <==> (old(self).slots@.contains(s) || s == slot_of(
                    nonce_or_epoch,
                )),
    {
        let slot = nonce_or_epoch >> 8u64;
        if !self.check_slot(slot) {
            self.slots.push(slot);
            proof {
                assert forall|s: u64|
                    self.slots@.contains(s) <==> (old(self).slots@.contains(s) || s == slot) by {
                    if self.slots@.contains(s) {
                        let j = choose|j: int| 0 <= j < self.slots@.len() && self.slots@[j] == s;
                        if j < old(self).slots@.len() {
                            assert(old(self).slots@[j] == s);
                        }
                    }
                    if old(self).slots@.contains(s) {
                        let j = choose|j: int|
                            0 <= j < old(self).slots@.len() && old(self).slots@[j] == s;
                        assert(self.slots@[j] == s);
                    }
                    if s == slot {
                        assert(self.slots@[old(self).slots@.len() as int] == s);
                    }
                }
            }
        }
        additional_mask
    }
}

/// The unfilled amount of one order.
#[derive(Clone, Copy, Debug, PartialEq, Eq, Structural)]
pub struct RemainingInvalidator {
    pub remaining: u128,
}

impl RemainingInvalidator {
    /// The record of an order with nothing left to fill.
    pub fn fully_filled() -> (r: Self)
        ensures
            r.remaining == 0,
    {
        RemainingInvalidator { remaining: 0 }
    }

    pub fn remaining(&self) -> (r: u128)
        ensures
            r == self.remaining,
    {
        self.remaining
    }

    pub fn new(remaining: u128) -> (r: Self)
        ensures
            r.remaining == remaining,
    {
        RemainingInvalidator { remaining }
    }
}

/// A recorded amount that stays recorded and does not grow.
pub open spec fn not_above(before: Option<u128>, after: Option<u128>) -> bool {
    match before {
        Some(v) => after matches Some(w) && w <= v,
        None => true,
    }
}

/// The key of the remaining-amount record of an order of `maker`.
pub open spec fn remaining_key(maker: String, order_hash: Seq<u8>) -> Seq<u8> {
    id_bytes(maker) + order_hash
}

fn make_remaining_key(maker: &String, order_hash: &[u8; 32]) -> (r: Vec<u8>)
    ensures
        r@ == remaining_key(*maker, order_hash@),
{
    let mut key = bytes_to_vec(maker.as_str().as_bytes());
    append_bytes(&mut key, order_hash.as_slice());
    key
}

fn make_maker_key(maker: &String) -> (r: Vec<u8>)
    ensures
        r@ == id_bytes(*maker),
{
    bytes_to_vec(maker.as_str().as_bytes())
}

/// Order filling and cancellation, with the state of both invalidation
/// strategies.
pub struct OrderMixin {
    pub domain_separator: [u8; 32],
    pub weth: String,
    /// Invalidated slots, per maker.
    pub bit_invalidator: ByteMap<BitInvalidatorData>,
    /// Remaining amounts, per maker and order hash.
    pub remaining_invalidator: ByteMap<RemainingInvalidator>,
    pub paused: bool,
}

impl OrderMixin {
    /// Whether `maker` invalidated `slot`.
    pub open spec fn slot_invalidated(&self, maker: String, slot: u64) -> bool {
        &&& self.bit_invalidator@.contains_key(id_bytes(maker))
        &&& self.bit_invalidator@[id_bytes(maker)].slots@.contains(slot)
    }

    /// The remaining amount recorded for an order, if the order was touched.
    pub open spec fn remaining_entry(&self, maker: String, order_hash: Seq<u8>) -> Option<u128> {
        let k = remaining_key(maker, order_hash);
        if self.remaining_invalidator@.contains_key(k) {
            Some(self.remaining_invalidator@[k].remaining)
        } else {
            None
        }
    }

    /// Whether an order can no longer be filled: its slot is invalidated
    /// under the bit strategy; it was touched and has nothing left under the
    /// remaining-amount strategy.
    pub open spec fn order_invalidated(&self, order: Order, order_hash: Seq<u8>) -> bool {
        if order.maker_traits.use_bit_invalidator {
            self.slot_invalidated(order.maker, slot_of(order.maker_traits.nonce_or_epoch))
        } else {
            self.remaining_entry(order.maker, order_hash) == Some(0u128)
        }
    }

    /// No invalidated slot becomes valid again, and no remaining amount grows.
    pub open spec fn only_tightens(&self, after: &Self) -> bool {
        &&& forall|m: String, s: u64| #[trigger]
            self.slot_invalidated(m, s) ==> after.slot_invalidated(m, s)
        &&& forall|m: String, h: Seq<u8>|
            not_above(#[trigger] self.remaining_entry(m, h), after.remaining_entry(m, h))
    }

    pub fn new(domain_separator: [u8; 32], weth: String) -> (r: Self)
        ensures
            r.domain_separator == domain_separator,
            r.weth == weth,
            !r.paused,
            r.bit_invalidator@ == Map::<Seq<u8>, BitInvalidatorData>::empty(),
            r.remaining_invalidator@ == Map::<Seq<u8>, RemainingInvalidator>::empty(),
    {
        OrderMixin {
            domain_separator,
            weth,
            bit_invalidator: ByteMap::new(),
            remaining_invalidator: ByteMap::new(),
            paused: false,
        }
    }

    /// Whether `maker` invalidated `slot`.
    pub fn bit_invalidator_for_order(&self, maker: &String, slot: u64) -> (r: bool)
        ensures
            r == self.slot_invalidated(*maker, slot),
    {
        let key = make_maker_key(maker);
        match self.bit_invalidator.get(key.as_slice()) {
            Some(data) => data.check_slot(slot),
            None => false,
        }
    }

    /// The remaining amount recorded for an order, zero if none is.
    pub fn remaining_invalidator_for_order(&self, maker: &String, order_hash: &[u8; 32]) -> (r: u128)
        ensures
            r == match self.remaining_entry(*maker, order_hash@) {
                Some(v) => v,
                None => 0,
            },
    {
        let key = make_remaining_key(maker, order_hash);
        match self.remaining_invalidator.get(key.as_slice()) {
            Some(inv) => inv.remaining(),
            None => 0,
        }
    }

    /// The remaining amount recorded for an order, if the order was touched.
    pub fn raw_remaining_invalidator_for_order(&self, maker: &String, order_hash: &[u8; 32]) -> (r: Option<u128>)
        ensures
            r == self.remaining_entry(*maker, order_hash@),
    {
        let key = make_remaining_key(maker, order_hash);
        match self.remaining_invalidator.get(key.as_slice()) {
            Some(inv) => Some(inv.remaining()),
            None => None,
        }
    }

    /// Whether an order can no longer be filled.
    pub fn is_order_invalidated(&self, order: &Order, order_hash: &[u8; 32]) -> (r: bool)
        ensures
            r == self.order_invalidated(*order, order_hash@),
    {
        if order.maker_traits.use_bit_invalidator() {
            let slot = order.maker_traits.nonce_or_epoch() >> 8u64;
            self.bit_invalidator_for_order(&order.maker, slot)
        } else {
            match self.raw_remaining_invalidator_for_order(&order.maker, order_hash) {
                Some(v) => v == 0,
                None => false,
            }
        }
    }

    /// `maker` cancels an order: under the bit strategy the whole slot of its
    /// nonce, otherwise the order alone, whose remaining amount becomes zero.
    pub fn cancel_order(&mut self, maker: &String, maker_traits: &MakerTraits, order_hash: &[u8; 32])
        ensures
            cancel_effect(*old(self), *final(self), *maker, *maker_traits, order_hash@),
            old(self).only_tightens(&*final(self)),
    {
        let ghost before = *old(self);
        if maker_traits.use_bit_invalidator() {
            let key = make_maker_key(maker);
            let mut data = match self.bit_invalidator.get(key.as_slice()) {
                Some(d) => d.duplicate(),
                None => BitInvalidatorData::new(),
            };
            let ghost prior = data.slots@;
            let _mask = data.mass_invalidate(maker_traits.nonce_or_epoch(), 0);
            self.bit_invalidator.insert(key, data);
            proof {
                let slot = slot_of(maker_traits.nonce_or_epoch);
                assert forall|m: String, s: u64| #[trigger]
                    self.slot_invalidated(m, s) <==> (before.slot_invalidated(m, s) || (
                    maker_traits.use_bit_invalidator && id_bytes(m) == id_bytes(*maker) && s
                        == slot)) by {
                    if id_bytes(m) == id_bytes(*maker) {
                        assert(self.bit_invalidator@[id_bytes(m)].slots@.contains(s) <==> (
                        prior.contains(s) || s == slot));
                        if before.bit_invalidator@.contains_key(id_bytes(m)) {
                            assert(prior == before.bit_invalidator@[id_bytes(m)].slots@);
                        } else {
                            assert(prior == Seq::<u64>::empty());
                            assert(!prior.contains(s));
                        }
                    }
                }
                assert forall|m: String, h: Seq<u8>|
                    not_above(#[trigger] before.remaining_entry(m, h), self.remaining_entry(m, h)) by {}
            }
        } else {
            let key = make_remaining_key(maker, order_hash);
            self.remaining_invalidator.insert(key, RemainingInvalidator::fully_filled());
            proof {
                assert forall|m: String, s: u64| #[trigger]
                    self.slot_invalidated(m, s) <==> before.slot_invalidated(m, s) by {}
                assert forall|m: String, h: Seq<u8>|
                    not_above(#[trigger] before.remaining_entry(m, h), self.remaining_entry(m, h)) by {}
            }
        }
    }

    /// The amount still open on an order: what was recorded, or the whole
    /// making amount of an order never touched.
    pub open spec fn open_amount(&self, order: Order, order_hash: Seq<u8>) -> u128 {
        match self.remaining_entry(order.maker, order_hash) {
            Some(v) => v,
            None => order.making_amount,
        }
    }

    /// The error, if any, with which a fill of `taking_amount` is rejected.
    pub open spec fn fill_error(&self, order: Order, e: Extension, taking_amount: u128) -> Option<LimitOrderError> {
        let h = order_hash_of(order, self.domain_separator@);
        if self.paused {
            Some(LimitOrderError::ContractPaused)
        } else if taking_amount == 0 {
            Some(LimitOrderError::SwapWithZeroAmount)
        } else if taking_amount > order.taking_amount {
            Some(LimitOrderError::TakingAmountExceeded)
        } else if self.order_invalidated(order, h) {
            Some(LimitOrderError::InvalidatedOrder)
        } else if extension_error(order, e) is Some {
            extension_error(order, e)
        } else if rate_overflows(order, e, taking_amount) {
            Some(LimitOrderError::InvalidAmounts)
        } else {
            match making_amount_for(order, e, taking_amount) {
                Err(err) => Some(err),
                Ok(m) => if m == 0 {
                    Some(LimitOrderError::SwapWithZeroAmount)
                } else if !order.maker_traits.use_bit_invalidator && m > self.open_amount(order, h) {
                    Some(LimitOrderError::TakingAmountExceeded)
                } else {
                    None
                },
            }
        }
    }

    /// Decides a fill of `taking_amount` of `order`: returns the making amount
    /// the maker owes the taker and, under the remaining-amount strategy,
    /// debits it from the order. The two transfers of the swap are the
    /// caller's to perform.
    pub fn fill_order(&mut self, order: &Order, extension: &Extension, taking_amount: u128) -> (r: Result<u128, LimitOrderError>)
        ensures
            fill_outcome(*old(self), *final(self), *order, *extension, taking_amount, r),
            ({
                let h = order_hash_of(*order, old(self).domain_separator@);
                &&& !order.maker_traits.use_bit_invalidator && r is Ok ==> (final(self).remaining_entry(
                    order.maker,
                    h,
                ) matches Some(w) && w < old(self).open_amount(*order, h))
                &&& !order.maker_traits.use_bit_invalidator && old(self).remaining_entry(
                    order.maker,
                    h,
                ) == Some(0u128) ==> r is Err
            }),
    {
        if self.paused {
            return Err(LimitOrderError::ContractPaused);
        }
        if taking_amount == 0 {
            return Err(LimitOrderError::SwapWithZeroAmount);
        }
        if taking_amount > order.taking_amount {
            return Err(LimitOrderError::TakingAmountExceeded);
        }
        let order_hash = hash_order(order, &self.domain_separator);
        if self.is_order_invalidated(order, &order_hash) {
            return Err(LimitOrderError::InvalidatedOrder);
        }
        match validate_extension(order, extension) {
            Ok(_) => {},
            Err(e) => return Err(e),
        }
        if check_rate_overflows(order, extension, taking_amount) {
            return Err(LimitOrderError::InvalidAmounts);
        }
        let making_amount = match calculate_making_amount(
            order,
            extension,
            taking_amount,
            order.making_amount,
            &order_hash,
        ) {
            Ok(m) => m,
            Err(e) => return Err(e),
        };
        if making_amount == 0 {
            return Err(LimitOrderError::SwapWithZeroAmount);
        }
        if !order.maker_traits.use_bit_invalidator() {
            let open = match self.raw_remaining_invalidator_for_order(&order.maker, &order_hash) {
                Some(v) => v,
                None => order.making_amount,
            };
            if making_amount > open {
                return Err(LimitOrderError::TakingAmountExceeded);
            }
            let key = make_remaining_key(&order.maker, &order_hash);
            let ghost before = *old(self);
            self.remaining_invalidator.insert(key, RemainingInvalidator::new(open - making_amount));
            proof {
                assert forall|m: String, s: u64| #[trigger]
                    before.slot_invalidated(m, s) implies self.slot_invalidated(m, s) by {}
                assert forall|m: String, h: Seq<u8>|
                    not_above(#[trigger] before.remaining_entry(m, h), self.remaining_entry(m, h)) by {}
            }
        }
        Ok(making_amount)
    }

    /// `maker` cancels several orders at once; the two lists must have the
    /// same length. The effect is that of the single cancels in turn.
    pub fn cancel_orders(&mut self, maker: &String, maker_traits: &Vec<MakerTraits>, order_hashes: &Vec<[u8; 32]>) -> (r: Result<(), LimitOrderError>)
        ensures
            maker_traits@.len() != order_hashes@.len() <==> r == Err::<(), LimitOrderError>(
                LimitOrderError::MismatchArraysLengths,
            ),
            maker_traits@.len() == order_hashes@.len() <==> r is Ok,
            r is Err ==> *final(self) == *old(self),
            r is Ok ==> cancels_effect(*old(self), *final(self), *maker, maker_traits@, order_hashes@),
            old(self).only_tightens(&*final(self)),
            final(self).domain_separator == old(self).domain_separator,
            final(self).weth == old(self).weth,
            final(self).paused == old(self).paused,
    {
        if maker_traits.len() != order_hashes.len() {
            return Err(LimitOrderError::MismatchArraysLengths);
        }
        let ghost start = *old(self);
        let ghost ts = maker_traits@;
        let ghost hs = order_hashes@;
        proof {
            assert(ts.take(0) =~= Seq::<MakerTraits>::empty());
            assert(hs.take(0) =~= Seq::<[u8; 32]>::empty());
        }
        let mut i: usize = 0;
        while i < maker_traits.len()
            invariant
                i <= ts.len(),
                ts == maker_traits@,
                hs == order_hashes@,
                ts.len() == hs.len(),
                cancels_effect(start, *self, *maker, ts.take(i as int), hs.take(i as int)),
                self.domain_separator == start.domain_separator,
                self.weth == start.weth,
                self.paused == start.paused,
            decreases ts.len() - i,
        {
            let ghost before = *self;
            self.cancel_order(maker, &maker_traits[i], &order_hashes[i]);
            proof {
                lemma_cancels_step(start, before, *self, *maker, ts, hs, i as int);
            }
            i = i + 1;
        }
        proof {
            assert(ts.take(ts.len() as int) =~= ts);
            assert(hs.take(hs.len() as int) =~= hs);
            lemma_cancels_tighten(start, *self, *maker, ts, hs);
        }
        Ok(())
    }

    pub fn pause(&mut self)
        ensures
            final(self).paused,
            final(self).bit_invalidator@ == old(self).bit_invalidator@,
            final(self).remaining_invalidator@ == old(self).remaining_invalidator@,
            final(self).domain_separator == old(self).domain_separator,
            final(self).weth == old(self).weth,
    {
        self.paused = true;
    }

    pub fn unpause(&mut self)
        ensures
            !final(self).paused,
            final(self).bit_invalidator@ == old(self).bit_invalidator@,
            final(self).remaining_invalidator@ == old(self).remaining_invalidator@,
            final(self).domain_separator == old(self).domain_separator,
            final(self).weth == old(self).weth,
    {
        self.paused = false;
    }

    pub fn is_paused(&self) -> (r: bool)
        ensures
            r == self.paused,
    {
        self.paused
    }

    pub fn get_domain_separator(&self) -> (r: [u8; 32])
        ensures
            r == self.domain_separator,
    {
        self.domain_separator
    }

    pub fn get_weth(&self) -> (r: String)
        ensures
            r == self.weth,
    {
        self.weth.clone()
    }
}

/// What cancelling one order does to the invalidation state: the slot of
/// the order's nonce becomes invalidated for `maker` under the bit strategy;
/// otherwise the order's remaining amount becomes zero. Nothing else changes.
pub open spec fn cancel_effect(before: OrderMixin, after: OrderMixin, maker: String, t: MakerTraits, order_hash: Seq<u8>) -> bool {
    &&& forall|m: String, s: u64| #[trigger]
        after.slot_invalidated(m, s) <==> (before.slot_invalidated(m, s) || (t.use_bit_invalidator
            && id_bytes(m) == id_bytes(maker) && s == slot_of(t.nonce_or_epoch)))
    &&& t.use_bit_invalidator ==> after.remaining_invalidator@ == before.remaining_invalidator@
    &&& t.use_bit_invalidator ==> after.bit_invalidator@ == before.bit_invalidator@.insert(
        id_bytes(maker),
        after.bit_invalidator@[id_bytes(maker)],
    )
    &&& !t.use_bit_invalidator ==> after.bit_invalidator@ == before.bit_invalidator@
    &&& !t.use_bit_invalidator ==> after.remaining_invalidator@ == before.remaining_invalidator@.insert(
        remaining_key(maker, order_hash),
        RemainingInvalidator { remaining: 0 },
    )
    &&& after.domain_separator == before.domain_separator
    &&& after.weth == before.weth
    &&& after.paused == before.paused
}

/// Whether cancelling with traits `t` invalidates `slot`.
pub open spec fn cancels_slot(t: MakerTraits, slot: u64) -> bool {
    t.use_bit_invalidator && slot == slot_of(t.nonce_or_epoch)
}

/// Whether cancelling with traits `t` the order `order_hash` of `maker`
/// zeroes the remaining record of order `h` of `m`.
pub open spec fn cancels_entry(t: MakerTraits, maker: String, order_hash: [u8; 32], m: String, h: Seq<u8>) -> bool {
    !t.use_bit_invalidator && remaining_key(m, h) == remaining_key(maker, order_hash@)
}

/// What cancelling the orders `hs` with traits `ts`, in turn, does: the
/// union of the single cancels' effects, nothing else.
pub open spec fn cancels_effect(
    before: OrderMixin,
    after: OrderMixin,
    maker: String,
    ts: Seq<MakerTraits>,
    hs: Seq<[u8; 32]>,
) -> bool {
    &&& forall|m: String, s: u64| #[trigger]
        after.slot_invalidated(m, s) <==> (before.slot_invalidated(m, s) || (id_bytes(m)
            == id_bytes(maker) && exists|i: int| 0 <= i < ts.len() && #[trigger] cancels_slot(ts[i], s)))
    &&& forall|m: String, h: Seq<u8>| #[trigger]
        after.remaining_entry(m, h) == if exists|i: int|
            0 <= i < ts.len() && #[trigger] cancels_entry(ts[i], maker, hs[i], m, h) {
            Some(0u128)
        } else {
            before.remaining_entry(m, h)
        }
}

proof fn lemma_cancels_step(
    start: OrderMixin,
    before: OrderMixin,
    after: OrderMixin,
    maker: String,
    ts: Seq<MakerTraits>,
    hs: Seq<[u8; 32]>,
    i: int,
)
    requires
        0 <= i < ts.len(),
        ts.len() == hs.len(),
        cancels_effect(start, before, maker, ts.take(i), hs.take(i)),
        cancel_effect(before, after, maker, ts[i], hs[i]@),
    ensures
        cancels_effect(start, after, maker, ts.take(i + 1), hs.take(i + 1)),
{
    let ts0 = ts.take(i);
    let hs0 = hs.take(i);
    let ts1 = ts.take(i + 1);
    let hs1 = hs.take(i + 1);
    assert forall|m: String, s: u64| #[trigger]
        after.slot_invalidated(m, s) <==> (start.slot_invalidated(m, s) || (id_bytes(m)
            == id_bytes(maker) && exists|j: int| 0 <= j < ts1.len() && #[trigger] cancels_slot(ts1[j], s))) by {
        if id_bytes(m) == id_bytes(maker) && (exists|j: int| 0 <= j < ts1.len() && #[trigger] cancels_slot(ts1[j], s)) {
            let j = choose|j: int| 0 <= j < ts1.len() && #[trigger] cancels_slot(ts1[j], s);
            if j < i {
                assert(ts0[j] == ts1[j]);
                assert(cancels_slot(ts0[j], s));
            }
        }
        if id_bytes(m) == id_bytes(maker) && (exists|j: int| 0 <= j < ts0.len() && #[trigger] cancels_slot(ts0[j], s)) {
            let j = choose|j: int| 0 <= j < ts0.len() && #[trigger] cancels_slot(ts0[j], s);
            assert(ts0[j] == ts1[j]);
            assert(cancels_slot(ts1[j], s));
        }
        if ts[i].use_bit_invalidator && id_bytes(m) == id_bytes(maker) && s == slot_of(ts[i].nonce_or_epoch) {
            assert(ts1[i] == ts[i]);
            assert(cancels_slot(ts1[i], s));
        }
    }
    assert forall|m: String, h: Seq<u8>| #[trigger]
        after.remaining_entry(m, h) == if exists|j: int|
            0 <= j < ts1.len() && #[trigger] cancels_entry(ts1[j], maker, hs1[j], m, h) {
            Some(0u128)
        } else {
            start.remaining_entry(m, h)
        } by {
        let here = cancels_entry(ts[i], maker, hs[i], m, h);
        if here {
            assert(ts1[i] == ts[i] && hs1[i] == hs[i]);
            assert(cancels_entry(ts1[i], maker, hs1[i], m, h));
        }
        if exists|j: int| 0 <= j < ts0.len() && #[trigger] cancels_entry(ts0[j], maker, hs0[j], m, h) {
            let j = choose|j: int| 0 <= j < ts0.len() && #[trigger] cancels_entry(ts0[j], maker, hs0[j], m, h);
            assert(ts0[j] == ts1[j] && hs0[j] == hs1[j]);
            assert(cancels_entry(ts1[j], maker, hs1[j], m, h));
        }
        if exists|j: int| 0 <= j < ts1.len() && #[trigger] cancels_entry(ts1[j], maker, hs1[j], m, h) {
            let j = choose|j: int| 0 <= j < ts1.len() && #[trigger] cancels_entry(ts1[j], maker, hs1[j], m, h);
            if j < i {
                assert(ts0[j] == ts1[j] && hs0[j] == hs1[j]);
                assert(cancels_entry(ts0[j], maker, hs0[j], m, h));
            } else {
                assert(here);
            }
        }
        if ts[i].use_bit_invalidator {
            assert(after.remaining_entry(m, h) == before.remaining_entry(m, h));
        } else if remaining_key(m, h) == remaining_key(maker, hs[i]@) {
            assert(after.remaining_entry(m, h) == Some(0u128));
        } else {
            assert(after.remaining_entry(m, h) == before.remaining_entry(m, h));
        }
    }
}

proof fn lemma_cancels_tighten(
    before: OrderMixin,
    after: OrderMixin,
    maker: String,
    ts: Seq<MakerTraits>,
    hs: Seq<[u8; 32]>,
)
    requires
        cancels_effect(before, after, maker, ts, hs),
    ensures
        before.only_tightens(&after),
{
    assert forall|m: String, s: u64| #[trigger]
        before.slot_invalidated(m, s) implies after.slot_invalidated(m, s) by {}
    assert forall|m: String, h: Seq<u8>|
        not_above(#[trigger] before.remaining_entry(m, h), after.remaining_entry(m, h)) by {}
}

/// What a fill does: on success the making amount it returns is the one the
/// order's rate gives and, under the remaining-amount strategy, it is debited
/// from the order; on failure, exactly the error `fill_error` names, and the
/// invalidation state is unchanged.
pub open spec fn fill_outcome(
    before: OrderMixin,
    after: OrderMixin,
    order: Order,
    e: Extension,
    taking_amount: u128,
    r: Result<u128, LimitOrderError>,
) -> bool {
    let h = order_hash_of(order, before.domain_separator@);
    let err = before.fill_error(order, e, taking_amount);
    &&& match r {
        Ok(m) => {
            &&& err is None
            &&& making_amount_for(order, e, taking_amount) == Ok::<u128, LimitOrderError>(m)
            &&& after.bit_invalidator@ == before.bit_invalidator@
            &&& order.maker_traits.use_bit_invalidator ==> after.remaining_invalidator@
                == before.remaining_invalidator@
            &&& !order.maker_traits.use_bit_invalidator ==> after.remaining_invalidator@
                == before.remaining_invalidator@.insert(
                remaining_key(order.maker, h),
                RemainingInvalidator { remaining: (before.open_amount(order, h) - m) as u128 },
            )
        },
        Err(x) => {
            &&& err == Some(x)
            &&& after.bit_invalidator@ == before.bit_invalidator@
            &&& after.remaining_invalidator@ == before.remaining_invalidator@
        },
    }
    &&& before.only_tightens(&after)
    &&& after.domain_separator == before.domain_separator
    &&& after.weth == before.weth
    &&& after.paused == before.paused
}

/// Once a maker has invalidated a slot, every order of that maker that uses
/// the bit strategy and whose nonce falls in the slot is invalidated, whatever
/// its hash.
pub proof fn lemma_cancelled_slot_covers_orders(st: OrderMixin, order: Order, order_hash: Seq<u8>, slot: u64)
    requires
        st.slot_invalidated(order.maker, slot),
        order.maker_traits.use_bit_invalidator,
        slot_of(order.maker_traits.nonce_or_epoch) == slot,
    ensures
        st.order_invalidated(order, order_hash),
{
}

/// A slot invalidation survives any sequence of operations that each only
/// tighten the state.
pub proof fn lemma_invalidation_is_permanent(a: OrderMixin, b: OrderMixin, c: OrderMixin, maker: String, slot: u64)
    requires
        a.only_tightens(&b),
        b.only_tightens(&c),
        a.slot_invalidated(maker, slot),
    ensures
        c.slot_invalidated(maker, slot),
{
    assert(b.slot_invalidated(maker, slot));
}

} // verus!
