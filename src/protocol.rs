//! The limit order protocol: the invalidation engine under an owner who may
//! pause trading.
use vstd::prelude::*;
use crate::invalidator::{cancel_effect, cancels_effect, fill_outcome, OrderMixin};
use crate::orders::{Extension, LimitOrderError, MakerTraits, Order};

verus! {

pub struct LimitOrderProtocol {
    pub mixin: OrderMixin,
    pub owner: String,
}

impl LimitOrderProtocol {
    pub fn new(domain_separator: [u8; 32], weth: String, owner: String) -> (r: Self)
        ensures
            r.mixin.domain_separator == domain_separator,
            r.mixin.weth == weth,
            !r.mixin.paused,
            r.mixin.bit_invalidator@ == Map::<Seq<u8>, crate::invalidator::BitInvalidatorData>::empty(),
            r.mixin.remaining_invalidator@ == Map::<Seq<u8>, crate::invalidator::RemainingInvalidator>::empty(),
            r.owner == owner,
    {
        LimitOrderProtocol { mixin: OrderMixin::new(domain_separator, weth), owner }
    }

    pub fn domain_separator(&self) -> (r: [u8; 32])
        ensures
            r == self.mixin.domain_separator,
    {
        self.mixin.get_domain_separator()
    }

    /// Pauses trading if `caller` is the owner; tells whether it did.
    pub fn pause(&mut self, caller: &String) -> (r: bool)
        ensures
            r == (caller@ == old(self).owner@),
            r ==> final(self).mixin.paused,
            !r ==> final(self).mixin.paused == old(self).mixin.paused,
            final(self).mixin.bit_invalidator@ == old(self).mixin.bit_invalidator@,
            final(self).mixin.remaining_invalidator@ == old(self).mixin.remaining_invalidator@,
            final(self).owner == old(self).owner,
    {
        if *caller != self.owner {
            return false;
        }
        self.mixin.pause();
        true
    }

    /// Resumes trading if `caller` is the owner; tells whether it did.
    pub fn unpause(&mut self, caller: &String) -> (r: bool)
        ensures
            r == (caller@ == old(self).owner@),
            r ==> !final(self).mixin.paused,
            !r ==> final(self).mixin.paused == old(self).mixin.paused,
            final(self).mixin.bit_invalidator@ == old(self).mixin.bit_invalidator@,
            final(self).mixin.remaining_invalidator@ == old(self).mixin.remaining_invalidator@,
            final(self).owner == old(self).owner,
    {
        if *caller != self.owner {
            return false;
        }
        self.mixin.unpause();
        true
    }

    pub fn is_paused(&self) -> (r: bool)
        ensures
            r == self.mixin.paused,
    {
        self.mixin.is_paused()
    }

    pub fn bit_invalidator_for_order(&self, maker: &String, slot: u64) -> (r: bool)
        ensures
            r == self.mixin.slot_invalidated(*maker, slot),
    {
        self.mixin.bit_invalidator_for_order(maker, slot)
    }

    pub fn remaining_invalidator_for_order(&self, maker: &String, order_hash: &[u8; 32]) -> (r: u128)
        ensures
            r == match self.mixin.remaining_entry(*maker, order_hash@) {
                Some(v) => v,
                None => 0,
            },
    {
        self.mixin.remaining_invalidator_for_order(maker, order_hash)
    }

    pub fn raw_remaining_invalidator_for_order(&self, maker: &String, order_hash: &[u8; 32]) -> (r: Option<u128>)
        ensures
            r == self.mixin.remaining_entry(*maker, order_hash@),
    {
        self.mixin.raw_remaining_invalidator_for_order(maker, order_hash)
    }

    /// `maker` cancels an order (see `OrderMixin::cancel_order`).
    pub fn cancel_order(&mut self, maker: &String, maker_traits: &MakerTraits, order_hash: &[u8; 32])
        ensures
            cancel_effect(old(self).mixin, final(self).mixin, *maker, *maker_traits, order_hash@),
            old(self).mixin.only_tightens(&final(self).mixin),
            final(self).owner == old(self).owner,
    {
        self.mixin.cancel_order(maker, maker_traits, order_hash);
    }

    /// `maker` cancels several orders (see `OrderMixin::cancel_orders`).
    pub fn cancel_orders(&mut self, maker: &String, maker_traits: &Vec<MakerTraits>, order_hashes: &Vec<[u8; 32]>) -> (r: Result<(), LimitOrderError>)
        ensures
            maker_traits@.len() != order_hashes@.len() <==> r == Err::<(), LimitOrderError>(
                LimitOrderError::MismatchArraysLengths,
            ),
            maker_traits@.len() == order_hashes@.len() <==> r is Ok,
            r is Err ==> final(self).mixin == old(self).mixin,
            r is Ok ==> cancels_effect(old(self).mixin, final(self).mixin, *maker, maker_traits@, order_hashes@),
            old(self).mixin.only_tightens(&final(self).mixin),
            final(self).mixin.domain_separator == old(self).mixin.domain_separator,
            final(self).mixin.paused == old(self).mixin.paused,
            final(self).owner == old(self).owner,
    {
        self.mixin.cancel_orders(maker, maker_traits, order_hashes)
    }

    /// Decides a fill (see `OrderMixin::fill_order`).
    pub fn fill_order(&mut self, order: &Order, extension: &Extension, taking_amount: u128) -> (r: Result<u128, LimitOrderError>)
        ensures
            fill_outcome(old(self).mixin, final(self).mixin, *order, *extension, taking_amount, r),
            final(self).owner == old(self).owner,
    {
        self.mixin.fill_order(order, extension, taking_amount)
    }

    pub fn get_owner(&self) -> (r: String)
        ensures
            r == self.owner,
    {
        self.owner.clone()
    }

    pub fn get_weth(&self) -> (r: String)
        ensures
            r == self.mixin.weth,
    {
        self.mixin.get_weth()
    }
}

} // verus!
