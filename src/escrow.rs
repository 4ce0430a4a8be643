//! The escrow state machine shared by both legs of a swap.
//!
//! A leg's state is implicit: it follows from the clock and from the funds the
//! escrow still holds. Each operation is a pure decision: it takes the
//! caller's identity, whether the caller holds the access credential, and the
//! current time, and returns the transfers the host ledger must perform, or
//! the error that rejects the call. The balances held by the escrow are
//! debited on success, so a leg pays out at most once.
use vstd::prelude::*;
use crate::bytes::{append_bytes, append_le_u128, append_le_u64, le_u128, le_u64};
use crate::hashing::{keccak256, keccak256_of, secret_hash_of, validate_secret};
use crate::orders::id_bytes;
use crate::timelocks::{TimelockStage, Timelocks};

verus! {

/// The complete description of one escrow leg.
#[derive(Clone, Debug)]
pub struct Immutables {
    pub order_hash: [u8; 32],
    pub hashlock: [u8; 32],
    pub maker: String,
    pub taker: String,
    pub token: String,
    pub amount: u128,
    pub safety_deposit: u128,
    pub timelocks: Timelocks,
}

/// The byte encoding of timelocks that is hashed.
pub open spec fn timelocks_bytes(t: Timelocks) -> Seq<u8> {
    le_u64(t.deployed_at) + le_u64(t.src_withdrawal) + le_u64(t.src_public_withdrawal) + le_u64(
        t.src_cancellation,
    ) + le_u64(t.src_public_cancellation) + le_u64(t.dst_withdrawal) + le_u64(
        t.dst_public_withdrawal,
    ) + le_u64(t.dst_cancellation)
}

/// Hashes timelocks.
pub fn hash_timelocks(timelocks: &Timelocks) -> (r: [u8; 32])
    ensures
        r@ == keccak256_of(timelocks_bytes(*timelocks)),
{
    let mut data: Vec<u8> = Vec::new();
    append_le_u64(&mut data, timelocks.deployed_at);
    append_le_u64(&mut data, timelocks.src_withdrawal);
    append_le_u64(&mut data, timelocks.src_public_withdrawal);
    append_le_u64(&mut data, timelocks.src_cancellation);
    append_le_u64(&mut data, timelocks.src_public_cancellation);
    append_le_u64(&mut data, timelocks.dst_withdrawal);
    append_le_u64(&mut data, timelocks.dst_public_withdrawal);
    append_le_u64(&mut data, timelocks.dst_cancellation);
    assert(data@ =~= timelocks_bytes(*timelocks));
    keccak256(data.as_slice())
}

/// The byte encoding of immutables that is hashed.
pub open spec fn immutables_bytes(im: Immutables) -> Seq<u8> {
    im.order_hash@ + im.hashlock@ + id_bytes(im.maker) + id_bytes(im.taker) + id_bytes(im.token)
        + le_u128(im.amount) + le_u128(im.safety_deposit) + keccak256_of(
        timelocks_bytes(im.timelocks),
    )
}

/// The salt that addresses the escrow of a leg: the digest of its immutables.
pub open spec fn escrow_salt_of(im: Immutables) -> Seq<u8> {
    keccak256_of(immutables_bytes(im))
}

/// Hashes immutables, giving the salt that addresses the leg's escrow.
pub fn hash_immutables(immutables: &Immutables) -> (r: [u8; 32])
    ensures
        r@ == escrow_salt_of(*immutables),
{
    let mut data: Vec<u8> = Vec::new();
    append_bytes(&mut data, immutables.order_hash.as_slice());
    append_bytes(&mut data, immutables.hashlock.as_slice());
    append_bytes(&mut data, immutables.maker.as_str().as_bytes());
    append_bytes(&mut data, immutables.taker.as_str().as_bytes());
    append_bytes(&mut data, immutables.token.as_str().as_bytes());
    append_le_u128(&mut data, immutables.amount);
    append_le_u128(&mut data, immutables.safety_deposit);
    let timelocks_hash = hash_timelocks(&immutables.timelocks);
    append_bytes(&mut data, timelocks_hash.as_slice());
    assert(data@ =~= immutables_bytes(*immutables));
    keccak256(data.as_slice())
}

/// Why an escrow operation was rejected.
#[derive(Clone, Copy, Debug, PartialEq, Eq, Structural)]
pub enum EscrowError {
    InvalidCaller,
    InvalidImmutables,
    InvalidSecret,
    TimelockNotReached,
    TimelockExpired,
    InsufficientEscrowBalance,
    InvalidCreationTime,
    InvalidSecretsAmount,
    InvalidPartialFill,
}

impl EscrowError {
    /// The name of the error.
    pub open spec fn name(&self) -> Seq<char> {
        match self {
            EscrowError::InvalidCaller => "InvalidCaller"@,
            EscrowError::InvalidImmutables => "InvalidImmutables"@,
            EscrowError::InvalidSecret => "InvalidSecret"@,
            EscrowError::TimelockNotReached => "TimelockNotReached"@,
            EscrowError::TimelockExpired => "TimelockExpired"@,
            EscrowError::InsufficientEscrowBalance => "InsufficientEscrowBalance"@,
            EscrowError::InvalidCreationTime => "InvalidCreationTime"@,
            EscrowError::InvalidSecretsAmount => "InvalidSecretsAmount"@,
            EscrowError::InvalidPartialFill => "InvalidPartialFill"@,
        }
    }

    /// The name of the error.
    pub fn as_ref(&self) -> (r: &'static str)
        ensures
            r@ == self.name(),
    {
        match self {
            EscrowError::InvalidCaller => "InvalidCaller",
            EscrowError::InvalidImmutables => "InvalidImmutables",
            EscrowError::InvalidSecret => "InvalidSecret",
            EscrowError::TimelockNotReached => "TimelockNotReached",
            EscrowError::TimelockExpired => "TimelockExpired",
            EscrowError::InsufficientEscrowBalance => "InsufficientEscrowBalance",
            EscrowError::InvalidCreationTime => "InvalidCreationTime",
            EscrowError::InvalidSecretsAmount => "InvalidSecretsAmount",
            EscrowError::InvalidPartialFill => "InvalidPartialFill",
        }
    }
}


/// What a transfer moves: the ledger's native currency or a token.
#[derive(Clone, Debug)]
pub enum Asset {
    Native,
    Token(String),
}

/// One transfer for the host ledger to perform.
#[derive(Clone, Debug)]
pub struct Transfer {
    pub asset: Asset,
    pub to: String,
    pub amount: u128,
}

/// The two transfers that close a leg: its funds, and the safety deposit that
/// rewards whoever executed the call.
#[derive(Clone, Debug)]
pub struct Settlement {
    pub funds: Transfer,
    pub deposit: Transfer,
}

/// Whether `t` moves `amount` of `token` to `to`.
pub open spec fn moves_token(t: Transfer, token: Seq<char>, to: Seq<char>, amount: u128) -> bool {
    &&& t.asset matches Asset::Token(name) && name@ == token
    &&& t.to@ == to
    &&& t.amount == amount
}

/// Whether `t` moves `amount` of the native currency to `to`.
pub open spec fn moves_native(t: Transfer, to: Seq<char>, amount: u128) -> bool {
    &&& t.asset matches Asset::Native
    &&& t.to@ == to
    &&& t.amount == amount
}

/// Whether `s` pays the leg's funds to `recipient` and its safety deposit to `caller`.
pub open spec fn settles(s: Settlement, im: Immutables, recipient: Seq<char>, caller: Seq<char>) -> bool {
    &&& moves_token(s.funds, im.token@, recipient, im.amount)
    &&& moves_native(s.deposit, caller, im.safety_deposit)
}

/// Structural validity of immutables: a positive amount and named parties.
pub open spec fn immutables_valid(im: Immutables) -> bool {
    &&& im.amount > 0
    &&& im.maker@.len() > 0
    &&& im.taker@.len() > 0
    &&& im.token@.len() > 0
}

/// Checks the structure of immutables.
pub fn validate_immutables(immutables: &Immutables) -> (r: bool)
    ensures
        r == immutables_valid(*immutables),
{
    immutables.amount > 0 && !immutables.maker.as_str().is_empty()
        && !immutables.taker.as_str().is_empty() && !immutables.token.as_str().is_empty()
}

/// The error, if any, that rejects closing a leg.
///
/// `secret` is present for a withdrawal and absent for a cancellation; `end`
/// is the exclusive end of the window, absent when the window never closes.
pub open spec fn release_error(
    token_balance: u128,
    native_balance: u128,
    authorized: bool,
    now: u64,
    secret: Option<Seq<u8>>,
    im: Immutables,
    start: int,
    end: Option<int>,
) -> Option<EscrowError> {
    if !immutables_valid(im) {
        Some(EscrowError::InvalidImmutables)
    } else if !authorized {
        Some(EscrowError::InvalidCaller)
    } else if now < start {
        Some(EscrowError::TimelockNotReached)
    } else if end matches Some(e) && now >= e {
        Some(EscrowError::TimelockExpired)
    } else if secret matches Some(s) && secret_hash_of(s) != im.hashlock@ {
        Some(EscrowError::InvalidSecret)
    } else if token_balance < im.amount || native_balance < im.safety_deposit {
        Some(EscrowError::InsufficientEscrowBalance)
    } else {
        None
    }
}

/// What closing a leg does: on success the funds and the deposit leave the
/// escrow and are paid out; on failure, exactly the error that
/// `release_error` names, and nothing changes.
pub open spec fn release_outcome(
    before: BaseEscrow,
    after: BaseEscrow,
    r: Result<Settlement, EscrowError>,
    authorized: bool,
    caller: Seq<char>,
    now: u64,
    secret: Option<Seq<u8>>,
    im: Immutables,
    start: int,
    end: Option<int>,
    recipient: Seq<char>,
) -> bool {
    let err = release_error(
        before.token_balance,
        before.native_balance,
        authorized,
        now,
        secret,
        im,
        start,
        end,
    );
    match r {
        Ok(s) => {
            &&& err is None
            &&& settles(s, im, recipient, caller)
            &&& after.token_balance == before.token_balance - im.amount
            &&& after.native_balance == before.native_balance - im.safety_deposit
            &&& after.rescue_delay == before.rescue_delay
            &&& after.access_token == before.access_token
            &&& after.factory == before.factory
        },
        Err(e) => err == Some(e) && after == before,
    }
}

/// A leg funded with exactly its amount closes at most once: once a close
/// succeeds, any further close of the same leg, by anyone, at any time, fails
/// for want of funds or earlier.
pub proof fn lemma_pays_out_once(
    e0: BaseEscrow,
    e1: BaseEscrow,
    e2: BaseEscrow,
    im: Immutables,
    r1: Result<Settlement, EscrowError>,
    r2: Result<Settlement, EscrowError>,
    authorized1: bool,
    caller1: Seq<char>,
    now1: u64,
    secret1: Option<Seq<u8>>,
    start1: int,
    end1: Option<int>,
    recipient1: Seq<char>,
    authorized2: bool,
    caller2: Seq<char>,
    now2: u64,
    secret2: Option<Seq<u8>>,
    start2: int,
    end2: Option<int>,
    recipient2: Seq<char>,
)
    requires
        e0.token_balance == im.amount,
        release_outcome(e0, e1, r1, authorized1, caller1, now1, secret1, im, start1, end1, recipient1),
        release_outcome(e1, e2, r2, authorized2, caller2, now2, secret2, im, start2, end2, recipient2),
        r1 is Ok,
    ensures
        r2 is Err,
        e2.token_balance == 0,
{
}

/// The state an escrow leg keeps: its configuration and the funds it holds.
pub struct BaseEscrow {
    pub rescue_delay: u64,
    pub access_token: String,
    pub factory: String,
    /// Funds of the leg's token that the escrow holds.
    pub token_balance: u128,
    /// Native currency that the escrow holds as safety deposit.
    pub native_balance: u128,
}

impl BaseEscrow {
    /// An escrow created by `factory`, holding nothing yet.
    pub open spec fn new_spec(rescue_delay: u64, access_token: String, factory: String) -> Self {
        BaseEscrow { rescue_delay, access_token, factory, token_balance: 0, native_balance: 0 }
    }

    /// An escrow created by `factory`, holding nothing yet.
    pub fn new(rescue_delay: u64, access_token: String, factory: String) -> (r: Self)
        ensures
            r == Self::new_spec(rescue_delay, access_token, factory),
    {
        BaseEscrow { rescue_delay, access_token, factory, token_balance: 0, native_balance: 0 }
    }

    /// Records funds that reached the escrow.
    pub fn fund(&mut self, token_amount: u128, native_amount: u128)
        requires
            old(self).token_balance + token_amount <= u128::MAX,
            old(self).native_balance + native_amount <= u128::MAX,
        ensures
            final(self).token_balance == old(self).token_balance + token_amount,
            final(self).native_balance == old(self).native_balance + native_amount,
            final(self).rescue_delay == old(self).rescue_delay,
            final(self).access_token == old(self).access_token,
            final(self).factory == old(self).factory,
    {
        self.token_balance = self.token_balance + token_amount;
        self.native_balance = self.native_balance + native_amount;
    }

    pub fn get_rescue_delay(&self) -> (r: u64)
        ensures
            r == self.rescue_delay,
    {
        self.rescue_delay
    }

    pub fn get_factory(&self) -> (r: String)
        ensures
            r == self.factory,
    {
        self.factory.clone()
    }

    pub fn get_access_token(&self) -> (r: String)
        ensures
            r == self.access_token,
    {
        self.access_token.clone()
    }

    /// Closes the leg: pays its funds to `recipient` and its safety deposit to
    /// `caller`, if nothing in `release_error` rejects the call.
    pub fn release(
        &mut self,
        authorized: bool,
        caller: &String,
        now: u64,
        secret: Option<&[u8; 32]>,
        immutables: &Immutables,
        start: u64,
        end: Option<u64>,
        recipient: &String,
    ) -> (r: Result<Settlement, EscrowError>)
        ensures
            release_outcome(
                *old(self),
                *final(self),
                r,
                authorized,
                caller@,
                now,
                match secret {
                    Some(s) => Some(s@),
                    None => None,
                },
                *immutables,
                start as int,
                match end {
                    Some(e) => Some(e as int),
                    None => None,
                },
                recipient@,
            ),
    {
        if !validate_immutables(immutables) {
            return Err(EscrowError::InvalidImmutables);
        }
        if !authorized {
            return Err(EscrowError::InvalidCaller);
        }
        if now < start {
            return Err(EscrowError::TimelockNotReached);
        }
        match end {
            Some(e) => {
                if now >= e {
                    return Err(EscrowError::TimelockExpired);
                }
            },
            None => {},
        }
        match secret {
            Some(s) => {
                if !validate_secret(s, &immutables.hashlock) {
                    return Err(EscrowError::InvalidSecret);
                }
            },
            None => {},
        }
        if self.token_balance < immutables.amount || self.native_balance
            < immutables.safety_deposit {
            return Err(EscrowError::InsufficientEscrowBalance);
        }
        self.token_balance = self.token_balance - immutables.amount;
        self.native_balance = self.native_balance - immutables.safety_deposit;
        let funds = Transfer {
            asset: Asset::Token(immutables.token.clone()),
            to: recipient.clone(),
            amount: immutables.amount,
        };
        let deposit = Transfer {
            asset: Asset::Native,
            to: caller.clone(),
            amount: immutables.safety_deposit,
        };
        Ok(Settlement { funds, deposit })
    }

    /// Rescues `amount` of `token` sent to the escrow by mistake: only the
    /// taker may, and only once the rescue delay has passed.
    pub fn rescue_funds(
        &self,
        caller: &String,
        now: u64,
        token: &String,
        amount: u128,
        immutables: &Immutables,
    ) -> (r: Result<Transfer, EscrowError>)
        requires
            immutables.timelocks.deployed_at + self.rescue_delay <= u64::MAX,
        ensures
            r matches Ok(t) ==> moves_token(t, token@, immutables.taker@, amount),
            r is Ok <==> (immutables_valid(*immutables) && caller@ == immutables.taker@ && now
                >= immutables.timelocks.deployed_at + self.rescue_delay),
            r == Err::<Transfer, EscrowError>(EscrowError::InvalidImmutables) <==> !immutables_valid(
                *immutables,
            ),
            r == Err::<Transfer, EscrowError>(EscrowError::InvalidCaller) <==> (immutables_valid(
                *immutables,
            ) && caller@ != immutables.taker@),
            r == Err::<Transfer, EscrowError>(EscrowError::TimelockNotReached) <==> (
            immutables_valid(*immutables) && caller@ == immutables.taker@ && now
                < immutables.timelocks.deployed_at + self.rescue_delay),
    {
        if !validate_immutables(immutables) {
            return Err(EscrowError::InvalidImmutables);
        }
        if *caller != immutables.taker {
            return Err(EscrowError::InvalidCaller);
        }
        if now < immutables.timelocks.rescue_start(self.rescue_delay) {
            return Err(EscrowError::TimelockNotReached);
        }
        Ok(Transfer { asset: Asset::Token(token.clone()), to: immutables.taker.clone(), amount })
    }
}


/// Whether the escrow holds enough to pay out the leg described by `im`.
pub open spec fn funded(e: BaseEscrow, im: Immutables) -> bool {
    e.token_balance >= im.amount && e.native_balance >= im.safety_deposit
}

/// Whether `now` lies in the window that opens at `start` and closes at `end`.
pub open spec fn in_window(t: Timelocks, now: u64, start: TimelockStage, end: TimelockStage) -> bool {
    t.stage_start(start) <= now < t.stage_start(end)
}

/// The source leg: the maker's funds, locked for the taker.
pub struct EscrowSrc {
    pub base: BaseEscrow,
}

impl EscrowSrc {
    pub fn new(rescue_delay: u64, access_token: String, factory: String) -> (r: Self)
        ensures
            r.base == BaseEscrow::new_spec(rescue_delay, access_token, factory),
    {
        EscrowSrc { base: BaseEscrow::new(rescue_delay, access_token, factory) }
    }

    /// The taker withdraws the funds to itself by revealing the secret, between
    /// the withdrawal and the cancellation stages.
    pub fn withdraw(&mut self, caller: &String, now: u64, secret: &[u8; 32], immutables: &Immutables) -> (r: Result<Settlement, EscrowError>)
        requires
            immutables.timelocks.fits(),
        ensures
            release_outcome(
                old(self).base,
                final(self).base,
                r,
                caller@ == immutables.taker@,
                caller@,
                now,
                Some(secret@),
                *immutables,
                immutables.timelocks.stage_start(TimelockStage::SrcWithdrawal),
                Some(immutables.timelocks.stage_start(TimelockStage::SrcCancellation)),
                immutables.taker@,
            ),
            immutables_valid(*immutables) && funded(old(self).base, *immutables) ==> (r is Ok <==> (
            caller@ == immutables.taker@ && in_window(
                immutables.timelocks,
                now,
                TimelockStage::SrcWithdrawal,
                TimelockStage::SrcCancellation,
            ) && secret_hash_of(secret@) == immutables.hashlock@)),
            r is Err ==> final(self).base == old(self).base,
            immutables.amount == 0 ==> r == Err::<Settlement, EscrowError>(EscrowError::InvalidImmutables),
    {
        self.withdraw_to(caller, now, secret, &immutables.taker, immutables)
    }

    /// As `withdraw`, paying the funds to `target` instead of the taker.
    pub fn withdraw_to(&mut self, caller: &String, now: u64, secret: &[u8; 32], target: &String, immutables: &Immutables) -> (r: Result<Settlement, EscrowError>)
        requires
            immutables.timelocks.fits(),
        ensures
            release_outcome(
                old(self).base,
                final(self).base,
                r,
                caller@ == immutables.taker@,
                caller@,
                now,
                Some(secret@),
                *immutables,
                immutables.timelocks.stage_start(TimelockStage::SrcWithdrawal),
                Some(immutables.timelocks.stage_start(TimelockStage::SrcCancellation)),
                target@,
            ),
            immutables.amount == 0 ==> r == Err::<Settlement, EscrowError>(EscrowError::InvalidImmutables),
    {
        let authorized = *caller == immutables.taker;
        let start = immutables.timelocks.get(TimelockStage::SrcWithdrawal);
        let end = immutables.timelocks.get(TimelockStage::SrcCancellation);
        self.base.release(authorized, caller, now, Some(secret), immutables, start, Some(end), target)
    }

    /// Any holder of the access credential withdraws the funds to the taker,
    /// between the public withdrawal and the cancellation stages.
    pub fn public_withdraw(&mut self, caller: &String, has_access: bool, now: u64, secret: &[u8; 32], immutables: &Immutables) -> (r: Result<Settlement, EscrowError>)
        requires
            immutables.timelocks.fits(),
        ensures
            release_outcome(
                old(self).base,
                final(self).base,
                r,
                has_access,
                caller@,
                now,
                Some(secret@),
                *immutables,
                immutables.timelocks.stage_start(TimelockStage::SrcPublicWithdrawal),
                Some(immutables.timelocks.stage_start(TimelockStage::SrcCancellation)),
                immutables.taker@,
            ),
            immutables.amount == 0 ==> r == Err::<Settlement, EscrowError>(EscrowError::InvalidImmutables),
    {
        let start = immutables.timelocks.get(TimelockStage::SrcPublicWithdrawal);
        let end = immutables.timelocks.get(TimelockStage::SrcCancellation);
        self.base.release(has_access, caller, now, Some(secret), immutables, start, Some(end), &immutables.taker)
    }

    /// The taker returns the funds to the maker once the cancellation stage
    /// has started.
    pub fn cancel(&mut self, caller: &String, now: u64, immutables: &Immutables) -> (r: Result<Settlement, EscrowError>)
        requires
            immutables.timelocks.fits(),
        ensures
            release_outcome(
                old(self).base,
                final(self).base,
                r,
                caller@ == immutables.taker@,
                caller@,
                now,
                None,
                *immutables,
                immutables.timelocks.stage_start(TimelockStage::SrcCancellation),
                None,
                immutables.maker@,
            ),
            immutables.amount == 0 ==> r == Err::<Settlement, EscrowError>(EscrowError::InvalidImmutables),
    {
        let authorized = *caller == immutables.taker;
        let start = immutables.timelocks.get(TimelockStage::SrcCancellation);
        self.base.release(authorized, caller, now, None, immutables, start, None, &immutables.maker)
    }

    /// Any holder of the access credential returns the funds to the maker once
    /// the public cancellation stage has started.
    pub fn public_cancel(&mut self, caller: &String, has_access: bool, now: u64, immutables: &Immutables) -> (r: Result<Settlement, EscrowError>)
        requires
            immutables.timelocks.fits(),
        ensures
            release_outcome(
                old(self).base,
                final(self).base,
                r,
                has_access,
                caller@,
                now,
                None,
                *immutables,
                immutables.timelocks.stage_start(TimelockStage::SrcPublicCancellation),
                None,
                immutables.maker@,
            ),
            immutables.amount == 0 ==> r == Err::<Settlement, EscrowError>(EscrowError::InvalidImmutables),
    {
        let start = immutables.timelocks.get(TimelockStage::SrcPublicCancellation);
        self.base.release(has_access, caller, now, None, immutables, start, None, &immutables.maker)
    }

    pub fn validate_immutables(&self, immutables: &Immutables) -> (r: Result<(), EscrowError>)
        ensures
            r is Ok <==> immutables_valid(*immutables),
            r is Err ==> r == Err::<(), EscrowError>(EscrowError::InvalidImmutables),
    {
        if validate_immutables(immutables) {
            Ok(())
        } else {
            Err(EscrowError::InvalidImmutables)
        }
    }

    pub fn rescue_funds(&self, caller: &String, now: u64, token: &String, amount: u128, immutables: &Immutables) -> (r: Result<Transfer, EscrowError>)
        requires
            immutables.timelocks.deployed_at + self.base.rescue_delay <= u64::MAX,
        ensures
            r matches Ok(t) ==> moves_token(t, token@, immutables.taker@, amount),
            r is Ok <==> (immutables_valid(*immutables) && caller@ == immutables.taker@ && now
                >= immutables.timelocks.deployed_at + self.base.rescue_delay),
            r == Err::<Transfer, EscrowError>(EscrowError::InvalidImmutables) <==> !immutables_valid(
                *immutables,
            ),
            r == Err::<Transfer, EscrowError>(EscrowError::InvalidCaller) <==> (immutables_valid(
                *immutables,
            ) && caller@ != immutables.taker@),
            r == Err::<Transfer, EscrowError>(EscrowError::TimelockNotReached) <==> (
            immutables_valid(*immutables) && caller@ == immutables.taker@ && now
                < immutables.timelocks.deployed_at + self.base.rescue_delay),
    {
        self.base.rescue_funds(caller, now, token, amount, immutables)
    }

    pub fn get_rescue_delay(&self) -> (r: u64)
        ensures
            r == self.base.rescue_delay,
    {
        self.base.get_rescue_delay()
    }

    pub fn get_factory(&self) -> (r: String)
        ensures
            r == self.base.factory,
    {
        self.base.get_factory()
    }

    pub fn get_access_token(&self) -> (r: String)
        ensures
            r == self.base.access_token,
    {
        self.base.get_access_token()
    }
}

/// The destination leg: the taker's funds, locked for the maker.
pub struct EscrowDst {
    pub base: BaseEscrow,
}

impl EscrowDst {
    pub fn new(rescue_delay: u64, access_token: String, factory: String) -> (r: Self)
        ensures
            r.base == BaseEscrow::new_spec(rescue_delay, access_token, factory),
    {
        EscrowDst { base: BaseEscrow::new(rescue_delay, access_token, factory) }
    }

    /// The taker releases the funds to the maker by revealing the secret,
    /// between the withdrawal and the cancellation stages.
    pub fn withdraw(&mut self, caller: &String, now: u64, secret: &[u8; 32], immutables: &Immutables) -> (r: Result<Settlement, EscrowError>)
        requires
            immutables.timelocks.fits(),
        ensures
            release_outcome(
                old(self).base,
                final(self).base,
                r,
                caller@ == immutables.taker@,
                caller@,
                now,
                Some(secret@),
                *immutables,
                immutables.timelocks.stage_start(TimelockStage::DstWithdrawal),
                Some(immutables.timelocks.stage_start(TimelockStage::DstCancellation)),
                immutables.maker@,
            ),
            immutables_valid(*immutables) && funded(old(self).base, *immutables) ==> (r is Ok <==> (
            caller@ == immutables.taker@ && in_window(
                immutables.timelocks,
                now,
                TimelockStage::DstWithdrawal,
                TimelockStage::DstCancellation,
            ) && secret_hash_of(secret@) == immutables.hashlock@)),
            r is Err ==> final(self).base == old(self).base,
            immutables.amount == 0 ==> r == Err::<Settlement, EscrowError>(EscrowError::InvalidImmutables),
    {
        let authorized = *caller == immutables.taker;
        let start = immutables.timelocks.get(TimelockStage::DstWithdrawal);
        let end = immutables.timelocks.get(TimelockStage::DstCancellation);
        self.base.release(authorized, caller, now, Some(secret), immutables, start, Some(end), &immutables.maker)
    }

    /// Any holder of the access credential releases the funds to the maker,
    /// between the public withdrawal and the cancellation stages.
    pub fn public_withdraw(&mut self, caller: &String, has_access: bool, now: u64, secret: &[u8; 32], immutables: &Immutables) -> (r: Result<Settlement, EscrowError>)
        requires
            immutables.timelocks.fits(),
        ensures
            release_outcome(
                old(self).base,
                final(self).base,
                r,
                has_access,
                caller@,
                now,
                Some(secret@),
                *immutables,
                immutables.timelocks.stage_start(TimelockStage::DstPublicWithdrawal),
                Some(immutables.timelocks.stage_start(TimelockStage::DstCancellation)),
                immutables.maker@,
            ),
            immutables.amount == 0 ==> r == Err::<Settlement, EscrowError>(EscrowError::InvalidImmutables),
    {
        let start = immutables.timelocks.get(TimelockStage::DstPublicWithdrawal);
        let end = immutables.timelocks.get(TimelockStage::DstCancellation);
        self.base.release(has_access, caller, now, Some(secret), immutables, start, Some(end), &immutables.maker)
    }

    /// The taker takes its funds back once the cancellation stage has started.
    pub fn cancel(&mut self, caller: &String, now: u64, immutables: &Immutables) -> (r: Result<Settlement, EscrowError>)
        requires
            immutables.timelocks.fits(),
        ensures
            release_outcome(
                old(self).base,
                final(self).base,
                r,
                caller@ == immutables.taker@,
                caller@,
                now,
                None,
                *immutables,
                immutables.timelocks.stage_start(TimelockStage::DstCancellation),
                None,
                immutables.taker@,
            ),
            immutables.amount == 0 ==> r == Err::<Settlement, EscrowError>(EscrowError::InvalidImmutables),
    {
        let authorized = *caller == immutables.taker;
        let start = immutables.timelocks.get(TimelockStage::DstCancellation);
        self.base.release(authorized, caller, now, None, immutables, start, None, &immutables.taker)
    }

    pub fn validate_immutables(&self, immutables: &Immutables) -> (r: Result<(), EscrowError>)
        ensures
            r is Ok <==> immutables_valid(*immutables),
            r is Err ==> r == Err::<(), EscrowError>(EscrowError::InvalidImmutables),
    {
        if validate_immutables(immutables) {
            Ok(())
        } else {
            Err(EscrowError::InvalidImmutables)
        }
    }

    pub fn rescue_funds(&self, caller: &String, now: u64, token: &String, amount: u128, immutables: &Immutables) -> (r: Result<Transfer, EscrowError>)
        requires
            immutables.timelocks.deployed_at + self.base.rescue_delay <= u64::MAX,
        ensures
            r matches Ok(t) ==> moves_token(t, token@, immutables.taker@, amount),
            r is Ok <==> (immutables_valid(*immutables) && caller@ == immutables.taker@ && now
                >= immutables.timelocks.deployed_at + self.base.rescue_delay),
            r == Err::<Transfer, EscrowError>(EscrowError::InvalidImmutables) <==> !immutables_valid(
                *immutables,
            ),
            r == Err::<Transfer, EscrowError>(EscrowError::InvalidCaller) <==> (immutables_valid(
                *immutables,
            ) && caller@ != immutables.taker@),
            r == Err::<Transfer, EscrowError>(EscrowError::TimelockNotReached) <==> (
            immutables_valid(*immutables) && caller@ == immutables.taker@ && now
                < immutables.timelocks.deployed_at + self.base.rescue_delay),
    {
        self.base.rescue_funds(caller, now, token, amount, immutables)
    }

    pub fn get_rescue_delay(&self) -> (r: u64)
        ensures
            r == self.base.rescue_delay,
    {
        self.base.get_rescue_delay()
    }

    pub fn get_factory(&self) -> (r: String)
        ensures
            r == self.base.factory,
    {
        self.base.get_factory()
    }

    pub fn get_access_token(&self) -> (r: String)
        ensures
            r == self.base.access_token,
    {
        self.base.get_access_token()
    }
}

} // verus!
