//! Fee arithmetic for fills that pay a fee out of the taking amount.
use vstd::prelude::*;
use crate::bytes::{load_le_u128, read_le_u128};
use crate::escrow::{moves_token, Asset, Transfer};
use crate::orders::Order;

verus! {

/// How a fee is charged on a fill.
#[derive(Clone, Debug)]
pub struct FeeConfig {
    pub fee_amount: u128,
    pub fee_receiver: String,
    pub custom_receiver: bool,
}

/// Why a fee operation was rejected.
#[derive(Clone, Copy, Debug, PartialEq, Eq, Structural)]
pub enum FeeTakerError {
    OnlyLimitOrderProtocol,
    OnlyWhitelistOrAccessToken,
    EthTransferFailed,
    InconsistentFee,
    TransferFailed,
    InvalidAmount,
    OnlyOwner,
}

impl FeeTakerError {
    /// The name of the error.
    pub open spec fn name(&self) -> Seq<char> {
        match self {
            FeeTakerError::OnlyLimitOrderProtocol => "OnlyLimitOrderProtocol"@,
            FeeTakerError::OnlyWhitelistOrAccessToken => "OnlyWhitelistOrAccessToken"@,
            FeeTakerError::EthTransferFailed => "EthTransferFailed"@,
            FeeTakerError::InconsistentFee => "InconsistentFee"@,
            FeeTakerError::TransferFailed => "TransferFailed"@,
            FeeTakerError::InvalidAmount => "InvalidAmount"@,
            FeeTakerError::OnlyOwner => "OnlyOwner"@,
        }
    }

    /// The name of the error.
    pub fn as_ref(&self) -> (r: &'static str)
        ensures
            r@ == self.name(),
    {
        match self {
            FeeTakerError::OnlyLimitOrderProtocol => "OnlyLimitOrderProtocol",
            FeeTakerError::OnlyWhitelistOrAccessToken => "OnlyWhitelistOrAccessToken",
            FeeTakerError::EthTransferFailed => "EthTransferFailed",
            FeeTakerError::InconsistentFee => "InconsistentFee",
            FeeTakerError::TransferFailed => "TransferFailed",
            FeeTakerError::InvalidAmount => "InvalidAmount",
            FeeTakerError::OnlyOwner => "OnlyOwner",
        }
    }
}


/// `amount` times `fee_rate` basis points, the product saturating at the
/// largest `u128`.
pub open spec fn fee_of(amount: u128, fee_rate: u128) -> u128 {
    let p = amount * fee_rate;
    (if p > u128::MAX { u128::MAX as int } else { p }) as u128 / 10000
}

/// The fee on `amount` at `fee_rate` basis points.
pub fn calculate_fee_amount(amount: u128, fee_rate: u128) -> (r: u128)
    ensures
        r == fee_of(amount, fee_rate),
{
    match amount.checked_mul(fee_rate) {
        Some(p) => p / 10000,
        None => u128::MAX / 10000,
    }
}

/// Whether a fee is charged at all.
pub fn is_fee_applicable(fee_config: &FeeConfig) -> (r: bool)
    ensures
        r == (fee_config.fee_amount > 0),
{
    fee_config.fee_amount > 0
}

/// A charged fee must go to the order's receiver unless the configuration
/// names a custom receiver.
pub fn validate_fee_config(fee_config: &FeeConfig, receiver: &String) -> (r: Result<(), FeeTakerError>)
    ensures
        r is Err <==> (fee_config.fee_amount > 0 && !fee_config.custom_receiver
            && fee_config.fee_receiver@ != receiver@),
        r is Err ==> r == Err::<(), FeeTakerError>(FeeTakerError::InconsistentFee),
{
    if fee_config.fee_amount > 0 && !fee_config.custom_receiver && fee_config.fee_receiver
        != *receiver {
        return Err(FeeTakerError::InconsistentFee);
    }
    Ok(())
}

/// Splits `amount` into what reaches the receiver and the fee: the fee is
/// taken first, and a transfer that would leave the receiver nothing is
/// rejected.
pub fn split_fee(amount: u128, fee_config: &FeeConfig) -> (r: Result<(u128, u128), FeeTakerError>)
    ensures
        amount <= fee_config.fee_amount ==> r == Err::<(u128, u128), FeeTakerError>(
            FeeTakerError::InvalidAmount,
        ),
        amount > fee_config.fee_amount ==> r == Ok::<(u128, u128), FeeTakerError>(
            ((amount - fee_config.fee_amount) as u128, fee_config.fee_amount),
        ),
{
    let transfer_amount = if amount > fee_config.fee_amount {
        amount - fee_config.fee_amount
    } else {
        0
    };
    if transfer_amount == 0 {
        return Err(FeeTakerError::InvalidAmount);
    }
    Ok((transfer_amount, fee_config.fee_amount))
}

/// Reads the fee amount and the custom-receiver flag from an extension of at
/// least 32 bytes; the fee receiver is the one given.
pub fn parse_fee_config(extension: &[u8], fee_receiver: String) -> (r: Result<FeeConfig, FeeTakerError>)
    ensures
        extension@.len() < 32 <==> r == Err::<FeeConfig, FeeTakerError>(FeeTakerError::InvalidAmount),
        extension@.len() >= 32 ==> (r matches Ok(c) && c.fee_amount == read_le_u128(extension@, 0)
            && c.custom_receiver == (extension@[16] != 0) && c.fee_receiver == fee_receiver),
{
    if extension.len() < 32 {
        return Err(FeeTakerError::InvalidAmount);
    }
    let fee_amount = load_le_u128(extension, 0);
    let custom_receiver = extension[16] != 0;
    Ok(FeeConfig { fee_amount, fee_receiver, custom_receiver })
}

/// Collects fees on fills of the limit order protocol.
pub struct FeeTaker {
    pub limit_order_protocol: String,
    pub access_token: String,
    pub weth: String,
    pub owner: String,
}

impl FeeTaker {
    pub fn new(limit_order_protocol: String, access_token: String, weth: String, owner: String) -> (r: Self)
        ensures
            r.limit_order_protocol == limit_order_protocol,
            r.access_token == access_token,
            r.weth == weth,
            r.owner == owner,
    {
        FeeTaker { limit_order_protocol, access_token, weth, owner }
    }

    /// Decides how the taking amount of a fill reaches the order's receiver:
    /// whole when no fee is charged, else less the fee, which goes to the
    /// fee receiver. Only the limit order protocol may call this.
    pub fn post_interaction(
        &self,
        caller: &String,
        order: &Order,
        extension: &[u8],
        taking_amount: u128,
        fee_receiver: String,
    ) -> (r: Result<Vec<Transfer>, FeeTakerError>)
        ensures
            caller@ != self.limit_order_protocol@ ==> r == Err::<Vec<Transfer>, FeeTakerError>(
                FeeTakerError::OnlyLimitOrderProtocol,
            ),
            caller@ == self.limit_order_protocol@ && extension@.len() < 32 ==> r == Err::<
                Vec<Transfer>,
                FeeTakerError,
            >(FeeTakerError::InvalidAmount),
            ({
                let fee = read_le_u128(extension@, 0);
                let custom = extension@.len() >= 32 && extension@[16] != 0;
                caller@ == self.limit_order_protocol@ && extension@.len() >= 32 ==> {
                    if fee > 0 && !custom && fee_receiver@ != order.receiver@ {
                        r == Err::<Vec<Transfer>, FeeTakerError>(FeeTakerError::InconsistentFee)
                    } else if fee == 0 {
                        r matches Ok(ts) && ts@.len() == 1 && moves_token(
                            ts@[0],
                            order.taker_asset@,
                            order.receiver@,
                            taking_amount,
                        )
                    } else if taking_amount <= fee {
                        r == Err::<Vec<Transfer>, FeeTakerError>(FeeTakerError::InvalidAmount)
                    } else {
                        r matches Ok(ts) && ts@.len() == 2 && moves_token(
                            ts@[0],
                            order.taker_asset@,
                            order.receiver@,
                            (taking_amount - fee) as u128,
                        ) && moves_token(ts@[1], order.taker_asset@, fee_receiver@, fee)
                    }
                }
            }),
    {
        if *caller != self.limit_order_protocol {
            return Err(FeeTakerError::OnlyLimitOrderProtocol);
        }
        let config = match parse_fee_config(extension, fee_receiver) {
            Ok(c) => c,
            Err(e) => return Err(e),
        };
        match validate_fee_config(&config, &order.receiver) {
            Ok(()) => {},
            Err(e) => return Err(e),
        }
        let mut transfers: Vec<Transfer> = Vec::new();
        if is_fee_applicable(&config) {
            let (transfer_amount, fee_amount) = match split_fee(taking_amount, &config) {
                Ok(p) => p,
                Err(e) => return Err(e),
            };
            transfers.push(
                Transfer {
                    asset: Asset::Token(order.taker_asset.clone()),
                    to: order.receiver.clone(),
                    amount: transfer_amount,
                },
            );
            transfers.push(
                Transfer {
                    asset: Asset::Token(order.taker_asset.clone()),
                    to: config.fee_receiver,
                    amount: fee_amount,
                },
            );
        } else {
            transfers.push(
                Transfer {
                    asset: Asset::Token(order.taker_asset.clone()),
                    to: order.receiver.clone(),
                    amount: taking_amount,
                },
            );
        }
        Ok(transfers)
    }

    /// The owner takes back `amount` of `token` sent to the contract.
    pub fn rescue_funds(&self, caller: &String, token: &String, amount: u128) -> (r: Result<Transfer, FeeTakerError>)
        ensures
            caller@ != self.owner@ ==> r == Err::<Transfer, FeeTakerError>(FeeTakerError::OnlyOwner),
            caller@ == self.owner@ ==> (r matches Ok(t) && moves_token(t, token@, self.owner@, amount)),
    {
        if *caller != self.owner {
            return Err(FeeTakerError::OnlyOwner);
        }
        Ok(Transfer { asset: Asset::Token(token.clone()), to: self.owner.clone(), amount })
    }

    pub fn get_limit_order_protocol(&self) -> (r: String)
        ensures
            r == self.limit_order_protocol,
    {
        self.limit_order_protocol.clone()
    }

    pub fn get_access_token(&self) -> (r: String)
        ensures
            r == self.access_token,
    {
        self.access_token.clone()
    }

    pub fn get_weth(&self) -> (r: String)
        ensures
            r == self.weth,
    {
        self.weth.clone()
    }

    pub fn get_owner(&self) -> (r: String)
        ensures
            r == self.owner,
    {
        self.owner.clone()
    }
}

} // verus!
