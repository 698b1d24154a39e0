//! The records of the sale: its configuration, the record of a purchase, the
//! errors that end a request, and the transfer a purchase asks for.

use crate::identity::Identity;
use vstd::prelude::*;

verus! {

/// The sale-wide configuration, of which there is one.
#[derive(Clone, Copy, Debug, PartialEq, Eq)]
pub struct Config {
    /// The identity that may update the configuration. No operation changes it.
    pub admin: Identity,
    /// The identity to which collected funds settle.
    pub treasury: Identity,
    /// The asset type accepted as stable-asset payment.
    pub usdc_mint: Identity,
    /// While set, both purchase operations are rejected.
    pub paused: bool,
}

impl Config {
    /// Bytes of the stored record: three identities and one flag.
    pub const SIZE: usize = 32 + 32 + 32 + 1;
}

/// The durable record of one purchase. One of the two payment amounts is zero.
#[derive(Clone, Copy, Debug, PartialEq, Eq)]
pub struct PurchaseEvent {
    pub buyer: Identity,
    /// Units of the stable asset paid; zero for a native payment.
    pub usdc_amount: u64,
    /// Units of the native asset paid; zero for a stable-asset payment.
    pub sol_amount: u64,
    /// The allocation of the new token that the buyer claims.
    pub s3mt_amount: u64,
    /// Ledger time of the purchase, in seconds.
    pub timestamp: i64,
}

impl PurchaseEvent {
    /// The record is one of a payment: exactly one of the two payment
    /// amounts is positive, the other is zero, and the allocation is
    /// positive.
    pub open spec fn well_formed(self) -> bool {
        &&& self.s3mt_amount > 0
        &&& if self.sol_amount == 0 {
            self.usdc_amount > 0
        } else {
            self.usdc_amount == 0
        }
    }
}

/// Why a request was rejected. Every error ends the request with nothing
/// changed and no funds moved.
#[derive(Clone, Copy, Debug, PartialEq, Eq, Structural)]
pub enum PresaleError {
    /// A purchase was attempted while the sale is paused.
    SalePaused,
    /// The payment amount or the allocation amount is zero.
    ZeroAmount,
    /// The caller is not the stored admin, or an account of the request is
    /// not the one that the configuration leads to.
    Unauthorized,
    /// An account of the request is of another asset type than the accepted
    /// stable asset.
    AssetMismatch,
    /// The transfer of the payment was refused.
    TransferFailure,
    /// The configuration record exists already.
    AlreadyInitialized,
}

/// The ledger time at which a request is served.
#[derive(Clone, Copy, Debug, PartialEq, Eq, Structural)]
pub struct Clock {
    pub unix_timestamp: i64,
}

/// A movement of funds that a purchase asks its host to carry out.
#[derive(Clone, Copy, Debug, PartialEq, Eq)]
pub enum Transfer {
    /// `amount` units of a token, from one token account to another, on the
    /// signed authority of the owner of the first.
    Token { from: Identity, to: Identity, authority: Identity, amount: u64 },
    /// `lamports` units of the native asset, from one account to another.
    Native { from: Identity, to: Identity, lamports: u64 },
}

/// A purchase that passed every validation and waits for its payment: the
/// transfer to carry out, and the record to emit once it has succeeded.
#[derive(Clone, Copy, Debug, PartialEq, Eq)]
pub struct PendingPurchase {
    pub transfer: Transfer,
    pub event: PurchaseEvent,
}

impl PendingPurchase {
    /// What becomes of the purchase once the transfer has been attempted.
    pub open spec fn settle_spec(self, transferred: bool) -> Result<PurchaseEvent, PresaleError> {
        if transferred {
            Ok(self.event)
        } else {
            Err(PresaleError::TransferFailure)
        }
    }

    /// Ends the purchase: with its record if the transfer succeeded, with
    /// `TransferFailure` and no record if it was refused.
    pub fn settle(self, transferred: bool) -> (outcome: Result<PurchaseEvent, PresaleError>)
        ensures
            outcome == self.settle_spec(transferred),
    {
        if transferred {
            Ok(self.event)
        } else {
            Err(PresaleError::TransferFailure)
        }
    }
}

} // verus!
