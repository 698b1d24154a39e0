//! The four operations of the sale: `initialize`, `purchase_usdc`,
//! `purchase_sol` and `update_config`.
//!
//! Each operation first holds the accounts of the request against the caller
//! and the stored configuration, then decides. A request that fails any test
//! is rejected with the first error in this order: `Unauthorized`,
//! `AssetMismatch`, `AlreadyInitialized`, `SalePaused`, `ZeroAmount`; a
//! rejected request changes nothing and asks for no transfer.
//!
//! Every operation comes in two forms. The one ending in `_with` takes the
//! derived addresses that the accounts are compared with; the other derives
//! them itself and hands them on.

use crate::accounts::{Initialize, PurchaseSol, PurchaseUsdc, UpdateConfig};
use crate::address::{address_view, associated_token_address, config_address, spec_config_address};
use crate::identity::Identity;
use crate::state::{Config, PendingPurchase, PresaleError, PurchaseEvent, Transfer};
use vstd::prelude::*;

verus! {

/// The record that `initialize` creates.
pub open spec fn initial_config(admin: Identity, treasury: Identity, usdc_mint: Identity) -> Config {
    Config { admin, treasury, usdc_mint, paused: false }
}

/// The record after an update: each supplied field overwritten, each omitted
/// field and the admin as before.
pub open spec fn updated_config(
    config: Config,
    treasury: Option<Identity>,
    paused: Option<bool>,
    usdc_mint: Option<Identity>,
) -> Config {
    Config {
        admin: config.admin,
        treasury: match treasury {
            Some(t) => t,
            None => config.treasury,
        },
        usdc_mint: match usdc_mint {
            Some(m) => m,
            None => config.usdc_mint,
        },
        paused: match paused {
            Some(p) => p,
            None => config.paused,
        },
    }
}

/// The record of a stable-asset purchase.
pub open spec fn usdc_event(ctx: PurchaseUsdc, usdc_amount: u64, s3mt_amount: u64) -> PurchaseEvent {
    PurchaseEvent {
        buyer: ctx.buyer,
        usdc_amount,
        sol_amount: 0,
        s3mt_amount,
        timestamp: ctx.clock.unix_timestamp,
    }
}

/// The record of a native-asset purchase.
pub open spec fn sol_event(ctx: PurchaseSol, sol_amount: u64, s3mt_amount: u64) -> PurchaseEvent {
    PurchaseEvent {
        buyer: ctx.buyer,
        usdc_amount: 0,
        sol_amount,
        s3mt_amount,
        timestamp: ctx.clock.unix_timestamp,
    }
}

/// The transfer that a stable-asset purchase asks for: the payment, from the
/// buyer's token account to the treasury's, on the buyer's authority.
pub open spec fn usdc_transfer(ctx: PurchaseUsdc, usdc_amount: u64) -> Transfer {
    Transfer::Token {
        from: ctx.buyer_usdc_account.address,
        to: ctx.treasury_usdc_account.address,
        authority: ctx.buyer,
        amount: usdc_amount,
    }
}

/// The transfer that a native-asset purchase asks for: the payment, from
/// the buyer to the treasury.
pub open spec fn sol_transfer(ctx: PurchaseSol, sol_amount: u64) -> Transfer {
    Transfer::Native { from: ctx.buyer, to: ctx.treasury, lamports: sol_amount }
}

/// What `initialize` decides: the record it creates, or why it creates none.
pub open spec fn initialize_spec(
    ctx: Initialize,
    config_address: Option<Seq<u8>>,
    treasury: Identity,
    usdc_mint: Identity,
) -> Result<Config, PresaleError> {
    if !ctx.config.kept_at(config_address) {
        Err(PresaleError::Unauthorized)
    } else if ctx.config.data is Some {
        Err(PresaleError::AlreadyInitialized)
    } else {
        Ok(initial_config(ctx.admin, treasury, usdc_mint))
    }
}

/// What `purchase_usdc` decides: the purchase that awaits its payment, or
/// why there is none.
pub open spec fn purchase_usdc_spec(
    ctx: PurchaseUsdc,
    config_address: Option<Seq<u8>>,
    buyer_address: Option<Seq<u8>>,
    treasury_address: Option<Seq<u8>>,
    usdc_amount: u64,
    s3mt_amount: u64,
) -> Result<PendingPurchase, PresaleError> {
    match ctx.config.data {
        None => Err(PresaleError::Unauthorized),
        Some(config) => if !ctx.authorized(config, config_address, buyer_address, treasury_address) {
            Err(PresaleError::Unauthorized)
        } else if !ctx.asset_matches(config) {
            Err(PresaleError::AssetMismatch)
        } else if config.paused {
            Err(PresaleError::SalePaused)
        } else if usdc_amount == 0 || s3mt_amount == 0 {
            Err(PresaleError::ZeroAmount)
        } else {
            Ok(
                PendingPurchase {
                    transfer: usdc_transfer(ctx, usdc_amount),
                    event: usdc_event(ctx, usdc_amount, s3mt_amount),
                },
            )
        },
    }
}

/// What `purchase_sol` decides: the purchase that awaits its payment, or why
/// there is none.
pub open spec fn purchase_sol_spec(
    ctx: PurchaseSol,
    config_address: Option<Seq<u8>>,
    sol_amount: u64,
    s3mt_amount: u64,
) -> Result<PendingPurchase, PresaleError> {
    match ctx.config.data {
        None => Err(PresaleError::Unauthorized),
        Some(config) => if !ctx.authorized(config, config_address) {
            Err(PresaleError::Unauthorized)
        } else if config.paused {
            Err(PresaleError::SalePaused)
        } else if sol_amount == 0 || s3mt_amount == 0 {
            Err(PresaleError::ZeroAmount)
        } else {
            Ok(
                PendingPurchase {
                    transfer: sol_transfer(ctx, sol_amount),
                    event: sol_event(ctx, sol_amount, s3mt_amount),
                },
            )
        },
    }
}

/// What `update_config` decides: the record after the update, or why there
/// is no update.
pub open spec fn update_config_spec(
    ctx: UpdateConfig,
    config_address: Option<Seq<u8>>,
    treasury: Option<Identity>,
    paused: Option<bool>,
    usdc_mint: Option<Identity>,
) -> Result<Config, PresaleError> {
    match ctx.config.data {
        None => Err(PresaleError::Unauthorized),
        Some(config) => if !ctx.authorized(config, config_address) {
            Err(PresaleError::Unauthorized)
        } else {
            Ok(updated_config(config, treasury, paused, usdc_mint))
        },
    }
}

/// Creates the configuration record, given the address derived for it.
///
/// Succeeds exactly when the account lies at `config_address` and holds no
/// record yet. The record then has the caller as admin, the given treasury
/// and stable asset, and is not paused. Otherwise nothing changes.
pub fn initialize_with(
    ctx: &mut Initialize,
    config_address: Option<Identity>,
    treasury: Identity,
    usdc_mint: Identity,
) -> (outcome: Result<(), PresaleError>)
    ensures
        match initialize_spec(*old(ctx), address_view(config_address), treasury, usdc_mint) {
            Ok(config) => outcome == Ok::<(), PresaleError>(()) && *final(ctx) == old(
                ctx,
            ).with_record(config),
            Err(error) => outcome == Err::<(), PresaleError>(error) && *final(ctx) == *old(ctx),
        },
{
    if !ctx.config.is_kept_at(config_address) {
        return Err(PresaleError::Unauthorized);
    }
    if ctx.config.data.is_some() {
        return Err(PresaleError::AlreadyInitialized);
    }
    ctx.config.data = Some(Config { admin: ctx.admin, treasury, usdc_mint, paused: false });
    Ok(())
}

/// Creates the configuration record at its derived address.
pub fn initialize(ctx: &mut Initialize, treasury: Identity, usdc_mint: Identity) -> (outcome:
    Result<(), PresaleError>)
    ensures
        match initialize_spec(*old(ctx), spec_config_address(), treasury, usdc_mint) {
            Ok(config) => outcome == Ok::<(), PresaleError>(()) && *final(ctx) == old(
                ctx,
            ).with_record(config),
            Err(error) => outcome == Err::<(), PresaleError>(error) && *final(ctx) == *old(ctx),
        },
{
    let expected = config_address();
    initialize_with(ctx, expected, treasury, usdc_mint)
}

/// Decides a purchase paid in the stable asset, given the addresses derived
/// for the configuration record and for the two token accounts.
///
/// Succeeds exactly when a record exists, every account is the one the
/// record leads to, all are of the accepted asset type, the sale is not
/// paused and both amounts are positive. The purchase then awaits the
/// transfer of `usdc_amount`; its record carries that amount, no native
/// amount, the claimed allocation and the time of the request.
pub fn purchase_usdc_with(
    ctx: &PurchaseUsdc,
    config_address: Option<Identity>,
    buyer_address: Option<Identity>,
    treasury_address: Option<Identity>,
    usdc_amount: u64,
    s3mt_amount: u64,
) -> (outcome: Result<PendingPurchase, PresaleError>)
    ensures
        outcome == purchase_usdc_spec(
            *ctx,
            address_view(config_address),
            address_view(buyer_address),
            address_view(treasury_address),
            usdc_amount,
            s3mt_amount,
        ),
{
    let config = match ctx.config.data {
        Some(config) => config,
        None => {
            return Err(PresaleError::Unauthorized);
        },
    };
    if !ctx.is_authorized(&config, config_address, buyer_address, treasury_address) {
        return Err(PresaleError::Unauthorized);
    }
    if !ctx.is_asset_matching(&config) {
        return Err(PresaleError::AssetMismatch);
    }
    if config.paused {
        return Err(PresaleError::SalePaused);
    }
    if usdc_amount == 0 || s3mt_amount == 0 {
        return Err(PresaleError::ZeroAmount);
    }
    Ok(
        PendingPurchase {
            transfer: Transfer::Token {
                from: ctx.buyer_usdc_account.address,
                to: ctx.treasury_usdc_account.address,
                authority: ctx.buyer,
                amount: usdc_amount,
            },
            event: PurchaseEvent {
                buyer: ctx.buyer,
                usdc_amount,
                sol_amount: 0,
                s3mt_amount,
                timestamp: ctx.clock.unix_timestamp,
            },
        },
    )
}

/// Decides a purchase paid in the stable asset.
pub fn purchase_usdc(ctx: &PurchaseUsdc, usdc_amount: u64, s3mt_amount: u64) -> (outcome: Result<
    PendingPurchase,
    PresaleError,
>)
    ensures
        outcome == purchase_usdc_spec(
            *ctx,
            spec_config_address(),
            ctx.spec_buyer_address(),
            ctx.spec_treasury_address(),
            usdc_amount,
            s3mt_amount,
        ),
{
    match ctx.config.data {
        None => Err(PresaleError::Unauthorized),
        Some(config) => {
            let expected = config_address();
            let buyer_address = associated_token_address(&ctx.buyer, &config.usdc_mint);
            let treasury_address = associated_token_address(&config.treasury, &config.usdc_mint);
            purchase_usdc_with(
                ctx,
                expected,
                buyer_address,
                treasury_address,
                usdc_amount,
                s3mt_amount,
            )
        },
    }
}

/// Decides a purchase paid in the native asset, given the address derived
/// for the configuration record.
///
/// Succeeds exactly when a record exists, the payment goes to the configured
/// treasury, the configuration account lies at `config_address`, the sale is
/// not paused and both amounts are positive. The purchase then awaits the
/// transfer of `sol_amount`; its record carries that amount, no stable-asset
/// amount, the claimed allocation and the time of the request.
pub fn purchase_sol_with(
    ctx: &PurchaseSol,
    config_address: Option<Identity>,
    sol_amount: u64,
    s3mt_amount: u64,
) -> (outcome: Result<PendingPurchase, PresaleError>)
    ensures
        outcome == purchase_sol_spec(*ctx, address_view(config_address), sol_amount, s3mt_amount),
{
    let config = match ctx.config.data {
        Some(config) => config,
        None => {
            return Err(PresaleError::Unauthorized);
        },
    };
    if !ctx.is_authorized(&config, config_address) {
        return Err(PresaleError::Unauthorized);
    }
    if config.paused {
        return Err(PresaleError::SalePaused);
    }
    if sol_amount == 0 || s3mt_amount == 0 {
        return Err(PresaleError::ZeroAmount);
    }
    Ok(
        PendingPurchase {
            transfer: Transfer::Native { from: ctx.buyer, to: ctx.treasury, lamports: sol_amount },
            event: PurchaseEvent {
                buyer: ctx.buyer,
                usdc_amount: 0,
                sol_amount,
                s3mt_amount,
                timestamp: ctx.clock.unix_timestamp,
            },
        },
    )
}

/// Decides a purchase paid in the native asset.
pub fn purchase_sol(ctx: &PurchaseSol, sol_amount: u64, s3mt_amount: u64) -> (outcome: Result<
    PendingPurchase,
    PresaleError,
>)
    ensures
        outcome == purchase_sol_spec(*ctx, spec_config_address(), sol_amount, s3mt_amount),
{
    let expected = config_address();
    purchase_sol_with(ctx, expected, sol_amount, s3mt_amount)
}

/// Updates the configuration record, given the address derived for it.
///
/// Succeeds exactly when a record exists, the caller is its admin and the
/// configuration account lies at `config_address`. Each supplied field is
/// then overwritten; omitted fields and the admin stay. Otherwise nothing
/// changes.
pub fn update_config_with(
    ctx: &mut UpdateConfig,
    config_address: Option<Identity>,
    treasury: Option<Identity>,
    paused: Option<bool>,
    usdc_mint: Option<Identity>,
) -> (outcome: Result<(), PresaleError>)
    ensures
        match update_config_spec(
            *old(ctx),
            address_view(config_address),
            treasury,
            paused,
            usdc_mint,
        ) {
            Ok(config) => outcome == Ok::<(), PresaleError>(()) && *final(ctx) == old(
                ctx,
            ).with_record(config),
            Err(error) => outcome == Err::<(), PresaleError>(error) && *final(ctx) == *old(ctx),
        },
{
    let mut config = match ctx.config.data {
        Some(config) => config,
        None => {
            return Err(PresaleError::Unauthorized);
        },
    };
    if !ctx.is_authorized(&config, config_address) {
        return Err(PresaleError::Unauthorized);
    }
    if let Some(t) = treasury {
        config.treasury = t;
    }
    if let Some(p) = paused {
        config.paused = p;
    }
    if let Some(m) = usdc_mint {
        config.usdc_mint = m;
    }
    ctx.config.data = Some(config);
    Ok(())
}

/// Updates the configuration record at its derived address.
pub fn update_config(
    ctx: &mut UpdateConfig,
    treasury: Option<Identity>,
    paused: Option<bool>,
    usdc_mint: Option<Identity>,
) -> (outcome: Result<(), PresaleError>)
    ensures
        match update_config_spec(*old(ctx), spec_config_address(), treasury, paused, usdc_mint) {
            Ok(config) => outcome == Ok::<(), PresaleError>(()) && *final(ctx) == old(
                ctx,
            ).with_record(config),
            Err(error) => outcome == Err::<(), PresaleError>(error) && *final(ctx) == *old(ctx),
        },
{
    let expected = config_address();
    update_config_with(ctx, expected, treasury, paused, usdc_mint)
}

} // verus!
