//! The sale as a whole: one configuration account and the log of purchases,
//! and what each request makes of them.
//!
//! Requests are served one at a time. Each reads the configuration as it
//! stands when the request is served, whatever its accounts claimed before,
//! and is applied in full or not at all.

use crate::accounts::{ConfigAccount, Initialize, PurchaseSol, PurchaseUsdc, UpdateConfig};
use crate::address::spec_config_address;
use crate::identity::Identity;
use crate::operations::{
    initialize_spec, purchase_sol_spec, purchase_usdc_spec, update_config_spec,
};
use crate::state::{Config, PendingPurchase, PresaleError, PurchaseEvent};
use vstd::prelude::*;

verus! {

/// The state of the sale: the configuration account and every purchase
/// recorded so far, oldest first.
pub struct Sale {
    pub config: ConfigAccount,
    pub purchases: Seq<PurchaseEvent>,
}

/// A request to the sale. A purchase comes with the fate of its transfer:
/// whether the payment it asks for goes through.
#[allow(inconsistent_fields)]
pub enum Request {
    Initialize { ctx: Initialize, treasury: Identity, usdc_mint: Identity },
    PurchaseUsdc { ctx: PurchaseUsdc, usdc_amount: u64, s3mt_amount: u64, transferred: bool },
    PurchaseSol { ctx: PurchaseSol, sol_amount: u64, s3mt_amount: u64, transferred: bool },
    UpdateConfig {
        ctx: UpdateConfig,
        treasury: Option<Identity>,
        paused: Option<bool>,
        usdc_mint: Option<Identity>,
    },
}

/// What a served request comes to: a new configuration record, a recorded
/// purchase, or a rejection.
pub enum Effect {
    Configured(Config),
    Purchased(PurchaseEvent),
    Rejected(PresaleError),
}

/// The accounts of an `initialize` request as they are when it is served.
pub open spec fn initialize_accounts(sale: Sale, ctx: Initialize) -> Initialize {
    Initialize { admin: ctx.admin, config: sale.config }
}

/// The accounts of a `purchase_usdc` request as they are when it is served.
pub open spec fn purchase_usdc_accounts(sale: Sale, ctx: PurchaseUsdc) -> PurchaseUsdc {
    PurchaseUsdc {
        buyer: ctx.buyer,
        buyer_usdc_account: ctx.buyer_usdc_account,
        treasury_usdc_account: ctx.treasury_usdc_account,
        config: sale.config,
        usdc_mint: ctx.usdc_mint,
        clock: ctx.clock,
    }
}

/// The accounts of a `purchase_sol` request as they are when it is served.
pub open spec fn purchase_sol_accounts(sale: Sale, ctx: PurchaseSol) -> PurchaseSol {
    PurchaseSol { buyer: ctx.buyer, treasury: ctx.treasury, config: sale.config, clock: ctx.clock }
}

/// The accounts of an `update_config` request as they are when it is served.
pub open spec fn update_config_accounts(sale: Sale, ctx: UpdateConfig) -> UpdateConfig {
    UpdateConfig { admin: ctx.admin, config: sale.config }
}

/// What a decided purchase comes to once its transfer has been attempted.
pub open spec fn purchase_effect(
    decided: Result<PendingPurchase, PresaleError>,
    transferred: bool,
) -> Effect {
    match decided {
        Ok(pending) => match pending.settle_spec(transferred) {
            Ok(event) => Effect::Purchased(event),
            Err(error) => Effect::Rejected(error),
        },
        Err(error) => Effect::Rejected(error),
    }
}

/// What `request` comes to when served in state `sale`.
pub open spec fn effect(sale: Sale, request: Request) -> Effect {
    match request {
        Request::Initialize { ctx, treasury, usdc_mint } => match initialize_spec(
            initialize_accounts(sale, ctx),
            spec_config_address(),
            treasury,
            usdc_mint,
        ) {
            Ok(config) => Effect::Configured(config),
            Err(error) => Effect::Rejected(error),
        },
        Request::PurchaseUsdc { ctx, usdc_amount, s3mt_amount, transferred } => {
            let accounts = purchase_usdc_accounts(sale, ctx);
            purchase_effect(
                purchase_usdc_spec(
                    accounts,
                    spec_config_address(),
                    accounts.spec_buyer_address(),
                    accounts.spec_treasury_address(),
                    usdc_amount,
                    s3mt_amount,
                ),
                transferred,
            )
        },
        Request::PurchaseSol { ctx, sol_amount, s3mt_amount, transferred } => purchase_effect(
            purchase_sol_spec(
                purchase_sol_accounts(sale, ctx),
                spec_config_address(),
                sol_amount,
                s3mt_amount,
            ),
            transferred,
        ),
        Request::UpdateConfig { ctx, treasury, paused, usdc_mint } => match update_config_spec(
            update_config_accounts(sale, ctx),
            spec_config_address(),
            treasury,
            paused,
            usdc_mint,
        ) {
            Ok(config) => Effect::Configured(config),
            Err(error) => Effect::Rejected(error),
        },
    }
}

/// The state after `request` has been served in state `sale`: a new record
/// replaces the configuration, a purchase is appended to the log, a
/// rejection leaves everything as it was.
pub open spec fn serve(sale: Sale, request: Request) -> Sale {
    match effect(sale, request) {
        Effect::Configured(config) => Sale {
            config: ConfigAccount { address: sale.config.address, data: Some(config) },
            purchases: sale.purchases,
        },
        Effect::Purchased(event) => Sale {
            config: sale.config,
            purchases: sale.purchases.push(event),
        },
        Effect::Rejected(_) => sale,
    }
}

/// The state after `requests` have been served in order, starting in
/// state `sale`.
pub open spec fn serve_all(sale: Sale, requests: Seq<Request>) -> Sale
    decreases requests.len(),
{
    if requests.len() == 0 {
        sale
    } else {
        serve(serve_all(sale, requests.drop_last()), requests.last())
    }
}

} // verus!
