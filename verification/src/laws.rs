//! What holds of the sale for every request and every sequence of requests.

use crate::accounts::{Initialize, PurchaseSol, PurchaseUsdc, UpdateConfig};
use crate::identity::Identity;
use crate::model::{effect, serve, serve_all, Effect, Request, Sale};
use crate::operations::{
    initialize_spec, purchase_sol_spec, purchase_usdc_spec, sol_event, sol_transfer,
    update_config_spec, usdc_event, usdc_transfer,
};
use crate::state::{Config, PendingPurchase, PresaleError, PurchaseEvent};
use vstd::prelude::*;

verus! {

/// A request is a purchase, in either asset.
pub open spec fn is_purchase(request: Request) -> bool {
    request is PurchaseUsdc || request is PurchaseSol
}

/// A purchase request names a zero amount, as payment or as allocation.
pub open spec fn has_zero_amount(request: Request) -> bool {
    match request {
        Request::PurchaseUsdc { usdc_amount, s3mt_amount, .. } => usdc_amount == 0 || s3mt_amount
            == 0,
        Request::PurchaseSol { sol_amount, s3mt_amount, .. } => sol_amount == 0 || s3mt_amount
            == 0,
        _ => false,
    }
}

/// Once the record exists, no request removes it, moves it or changes its
/// admin.
pub proof fn law_admin_survives_a_request(sale: Sale, request: Request)
    requires
        sale.config.data is Some,
    ensures
        serve(sale, request).config.address == sale.config.address,
        serve(sale, request).config.data matches Some(config) && config.admin
            == sale.config.data.unwrap().admin,
{
}

/// Once the record exists, its admin is the same after any sequence of
/// requests.
pub proof fn law_admin_never_changes(sale: Sale, requests: Seq<Request>)
    requires
        sale.config.data is Some,
    ensures
        serve_all(sale, requests).config.address == sale.config.address,
        serve_all(sale, requests).config.data matches Some(config) && config.admin
            == sale.config.data.unwrap().admin,
    decreases requests.len(),
{
    if requests.len() > 0 {
        law_admin_never_changes(sale, requests.drop_last());
        law_admin_survives_a_request(serve_all(sale, requests.drop_last()), requests.last());
    }
}

/// The admin of the sale is the caller of the `initialize` that created the
/// record, whatever requests are served after it.
pub proof fn law_admin_is_the_initializer(
    sale: Sale,
    ctx: Initialize,
    treasury: Identity,
    usdc_mint: Identity,
    later: Seq<Request>,
)
    requires
        effect(sale, Request::Initialize { ctx, treasury, usdc_mint }) is Configured,
    ensures
        serve_all(
            serve(sale, Request::Initialize { ctx, treasury, usdc_mint }),
            later,
        ).config.data matches Some(config) && config.admin == ctx.admin,
{
    law_admin_never_changes(serve(sale, Request::Initialize { ctx, treasury, usdc_mint }), later);
}

/// A stable-asset purchase is decided in favour only while the sale is not
/// paused. Where the accounts pass and both amounts are positive, the pause
/// alone decides: the purchase goes ahead if the sale is not paused, and is
/// rejected with `SalePaused` if it is.
pub proof fn law_usdc_purchase_needs_an_open_sale(
    ctx: PurchaseUsdc,
    config: Config,
    config_address: Option<Seq<u8>>,
    buyer_address: Option<Seq<u8>>,
    treasury_address: Option<Seq<u8>>,
    usdc_amount: u64,
    s3mt_amount: u64,
)
    requires
        ctx.config.data == Some(config),
    ensures
        purchase_usdc_spec(
            ctx,
            config_address,
            buyer_address,
            treasury_address,
            usdc_amount,
            s3mt_amount,
        ) is Ok ==> !config.paused,
        ctx.authorized(config, config_address, buyer_address, treasury_address)
            && ctx.asset_matches(config) && usdc_amount > 0 && s3mt_amount > 0 ==> {
            let decided = purchase_usdc_spec(
                ctx,
                config_address,
                buyer_address,
                treasury_address,
                usdc_amount,
                s3mt_amount,
            );
            &&& decided is Ok <==> !config.paused
            &&& config.paused ==> decided == Err::<PendingPurchase, PresaleError>(
                PresaleError::SalePaused,
            )
        },
{
}

/// A native-asset purchase is decided in favour only while the sale is not
/// paused. Where the accounts pass and both amounts are positive, the pause
/// alone decides: the purchase goes ahead if the sale is not paused, and is
/// rejected with `SalePaused` if it is.
pub proof fn law_sol_purchase_needs_an_open_sale(
    ctx: PurchaseSol,
    config: Config,
    config_address: Option<Seq<u8>>,
    sol_amount: u64,
    s3mt_amount: u64,
)
    requires
        ctx.config.data == Some(config),
    ensures
        purchase_sol_spec(ctx, config_address, sol_amount, s3mt_amount) is Ok ==> !config.paused,
        ctx.authorized(config, config_address) && sol_amount > 0 && s3mt_amount > 0 ==> {
            let decided = purchase_sol_spec(ctx, config_address, sol_amount, s3mt_amount);
            &&& decided is Ok <==> !config.paused
            &&& config.paused ==> decided == Err::<PendingPurchase, PresaleError>(
                PresaleError::SalePaused,
            )
        },
{
}

/// An update that sets the pause flag gates the very next purchase: after
/// the sale has been paused no purchase is recorded and the state stays as
/// the update left it; after it has been reopened no purchase is rejected
/// for a pause.
pub proof fn law_pause_gates_the_next_purchase(
    sale: Sale,
    ctx: UpdateConfig,
    treasury: Option<Identity>,
    pause: bool,
    usdc_mint: Option<Identity>,
    purchase: Request,
)
    requires
        effect(
            sale,
            Request::UpdateConfig { ctx, treasury, paused: Some(pause), usdc_mint },
        ) is Configured,
        is_purchase(purchase),
    ensures
        ({
            let after = serve(
                sale,
                Request::UpdateConfig { ctx, treasury, paused: Some(pause), usdc_mint },
            );
            &&& after.config.data matches Some(config) && config.paused == pause
            &&& pause ==> effect(after, purchase) is Rejected && serve(after, purchase) == after
            &&& !pause ==> effect(after, purchase) != Effect::Rejected(PresaleError::SalePaused)
        }),
{
}

/// A stable-asset purchase is decided in favour, and so a transfer asked
/// for, only after every validation has passed: a record exists, the
/// accounts are the ones it leads to, the asset is the accepted one, the
/// sale is not paused and both amounts are positive. The purchase then asks
/// for the transfer of exactly the payment from the buyer's token account to
/// the treasury's, and carries the record of that payment: the stable
/// amount, no native amount, the claimed allocation. The record is emitted
/// if the transfer goes through, and `TransferFailure` if not.
pub proof fn law_usdc_purchase_outcome(
    ctx: PurchaseUsdc,
    config_address: Option<Seq<u8>>,
    buyer_address: Option<Seq<u8>>,
    treasury_address: Option<Seq<u8>>,
    usdc_amount: u64,
    s3mt_amount: u64,
)
    requires
        purchase_usdc_spec(
            ctx,
            config_address,
            buyer_address,
            treasury_address,
            usdc_amount,
            s3mt_amount,
        ) is Ok,
    ensures
        ctx.config.data matches Some(config) && ctx.authorized(
            config,
            config_address,
            buyer_address,
            treasury_address,
        ) && ctx.asset_matches(config) && !config.paused,
        usdc_amount > 0,
        s3mt_amount > 0,
        ({
            let pending = purchase_usdc_spec(
                ctx,
                config_address,
                buyer_address,
                treasury_address,
                usdc_amount,
                s3mt_amount,
            ).unwrap();
            &&& pending.transfer == usdc_transfer(ctx, usdc_amount)
            &&& pending.event == usdc_event(ctx, usdc_amount, s3mt_amount)
            &&& pending.event.buyer == ctx.buyer
            &&& pending.event.usdc_amount == usdc_amount
            &&& pending.event.sol_amount == 0
            &&& pending.event.s3mt_amount == s3mt_amount
            &&& pending.settle_spec(true) == Ok::<_, PresaleError>(pending.event)
            &&& pending.settle_spec(false) == Err::<PurchaseEvent, _>(
                PresaleError::TransferFailure,
            )
        }),
{
}

/// A native-asset purchase is decided in favour, and so a transfer asked
/// for, only after every validation has passed: a record exists, the
/// payment goes to the configured treasury, the sale is not paused and both
/// amounts are positive. The purchase then asks for the transfer of exactly
/// the payment from the buyer to the treasury, and carries the record of
/// that payment: the native amount, no stable amount, the claimed
/// allocation. The record is emitted if the transfer goes through, and
/// `TransferFailure` if not.
pub proof fn law_sol_purchase_outcome(
    ctx: PurchaseSol,
    config_address: Option<Seq<u8>>,
    sol_amount: u64,
    s3mt_amount: u64,
)
    requires
        purchase_sol_spec(ctx, config_address, sol_amount, s3mt_amount) is Ok,
    ensures
        ctx.config.data matches Some(config) && ctx.authorized(config, config_address)
            && !config.paused,
        sol_amount > 0,
        s3mt_amount > 0,
        ({
            let pending = purchase_sol_spec(ctx, config_address, sol_amount, s3mt_amount).unwrap();
            &&& pending.transfer == sol_transfer(ctx, sol_amount)
            &&& pending.event == sol_event(ctx, sol_amount, s3mt_amount)
            &&& pending.event.buyer == ctx.buyer
            &&& pending.event.usdc_amount == 0
            &&& pending.event.sol_amount == sol_amount
            &&& pending.event.s3mt_amount == s3mt_amount
            &&& pending.settle_spec(true) == Ok::<_, PresaleError>(pending.event)
            &&& pending.settle_spec(false) == Err::<PurchaseEvent, _>(
                PresaleError::TransferFailure,
            )
        }),
{
}

/// A purchase that goes through adds exactly one record to the log, the
/// record of that purchase, and leaves the configuration alone. Any other
/// purchase request leaves the whole state as it was.
pub proof fn law_purchase_adds_one_record(sale: Sale, purchase: Request)
    requires
        is_purchase(purchase),
    ensures
        serve(sale, purchase).config == sale.config,
        effect(sale, purchase) matches Effect::Purchased(event) ==> {
            &&& serve(sale, purchase).purchases == sale.purchases.push(event)
            &&& serve(sale, purchase).purchases.len() == sale.purchases.len() + 1
            &&& serve(sale, purchase).purchases.last() == event
        },
        !(effect(sale, purchase) is Purchased) ==> serve(sale, purchase) == sale,
{
}

/// The record that a stable-asset purchase adds to the log, and when.
pub proof fn law_usdc_purchase_is_recorded(
    sale: Sale,
    ctx: PurchaseUsdc,
    usdc_amount: u64,
    s3mt_amount: u64,
    transferred: bool,
)
    requires
        effect(
            sale,
            Request::PurchaseUsdc { ctx, usdc_amount, s3mt_amount, transferred },
        ) is Purchased,
    ensures
        usdc_amount > 0,
        s3mt_amount > 0,
        transferred,
        serve(
            sale,
            Request::PurchaseUsdc { ctx, usdc_amount, s3mt_amount, transferred },
        ).purchases == sale.purchases.push(usdc_event(ctx, usdc_amount, s3mt_amount)),
{
}

/// The record that a native-asset purchase adds to the log, and when.
pub proof fn law_sol_purchase_is_recorded(
    sale: Sale,
    ctx: PurchaseSol,
    sol_amount: u64,
    s3mt_amount: u64,
    transferred: bool,
)
    requires
        effect(
            sale,
            Request::PurchaseSol { ctx, sol_amount, s3mt_amount, transferred },
        ) is Purchased,
    ensures
        sol_amount > 0,
        s3mt_amount > 0,
        transferred,
        serve(sale, Request::PurchaseSol { ctx, sol_amount, s3mt_amount, transferred }).purchases
            == sale.purchases.push(sol_event(ctx, sol_amount, s3mt_amount)),
{
}

/// Only purchases write to the log: `initialize` and `update_config` leave
/// every record in it as it was.
pub proof fn law_configuration_requests_keep_the_log(sale: Sale, request: Request)
    requires
        !is_purchase(request),
    ensures
        serve(sale, request).purchases == sale.purchases,
{
}

/// Every record that a purchase emits is well formed: it names a positive
/// allocation and one positive payment, in one asset only.
pub proof fn law_emitted_records_are_well_formed(sale: Sale, request: Request)
    ensures
        effect(sale, request) matches Effect::Purchased(event) ==> event.well_formed(),
{
}

/// The log is append-only: whatever requests are served, the records that
/// were in the log stay in it, unchanged and in their places.
pub proof fn law_log_is_append_only(sale: Sale, requests: Seq<Request>)
    ensures
        sale.purchases.is_prefix_of(serve_all(sale, requests).purchases),
    decreases requests.len(),
{
    if requests.len() > 0 {
        law_log_is_append_only(sale, requests.drop_last());
    }
}

/// A log of well-formed records stays one, whatever requests are served.
pub proof fn law_log_stays_well_formed(sale: Sale, requests: Seq<Request>)
    requires
        forall|i: int| 0 <= i < sale.purchases.len() ==> (#[trigger] sale.purchases[i]).well_formed(),
    ensures
        forall|i: int|
            0 <= i < serve_all(sale, requests).purchases.len() ==> (#[trigger] serve_all(
                sale,
                requests,
            ).purchases[i]).well_formed(),
    decreases requests.len(),
{
    if requests.len() > 0 {
        law_log_stays_well_formed(sale, requests.drop_last());
        law_emitted_records_are_well_formed(
            serve_all(sale, requests.drop_last()),
            requests.last(),
        );
    }
}

/// A purchase with a zero amount is always rejected and changes neither the
/// configuration nor the log.
pub proof fn law_zero_amount_changes_nothing(sale: Sale, purchase: Request)
    requires
        is_purchase(purchase),
        has_zero_amount(purchase),
    ensures
        effect(sale, purchase) is Rejected,
        serve(sale, purchase) == sale,
{
}

/// A stable-asset purchase with a zero amount, on accounts that pass and
/// while the sale is not paused, is rejected with `ZeroAmount`.
pub proof fn law_usdc_zero_amount(
    ctx: PurchaseUsdc,
    config: Config,
    config_address: Option<Seq<u8>>,
    buyer_address: Option<Seq<u8>>,
    treasury_address: Option<Seq<u8>>,
    usdc_amount: u64,
    s3mt_amount: u64,
)
    requires
        usdc_amount == 0 || s3mt_amount == 0,
        ctx.config.data == Some(config),
        ctx.authorized(config, config_address, buyer_address, treasury_address),
        ctx.asset_matches(config),
        !config.paused,
    ensures
        purchase_usdc_spec(
            ctx,
            config_address,
            buyer_address,
            treasury_address,
            usdc_amount,
            s3mt_amount,
        ) == Err::<PendingPurchase, PresaleError>(PresaleError::ZeroAmount),
{
}

/// A native-asset purchase with a zero amount, on accounts that pass and
/// while the sale is not paused, is rejected with `ZeroAmount`.
pub proof fn law_sol_zero_amount(
    ctx: PurchaseSol,
    config: Config,
    config_address: Option<Seq<u8>>,
    sol_amount: u64,
    s3mt_amount: u64,
)
    requires
        sol_amount == 0 || s3mt_amount == 0,
        ctx.config.data == Some(config),
        ctx.authorized(config, config_address),
        !config.paused,
    ensures
        purchase_sol_spec(ctx, config_address, sol_amount, s3mt_amount) == Err::<
            PendingPurchase,
            PresaleError,
        >(PresaleError::ZeroAmount),
{
}

/// An update requested by anyone but the stored admin is rejected with
/// `Unauthorized`, whatever it supplies.
pub proof fn law_update_by_a_stranger(
    ctx: UpdateConfig,
    config_address: Option<Seq<u8>>,
    treasury: Option<Identity>,
    paused: Option<bool>,
    usdc_mint: Option<Identity>,
)
    requires
        ctx.config.data matches Some(config) ==> config.admin@ != ctx.admin@,
    ensures
        update_config_spec(ctx, config_address, treasury, paused, usdc_mint) == Err::<
            Config,
            PresaleError,
        >(PresaleError::Unauthorized),
{
}

/// An update requested by anyone but the stored admin leaves the
/// configuration and the log as they were.
pub proof fn law_update_by_a_stranger_changes_nothing(
    sale: Sale,
    ctx: UpdateConfig,
    treasury: Option<Identity>,
    paused: Option<bool>,
    usdc_mint: Option<Identity>,
)
    requires
        sale.config.data matches Some(config) ==> config.admin@ != ctx.admin@,
    ensures
        effect(sale, Request::UpdateConfig { ctx, treasury, paused, usdc_mint })
            == Effect::Rejected(PresaleError::Unauthorized),
        serve(sale, Request::UpdateConfig { ctx, treasury, paused, usdc_mint }) == sale,
{
}

/// An update that supplies a field overwrites that field and no other; the
/// admin is never overwritten.
pub proof fn law_update_touches_what_it_supplies(
    ctx: UpdateConfig,
    config: Config,
    config_address: Option<Seq<u8>>,
    treasury: Option<Identity>,
    paused: Option<bool>,
    usdc_mint: Option<Identity>,
)
    requires
        ctx.config.data == Some(config),
        update_config_spec(ctx, config_address, treasury, paused, usdc_mint) is Ok,
    ensures
        ({
            let after = update_config_spec(
                ctx,
                config_address,
                treasury,
                paused,
                usdc_mint,
            ).unwrap();
            &&& after.admin == config.admin
            &&& after.treasury == if treasury is Some {
                treasury.unwrap()
            } else {
                config.treasury
            }
            &&& after.paused == if paused is Some {
                paused.unwrap()
            } else {
                config.paused
            }
            &&& after.usdc_mint == if usdc_mint is Some {
                usdc_mint.unwrap()
            } else {
                config.usdc_mint
            }
        }),
{
}

/// An update that supplies only `paused = true` pauses the sale and leaves
/// the treasury and the accepted stable asset exactly as they were.
pub proof fn law_pausing_keeps_treasury_and_asset(
    ctx: UpdateConfig,
    config: Config,
    config_address: Option<Seq<u8>>,
)
    requires
        ctx.config.data == Some(config),
        update_config_spec(
            ctx,
            config_address,
            None::<Identity>,
            Some(true),
            None::<Identity>,
        ) is Ok,
    ensures
        ({
            let after = update_config_spec(
                ctx,
                config_address,
                None::<Identity>,
                Some(true),
                None::<Identity>,
            ).unwrap();
            &&& after.treasury == config.treasury
            &&& after.usdc_mint == config.usdc_mint
            &&& after.admin == config.admin
            &&& after.paused
        }),
{
}

/// `initialize` on an account that holds a record already, at the address
/// derived for it, is rejected with `AlreadyInitialized`.
pub proof fn law_initialize_needs_an_empty_account(
    ctx: Initialize,
    config_address: Option<Seq<u8>>,
    treasury: Identity,
    usdc_mint: Identity,
)
    requires
        ctx.config.data is Some,
        ctx.config.kept_at(config_address),
    ensures
        initialize_spec(ctx, config_address, treasury, usdc_mint) == Err::<Config, PresaleError>(
            PresaleError::AlreadyInitialized,
        ),
{
}

/// Once `initialize` has succeeded, every later `initialize` is rejected
/// with `AlreadyInitialized` and leaves the record and the log as they were,
/// whoever calls it, whatever it supplies and whatever was served between.
pub proof fn law_initialize_works_once(
    sale: Sale,
    first: Initialize,
    first_treasury: Identity,
    first_usdc_mint: Identity,
    between: Seq<Request>,
    second: Initialize,
    second_treasury: Identity,
    second_usdc_mint: Identity,
)
    requires
        effect(
            sale,
            Request::Initialize { ctx: first, treasury: first_treasury, usdc_mint: first_usdc_mint },
        ) is Configured,
    ensures
        ({
            let before = serve_all(
                serve(
                    sale,
                    Request::Initialize {
                        ctx: first,
                        treasury: first_treasury,
                        usdc_mint: first_usdc_mint,
                    },
                ),
                between,
            );
            let again = Request::Initialize {
                ctx: second,
                treasury: second_treasury,
                usdc_mint: second_usdc_mint,
            };
            &&& effect(before, again) == Effect::Rejected(PresaleError::AlreadyInitialized)
            &&& serve(before, again) == before
        }),
{
    let created = serve(
        sale,
        Request::Initialize { ctx: first, treasury: first_treasury, usdc_mint: first_usdc_mint },
    );
    law_admin_never_changes(created, between);
}

} // verus!
