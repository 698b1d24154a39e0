use s3mt_presale::{
    initialize_with, purchase_sol_with, purchase_usdc_with, update_config_with, Clock, Config,
    ConfigAccount, Identity, Initialize, PresaleError, PurchaseEvent, PurchaseSol, PurchaseUsdc,
    TokenAccount, UpdateConfig,
};

fn id(n: u8) -> Identity {
    Identity::new([n; 32])
}

const ADMIN: u8 = 11;
const TREASURY: u8 = 12;
const MINT: u8 = 13;
const BUYER: u8 = 14;
const CONFIG_AT: u8 = 15;
const BUYER_TOKENS_AT: u8 = 16;
const TREASURY_TOKENS_AT: u8 = 17;
const STRANGER: u8 = 18;
const OTHER_MINT: u8 = 19;

/// A sale as a host would keep it: the configuration account and the log.
struct Sale {
    config: ConfigAccount,
    purchases: Vec<PurchaseEvent>,
}

impl Sale {
    fn new() -> Sale {
        Sale { config: ConfigAccount { address: id(CONFIG_AT), data: None }, purchases: Vec::new() }
    }

    fn initialize(
        &mut self,
        caller: Identity,
        treasury: Identity,
        usdc_mint: Identity,
    ) -> Result<(), PresaleError> {
        let mut ctx = Initialize { admin: caller, config: self.config };
        let outcome = initialize_with(&mut ctx, Some(id(CONFIG_AT)), treasury, usdc_mint);
        self.config = ctx.config;
        outcome
    }

    fn update(
        &mut self,
        caller: Identity,
        treasury: Option<Identity>,
        paused: Option<bool>,
        usdc_mint: Option<Identity>,
    ) -> Result<(), PresaleError> {
        let mut ctx = UpdateConfig { admin: caller, config: self.config };
        let outcome =
            update_config_with(&mut ctx, Some(id(CONFIG_AT)), treasury, paused, usdc_mint);
        self.config = ctx.config;
        outcome
    }

    fn buy_usdc(&mut self, usdc: u64, s3mt: u64, transferred: bool) -> Result<(), PresaleError> {
        let config = self.config.data;
        let mint = config.map(|c| c.usdc_mint).unwrap_or(id(MINT));
        let treasury = config.map(|c| c.treasury).unwrap_or(id(TREASURY));
        let ctx = PurchaseUsdc {
            buyer: id(BUYER),
            buyer_usdc_account: TokenAccount {
                address: id(BUYER_TOKENS_AT),
                mint,
                owner: id(BUYER),
            },
            treasury_usdc_account: TokenAccount {
                address: id(TREASURY_TOKENS_AT),
                mint,
                owner: treasury,
            },
            config: self.config,
            usdc_mint: mint,
            clock: Clock { unix_timestamp: 100 + self.purchases.len() as i64 },
        };
        let pending = purchase_usdc_with(
            &ctx,
            Some(id(CONFIG_AT)),
            Some(id(BUYER_TOKENS_AT)),
            Some(id(TREASURY_TOKENS_AT)),
            usdc,
            s3mt,
        )?;
        let event = pending.settle(transferred)?;
        self.purchases.push(event);
        Ok(())
    }

    fn buy_sol(&mut self, sol: u64, s3mt: u64, transferred: bool) -> Result<(), PresaleError> {
        let treasury = self.config.data.map(|c| c.treasury).unwrap_or(id(TREASURY));
        let ctx = PurchaseSol {
            buyer: id(BUYER),
            treasury,
            config: self.config,
            clock: Clock { unix_timestamp: 100 + self.purchases.len() as i64 },
        };
        let pending = purchase_sol_with(&ctx, Some(id(CONFIG_AT)), sol, s3mt)?;
        let event = pending.settle(transferred)?;
        self.purchases.push(event);
        Ok(())
    }

    fn admin(&self) -> Option<Identity> {
        self.config.data.map(|c| c.admin)
    }
}

fn open_sale() -> Sale {
    let mut sale = Sale::new();
    assert_eq!(sale.initialize(id(ADMIN), id(TREASURY), id(MINT)), Ok(()));
    sale
}

#[test]
fn admin_stays_the_initializer_through_every_operation() {
    let mut sale = open_sale();
    assert_eq!(sale.admin(), Some(id(ADMIN)));
    assert_eq!(sale.buy_usdc(10, 20, true), Ok(()));
    assert_eq!(sale.admin(), Some(id(ADMIN)));
    assert_eq!(sale.update(id(ADMIN), Some(id(STRANGER)), Some(true), Some(id(OTHER_MINT))), Ok(()));
    assert_eq!(sale.admin(), Some(id(ADMIN)));
    assert_eq!(
        sale.update(id(STRANGER), Some(id(STRANGER)), None, None),
        Err(PresaleError::Unauthorized)
    );
    assert_eq!(sale.admin(), Some(id(ADMIN)));
    assert_eq!(
        sale.initialize(id(STRANGER), id(STRANGER), id(STRANGER)),
        Err(PresaleError::AlreadyInitialized)
    );
    assert_eq!(sale.admin(), Some(id(ADMIN)));
    assert_eq!(sale.buy_sol(1, 1, true), Err(PresaleError::SalePaused));
    assert_eq!(sale.update(id(ADMIN), None, Some(false), None), Ok(()));
    assert_eq!(sale.buy_sol(1, 1, true), Ok(()));
    assert_eq!(sale.buy_sol(1, 1, false), Err(PresaleError::TransferFailure));
    assert_eq!(sale.admin(), Some(id(ADMIN)));
}

#[test]
fn nothing_is_served_before_initialize() {
    let mut sale = Sale::new();
    assert_eq!(sale.buy_usdc(10, 20, true), Err(PresaleError::Unauthorized));
    assert_eq!(sale.buy_sol(10, 20, true), Err(PresaleError::Unauthorized));
    assert_eq!(sale.update(id(ADMIN), None, Some(true), None), Err(PresaleError::Unauthorized));
    assert_eq!(sale.config.data, None);
    assert!(sale.purchases.is_empty());
}

#[test]
fn pausing_gates_the_next_purchase_and_reopening_admits_it() {
    let mut sale = open_sale();
    assert_eq!(sale.buy_usdc(10, 20, true), Ok(()));
    assert_eq!(sale.update(id(ADMIN), None, Some(true), None), Ok(()));
    assert_eq!(sale.buy_usdc(10, 20, true), Err(PresaleError::SalePaused));
    assert_eq!(sale.buy_sol(10, 20, true), Err(PresaleError::SalePaused));
    assert_eq!(sale.purchases.len(), 1);
    assert_eq!(sale.update(id(ADMIN), None, Some(false), None), Ok(()));
    assert_eq!(sale.buy_usdc(10, 20, true), Ok(()));
    assert_eq!(sale.buy_sol(10, 20, true), Ok(()));
    assert_eq!(sale.purchases.len(), 3);
}

#[test]
fn successful_usdc_purchase_emits_exactly_one_record() {
    let mut sale = open_sale();
    let config = sale.config;
    assert_eq!(sale.buy_usdc(123, 456, true), Ok(()));
    assert_eq!(
        sale.purchases,
        vec![PurchaseEvent {
            buyer: id(BUYER),
            usdc_amount: 123,
            sol_amount: 0,
            s3mt_amount: 456,
            timestamp: 100,
        }]
    );
    assert_eq!(sale.config, config);
}

#[test]
fn successful_sol_purchase_emits_exactly_one_record() {
    let mut sale = open_sale();
    let config = sale.config;
    assert_eq!(sale.buy_sol(789, 12, true), Ok(()));
    assert_eq!(
        sale.purchases,
        vec![PurchaseEvent {
            buyer: id(BUYER),
            usdc_amount: 0,
            sol_amount: 789,
            s3mt_amount: 12,
            timestamp: 100,
        }]
    );
    assert_eq!(sale.config, config);
}

#[test]
fn records_are_appended_in_the_order_of_the_purchases() {
    let mut sale = open_sale();
    assert_eq!(sale.buy_usdc(1, 2, true), Ok(()));
    assert_eq!(sale.buy_sol(3, 4, true), Ok(()));
    assert_eq!(sale.buy_usdc(5, 6, false), Err(PresaleError::TransferFailure));
    assert_eq!(sale.buy_usdc(7, 8, true), Ok(()));
    let amounts: Vec<(u64, u64, u64, i64)> = sale
        .purchases
        .iter()
        .map(|e| (e.usdc_amount, e.sol_amount, e.s3mt_amount, e.timestamp))
        .collect();
    assert_eq!(amounts, vec![(1, 0, 2, 100), (0, 3, 4, 101), (7, 0, 8, 102)]);
}

#[test]
fn zero_amounts_leave_configuration_and_log_unchanged() {
    let mut sale = open_sale();
    assert_eq!(sale.buy_usdc(1, 2, true), Ok(()));
    let config = sale.config;
    let log = sale.purchases.clone();
    assert_eq!(sale.buy_usdc(0, 5, true), Err(PresaleError::ZeroAmount));
    assert_eq!(sale.buy_usdc(5, 0, true), Err(PresaleError::ZeroAmount));
    assert_eq!(sale.buy_sol(0, 5, true), Err(PresaleError::ZeroAmount));
    assert_eq!(sale.buy_sol(5, 0, true), Err(PresaleError::ZeroAmount));
    assert_eq!(sale.config, config);
    assert_eq!(sale.purchases, log);
}

#[test]
fn update_by_a_non_admin_leaves_every_field_unchanged() {
    let mut sale = open_sale();
    let config = sale.config;
    for caller in [STRANGER, TREASURY, BUYER, MINT, CONFIG_AT] {
        assert_eq!(
            sale.update(id(caller), Some(id(STRANGER)), Some(true), Some(id(OTHER_MINT))),
            Err(PresaleError::Unauthorized)
        );
        assert_eq!(sale.config, config);
    }
}

#[test]
fn admin_differing_in_one_byte_is_a_stranger() {
    let mut sale = open_sale();
    let mut bytes = [ADMIN; 32];
    bytes[31] ^= 1;
    assert_eq!(
        sale.update(Identity::new(bytes), None, Some(true), None),
        Err(PresaleError::Unauthorized)
    );
    assert_eq!(sale.config.data.map(|c| c.paused), Some(false));
}

#[test]
fn pausing_alone_keeps_treasury_and_asset() {
    let mut sale = open_sale();
    assert_eq!(sale.update(id(ADMIN), None, Some(true), None), Ok(()));
    assert_eq!(
        sale.config.data,
        Some(Config {
            admin: id(ADMIN),
            treasury: id(TREASURY),
            usdc_mint: id(MINT),
            paused: true,
        })
    );
}

#[test]
fn second_initialize_fails_and_keeps_the_record() {
    let mut sale = open_sale();
    let config = sale.config;
    assert_eq!(
        sale.initialize(id(ADMIN), id(TREASURY), id(MINT)),
        Err(PresaleError::AlreadyInitialized)
    );
    assert_eq!(
        sale.initialize(id(STRANGER), id(STRANGER), id(OTHER_MINT)),
        Err(PresaleError::AlreadyInitialized)
    );
    assert_eq!(sale.config, config);
    assert!(sale.purchases.is_empty());
}

#[test]
fn purchases_follow_an_updated_treasury_and_asset() {
    let mut sale = open_sale();
    assert_eq!(sale.update(id(ADMIN), Some(id(STRANGER)), None, Some(id(OTHER_MINT))), Ok(()));
    assert_eq!(sale.buy_usdc(5, 6, true), Ok(()));
    assert_eq!(sale.buy_sol(7, 8, true), Ok(()));
    let stale = PurchaseSol {
        buyer: id(BUYER),
        treasury: id(TREASURY),
        config: sale.config,
        clock: Clock { unix_timestamp: 0 },
    };
    assert_eq!(
        purchase_sol_with(&stale, Some(id(CONFIG_AT)), 7, 8),
        Err(PresaleError::Unauthorized)
    );
}
