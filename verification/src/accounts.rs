//! The accounts that a request names, and the constraints that bind them to
//! the caller and to the stored configuration.
//!
//! A request is served only if every account it names is the one that the
//! configuration leads to. Where an account has a deterministic address, the
//! address is derived anew for each request and compared; nothing the caller
//! says about an account is taken on trust.

use crate::address::{address_view, spec_associated_token_address};
use crate::identity::Identity;
use crate::state::{Clock, Config};
use vstd::prelude::*;

verus! {

/// The place of the configuration record: its address, and the record itself
/// once `initialize` has created it.
#[derive(Clone, Copy, Debug, PartialEq, Eq)]
pub struct ConfigAccount {
    pub address: Identity,
    pub data: Option<Config>,
}

/// A token account: where it lives, of which asset type its tokens are, and
/// who controls it.
#[derive(Clone, Copy, Debug, PartialEq, Eq)]
pub struct TokenAccount {
    pub address: Identity,
    pub mint: Identity,
    pub owner: Identity,
}

/// Accounts of `initialize`.
#[derive(Clone, Copy, Debug, PartialEq, Eq)]
pub struct Initialize {
    /// The caller, who becomes the admin of the sale.
    pub admin: Identity,
    pub config: ConfigAccount,
}

/// Accounts of `purchase_usdc`.
#[derive(Clone, Copy, Debug, PartialEq, Eq)]
pub struct PurchaseUsdc {
    /// The caller, on whose signed authority the payment moves.
    pub buyer: Identity,
    /// The token account the payment is taken from.
    pub buyer_usdc_account: TokenAccount,
    /// The token account the payment goes to.
    pub treasury_usdc_account: TokenAccount,
    pub config: ConfigAccount,
    /// The asset type that the request pays in.
    pub usdc_mint: Identity,
    pub clock: Clock,
}

/// Accounts of `purchase_sol`.
#[derive(Clone, Copy, Debug, PartialEq, Eq)]
pub struct PurchaseSol {
    /// The caller, from whose native balance the payment is taken.
    pub buyer: Identity,
    /// The account the payment goes to.
    pub treasury: Identity,
    pub config: ConfigAccount,
    pub clock: Clock,
}

/// Accounts of `update_config`.
#[derive(Clone, Copy, Debug, PartialEq, Eq)]
pub struct UpdateConfig {
    /// The caller.
    pub admin: Identity,
    pub config: ConfigAccount,
}

impl ConfigAccount {
    /// The account lies at `expected`, the address derived for the record.
    /// No account lies at an address that could not be derived.
    pub open spec fn kept_at(self, expected: Option<Seq<u8>>) -> bool {
        expected == Some(self.address@)
    }

    /// Whether the account lies at `expected`.
    pub fn is_kept_at(&self, expected: Option<Identity>) -> (kept: bool)
        ensures
            kept == self.kept_at(address_view(expected)),
    {
        match expected {
            Some(address) => self.address == address,
            None => false,
        }
    }
}

impl TokenAccount {
    /// The account is controlled by `authority` and lies at `expected`, the
    /// address derived for the tokens of that authority.
    pub open spec fn held_by(self, authority: Identity, expected: Option<Seq<u8>>) -> bool {
        &&& self.owner@ == authority@
        &&& expected == Some(self.address@)
    }

    /// Whether the account is controlled by `authority` and lies at
    /// `expected`.
    pub fn is_held_by(&self, authority: &Identity, expected: Option<Identity>) -> (held: bool)
        ensures
            held == self.held_by(*authority, address_view(expected)),
    {
        if self.owner != *authority {
            return false;
        }
        match expected {
            Some(address) => self.address == address,
            None => false,
        }
    }
}

impl Initialize {
    /// These accounts with the configuration record set to `config`.
    pub open spec fn with_record(self, config: Config) -> Initialize {
        Initialize {
            admin: self.admin,
            config: ConfigAccount { address: self.config.address, data: Some(config) },
        }
    }
}

impl PurchaseUsdc {
    /// Every account of the request is the one that the caller and the
    /// record `config` lead to: the buyer's token account belongs to the
    /// buyer, the treasury's to the configured treasury, each at its derived
    /// address, and the configuration account lies at its own.
    pub open spec fn authorized(
        self,
        config: Config,
        config_address: Option<Seq<u8>>,
        buyer_address: Option<Seq<u8>>,
        treasury_address: Option<Seq<u8>>,
    ) -> bool {
        &&& self.buyer_usdc_account.held_by(self.buyer, buyer_address)
        &&& self.treasury_usdc_account.held_by(config.treasury, treasury_address)
        &&& self.config.kept_at(config_address)
    }

    /// The request pays in the accepted stable asset: the asset type it
    /// names and that of both token accounts are the configured one.
    pub open spec fn asset_matches(self, config: Config) -> bool {
        &&& self.usdc_mint@ == config.usdc_mint@
        &&& self.buyer_usdc_account.mint@ == config.usdc_mint@
        &&& self.treasury_usdc_account.mint@ == config.usdc_mint@
    }

    /// The address derived for the buyer's tokens of the accepted asset.
    pub open spec fn spec_buyer_address(self) -> Option<Seq<u8>> {
        match self.config.data {
            Some(config) => spec_associated_token_address(self.buyer@, config.usdc_mint@),
            None => None,
        }
    }

    /// The address derived for the treasury's tokens of the accepted asset.
    pub open spec fn spec_treasury_address(self) -> Option<Seq<u8>> {
        match self.config.data {
            Some(config) => spec_associated_token_address(config.treasury@, config.usdc_mint@),
            None => None,
        }
    }

    /// Whether `authorized` holds of the given record and addresses.
    pub fn is_authorized(
        &self,
        config: &Config,
        config_address: Option<Identity>,
        buyer_address: Option<Identity>,
        treasury_address: Option<Identity>,
    ) -> (authorized: bool)
        ensures
            authorized == self.authorized(
                *config,
                address_view(config_address),
                address_view(buyer_address),
                address_view(treasury_address),
            ),
    {
        self.buyer_usdc_account.is_held_by(&self.buyer, buyer_address)
            && self.treasury_usdc_account.is_held_by(&config.treasury, treasury_address)
            && self.config.is_kept_at(config_address)
    }

    /// Whether `asset_matches` holds of the given record.
    pub fn is_asset_matching(&self, config: &Config) -> (matching: bool)
        ensures
            matching == self.asset_matches(*config),
    {
        self.usdc_mint == config.usdc_mint && self.buyer_usdc_account.mint == config.usdc_mint
            && self.treasury_usdc_account.mint == config.usdc_mint
    }
}

impl PurchaseSol {
    /// The payment goes to the configured treasury and the configuration
    /// account lies at its derived address.
    pub open spec fn authorized(self, config: Config, config_address: Option<Seq<u8>>) -> bool {
        &&& self.treasury@ == config.treasury@
        &&& self.config.kept_at(config_address)
    }

    /// Whether `authorized` holds of the given record and address.
    pub fn is_authorized(&self, config: &Config, config_address: Option<Identity>) -> (authorized:
        bool)
        ensures
            authorized == self.authorized(*config, address_view(config_address)),
    {
        self.treasury == config.treasury && self.config.is_kept_at(config_address)
    }
}

impl UpdateConfig {
    /// The caller is the stored admin and the configuration account lies at
    /// its derived address.
    pub open spec fn authorized(self, config: Config, config_address: Option<Seq<u8>>) -> bool {
        &&& config.admin@ == self.admin@
        &&& self.config.kept_at(config_address)
    }

    /// Whether `authorized` holds of the given record and address.
    pub fn is_authorized(&self, config: &Config, config_address: Option<Identity>) -> (authorized:
        bool)
        ensures
            authorized == self.authorized(*config, address_view(config_address)),
    {
        config.admin == self.admin && self.config.is_kept_at(config_address)
    }

    /// These accounts with the configuration record set to `config`.
    pub open spec fn with_record(self, config: Config) -> UpdateConfig {
        UpdateConfig {
            admin: self.admin,
            config: ConfigAccount { address: self.config.address, data: Some(config) },
        }
    }
}

} // verus!
