//! Platform fee-collection configuration: the admin authority and one fee
//! wallet per accepted settlement token.

use vstd::prelude::*;
use crate::model::AccountId;

verus! {

/// Fee-collection configuration, created once and updated only by its
/// authority.
#[derive(Clone, Copy, Debug, PartialEq, Eq, Structural)]
pub struct PlatformConfig {
    /// Admin authority (can update the config).
    pub authority: AccountId,
    /// Fee wallet for the primary settlement token.
    pub fee_wallet_usdc: AccountId,
    /// Fee wallet for the secondary settlement token.
    pub fee_wallet_usd1: AccountId,
}

impl PlatformConfig {
    /// The fee wallet for a given settlement token. The token must be one
    /// of the two accepted mints; the primary wallet wins if both mints
    /// are the same identity.
    pub fn get_fee_wallet(
        &self,
        settlement_token: &AccountId,
        usdc_mint: &AccountId,
        usd1_mint: &AccountId,
    ) -> (r: AccountId)
        requires
            *settlement_token == *usdc_mint || *settlement_token == *usd1_mint,
        ensures
            r == if *settlement_token == *usdc_mint {
                self.fee_wallet_usdc
            } else {
                self.fee_wallet_usd1
            },
    {
        if settlement_token == usdc_mint {
            self.fee_wallet_usdc
        } else {
            self.fee_wallet_usd1
        }
    }
}

} // verus!
