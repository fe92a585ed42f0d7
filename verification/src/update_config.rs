//! Authority-only updates of the fee-collection configuration: wallet
//! rotation and authority hand-over.

use vstd::prelude::*;
use crate::errors::ErrorCode;
use crate::model::{AccountId, TokenAccountInfo};
use crate::platform_config::PlatformConfig;

verus! {

/// Update the fee-collection configuration. Only the current authority
/// may call; each provided wallet must hold the settlement mint it is
/// meant for; naming no field at all is rejected.
pub fn handler(
    config: &mut PlatformConfig,
    caller: AccountId,
    new_fee_wallet_usdc: Option<&TokenAccountInfo>,
    new_fee_wallet_usd1: Option<&TokenAccountInfo>,
    new_authority: Option<AccountId>,
    usdc_mint: AccountId,
    usd1_mint: AccountId,
) -> (r: Result<(), ErrorCode>)
    ensures
        caller != old(config).authority ==> r == Err::<(), ErrorCode>(ErrorCode::UnauthorizedAdmin),
        caller == old(config).authority && (new_fee_wallet_usdc matches Some(w) && w.mint
            != usdc_mint) ==> r == Err::<(), ErrorCode>(ErrorCode::InvalidFeeWalletMint),
        caller == old(config).authority && !(new_fee_wallet_usdc matches Some(w) && w.mint
            != usdc_mint) && (new_fee_wallet_usd1 matches Some(w) && w.mint != usd1_mint) ==> r
            == Err::<(), ErrorCode>(ErrorCode::InvalidFeeWalletMint),
        caller == old(config).authority && !(new_fee_wallet_usdc matches Some(w) && w.mint
            != usdc_mint) && !(new_fee_wallet_usd1 matches Some(w) && w.mint != usd1_mint) && (
        new_fee_wallet_usdc is None && new_fee_wallet_usd1 is None && new_authority is None) ==> r
            == Err::<(), ErrorCode>(ErrorCode::NoUpdateProvided),
        r is Err ==> *final(config) == *old(config),
        r is Ok <==> caller == old(config).authority && !(new_fee_wallet_usdc matches Some(w)
            && w.mint != usdc_mint) && !(new_fee_wallet_usd1 matches Some(w) && w.mint
            != usd1_mint) && !(new_fee_wallet_usdc is None && new_fee_wallet_usd1 is None
            && new_authority is None),
        r is Ok ==> *final(config) == (PlatformConfig {
            authority: match new_authority {
                Some(a) => a,
                None => old(config).authority,
            },
            fee_wallet_usdc: match new_fee_wallet_usdc {
                Some(w) => w.address,
                None => old(config).fee_wallet_usdc,
            },
            fee_wallet_usd1: match new_fee_wallet_usd1 {
                Some(w) => w.address,
                None => old(config).fee_wallet_usd1,
            },
        }),
{
    if caller != config.authority {
        return Err(ErrorCode::UnauthorizedAdmin);
    }
    if let Some(wallet) = new_fee_wallet_usdc {
        if wallet.mint != usdc_mint {
            return Err(ErrorCode::InvalidFeeWalletMint);
        }
    }
    if let Some(wallet) = new_fee_wallet_usd1 {
        if wallet.mint != usd1_mint {
            return Err(ErrorCode::InvalidFeeWalletMint);
        }
    }
    let mut updated: bool = false;
    if let Some(wallet) = new_fee_wallet_usdc {
        config.fee_wallet_usdc = wallet.address;
        updated = true;
    }
    if let Some(wallet) = new_fee_wallet_usd1 {
        config.fee_wallet_usd1 = wallet.address;
        updated = true;
    }
    if let Some(authority) = new_authority {
        config.authority = authority;
        updated = true;
    }
    if !updated {
        return Err(ErrorCode::NoUpdateProvided);
    }
    Ok(())
}

} // verus!
