//! One-time setup of the fee-collection configuration.

use vstd::prelude::*;
use crate::errors::ErrorCode;
use crate::model::{AccountId, TokenAccountInfo};
use crate::platform_config::PlatformConfig;

verus! {

/// Initialize the fee-collection configuration. Each fee wallet must be a
/// token account holding the settlement mint it is meant to collect; the
/// caller becomes the authority with update permission.
pub fn handler(
    authority: AccountId,
    fee_wallet_usdc: &TokenAccountInfo,
    fee_wallet_usd1: &TokenAccountInfo,
    usdc_mint: AccountId,
    usd1_mint: AccountId,
) -> (r: Result<PlatformConfig, ErrorCode>)
    ensures
        fee_wallet_usdc.mint != usdc_mint ==> r == Err::<PlatformConfig, ErrorCode>(
            ErrorCode::InvalidFeeWalletMint,
        ),
        fee_wallet_usdc.mint == usdc_mint && fee_wallet_usd1.mint != usd1_mint ==> r == Err::<
            PlatformConfig,
            ErrorCode,
        >(ErrorCode::InvalidFeeWalletMint),
        r is Ok <==> fee_wallet_usdc.mint == usdc_mint && fee_wallet_usd1.mint == usd1_mint,
        r matches Ok(config) ==> config == (PlatformConfig {
            authority,
            fee_wallet_usdc: fee_wallet_usdc.address,
            fee_wallet_usd1: fee_wallet_usd1.address,
        }),
{
    if fee_wallet_usdc.mint != usdc_mint {
        return Err(ErrorCode::InvalidFeeWalletMint);
    }
    if fee_wallet_usd1.mint != usd1_mint {
        return Err(ErrorCode::InvalidFeeWalletMint);
    }
    Ok(
        PlatformConfig {
            authority,
            fee_wallet_usdc: fee_wallet_usdc.address,
            fee_wallet_usd1: fee_wallet_usd1.address,
        },
    )
}

} // verus!
