//! Platform-wide ledger state: the administrator identity, fee parameters,
//! the rolling daily-volume counter with its reset cursor, the emergency
//! pause switch, and the global subscription / transaction totals.

use vstd::prelude::*;
use crate::errors::ErrorCode;
use crate::fees::{MAX_FEE_BASIS_POINTS, MIN_FEE_BASIS_POINTS};
use crate::model::{valid_timestamp, AccountId};

verus! {

/// Absolute floor on the computed fee, set once at initialization.
pub const DEFAULT_MIN_FEE: u64 = 10_000;

/// Absolute ceiling on the computed fee, set once at initialization.
pub const DEFAULT_MAX_FEE: u64 = 500_000;

/// Process-wide billing state, created once by the administrator and
/// consulted and updated by every payment execution.
#[derive(Clone, Copy, Debug, PartialEq, Eq, Structural)]
pub struct PlatformState {
    pub authority: AccountId,
    pub daily_volume_limit: u64,
    pub total_volume_24h: u64,
    pub last_volume_reset: i64,
    pub failed_tx_count: u16,
    pub emergency_pause: bool,
    pub fee_basis_points: u16,
    pub min_fee: u64,
    pub max_fee: u64,
    pub total_subscriptions: u64,
    pub total_transactions: u64,
}

impl PlatformState {
    /// Well-formedness: the fee rate stays in the accepted band, the fee
    /// clamp band is non-empty, the daily volume limit is positive, and
    /// the reset cursor is a clock reading.
    pub open spec fn wf(self) -> bool {
        &&& MIN_FEE_BASIS_POINTS <= self.fee_basis_points <= MAX_FEE_BASIS_POINTS
        &&& self.min_fee <= self.max_fee
        &&& 0 < self.daily_volume_limit
        &&& valid_timestamp(self.last_volume_reset as int)
    }
}

/// Event reported to the observability sink when the platform is set up.
#[derive(Clone, Copy, Debug, PartialEq, Eq, Structural)]
pub struct PlatformInitialized {
    pub authority: AccountId,
    pub fee_basis_points: u16,
    pub daily_volume_limit: u64,
}

/// Event reported when the administrator flips the emergency pause on.
#[derive(Clone, Copy, Debug, PartialEq, Eq, Structural)]
pub struct EmergencyPauseActivated {
    pub timestamp: i64,
}

/// One-time administrator setup of the platform state. The daily volume
/// limit must be positive; a fee rate outside `[1, 500]` basis points is
/// rejected; otherwise the fresh state comes back with all counters at
/// zero and the volume window anchored at `now`.
pub fn initialize_platform(
    authority: AccountId,
    daily_volume_limit: u64,
    fee_basis_points: u16,
    now: i64,
) -> (r: Result<(PlatformState, PlatformInitialized), ErrorCode>)
    requires
        valid_timestamp(now as int),
        0 < daily_volume_limit,
    ensures
        fee_basis_points < MIN_FEE_BASIS_POINTS ==> r == Err::<(PlatformState, PlatformInitialized),
            ErrorCode,
        >(ErrorCode::FeeTooLow),
        fee_basis_points > MAX_FEE_BASIS_POINTS ==> r == Err::<(PlatformState, PlatformInitialized),
            ErrorCode,
        >(ErrorCode::FeeTooHigh),
        r is Ok <==> MIN_FEE_BASIS_POINTS <= fee_basis_points <= MAX_FEE_BASIS_POINTS,
        r matches Ok(ok) ==> ok.0 == (PlatformState {
            authority,
            daily_volume_limit,
            total_volume_24h: 0,
            last_volume_reset: now,
            failed_tx_count: 0,
            emergency_pause: false,
            fee_basis_points,
            min_fee: DEFAULT_MIN_FEE,
            max_fee: DEFAULT_MAX_FEE,
            total_subscriptions: 0,
            total_transactions: 0,
        }) && ok.0.wf() && ok.1 == (PlatformInitialized {
            authority,
            fee_basis_points,
            daily_volume_limit,
        }),
{
    if fee_basis_points < MIN_FEE_BASIS_POINTS {
        return Err(ErrorCode::FeeTooLow);
    }
    if fee_basis_points > MAX_FEE_BASIS_POINTS {
        return Err(ErrorCode::FeeTooHigh);
    }
    let platform = PlatformState {
        authority,
        daily_volume_limit,
        total_volume_24h: 0,
        last_volume_reset: now,
        failed_tx_count: 0,
        emergency_pause: false,
        fee_basis_points,
        min_fee: DEFAULT_MIN_FEE,
        max_fee: DEFAULT_MAX_FEE,
        total_subscriptions: 0,
        total_transactions: 0,
    };
    let event = PlatformInitialized { authority, fee_basis_points, daily_volume_limit };
    Ok((platform, event))
}

/// Administrator-only kill switch: stops all payment executions and new
/// subscriptions system-wide until lifted. Touches nothing else.
pub fn emergency_pause(platform: &mut PlatformState, caller: AccountId, now: i64) -> (r: Result<
    EmergencyPauseActivated,
    ErrorCode,
>)
    ensures
        caller != old(platform).authority ==> r == Err::<EmergencyPauseActivated, ErrorCode>(
            ErrorCode::UnauthorizedAdmin,
        ) && *final(platform) == *old(platform),
        caller == old(platform).authority ==> r == Ok::<EmergencyPauseActivated, ErrorCode>(
            EmergencyPauseActivated { timestamp: now },
        ) && *final(platform) == (PlatformState { emergency_pause: true, ..*old(platform) }),
        old(platform).wf() ==> final(platform).wf(),
{
    if caller != platform.authority {
        return Err(ErrorCode::UnauthorizedAdmin);
    }
    platform.emergency_pause = true;
    Ok(EmergencyPauseActivated { timestamp: now })
}

/// Administrator-only resume of normal operations after an emergency
/// pause: lifts the pause and resets the rolling volume window and the
/// failure counter.
pub fn emergency_unpause(platform: &mut PlatformState, caller: AccountId, now: i64) -> (r: Result<
    (),
    ErrorCode,
>)
    requires
        valid_timestamp(now as int),
    ensures
        caller != old(platform).authority ==> r == Err::<(), ErrorCode>(
            ErrorCode::UnauthorizedAdmin,
        ) && *final(platform) == *old(platform),
        caller == old(platform).authority ==> r == Ok::<(), ErrorCode>(()) && *final(platform)
            == (PlatformState {
            emergency_pause: false,
            total_volume_24h: 0,
            last_volume_reset: now,
            failed_tx_count: 0,
            ..*old(platform)
        }),
        old(platform).wf() ==> final(platform).wf(),
{
    if caller != platform.authority {
        return Err(ErrorCode::UnauthorizedAdmin);
    }
    platform.emergency_pause = false;
    platform.total_volume_24h = 0;
    platform.last_volume_reset = now;
    platform.failed_tx_count = 0;
    Ok(())
}

} // verus!
