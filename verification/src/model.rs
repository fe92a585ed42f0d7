//! Plain-value stand-ins for the host ledger's notions: account identities,
//! token-account metadata, call origin, and the trusted clock.

use vstd::prelude::*;

verus! {

/// Number of seconds in one day, the rolling-volume window.
pub const SECONDS_PER_DAY: i64 = 86_400;

/// Identity of an account on the host ledger (a wallet, a token account,
/// a program, a stored record). Only equality of identities matters to the
/// engine, so an identity is a plain number.
#[derive(Clone, Copy, Debug, PartialEq, Eq, Structural)]
pub struct AccountId {
    pub id: u64,
}

/// What the engine reads of a token account held by the host ledger: its
/// own identity, the wallet that owns it, and the token mint it holds.
#[derive(Clone, Copy, Debug, PartialEq, Eq, Structural)]
pub struct TokenAccountInfo {
    pub address: AccountId,
    pub owner: AccountId,
    pub mint: AccountId,
}

/// How a call reached the registry: directly from an outside caller, or as
/// a nested call made by a program identified by the host runtime.
#[derive(Clone, Copy, Debug, PartialEq, Eq, Structural)]
pub enum CallOrigin {
    Direct,
    Nested { calling_program: AccountId },
}

/// A clock reading the engine accepts: non-negative, and far enough from
/// the top of the `i64` range that adding the longest billing frequency
/// (one year, 31 536 000 seconds) cannot overflow.
pub open spec fn valid_timestamp(t: int) -> bool {
    0 <= t && t + 31_536_000 <= i64::MAX
}

} // verus!
