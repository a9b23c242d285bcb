//! Withdrawal policy validation and rolling-window accounting.
use vstd::prelude::*;

use crate::error::IronVaultError;
use crate::state::VaultAsset;

verus! {

/// A policy is valid when every amount and duration is positive, one
/// transaction cannot exceed the window, and the instant threshold does not
/// exceed the per-transaction maximum (a zero threshold sends every positive
/// amount through a timelock).
pub open spec fn spec_policy_is_valid(
    max_per_transaction: u64,
    window_limit: u64,
    window_seconds: i64,
    timelock_threshold: u64,
    timelock_seconds: i64,
    request_execution_window_seconds: i64,
) -> bool {
    &&& max_per_transaction > 0
    &&& window_limit > 0
    &&& window_seconds > 0
    &&& max_per_transaction <= window_limit
    &&& timelock_threshold <= max_per_transaction
    &&& timelock_seconds > 0
    &&& request_execution_window_seconds > 0
}

/// Checks a proposed withdrawal policy.
pub fn policy_is_valid(
    max_per_transaction: u64,
    window_limit: u64,
    window_seconds: i64,
    timelock_threshold: u64,
    timelock_seconds: i64,
    request_execution_window_seconds: i64,
) -> (valid: bool)
    ensures
        valid == spec_policy_is_valid(
            max_per_transaction,
            window_limit,
            window_seconds,
            timelock_threshold,
            timelock_seconds,
            request_execution_window_seconds,
        ),
{
    max_per_transaction > 0 && window_limit > 0 && window_seconds > 0 && max_per_transaction
        <= window_limit && timelock_threshold <= max_per_transaction && timelock_seconds > 0
        && request_execution_window_seconds > 0
}

/// Whether `x` fits in an `i64`.
pub open spec fn fits_i64(x: int) -> bool {
    i64::MIN <= x <= i64::MAX
}

/// The end of the asset's current accounting window, when it is representable.
pub open spec fn window_end(asset: VaultAsset) -> int {
    asset.window_started_at + asset.window_seconds
}

/// Whether the current window has run out at `now` (the boundary counts as
/// elapsed).
pub open spec fn window_elapsed(asset: VaultAsset, now: i64) -> bool {
    now >= window_end(asset)
}

/// Window start and spend after an outflow of `amount` at `now`: an elapsed
/// window restarts at `now` with nothing spent, then `amount` is charged with
/// checked arithmetic and must stay within the window limit.
pub open spec fn spec_next_window_state(asset: VaultAsset, amount: u64, now: i64) -> Result<
    (i64, u64),
    IronVaultError,
> {
    if !fits_i64(window_end(asset)) {
        Err(IronVaultError::WithdrawalPolicyOverflow)
    } else {
        let start = if window_elapsed(asset, now) {
            now
        } else {
            asset.window_started_at
        };
        let spent: int = if window_elapsed(asset, now) {
            0
        } else {
            asset.window_spent as int
        };
        if spent + amount > u64::MAX {
            Err(IronVaultError::WithdrawalPolicyOverflow)
        } else if spent + amount > asset.window_limit {
            Err(IronVaultError::WindowLimitExceeded)
        } else {
            Ok((start, (spent + amount) as u64))
        }
    }
}

/// Computes the window start and spend that a successful outflow of `amount`
/// at `now` leaves behind, or the reason the outflow exceeds the window.
pub fn next_window_state(asset: &VaultAsset, amount: u64, now: i64) -> (next: Result<
    (i64, u64),
    IronVaultError,
>)
    ensures
        next == spec_next_window_state(*asset, amount, now),
{
    let window_end = match asset.window_started_at.checked_add(asset.window_seconds) {
        Some(end) => end,
        None => {
            return Err(IronVaultError::WithdrawalPolicyOverflow);
        },
    };
    let (start, spent) = if now >= window_end {
        (now, 0u64)
    } else {
        (asset.window_started_at, asset.window_spent)
    };
    let total = match spent.checked_add(amount) {
        Some(total) => total,
        None => {
            return Err(IronVaultError::WithdrawalPolicyOverflow);
        },
    };
    if total > asset.window_limit {
        return Err(IronVaultError::WindowLimitExceeded);
    }
    Ok((start, total))
}

/// Law: an outflow that the window accepts never leaves more spent in the
/// window than its limit, charges exactly the amount on top of a live window's
/// spend, and starts a fresh window at `now` once the old one has elapsed.
pub proof fn lemma_window_accounting(asset: VaultAsset, amount: u64, now: i64)
    requires
        spec_next_window_state(asset, amount, now) is Ok,
    ensures
        ({
            let (start, spent) = spec_next_window_state(asset, amount, now)->Ok_0;
            &&& spent <= asset.window_limit
            &&& window_elapsed(asset, now) ==> start == now && spent == amount
            &&& !window_elapsed(asset, now) ==> start == asset.window_started_at && spent
                == asset.window_spent + amount
        }),
{
}

/// Law: within one live window, no sequence of accepted outflows can spend
/// more than the limit in total: a second outflow after an accepted one is
/// accepted only if both amounts together stay within the limit.
pub proof fn lemma_window_capacity_is_shared(
    asset: VaultAsset,
    first: u64,
    second: u64,
    now: i64,
    later: i64,
)
    requires
        now <= later,
        later < window_end(asset),
        spec_next_window_state(asset, first, now) is Ok,
        ({
            let (start, spent) = spec_next_window_state(asset, first, now)->Ok_0;
            spec_next_window_state(
                VaultAsset { window_started_at: start, window_spent: spent, ..asset },
                second,
                later,
            ) is Ok
        }),
    ensures
        asset.window_spent + first + second <= asset.window_limit,
{
}

/// Law: once a window has run out (the boundary instant counts), the next
/// outflow starts a fresh window at `now` and is charged alone: it is accepted
/// exactly when it fits the window limit, whatever was spent before.
pub proof fn lemma_window_rolls_over(asset: VaultAsset, amount: u64, now: i64)
    requires
        fits_i64(window_end(asset)),
        window_elapsed(asset, now),
    ensures
        spec_next_window_state(asset, amount, now) == if amount <= asset.window_limit {
            Ok::<(i64, u64), IronVaultError>((now, amount))
        } else {
            Err::<(i64, u64), IronVaultError>(IronVaultError::WindowLimitExceeded)
        },
{
}

} // verus!
