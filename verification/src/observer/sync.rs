//! The observer's synchronisation state, its readiness verdict, and the
//! reading of the upgradeable loader's accounts that reveal a program
//! upgrade.
use vstd::prelude::*;

use crate::codec::{key_at, read_key, read_u32, read_u64, u32_at, u64_at};
use crate::pubkey::Pubkey;

verus! {

/// How far the observer has caught up with the cluster.
#[derive(Clone, Debug, Default)]
pub struct SyncStatus {
    /// The log subscription is live.
    pub connected: bool,
    /// Finalized history has been reconciled since the subscription began.
    pub reconciled: bool,
    /// The highest slot known to be fully observed.
    pub observed_slot: u64,
    /// The latest finalized slot reported by the cluster.
    pub rpc_slot: u64,
}

/// Connection settings of the observer.
pub struct ObserverSettings {
    pub rpc_http_url: String,
    pub rpc_ws_url: String,
    /// Base58 address of the program whose events are observed.
    pub program_id: String,
    pub reconnect_delay: std::time::Duration,
    /// Withdrawal requests of at least this amount raise an alert.
    pub large_withdrawal_threshold: u64,
}

/// The larger of two slots.
pub open spec fn later_slot(a: u64, b: u64) -> u64 {
    if a >= b {
        a
    } else {
        b
    }
}

impl SyncStatus {
    /// Slots by which observation trails the cluster (none when ahead).
    pub open spec fn spec_slot_lag(self) -> u64 {
        if self.rpc_slot >= self.observed_slot {
            (self.rpc_slot - self.observed_slot) as u64
        } else {
            0
        }
    }

    /// Ready means: the database answers, the subscription is live, history
    /// has been reconciled, and observation trails the cluster by at most
    /// `max_ready_slot_lag` slots.
    pub open spec fn spec_is_ready(self, database_ready: bool, max_ready_slot_lag: u64) -> bool {
        database_ready && self.connected && self.reconciled && self.spec_slot_lag()
            <= max_ready_slot_lag
    }

    /// Slots by which observation trails the cluster.
    pub fn slot_lag(&self) -> (lag: u64)
        ensures
            lag == self.spec_slot_lag(),
    {
        if self.rpc_slot >= self.observed_slot {
            self.rpc_slot - self.observed_slot
        } else {
            0
        }
    }

    /// The readiness verdict.
    pub fn is_ready(&self, database_ready: bool, max_ready_slot_lag: u64) -> (ready: bool)
        ensures
            ready == self.spec_is_ready(database_ready, max_ready_slot_lag),
    {
        database_ready && self.connected && self.reconciled && self.slot_lag()
            <= max_ready_slot_lag
    }

    /// A new subscription is live; history must be reconciled again.
    pub fn record_subscription(&mut self)
        ensures
            *final(self) == (SyncStatus { connected: true, reconciled: false, ..*old(self) }),
    {
        self.connected = true;
        self.reconciled = false;
    }

    /// The subscription ended.
    pub fn record_disconnect(&mut self)
        ensures
            *final(self) == (SyncStatus { connected: false, ..*old(self) }),
    {
        self.connected = false;
    }

    /// A notification for `slot` arrived; the observed slot never goes back.
    pub fn observe_slot(&mut self, slot: u64)
        ensures
            *final(self) == (SyncStatus {
                observed_slot: later_slot(old(self).observed_slot, slot),
                ..*old(self)
            }),
    {
        if slot > self.observed_slot {
            self.observed_slot = slot;
        }
    }

    /// History was reconciled up to the finalized `slot`.
    pub fn record_reconciliation(&mut self, slot: u64)
        ensures
            *final(self) == (SyncStatus {
                reconciled: true,
                rpc_slot: slot,
                observed_slot: later_slot(old(self).observed_slot, slot),
                ..*old(self)
            }),
    {
        self.reconciled = true;
        self.rpc_slot = slot;
        self.observe_slot(slot);
    }

    /// The cluster reported the finalized `slot`.
    pub fn record_rpc_slot(&mut self, slot: u64)
        ensures
            *final(self) == (SyncStatus { rpc_slot: slot, ..*old(self) }),
    {
        self.rpc_slot = slot;
    }
}

/// Why an account of the upgradeable loader could not be read.
#[derive(Clone, Copy, Debug, PartialEq, Eq, Structural)]
pub enum LoaderStateError {
    /// The program account is not in the loader's `Program` state.
    NotProgramState,
    /// The program-data account is not in the loader's `ProgramData` state.
    NotProgramDataState,
}

/// Tag of the loader's `Program` account state.
pub const PROGRAM_STATE_TAG: u32 = 2;

/// Tag of the loader's `ProgramData` account state.
pub const PROGRAM_DATA_STATE_TAG: u32 = 3;

/// The program-data address recorded in a program account: a `Program`
/// state (tag 2, little-endian) followed by the 32-byte address.
pub open spec fn spec_program_data_address(program: Seq<u8>) -> Result<Pubkey, LoaderStateError> {
    if program.len() < 36 || u32_at(program, 0) != PROGRAM_STATE_TAG {
        Err(LoaderStateError::NotProgramState)
    } else {
        Ok(key_at(program, 4))
    }
}

/// The deployment slot recorded in a program-data account: a `ProgramData`
/// state (tag 3, little-endian) followed by the slot of the last deployment.
pub open spec fn spec_deployment_slot(program_data: Seq<u8>) -> Result<u64, LoaderStateError> {
    if program_data.len() < 12 || u32_at(program_data, 0) != PROGRAM_DATA_STATE_TAG {
        Err(LoaderStateError::NotProgramDataState)
    } else {
        Ok(u64_at(program_data, 4))
    }
}

/// Reads the program-data address from a program account's data.
pub fn program_data_address(program: &[u8]) -> (r: Result<Pubkey, LoaderStateError>)
    ensures
        r == spec_program_data_address(program@),
{
    if program.len() < 36 || read_u32(program, 0) != PROGRAM_STATE_TAG {
        return Err(LoaderStateError::NotProgramState);
    }
    Ok(read_key(program, 4))
}

/// Reads the deployment slot from a program-data account's data.
pub fn deployment_slot(program_data: &[u8]) -> (r: Result<u64, LoaderStateError>)
    ensures
        r == spec_deployment_slot(program_data@),
{
    if program_data.len() < 12 || read_u32(program_data, 0) != PROGRAM_DATA_STATE_TAG {
        return Err(LoaderStateError::NotProgramDataState);
    }
    Ok(read_u64(program_data, 4))
}

/// Law: the observed slot never moves backwards, whatever notifications and
/// reconciliations arrive, and a ready observer trails the cluster by at
/// most the allowed lag.
pub proof fn lemma_observed_slot_is_monotonic(
    status: SyncStatus,
    slot: u64,
    database_ready: bool,
    max_ready_slot_lag: u64,
)
    ensures
        later_slot(status.observed_slot, slot) >= status.observed_slot,
        later_slot(status.observed_slot, slot) >= slot,
        status.spec_is_ready(database_ready, max_ready_slot_lag) ==> status.rpc_slot
            <= status.observed_slot + max_ready_slot_lag,
{
}

} // verus!
