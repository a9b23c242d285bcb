//! On-chain account state of the protocol, escrows and vaults.
use vstd::prelude::*;

use crate::pubkey::Pubkey;

verus! {

/// Singleton protocol administration and global pause state.
#[derive(Clone, Copy, Debug)]
pub struct ProtocolConfig {
    pub version: u16,
    pub admin: Pubkey,
    pub guardian: Pubkey,
    pub pause_flags: u32,
    pub bump: u8,
}

impl ProtocolConfig {
    /// Payload bytes after the account discriminator.
    pub const INIT_SPACE: usize = 132;
    /// Account size including the 8-byte discriminator.
    pub const SPACE: usize = 140;

    /// Whether any bit of `flag` is set in the pause mask.
    pub open spec fn spec_is_paused(self, flag: u32) -> bool {
        self.pause_flags & flag != 0
    }

    /// Whether any bit of `flag` is set in the pause mask.
    pub fn is_paused(&self, flag: u32) -> (paused: bool)
        ensures
            paused == self.spec_is_paused(flag),
    {
        self.pause_flags & flag != 0
    }
}

/// Closed state machine for a fixed-destination escrow.
#[derive(Clone, Copy, Debug, PartialEq, Eq, Structural)]
pub enum EscrowStatus {
    Funded,
    Released,
    Refunded,
}

/// Immutable escrow terms plus the single mutable lifecycle status.
#[derive(Clone, Copy, Debug)]
pub struct Escrow {
    pub maker: Pubkey,
    pub recipient: Pubkey,
    pub mint: Pubkey,
    pub token_program: Pubkey,
    pub escrow_id: u64,
    pub amount: u64,
    pub created_at: i64,
    pub expires_at: i64,
    pub status: EscrowStatus,
    pub bump: u8,
}

impl Escrow {
    /// Payload bytes after the account discriminator.
    pub const INIT_SPACE: usize = 192;
    /// Account size including the 8-byte discriminator.
    pub const SPACE: usize = 200;

    /// Everything but the status: the terms that no instruction may change.
    pub open spec fn same_terms(self, other: Escrow) -> bool {
        &&& self.maker == other.maker
        &&& self.recipient == other.recipient
        &&& self.mint == other.mint
        &&& self.token_program == other.token_program
        &&& self.escrow_id == other.escrow_id
        &&& self.amount == other.amount
        &&& self.created_at == other.created_at
        &&& self.expires_at == other.expires_at
        &&& self.bump == other.bump
    }
}

/// Authority and lifecycle configuration for one multi-asset vault.
#[derive(Clone, Copy, Debug)]
pub struct Vault {
    pub namespace_authority: Pubkey,
    pub authority: Pubkey,
    pub guardian: Pubkey,
    pub vault_id: u64,
    pub next_withdrawal_id: u64,
    pub paused: bool,
    pub bump: u8,
}

impl Vault {
    /// Payload bytes after the account discriminator.
    pub const INIT_SPACE: usize = 160;
    /// Account size including the 8-byte discriminator.
    pub const SPACE: usize = 168;
}

/// Registration, withdrawal policy and rolling-window accounting for one mint
/// held by a vault.
#[derive(Clone, Copy, Debug)]
pub struct VaultAsset {
    pub vault: Pubkey,
    pub mint: Pubkey,
    pub token_program: Pubkey,
    pub max_per_transaction: u64,
    pub window_limit: u64,
    pub window_seconds: i64,
    pub window_started_at: i64,
    pub window_spent: u64,
    pub timelock_threshold: u64,
    pub timelock_seconds: i64,
    pub request_execution_window_seconds: i64,
    pub enabled: bool,
    pub bump: u8,
}

impl VaultAsset {
    /// Payload bytes after the account discriminator.
    pub const INIT_SPACE: usize = 192;
    /// Account size including the 8-byte discriminator.
    pub const SPACE: usize = 200;

    /// The fields that no instruction may change after registration.
    pub open spec fn same_identity(self, other: VaultAsset) -> bool {
        &&& self.vault == other.vault
        &&& self.mint == other.mint
        &&& self.token_program == other.token_program
        &&& self.bump == other.bump
    }

    /// The withdrawal policy fields.
    pub open spec fn same_policy(self, other: VaultAsset) -> bool {
        &&& self.max_per_transaction == other.max_per_transaction
        &&& self.window_limit == other.window_limit
        &&& self.window_seconds == other.window_seconds
        &&& self.timelock_threshold == other.timelock_threshold
        &&& self.timelock_seconds == other.timelock_seconds
        &&& self.request_execution_window_seconds == other.request_execution_window_seconds
        &&& self.enabled == other.enabled
    }
}

/// Exact permission mask held by one principal of one vault.
#[derive(Clone, Copy, Debug)]
pub struct RoleAssignment {
    pub vault: Pubkey,
    pub principal: Pubkey,
    pub permissions: u64,
    pub active: bool,
    pub bump: u8,
}

impl RoleAssignment {
    /// Payload bytes after the account discriminator.
    pub const INIT_SPACE: usize = 128;
    /// Account size including the 8-byte discriminator.
    pub const SPACE: usize = 136;

    /// An active role grants every bit of `permission` that it holds.
    pub open spec fn spec_has(self, permission: u64) -> bool {
        self.active && self.permissions & permission == permission
    }

    /// Whether this role is active and holds every bit of `permission`.
    pub fn has(&self, permission: u64) -> (granted: bool)
        ensures
            granted == self.spec_has(permission),
    {
        self.active && self.permissions & permission == permission
    }
}

/// Lifecycle of a timelocked withdrawal request.
#[derive(Clone, Copy, Debug, PartialEq, Eq, Structural)]
pub enum WithdrawalStatus {
    Pending,
    Executed,
    Cancelled,
}

/// Immutable timelocked withdrawal intent plus its mutable status.
#[derive(Clone, Copy, Debug)]
pub struct WithdrawalRequest {
    pub vault: Pubkey,
    pub vault_asset: Pubkey,
    pub mint: Pubkey,
    pub token_program: Pubkey,
    pub proposer: Pubkey,
    pub recipient_owner: Pubkey,
    pub recipient_token_account: Pubkey,
    pub withdrawal_id: u64,
    pub amount: u64,
    pub created_at: i64,
    pub execute_after: i64,
    pub expires_at: i64,
    pub status: WithdrawalStatus,
    pub bump: u8,
}

impl WithdrawalRequest {
    /// Payload bytes after the account discriminator.
    pub const INIT_SPACE: usize = 296;
    /// Account size including the 8-byte discriminator.
    pub const SPACE: usize = 304;

    /// Everything but the status: the intent that no instruction may change.
    pub open spec fn same_intent(self, other: WithdrawalRequest) -> bool {
        &&& self.vault == other.vault
        &&& self.vault_asset == other.vault_asset
        &&& self.mint == other.mint
        &&& self.token_program == other.token_program
        &&& self.proposer == other.proposer
        &&& self.recipient_owner == other.recipient_owner
        &&& self.recipient_token_account == other.recipient_token_account
        &&& self.withdrawal_id == other.withdrawal_id
        &&& self.amount == other.amount
        &&& self.created_at == other.created_at
        &&& self.execute_after == other.execute_after
        &&& self.expires_at == other.expires_at
        &&& self.bump == other.bump
    }
}

/// A token account as the instruction sees it: its address, the token
/// program that owns it, and the SPL fields that the checks read.
#[derive(Clone, Copy, Debug)]
pub struct TokenAccount {
    pub key: Pubkey,
    pub program: Pubkey,
    pub mint: Pubkey,
    pub owner: Pubkey,
    pub amount: u64,
}

/// A mint as the instruction sees it: its address, owning token program,
/// decimals and raw account data (for the extension policy).
#[derive(Clone, Debug)]
pub struct MintAccount {
    pub key: Pubkey,
    pub program: Pubkey,
    pub decimals: u8,
    pub data: Vec<u8>,
}

/// An extra account supplied after the fixed accounts of an instruction.
#[derive(Clone, Debug)]
pub struct AccountInfo {
    pub key: Pubkey,
    pub owner: Pubkey,
    pub data: Vec<u8>,
}

} // verus!
