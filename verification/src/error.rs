//! Error codes of the program and the failures that instructions report.
use vstd::prelude::*;

verus! {

/// Errors reported by IronVault instructions.
#[derive(Clone, Copy, Debug, PartialEq, Eq, Structural)]
pub enum IronVaultError {
    /// The supplied protocol version is unsupported.
    UnsupportedVersion,
    /// Protocol admin and guardian identities must be distinct and non-default.
    InvalidProtocolAuthority,
    /// Only the stored protocol admin or guardian may manage emergency flags.
    UnauthorizedProtocolPause,
    /// Guardians may add emergency flags but cannot remove any active flag.
    GuardianCannotUnpause,
    /// Pause masks must contain only explicitly supported scopes.
    InvalidPauseFlags,
    /// The requested protocol operation is currently paused.
    ProtocolPaused,
    /// Escrow deposits must contain at least one base unit.
    InvalidAmount,
    /// The recipient must be non-default and different from the maker.
    InvalidRecipient,
    /// The escrow expiry must be strictly later than its creation time.
    InvalidExpiry,
    /// The maker does not own the supplied source token account.
    InvalidSourceOwner,
    /// The supplied source token account is for a different mint.
    InvalidSourceMint,
    /// The source token account cannot fund the requested amount.
    InsufficientFunds,
    /// The custody token account did not start empty or changed unexpectedly.
    InvalidCustodyBalance,
    /// The source balance did not change by the exact requested amount.
    InvalidSourceBalance,
    /// Only a funded escrow can transition to a terminal state.
    EscrowNotFunded,
    /// A maker release must occur strictly before expiry.
    EscrowExpired,
    /// Refunds become available at, but not before, the escrow expiry.
    EscrowNotExpired,
    /// The release token account must be owned by the immutable recipient.
    InvalidRecipientOwner,
    /// The release token account must use the immutable escrow mint.
    InvalidRecipientMint,
    /// The destination balance did not increase by the exact escrow amount.
    InvalidRecipientBalance,
    /// A refund destination must be controlled by the immutable maker.
    InvalidMakerDestinationOwner,
    /// A refund destination must use the immutable escrow mint.
    InvalidMakerDestinationMint,
    /// The maker destination balance did not increase by the exact escrow amount.
    InvalidMakerDestinationBalance,
    /// The vault guardian must be non-default and distinct from its authority.
    InvalidVaultGuardian,
    /// Only the vault's stored authority may perform this core operation.
    InvalidVaultAuthority,
    /// A replacement authority must be non-default and distinct from current intrinsic actors.
    InvalidNewVaultAuthority,
    /// The supplied asset is not enabled for vault operations.
    VaultAssetDisabled,
    /// Vault transfers must contain at least one base unit.
    InvalidVaultAmount,
    /// The depositor does not own the supplied source token account.
    InvalidDepositSourceOwner,
    /// A deposit source must use the registered asset mint.
    InvalidDepositSourceMint,
    /// A withdrawal destination must use the registered asset mint.
    InvalidWithdrawalDestinationMint,
    /// Vault custody cannot fund the requested withdrawal.
    InsufficientVaultFunds,
    /// The vault custody balance changed by an unexpected amount.
    InvalidVaultCustodyBalance,
    /// The inbound source balance changed by an unexpected amount.
    InvalidDepositSourceBalance,
    /// The withdrawal destination balance changed by an unexpected amount.
    InvalidWithdrawalDestinationBalance,
    /// Paused vaults reject outflows.
    VaultPaused,
    /// Only the stored authority or guardian may pause a vault.
    UnauthorizedVaultPause,
    /// Only the stored authority may unpause a vault.
    UnauthorizedVaultUnpause,
    /// Pause and unpause must change the current local state.
    VaultPauseUnchanged,
    /// Role principals must be non-default and distinct from intrinsic vault actors.
    InvalidRolePrincipal,
    /// A role must contain only known bits and grant at least one capability.
    InvalidPermissionMask,
    /// The supplied role is inactive or does not grant the required capability.
    MissingVaultPermission,
    /// Only active roles can be revoked.
    RoleNotActive,
    /// Withdrawal accepts no extra accounts for authorities and exactly one role for operators.
    UnexpectedWithdrawalAccounts,
    /// Withdrawal limits must be positive and internally consistent.
    InvalidWithdrawalPolicy,
    /// The requested amount exceeds the configured per-transaction maximum.
    PerTransactionLimitExceeded,
    /// The requested amount would exceed the configured rolling-window maximum.
    WindowLimitExceeded,
    /// Checked policy arithmetic failed.
    WithdrawalPolicyOverflow,
    /// A live accounting window retains its original duration.
    LiveWindowDurationChange,
    /// Limit management accepts no extra accounts for authorities and one role for operators.
    UnexpectedLimitAccounts,
    /// Reported as "Withdrawal amount requires a timelocked request".
    TimelockRequired,
    /// Reported as "Withdrawal amount does not require a timelocked request".
    TimelockNotRequired,
    /// Reported as "Withdrawal request timing overflow".
    WithdrawalTimingOverflow,
    /// Reported as "Withdrawal request is not pending".
    WithdrawalNotPending,
    /// Reported as "Withdrawal timelock has not elapsed".
    WithdrawalTimelockActive,
    /// Reported as "Withdrawal request execution window has expired".
    WithdrawalRequestExpired,
    /// Reported as "Withdrawal recipient account does not match the immutable request".
    InvalidWithdrawalRecipient,
    /// Reported as "Withdrawal request mint does not match".
    InvalidWithdrawalMint,
    /// Reported as "Caller cannot cancel this withdrawal request".
    UnauthorizedWithdrawalCancellation,
    /// Reported as "Unexpected withdrawal-request authorization accounts".
    UnexpectedRequestAccounts,
    /// Reported as "Unexpected withdrawal-cancellation authorization accounts".
    UnexpectedCancellationAccounts,
    /// Mint and token accounts must be owned by the selected token program.
    InvalidTokenProgram,
    /// V1 supports only extension-free Token-2022 mints.
    UnsupportedTokenExtension,
}

impl IronVaultError {
    /// The human-readable message of each error code.
    pub open spec fn spec_message(self) -> Seq<char> {
        match self {
            IronVaultError::UnsupportedVersion => "Unsupported protocol version"@,
            IronVaultError::InvalidProtocolAuthority => "Protocol authority configuration is invalid"@,
            IronVaultError::UnauthorizedProtocolPause => "Caller cannot manage protocol pause flags"@,
            IronVaultError::GuardianCannotUnpause => "Protocol guardian cannot clear pause flags"@,
            IronVaultError::InvalidPauseFlags => "Protocol pause mask contains unknown flags"@,
            IronVaultError::ProtocolPaused => "Protocol operation is paused"@,
            IronVaultError::InvalidAmount => "Escrow amount must be greater than zero"@,
            IronVaultError::InvalidRecipient => "Escrow recipient is invalid"@,
            IronVaultError::InvalidExpiry => "Escrow expiry must be in the future"@,
            IronVaultError::InvalidSourceOwner => "Maker does not own the source token account"@,
            IronVaultError::InvalidSourceMint => "Source token account mint does not match"@,
            IronVaultError::InsufficientFunds => "Source token account has insufficient funds"@,
            IronVaultError::InvalidCustodyBalance => "Escrow custody balance is invalid"@,
            IronVaultError::InvalidSourceBalance => "Source token balance changed unexpectedly"@,
            IronVaultError::EscrowNotFunded => "Escrow is not funded"@,
            IronVaultError::EscrowExpired => "Escrow has expired"@,
            IronVaultError::EscrowNotExpired => "Escrow has not expired"@,
            IronVaultError::InvalidRecipientOwner => "Release destination is not owned by the escrow recipient"@,
            IronVaultError::InvalidRecipientMint => "Release destination mint does not match"@,
            IronVaultError::InvalidRecipientBalance => "Recipient token balance changed unexpectedly"@,
            IronVaultError::InvalidMakerDestinationOwner => "Refund destination is not owned by the escrow maker"@,
            IronVaultError::InvalidMakerDestinationMint => "Refund destination mint does not match"@,
            IronVaultError::InvalidMakerDestinationBalance => "Maker destination balance changed unexpectedly"@,
            IronVaultError::InvalidVaultGuardian => "Vault guardian is invalid"@,
            IronVaultError::InvalidVaultAuthority => "Caller is not the vault authority"@,
            IronVaultError::InvalidNewVaultAuthority => "New vault authority is invalid"@,
            IronVaultError::VaultAssetDisabled => "Vault asset is disabled"@,
            IronVaultError::InvalidVaultAmount => "Vault transfer amount must be greater than zero"@,
            IronVaultError::InvalidDepositSourceOwner => "Depositor does not own the source token account"@,
            IronVaultError::InvalidDepositSourceMint => "Deposit source mint does not match the vault asset"@,
            IronVaultError::InvalidWithdrawalDestinationMint => "Withdrawal destination mint does not match the vault asset"@,
            IronVaultError::InsufficientVaultFunds => "Vault custody has insufficient funds"@,
            IronVaultError::InvalidVaultCustodyBalance => "Vault custody balance changed unexpectedly"@,
            IronVaultError::InvalidDepositSourceBalance => "Deposit source balance changed unexpectedly"@,
            IronVaultError::InvalidWithdrawalDestinationBalance => "Withdrawal destination balance changed unexpectedly"@,
            IronVaultError::VaultPaused => "Vault is paused"@,
            IronVaultError::UnauthorizedVaultPause => "Caller cannot pause this vault"@,
            IronVaultError::UnauthorizedVaultUnpause => "Only the vault authority can unpause"@,
            IronVaultError::VaultPauseUnchanged => "Vault pause state is unchanged"@,
            IronVaultError::InvalidRolePrincipal => "Role principal is invalid"@,
            IronVaultError::InvalidPermissionMask => "Role permission mask is invalid"@,
            IronVaultError::MissingVaultPermission => "Caller lacks the required vault permission"@,
            IronVaultError::RoleNotActive => "Role is not active"@,
            IronVaultError::UnexpectedWithdrawalAccounts => "Unexpected withdrawal accounts"@,
            IronVaultError::InvalidWithdrawalPolicy => "Withdrawal policy is invalid"@,
            IronVaultError::PerTransactionLimitExceeded => "Per-transaction withdrawal limit exceeded"@,
            IronVaultError::WindowLimitExceeded => "Rolling-window withdrawal limit exceeded"@,
            IronVaultError::WithdrawalPolicyOverflow => "Withdrawal policy arithmetic overflow"@,
            IronVaultError::LiveWindowDurationChange => "Cannot change duration while the withdrawal window is live"@,
            IronVaultError::UnexpectedLimitAccounts => "Unexpected limit-management accounts"@,
            IronVaultError::TimelockRequired => "Withdrawal amount requires a timelocked request"@,
            IronVaultError::TimelockNotRequired => "Withdrawal amount does not require a timelocked request"@,
            IronVaultError::WithdrawalTimingOverflow => "Withdrawal request timing overflow"@,
            IronVaultError::WithdrawalNotPending => "Withdrawal request is not pending"@,
            IronVaultError::WithdrawalTimelockActive => "Withdrawal timelock has not elapsed"@,
            IronVaultError::WithdrawalRequestExpired => "Withdrawal request execution window has expired"@,
            IronVaultError::InvalidWithdrawalRecipient => "Withdrawal recipient account does not match the immutable request"@,
            IronVaultError::InvalidWithdrawalMint => "Withdrawal request mint does not match"@,
            IronVaultError::UnauthorizedWithdrawalCancellation => "Caller cannot cancel this withdrawal request"@,
            IronVaultError::UnexpectedRequestAccounts => "Unexpected withdrawal-request authorization accounts"@,
            IronVaultError::UnexpectedCancellationAccounts => "Unexpected withdrawal-cancellation authorization accounts"@,
            IronVaultError::InvalidTokenProgram => "Token account or mint is not owned by the selected token program"@,
            IronVaultError::UnsupportedTokenExtension => "Token-2022 mint extensions are not supported"@,
        }
    }

    /// The human-readable message that accompanies the error code.
    pub fn message(&self) -> (text: &'static str)
        ensures
            text@ == self.spec_message(),
    {
        match self {
            IronVaultError::UnsupportedVersion => "Unsupported protocol version",
            IronVaultError::InvalidProtocolAuthority => "Protocol authority configuration is invalid",
            IronVaultError::UnauthorizedProtocolPause => "Caller cannot manage protocol pause flags",
            IronVaultError::GuardianCannotUnpause => "Protocol guardian cannot clear pause flags",
            IronVaultError::InvalidPauseFlags => "Protocol pause mask contains unknown flags",
            IronVaultError::ProtocolPaused => "Protocol operation is paused",
            IronVaultError::InvalidAmount => "Escrow amount must be greater than zero",
            IronVaultError::InvalidRecipient => "Escrow recipient is invalid",
            IronVaultError::InvalidExpiry => "Escrow expiry must be in the future",
            IronVaultError::InvalidSourceOwner => "Maker does not own the source token account",
            IronVaultError::InvalidSourceMint => "Source token account mint does not match",
            IronVaultError::InsufficientFunds => "Source token account has insufficient funds",
            IronVaultError::InvalidCustodyBalance => "Escrow custody balance is invalid",
            IronVaultError::InvalidSourceBalance => "Source token balance changed unexpectedly",
            IronVaultError::EscrowNotFunded => "Escrow is not funded",
            IronVaultError::EscrowExpired => "Escrow has expired",
            IronVaultError::EscrowNotExpired => "Escrow has not expired",
            IronVaultError::InvalidRecipientOwner => "Release destination is not owned by the escrow recipient",
            IronVaultError::InvalidRecipientMint => "Release destination mint does not match",
            IronVaultError::InvalidRecipientBalance => "Recipient token balance changed unexpectedly",
            IronVaultError::InvalidMakerDestinationOwner => "Refund destination is not owned by the escrow maker",
            IronVaultError::InvalidMakerDestinationMint => "Refund destination mint does not match",
            IronVaultError::InvalidMakerDestinationBalance => "Maker destination balance changed unexpectedly",
            IronVaultError::InvalidVaultGuardian => "Vault guardian is invalid",
            IronVaultError::InvalidVaultAuthority => "Caller is not the vault authority",
            IronVaultError::InvalidNewVaultAuthority => "New vault authority is invalid",
            IronVaultError::VaultAssetDisabled => "Vault asset is disabled",
            IronVaultError::InvalidVaultAmount => "Vault transfer amount must be greater than zero",
            IronVaultError::InvalidDepositSourceOwner => "Depositor does not own the source token account",
            IronVaultError::InvalidDepositSourceMint => "Deposit source mint does not match the vault asset",
            IronVaultError::InvalidWithdrawalDestinationMint => "Withdrawal destination mint does not match the vault asset",
            IronVaultError::InsufficientVaultFunds => "Vault custody has insufficient funds",
            IronVaultError::InvalidVaultCustodyBalance => "Vault custody balance changed unexpectedly",
            IronVaultError::InvalidDepositSourceBalance => "Deposit source balance changed unexpectedly",
            IronVaultError::InvalidWithdrawalDestinationBalance => "Withdrawal destination balance changed unexpectedly",
            IronVaultError::VaultPaused => "Vault is paused",
            IronVaultError::UnauthorizedVaultPause => "Caller cannot pause this vault",
            IronVaultError::UnauthorizedVaultUnpause => "Only the vault authority can unpause",
            IronVaultError::VaultPauseUnchanged => "Vault pause state is unchanged",
            IronVaultError::InvalidRolePrincipal => "Role principal is invalid",
            IronVaultError::InvalidPermissionMask => "Role permission mask is invalid",
            IronVaultError::MissingVaultPermission => "Caller lacks the required vault permission",
            IronVaultError::RoleNotActive => "Role is not active",
            IronVaultError::UnexpectedWithdrawalAccounts => "Unexpected withdrawal accounts",
            IronVaultError::InvalidWithdrawalPolicy => "Withdrawal policy is invalid",
            IronVaultError::PerTransactionLimitExceeded => "Per-transaction withdrawal limit exceeded",
            IronVaultError::WindowLimitExceeded => "Rolling-window withdrawal limit exceeded",
            IronVaultError::WithdrawalPolicyOverflow => "Withdrawal policy arithmetic overflow",
            IronVaultError::LiveWindowDurationChange => "Cannot change duration while the withdrawal window is live",
            IronVaultError::UnexpectedLimitAccounts => "Unexpected limit-management accounts",
            IronVaultError::TimelockRequired => "Withdrawal amount requires a timelocked request",
            IronVaultError::TimelockNotRequired => "Withdrawal amount does not require a timelocked request",
            IronVaultError::WithdrawalTimingOverflow => "Withdrawal request timing overflow",
            IronVaultError::WithdrawalNotPending => "Withdrawal request is not pending",
            IronVaultError::WithdrawalTimelockActive => "Withdrawal timelock has not elapsed",
            IronVaultError::WithdrawalRequestExpired => "Withdrawal request execution window has expired",
            IronVaultError::InvalidWithdrawalRecipient => "Withdrawal recipient account does not match the immutable request",
            IronVaultError::InvalidWithdrawalMint => "Withdrawal request mint does not match",
            IronVaultError::UnauthorizedWithdrawalCancellation => "Caller cannot cancel this withdrawal request",
            IronVaultError::UnexpectedRequestAccounts => "Unexpected withdrawal-request authorization accounts",
            IronVaultError::UnexpectedCancellationAccounts => "Unexpected withdrawal-cancellation authorization accounts",
            IronVaultError::InvalidTokenProgram => "Token account or mint is not owned by the selected token program",
            IronVaultError::UnsupportedTokenExtension => "Token-2022 mint extensions are not supported",
        }
    }

    /// Anchor numbers custom error codes from 6000 in declaration order.
    pub open spec fn spec_code(self) -> u32 {
        match self {
            IronVaultError::UnsupportedVersion => 6000u32,
            IronVaultError::InvalidProtocolAuthority => 6001u32,
            IronVaultError::UnauthorizedProtocolPause => 6002u32,
            IronVaultError::GuardianCannotUnpause => 6003u32,
            IronVaultError::InvalidPauseFlags => 6004u32,
            IronVaultError::ProtocolPaused => 6005u32,
            IronVaultError::InvalidAmount => 6006u32,
            IronVaultError::InvalidRecipient => 6007u32,
            IronVaultError::InvalidExpiry => 6008u32,
            IronVaultError::InvalidSourceOwner => 6009u32,
            IronVaultError::InvalidSourceMint => 6010u32,
            IronVaultError::InsufficientFunds => 6011u32,
            IronVaultError::InvalidCustodyBalance => 6012u32,
            IronVaultError::InvalidSourceBalance => 6013u32,
            IronVaultError::EscrowNotFunded => 6014u32,
            IronVaultError::EscrowExpired => 6015u32,
            IronVaultError::EscrowNotExpired => 6016u32,
            IronVaultError::InvalidRecipientOwner => 6017u32,
            IronVaultError::InvalidRecipientMint => 6018u32,
            IronVaultError::InvalidRecipientBalance => 6019u32,
            IronVaultError::InvalidMakerDestinationOwner => 6020u32,
            IronVaultError::InvalidMakerDestinationMint => 6021u32,
            IronVaultError::InvalidMakerDestinationBalance => 6022u32,
            IronVaultError::InvalidVaultGuardian => 6023u32,
            IronVaultError::InvalidVaultAuthority => 6024u32,
            IronVaultError::InvalidNewVaultAuthority => 6025u32,
            IronVaultError::VaultAssetDisabled => 6026u32,
            IronVaultError::InvalidVaultAmount => 6027u32,
            IronVaultError::InvalidDepositSourceOwner => 6028u32,
            IronVaultError::InvalidDepositSourceMint => 6029u32,
            IronVaultError::InvalidWithdrawalDestinationMint => 6030u32,
            IronVaultError::InsufficientVaultFunds => 6031u32,
            IronVaultError::InvalidVaultCustodyBalance => 6032u32,
            IronVaultError::InvalidDepositSourceBalance => 6033u32,
            IronVaultError::InvalidWithdrawalDestinationBalance => 6034u32,
            IronVaultError::VaultPaused => 6035u32,
            IronVaultError::UnauthorizedVaultPause => 6036u32,
            IronVaultError::UnauthorizedVaultUnpause => 6037u32,
            IronVaultError::VaultPauseUnchanged => 6038u32,
            IronVaultError::InvalidRolePrincipal => 6039u32,
            IronVaultError::InvalidPermissionMask => 6040u32,
            IronVaultError::MissingVaultPermission => 6041u32,
            IronVaultError::RoleNotActive => 6042u32,
            IronVaultError::UnexpectedWithdrawalAccounts => 6043u32,
            IronVaultError::InvalidWithdrawalPolicy => 6044u32,
            IronVaultError::PerTransactionLimitExceeded => 6045u32,
            IronVaultError::WindowLimitExceeded => 6046u32,
            IronVaultError::WithdrawalPolicyOverflow => 6047u32,
            IronVaultError::LiveWindowDurationChange => 6048u32,
            IronVaultError::UnexpectedLimitAccounts => 6049u32,
            IronVaultError::TimelockRequired => 6050u32,
            IronVaultError::TimelockNotRequired => 6051u32,
            IronVaultError::WithdrawalTimingOverflow => 6052u32,
            IronVaultError::WithdrawalNotPending => 6053u32,
            IronVaultError::WithdrawalTimelockActive => 6054u32,
            IronVaultError::WithdrawalRequestExpired => 6055u32,
            IronVaultError::InvalidWithdrawalRecipient => 6056u32,
            IronVaultError::InvalidWithdrawalMint => 6057u32,
            IronVaultError::UnauthorizedWithdrawalCancellation => 6058u32,
            IronVaultError::UnexpectedRequestAccounts => 6059u32,
            IronVaultError::UnexpectedCancellationAccounts => 6060u32,
            IronVaultError::InvalidTokenProgram => 6061u32,
            IronVaultError::UnsupportedTokenExtension => 6062u32,
        }
    }

    /// The numeric custom error code reported to clients.
    pub fn code(&self) -> (code: u32)
        ensures
            code == self.spec_code(),
    {
        match self {
            IronVaultError::UnsupportedVersion => 6000u32,
            IronVaultError::InvalidProtocolAuthority => 6001u32,
            IronVaultError::UnauthorizedProtocolPause => 6002u32,
            IronVaultError::GuardianCannotUnpause => 6003u32,
            IronVaultError::InvalidPauseFlags => 6004u32,
            IronVaultError::ProtocolPaused => 6005u32,
            IronVaultError::InvalidAmount => 6006u32,
            IronVaultError::InvalidRecipient => 6007u32,
            IronVaultError::InvalidExpiry => 6008u32,
            IronVaultError::InvalidSourceOwner => 6009u32,
            IronVaultError::InvalidSourceMint => 6010u32,
            IronVaultError::InsufficientFunds => 6011u32,
            IronVaultError::InvalidCustodyBalance => 6012u32,
            IronVaultError::InvalidSourceBalance => 6013u32,
            IronVaultError::EscrowNotFunded => 6014u32,
            IronVaultError::EscrowExpired => 6015u32,
            IronVaultError::EscrowNotExpired => 6016u32,
            IronVaultError::InvalidRecipientOwner => 6017u32,
            IronVaultError::InvalidRecipientMint => 6018u32,
            IronVaultError::InvalidRecipientBalance => 6019u32,
            IronVaultError::InvalidMakerDestinationOwner => 6020u32,
            IronVaultError::InvalidMakerDestinationMint => 6021u32,
            IronVaultError::InvalidMakerDestinationBalance => 6022u32,
            IronVaultError::InvalidVaultGuardian => 6023u32,
            IronVaultError::InvalidVaultAuthority => 6024u32,
            IronVaultError::InvalidNewVaultAuthority => 6025u32,
            IronVaultError::VaultAssetDisabled => 6026u32,
            IronVaultError::InvalidVaultAmount => 6027u32,
            IronVaultError::InvalidDepositSourceOwner => 6028u32,
            IronVaultError::InvalidDepositSourceMint => 6029u32,
            IronVaultError::InvalidWithdrawalDestinationMint => 6030u32,
            IronVaultError::InsufficientVaultFunds => 6031u32,
            IronVaultError::InvalidVaultCustodyBalance => 6032u32,
            IronVaultError::InvalidDepositSourceBalance => 6033u32,
            IronVaultError::InvalidWithdrawalDestinationBalance => 6034u32,
            IronVaultError::VaultPaused => 6035u32,
            IronVaultError::UnauthorizedVaultPause => 6036u32,
            IronVaultError::UnauthorizedVaultUnpause => 6037u32,
            IronVaultError::VaultPauseUnchanged => 6038u32,
            IronVaultError::InvalidRolePrincipal => 6039u32,
            IronVaultError::InvalidPermissionMask => 6040u32,
            IronVaultError::MissingVaultPermission => 6041u32,
            IronVaultError::RoleNotActive => 6042u32,
            IronVaultError::UnexpectedWithdrawalAccounts => 6043u32,
            IronVaultError::InvalidWithdrawalPolicy => 6044u32,
            IronVaultError::PerTransactionLimitExceeded => 6045u32,
            IronVaultError::WindowLimitExceeded => 6046u32,
            IronVaultError::WithdrawalPolicyOverflow => 6047u32,
            IronVaultError::LiveWindowDurationChange => 6048u32,
            IronVaultError::UnexpectedLimitAccounts => 6049u32,
            IronVaultError::TimelockRequired => 6050u32,
            IronVaultError::TimelockNotRequired => 6051u32,
            IronVaultError::WithdrawalTimingOverflow => 6052u32,
            IronVaultError::WithdrawalNotPending => 6053u32,
            IronVaultError::WithdrawalTimelockActive => 6054u32,
            IronVaultError::WithdrawalRequestExpired => 6055u32,
            IronVaultError::InvalidWithdrawalRecipient => 6056u32,
            IronVaultError::InvalidWithdrawalMint => 6057u32,
            IronVaultError::UnauthorizedWithdrawalCancellation => 6058u32,
            IronVaultError::UnexpectedRequestAccounts => 6059u32,
            IronVaultError::UnexpectedCancellationAccounts => 6060u32,
            IronVaultError::InvalidTokenProgram => 6061u32,
            IronVaultError::UnsupportedTokenExtension => 6062u32,
        }
    }
}

/// Why an instruction was refused.
#[derive(Clone, Copy, Debug, PartialEq, Eq, Structural)]
pub enum ProgramFailure {
    /// A program error code.
    Vault(IronVaultError),
    /// A stored relation between accounts (owner, parent or mint) does not
    /// hold for the supplied accounts.
    ConstraintHasOne,
    /// A declarative account constraint without its own error code failed.
    ConstraintRaw,
    /// Account data could not be read as the expected state.
    InvalidAccountData,
}

} // verus!
