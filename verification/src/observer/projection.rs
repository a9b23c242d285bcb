//! The read model kept from observed events: which record an event creates
//! or updates, and the position under which it is stored.
use vstd::prelude::*;

use crate::events::IronVaultEvent;
use crate::observer::records::ObservedEvent;
use crate::pubkey::Pubkey;

verus! {

/// Lifecycle status of an escrow or withdrawal-request record.
#[derive(Clone, Copy, Debug, PartialEq, Eq, Structural)]
pub enum RecordStatus {
    Funded,
    Released,
    Refunded,
    Pending,
    Executed,
    Cancelled,
}

impl RecordStatus {
    /// The stored text of the status.
    pub open spec fn spec_text(self) -> Seq<char> {
        match self {
            RecordStatus::Funded => "funded"@,
            RecordStatus::Released => "released"@,
            RecordStatus::Refunded => "refunded"@,
            RecordStatus::Pending => "pending"@,
            RecordStatus::Executed => "executed"@,
            RecordStatus::Cancelled => "cancelled"@,
        }
    }

    /// The stored text of the status.
    pub fn as_str(&self) -> (text: &'static str)
        ensures
            text@ == self.spec_text(),
    {
        match self {
            RecordStatus::Funded => "funded",
            RecordStatus::Released => "released",
            RecordStatus::Refunded => "refunded",
            RecordStatus::Pending => "pending",
            RecordStatus::Executed => "executed",
            RecordStatus::Cancelled => "cancelled",
        }
    }
}

/// A new escrow record.
#[derive(Clone, Copy, Debug, PartialEq, Eq)]
pub struct EscrowRecord {
    pub escrow: Pubkey,
    pub escrow_token: Pubkey,
    pub maker: Pubkey,
    pub recipient: Pubkey,
    pub mint: Pubkey,
    pub amount: u64,
    pub escrow_id: u64,
    pub created_at: i64,
    pub expires_at: i64,
    pub status: RecordStatus,
}

/// A new vault record.
#[derive(Clone, Copy, Debug, PartialEq, Eq)]
pub struct VaultRecord {
    pub vault: Pubkey,
    pub namespace_authority: Pubkey,
    pub authority: Pubkey,
    pub guardian: Pubkey,
    pub vault_id: u64,
    pub paused: bool,
}

/// A new withdrawal-request record.
#[derive(Clone, Copy, Debug, PartialEq, Eq)]
pub struct WithdrawalRecord {
    pub withdrawal_request: Pubkey,
    pub vault: Pubkey,
    pub vault_asset: Pubkey,
    pub proposer: Pubkey,
    pub recipient_owner: Pubkey,
    pub recipient_token_account: Pubkey,
    pub mint: Pubkey,
    pub withdrawal_id: u64,
    pub amount: u64,
    pub created_at: i64,
    pub execute_after: i64,
    pub expires_at: i64,
    pub status: RecordStatus,
}

/// The change an event makes to the read model. Inserts keep an existing
/// record; updates apply only over a record last changed at an earlier
/// position.
#[derive(Clone, Copy, Debug, PartialEq, Eq)]
pub enum Projection {
    InsertEscrow(EscrowRecord),
    SetEscrowStatus { escrow: Pubkey, status: RecordStatus },
    InsertVault(VaultRecord),
    SetVaultAuthority { vault: Pubkey, authority: Pubkey },
    SetVaultPaused { vault: Pubkey, paused: bool },
    InsertWithdrawalRequest(WithdrawalRecord),
    SetWithdrawalStatus { withdrawal_request: Pubkey, status: RecordStatus },
    /// The event is kept in the event log only.
    Unchanged,
}

/// The read-model change of each event: escrow creation, release and refund;
/// vault creation, authority change and pause change; withdrawal request,
/// execution and cancellation. Every other event changes no record.
pub open spec fn spec_projection(event: IronVaultEvent) -> Projection {
    match event {
        IronVaultEvent::EscrowCreated(e) => Projection::InsertEscrow(
            EscrowRecord {
                escrow: e.escrow,
                escrow_token: e.escrow_token,
                maker: e.maker,
                recipient: e.recipient,
                mint: e.mint,
                amount: e.amount,
                escrow_id: e.escrow_id,
                created_at: e.created_at,
                expires_at: e.expires_at,
                status: RecordStatus::Funded,
            },
        ),
        IronVaultEvent::EscrowReleased(e) => Projection::SetEscrowStatus {
            escrow: e.escrow,
            status: RecordStatus::Released,
        },
        IronVaultEvent::EscrowRefunded(e) => Projection::SetEscrowStatus {
            escrow: e.escrow,
            status: RecordStatus::Refunded,
        },
        IronVaultEvent::VaultCreated(e) => Projection::InsertVault(
            VaultRecord {
                vault: e.vault,
                namespace_authority: e.namespace_authority,
                authority: e.authority,
                guardian: e.guardian,
                vault_id: e.vault_id,
                paused: false,
            },
        ),
        IronVaultEvent::VaultAuthorityUpdated(e) => Projection::SetVaultAuthority {
            vault: e.vault,
            authority: e.new_authority,
        },
        IronVaultEvent::VaultPauseUpdated(e) => Projection::SetVaultPaused {
            vault: e.vault,
            paused: e.paused,
        },
        IronVaultEvent::WithdrawalRequested(e) => Projection::InsertWithdrawalRequest(
            WithdrawalRecord {
                withdrawal_request: e.withdrawal_request,
                vault: e.vault,
                vault_asset: e.vault_asset,
                proposer: e.proposer,
                recipient_owner: e.recipient_owner,
                recipient_token_account: e.recipient_token_account,
                mint: e.mint,
                withdrawal_id: e.withdrawal_id,
                amount: e.amount,
                created_at: e.created_at,
                execute_after: e.execute_after,
                expires_at: e.expires_at,
                status: RecordStatus::Pending,
            },
        ),
        IronVaultEvent::WithdrawalExecuted(e) => Projection::SetWithdrawalStatus {
            withdrawal_request: e.withdrawal_request,
            status: RecordStatus::Executed,
        },
        IronVaultEvent::WithdrawalCancelled(e) => Projection::SetWithdrawalStatus {
            withdrawal_request: e.withdrawal_request,
            status: RecordStatus::Cancelled,
        },
        _ => Projection::Unchanged,
    }
}

/// The read-model change of an event.
pub fn projection(event: &IronVaultEvent) -> (p: Projection)
    ensures
        p == spec_projection(*event),
{
    match event {
        IronVaultEvent::EscrowCreated(e) => Projection::InsertEscrow(
            EscrowRecord {
                escrow: e.escrow,
                escrow_token: e.escrow_token,
                maker: e.maker,
                recipient: e.recipient,
                mint: e.mint,
                amount: e.amount,
                escrow_id: e.escrow_id,
                created_at: e.created_at,
                expires_at: e.expires_at,
                status: RecordStatus::Funded,
            },
        ),
        IronVaultEvent::EscrowReleased(e) => Projection::SetEscrowStatus {
            escrow: e.escrow,
            status: RecordStatus::Released,
        },
        IronVaultEvent::EscrowRefunded(e) => Projection::SetEscrowStatus {
            escrow: e.escrow,
            status: RecordStatus::Refunded,
        },
        IronVaultEvent::VaultCreated(e) => Projection::InsertVault(
            VaultRecord {
                vault: e.vault,
                namespace_authority: e.namespace_authority,
                authority: e.authority,
                guardian: e.guardian,
                vault_id: e.vault_id,
                paused: false,
            },
        ),
        IronVaultEvent::VaultAuthorityUpdated(e) => Projection::SetVaultAuthority {
            vault: e.vault,
            authority: e.new_authority,
        },
        IronVaultEvent::VaultPauseUpdated(e) => Projection::SetVaultPaused {
            vault: e.vault,
            paused: e.paused,
        },
        IronVaultEvent::WithdrawalRequested(e) => Projection::InsertWithdrawalRequest(
            WithdrawalRecord {
                withdrawal_request: e.withdrawal_request,
                vault: e.vault,
                vault_asset: e.vault_asset,
                proposer: e.proposer,
                recipient_owner: e.recipient_owner,
                recipient_token_account: e.recipient_token_account,
                mint: e.mint,
                withdrawal_id: e.withdrawal_id,
                amount: e.amount,
                created_at: e.created_at,
                execute_after: e.execute_after,
                expires_at: e.expires_at,
                status: RecordStatus::Pending,
            },
        ),
        IronVaultEvent::WithdrawalExecuted(e) => Projection::SetWithdrawalStatus {
            withdrawal_request: e.withdrawal_request,
            status: RecordStatus::Executed,
        },
        IronVaultEvent::WithdrawalCancelled(e) => Projection::SetWithdrawalStatus {
            withdrawal_request: e.withdrawal_request,
            status: RecordStatus::Cancelled,
        },
        _ => Projection::Unchanged,
    }
}

/// Where an event is stored, in the database's column types.
#[derive(Clone, Copy, Debug, PartialEq, Eq, Structural)]
pub struct StoredPosition {
    pub slot: i64,
    pub instruction_index: i32,
    pub event_index: i32,
    pub schema_version: i16,
}

/// Which part of an event's position does not fit its column.
#[derive(Clone, Copy, Debug, PartialEq, Eq, Structural)]
pub enum StorageError {
    SlotOutOfRange,
    InstructionIndexOutOfRange,
    EventIndexOutOfRange,
    SchemaVersionOutOfRange,
}

/// The stored position of an event, or the first part of it (slot,
/// instruction index, event index, schema version) that does not fit.
pub open spec fn spec_stored_position(
    slot: u64,
    instruction_index: u32,
    event_index: u32,
    schema_version: u16,
) -> Result<StoredPosition, StorageError> {
    if slot > i64::MAX {
        Err(StorageError::SlotOutOfRange)
    } else if instruction_index > i32::MAX {
        Err(StorageError::InstructionIndexOutOfRange)
    } else if event_index > i32::MAX {
        Err(StorageError::EventIndexOutOfRange)
    } else if schema_version > i16::MAX {
        Err(StorageError::SchemaVersionOutOfRange)
    } else {
        Ok(
            StoredPosition {
                slot: slot as i64,
                instruction_index: instruction_index as i32,
                event_index: event_index as i32,
                schema_version: schema_version as i16,
            },
        )
    }
}

/// Converts an observed event's position to its stored form.
pub fn stored_position(observed: &ObservedEvent) -> (r: Result<StoredPosition, StorageError>)
    ensures
        r == spec_stored_position(
            observed.slot,
            observed.id.instruction_index,
            observed.id.event_index,
            observed.event.spec_version(),
        ),
{
    let version = observed.event.version();
    if observed.slot > 9223372036854775807u64 {
        return Err(StorageError::SlotOutOfRange);
    }
    if observed.id.instruction_index > 2147483647u32 {
        return Err(StorageError::InstructionIndexOutOfRange);
    }
    if observed.id.event_index > 2147483647u32 {
        return Err(StorageError::EventIndexOutOfRange);
    }
    if version > 32767u16 {
        return Err(StorageError::SchemaVersionOutOfRange);
    }
    Ok(
        StoredPosition {
            slot: observed.slot as i64,
            instruction_index: observed.id.instruction_index as i32,
            event_index: observed.id.event_index as i32,
            schema_version: version as i16,
        },
    )
}

/// Whether a change at position `a` comes after one at `b`: positions are
/// ordered by slot, then instruction index, then event index.
pub open spec fn spec_is_later(a: StoredPosition, b: StoredPosition) -> bool {
    a.slot > b.slot || (a.slot == b.slot && (a.instruction_index > b.instruction_index || (
    a.instruction_index == b.instruction_index && a.event_index > b.event_index)))
}

/// Whether an update at `incoming` may overwrite a record last changed at
/// `last`: only a later position does, so replays and reordering cannot roll
/// a record back.
pub fn is_later(incoming: &StoredPosition, last: &StoredPosition) -> (r: bool)
    ensures
        r == spec_is_later(*incoming, *last),
{
    incoming.slot > last.slot || (incoming.slot == last.slot && (incoming.instruction_index
        > last.instruction_index || (incoming.instruction_index == last.instruction_index
        && incoming.event_index > last.event_index)))
}

/// Law: the order of positions is strict and total: no position is later
/// than itself, of two distinct positions exactly one is later, and it is
/// transitive; so a record replays to the same state whatever order its
/// updates arrive in.
pub proof fn lemma_position_order_is_strict_total(
    a: StoredPosition,
    b: StoredPosition,
    c: StoredPosition,
)
    ensures
        !spec_is_later(a, a),
        (a.slot, a.instruction_index, a.event_index) != (b.slot, b.instruction_index, b.event_index)
            ==> spec_is_later(a, b) != spec_is_later(b, a),
        spec_is_later(a, b) && spec_is_later(b, c) ==> spec_is_later(a, c),
{
}

/// Law: a record's stored status says how it settled. A released escrow is
/// marked released and a refunded one refunded, an executed request executed
/// and a cancelled one cancelled; each is stored on the record the event
/// names, and the two outcomes of an escrow, or of a request, never share a
/// status.
pub proof fn lemma_settlement_statuses(
    released: crate::events::EscrowReleased,
    refunded: crate::events::EscrowRefunded,
    executed: crate::events::WithdrawalExecuted,
    cancelled: crate::events::WithdrawalCancelled,
)
    ensures
        spec_projection(IronVaultEvent::EscrowReleased(released)) == (Projection::SetEscrowStatus {
            escrow: released.escrow,
            status: RecordStatus::Released,
        }),
        spec_projection(IronVaultEvent::EscrowRefunded(refunded)) == (Projection::SetEscrowStatus {
            escrow: refunded.escrow,
            status: RecordStatus::Refunded,
        }),
        spec_projection(IronVaultEvent::WithdrawalExecuted(executed)) == (
        Projection::SetWithdrawalStatus {
            withdrawal_request: executed.withdrawal_request,
            status: RecordStatus::Executed,
        }),
        spec_projection(IronVaultEvent::WithdrawalCancelled(cancelled)) == (
        Projection::SetWithdrawalStatus {
            withdrawal_request: cancelled.withdrawal_request,
            status: RecordStatus::Cancelled,
        }),
        spec_projection(IronVaultEvent::EscrowReleased(released))->SetEscrowStatus_status
            != spec_projection(IronVaultEvent::EscrowRefunded(refunded))->SetEscrowStatus_status,
        spec_projection(IronVaultEvent::WithdrawalExecuted(executed))->SetWithdrawalStatus_status
            != spec_projection(IronVaultEvent::WithdrawalCancelled(cancelled))->SetWithdrawalStatus_status,
        RecordStatus::Released.spec_text() != RecordStatus::Refunded.spec_text(),
        RecordStatus::Executed.spec_text() != RecordStatus::Cancelled.spec_text(),
{
    reveal_strlit("released");
    reveal_strlit("refunded");
    reveal_strlit("executed");
    reveal_strlit("cancelled");
    assert("released"@[2] != "refunded"@[2]);
    assert("executed"@[0] != "cancelled"@[0]);
}

/// Law: records start where the program starts them and follow its changes.
/// A created escrow is stored funded and a new request pending, each with the
/// amount and parties of its event; a new vault is stored unpaused with its
/// authority and guardian; an authority change stores the new authority, not
/// the previous one; and a pause update stores the vault's new pause state.
pub proof fn lemma_records_follow_their_events(
    escrow: crate::events::EscrowCreated,
    vault: crate::events::VaultCreated,
    request: crate::events::WithdrawalRequested,
    authority: crate::events::VaultAuthorityUpdated,
    pause: crate::events::VaultPauseUpdated,
)
    ensures
        ({
            let p = spec_projection(IronVaultEvent::EscrowCreated(escrow));
            &&& p is InsertEscrow
            &&& p->InsertEscrow_0.escrow == escrow.escrow
            &&& p->InsertEscrow_0.maker == escrow.maker
            &&& p->InsertEscrow_0.recipient == escrow.recipient
            &&& p->InsertEscrow_0.amount == escrow.amount
            &&& p->InsertEscrow_0.expires_at == escrow.expires_at
            &&& p->InsertEscrow_0.status == RecordStatus::Funded
        }),
        ({
            let p = spec_projection(IronVaultEvent::VaultCreated(vault));
            &&& p is InsertVault
            &&& p->InsertVault_0.vault == vault.vault
            &&& p->InsertVault_0.authority == vault.authority
            &&& p->InsertVault_0.guardian == vault.guardian
            &&& !p->InsertVault_0.paused
        }),
        ({
            let p = spec_projection(IronVaultEvent::WithdrawalRequested(request));
            &&& p is InsertWithdrawalRequest
            &&& p->InsertWithdrawalRequest_0.withdrawal_request == request.withdrawal_request
            &&& p->InsertWithdrawalRequest_0.proposer == request.proposer
            &&& p->InsertWithdrawalRequest_0.amount == request.amount
            &&& p->InsertWithdrawalRequest_0.execute_after == request.execute_after
            &&& p->InsertWithdrawalRequest_0.expires_at == request.expires_at
            &&& p->InsertWithdrawalRequest_0.status == RecordStatus::Pending
        }),
        spec_projection(IronVaultEvent::VaultAuthorityUpdated(authority)) == (
        Projection::SetVaultAuthority { vault: authority.vault, authority: authority.new_authority }),
        spec_projection(IronVaultEvent::VaultPauseUpdated(pause)) == (Projection::SetVaultPaused {
            vault: pause.vault,
            paused: pause.paused,
        }),
{
}

} // verus!
