use base64::Engine;
use iron_vault::events::{
    EscrowCreated, EscrowReleased, IronVaultEvent, ProtocolPauseUpdated, RoleGranted,
    VaultAuthorityUpdated, VaultPauseUpdated, WithdrawalCancelled, WithdrawalExecuted,
};
use iron_vault::observer::alerts::{classify_event, lag_alert, upgrade_alert, Alert};
use iron_vault::observer::encoding::{decode_account_data, AccountDataError};
use iron_vault::observer::history::{HistoryScan, SignatureEntry, SIGNATURE_PAGE_LIMIT};
use iron_vault::observer::metrics::{counter, event_counts, gauge, Metrics, MetricsSnapshot};
use iron_vault::observer::projection::{
    is_later, projection, stored_position, Projection, RecordStatus, StorageError, StoredPosition,
};
use iron_vault::observer::records::{EventId, ObservedEvent};
use iron_vault::observer::sync::{deployment_slot, program_data_address, LoaderStateError, SyncStatus};
use iron_vault::pubkey::Pubkey;
use std::sync::atomic::Ordering;

fn key(byte: u8) -> Pubkey {
    Pubkey([byte; 32])
}

fn entry(signature: &str, failed: bool) -> SignatureEntry {
    SignatureEntry { signature: signature.to_owned(), failed }
}

fn observed(slot: u64, instruction_index: u32, event_index: u32, event: IronVaultEvent) -> ObservedEvent {
    ObservedEvent {
        id: EventId {
            transaction_signature: "sig".to_owned(),
            instruction_index,
            event_index,
        },
        slot,
        block_time: None,
        event,
    }
}

fn pause_event(paused: bool) -> IronVaultEvent {
    IronVaultEvent::VaultPauseUpdated(VaultPauseUpdated {
        version: 1,
        vault: key(1),
        caller: key(2),
        paused,
    })
}

#[test]
fn readiness_needs_database_subscription_reconciliation_and_a_small_lag() {
    let mut status = SyncStatus::default();
    assert!(!status.is_ready(true, 150));
    status.record_subscription();
    assert!(!status.is_ready(true, 150));
    status.record_reconciliation(1_000);
    assert!(status.is_ready(true, 150));
    assert!(!status.is_ready(false, 150));
    status.record_rpc_slot(1_151);
    assert_eq!(status.slot_lag(), 151);
    assert!(!status.is_ready(true, 150));
    status.observe_slot(1_001);
    assert_eq!(status.slot_lag(), 150);
    assert!(status.is_ready(true, 150));
    status.record_disconnect();
    assert!(!status.is_ready(true, 150));
}

#[test]
fn observed_slot_never_moves_backwards() {
    let mut status = SyncStatus::default();
    status.observe_slot(50);
    status.observe_slot(40);
    assert_eq!(status.observed_slot, 50);
    status.record_reconciliation(45);
    assert_eq!(status.observed_slot, 50);
    assert_eq!(status.rpc_slot, 45);
    assert_eq!(status.slot_lag(), 0);
}

#[test]
fn a_new_subscription_requires_a_new_reconciliation() {
    let mut status = SyncStatus::default();
    status.record_subscription();
    status.record_reconciliation(10);
    assert!(status.reconciled);
    status.record_subscription();
    assert!(status.connected);
    assert!(!status.reconciled);
}

#[test]
fn lag_beyond_the_limit_raises_an_alert() {
    assert_eq!(lag_alert(150, 150), None);
    assert_eq!(lag_alert(151, 150), Some(Alert::ObserverFallingBehind { lag: 151 }));
}

#[test]
fn a_changed_deployment_slot_is_an_upgrade() {
    assert_eq!(upgrade_alert(None, 7), None);
    assert_eq!(upgrade_alert(Some(7), 7), None);
    assert_eq!(upgrade_alert(Some(7), 8), Some(Alert::ProgramUpgradeObserved));
}

#[test]
fn protocol_pause_alerts_only_when_a_flag_is_set() {
    let pause = |new_flags| {
        IronVaultEvent::ProtocolPauseUpdated(ProtocolPauseUpdated {
            version: 1,
            protocol_config: key(1),
            caller: key(2),
            previous_flags: 0,
            new_flags,
        })
    };
    assert_eq!(classify_event(&pause(0), 1), None);
    assert_eq!(classify_event(&pause(8), 1), Some(Alert::ProtocolPaused { flags: 8 }));
}

#[test]
fn authority_changes_always_alert() {
    let event = IronVaultEvent::VaultAuthorityUpdated(VaultAuthorityUpdated {
        version: 1,
        vault: key(1),
        previous_authority: key(2),
        new_authority: key(1),
    });
    let base58 = "4vJ9JU1bJJE96FWSJKvHsmmFADCg4gpZQff4P3bkLKi".to_owned();
    assert_eq!(
        classify_event(&event, u64::MAX),
        Some(Alert::VaultAuthorityChanged { vault: base58.clone(), new_authority: base58 })
    );
    let role = IronVaultEvent::RoleGranted(RoleGranted {
        version: 1,
        vault: key(1),
        principal: key(2),
        permissions: 1,
    });
    assert_eq!(classify_event(&role, 0), None);
}

#[test]
fn program_account_names_its_program_data_account() {
    let mut program = 2u32.to_le_bytes().to_vec();
    program.extend_from_slice(&[5; 32]);
    assert_eq!(program_data_address(&program), Ok(key(5)));
    assert_eq!(program_data_address(&program[..35]), Err(LoaderStateError::NotProgramState));
    program[0] = 3;
    assert_eq!(program_data_address(&program), Err(LoaderStateError::NotProgramState));
}

#[test]
fn program_data_account_records_the_deployment_slot() {
    let mut data = 3u32.to_le_bytes().to_vec();
    data.extend_from_slice(&123_456_789u64.to_le_bytes());
    data.extend_from_slice(&[0; 33]);
    assert_eq!(deployment_slot(&data), Ok(123_456_789));
    assert_eq!(deployment_slot(&data[..11]), Err(LoaderStateError::NotProgramDataState));
    data[0] = 2;
    assert_eq!(deployment_slot(&data), Err(LoaderStateError::NotProgramDataState));
}

#[test]
fn account_data_must_be_base64() {
    let encoded = base64::engine::general_purpose::STANDARD.encode([1u8, 2, 3]);
    assert_eq!(decode_account_data(&encoded, "base64"), Ok(vec![1, 2, 3]));
    assert_eq!(
        decode_account_data(&encoded, "base58"),
        Err(AccountDataError::UnexpectedEncoding)
    );
    assert_eq!(decode_account_data("@@", "base64"), Err(AccountDataError::InvalidBase64));
}

#[test]
fn history_walk_stops_at_the_checkpoint_and_replays_oldest_first() {
    let mut scan = HistoryScan::new(Some("c".to_owned()));
    let page = vec![entry("e", false), entry("d", true), entry("c", false), entry("b", false)];
    scan.add_page(&page);
    assert!(scan.complete);
    assert_eq!(scan.before.as_deref(), Some("b"));
    assert_eq!(scan.replay_order(), vec!["b", "c", "e"]);
}

#[test]
fn history_walk_continues_through_full_pages() {
    let mut scan = HistoryScan::new(None);
    let full: Vec<SignatureEntry> =
        (0..SIGNATURE_PAGE_LIMIT).map(|i| entry(&format!("s{i}"), false)).collect();
    scan.add_page(&full);
    assert!(!scan.complete);
    assert_eq!(scan.before.as_deref(), Some("s999"));
    scan.add_page(&vec![entry("older", false)]);
    assert!(scan.complete);
    let order = scan.replay_order();
    assert_eq!(order.len(), SIGNATURE_PAGE_LIMIT + 1);
    assert_eq!(order[0], "older");
    assert_eq!(order[SIGNATURE_PAGE_LIMIT], "s0");
}

#[test]
fn an_empty_history_is_complete() {
    let mut scan = HistoryScan::new(Some("x".to_owned()));
    scan.add_page(&Vec::new());
    assert!(scan.complete);
    assert_eq!(scan.before, None);
    assert!(scan.replay_order().is_empty());
}

#[test]
fn events_project_onto_their_records() {
    let created = IronVaultEvent::EscrowCreated(EscrowCreated {
        version: 1,
        escrow: key(1),
        escrow_token: key(2),
        maker: key(3),
        recipient: key(4),
        mint: key(5),
        amount: 10,
        created_at: 11,
        expires_at: 12,
        escrow_id: 13,
    });
    match projection(&created) {
        Projection::InsertEscrow(record) => {
            assert_eq!(record.escrow, key(1));
            assert_eq!(record.amount, 10);
            assert_eq!(record.escrow_id, 13);
            assert_eq!(record.status, RecordStatus::Funded);
        }
        other => panic!("unexpected projection {other:?}"),
    }
    let released = IronVaultEvent::EscrowReleased(EscrowReleased {
        version: 1,
        escrow: key(1),
        escrow_token: key(2),
        maker: key(3),
        recipient: key(4),
        recipient_token: key(6),
        mint: key(5),
        amount: 10,
    });
    assert_eq!(
        projection(&released),
        Projection::SetEscrowStatus { escrow: key(1), status: RecordStatus::Released }
    );
    assert_eq!(projection(&pause_event(true)), Projection::SetVaultPaused { vault: key(1), paused: true });
    let executed = IronVaultEvent::WithdrawalExecuted(WithdrawalExecuted {
        version: 1,
        vault: key(1),
        vault_asset: key(2),
        withdrawal_request: key(7),
        caller: key(3),
        recipient_token_account: key(4),
        mint: key(5),
        withdrawal_id: 0,
        amount: 9,
    });
    assert_eq!(
        projection(&executed),
        Projection::SetWithdrawalStatus { withdrawal_request: key(7), status: RecordStatus::Executed }
    );
    let cancelled = IronVaultEvent::WithdrawalCancelled(WithdrawalCancelled {
        version: 1,
        vault: key(1),
        withdrawal_request: key(7),
        caller: key(3),
        proposer: key(4),
        withdrawal_id: 0,
    });
    assert_eq!(
        projection(&cancelled),
        Projection::SetWithdrawalStatus { withdrawal_request: key(7), status: RecordStatus::Cancelled }
    );
    let role = IronVaultEvent::RoleGranted(RoleGranted {
        version: 1,
        vault: key(1),
        principal: key(2),
        permissions: 1,
    });
    assert_eq!(projection(&role), Projection::Unchanged);
}

#[test]
fn record_statuses_have_their_stored_text() {
    assert_eq!(RecordStatus::Funded.as_str(), "funded");
    assert_eq!(RecordStatus::Released.as_str(), "released");
    assert_eq!(RecordStatus::Refunded.as_str(), "refunded");
    assert_eq!(RecordStatus::Pending.as_str(), "pending");
    assert_eq!(RecordStatus::Executed.as_str(), "executed");
    assert_eq!(RecordStatus::Cancelled.as_str(), "cancelled");
}

#[test]
fn stored_positions_must_fit_their_columns() {
    assert_eq!(
        stored_position(&observed(5, 1, 2, pause_event(true))),
        Ok(StoredPosition { slot: 5, instruction_index: 1, event_index: 2, schema_version: 1 })
    );
    assert_eq!(
        stored_position(&observed(u64::MAX, 0, 0, pause_event(true))),
        Err(StorageError::SlotOutOfRange)
    );
    assert_eq!(
        stored_position(&observed(1, u32::MAX, 0, pause_event(true))),
        Err(StorageError::InstructionIndexOutOfRange)
    );
    assert_eq!(
        stored_position(&observed(1, 0, 1 << 31, pause_event(true))),
        Err(StorageError::EventIndexOutOfRange)
    );
}

#[test]
fn later_positions_win() {
    let at = |slot, instruction_index, event_index| StoredPosition {
        slot,
        instruction_index,
        event_index,
        schema_version: 1,
    };
    assert!(is_later(&at(2, 0, 0), &at(1, 9, 9)));
    assert!(is_later(&at(1, 2, 0), &at(1, 1, 9)));
    assert!(is_later(&at(1, 1, 2), &at(1, 1, 1)));
    assert!(!is_later(&at(1, 1, 1), &at(1, 1, 1)));
    assert!(!is_later(&at(1, 1, 0), &at(1, 1, 1)));
}

#[test]
fn pauses_and_lifecycle_events_advance_their_counters() {
    let counts = event_counts(&pause_event(true));
    assert!(counts.pauses);
    assert!(!counts.escrows_created);
    assert!(!event_counts(&pause_event(false)).pauses);
    let metrics = Metrics::default();
    metrics.record_event(&pause_event(true));
    metrics.record_event(&pause_event(false));
    let snapshot = metrics.snapshot();
    assert_eq!(snapshot.events_total, 2);
    assert_eq!(snapshot.pauses_total, 1);
    assert_eq!(metrics.events_total.load(Ordering::Relaxed), 2);
}

#[test]
fn snapshot_renders_exact_exposition_text() {
    let snapshot = MetricsSnapshot {
        events_total: 1,
        rpc_errors_total: 2,
        rpc_reconnects_total: 3,
        observer_slot_lag: -4,
        decode_errors_total: 5,
        escrows_created_total: 6,
        withdrawals_requested_total: 7,
        withdrawals_executed_total: 8,
        pauses_total: 9,
    };
    let rendered = snapshot.render();
    assert!(rendered.contains("ironvault_rpc_reconnects_total 3\n"));
    assert!(rendered.contains("ironvault_observer_slot_lag -4\n"));
    assert!(rendered.ends_with(
        "# HELP ironvault_pauses_total Protocol and vault pause activations\n\
         # TYPE ironvault_pauses_total counter\n\
         ironvault_pauses_total 9\n"
    ));
}

#[test]
fn counter_and_gauge_append_one_exposition_each() {
    let mut output = String::from("x\n");
    counter(&mut output, "a", "b", 0);
    gauge(&mut output, "c", "d", i64::MIN);
    assert_eq!(
        output,
        "x\n# HELP a b\n# TYPE a counter\na 0\n# HELP c d\n# TYPE c gauge\nc -9223372036854775808\n"
    );
}
