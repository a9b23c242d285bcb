use base64::Engine;
use sha2::Digest;
use iron_vault::events::{DecodeError, IronVaultEvent, VaultPauseUpdated, WithdrawalRequested};
use iron_vault::hashing::discriminator;
use iron_vault::observer::alerts::{classify_event, Alert};
use iron_vault::observer::logs::{decode_program_data, extract_events, parse_invoke};
use iron_vault::observer::metrics::Metrics;
use iron_vault::observer::records::ObservedEvent;
use iron_vault::pubkey::Pubkey;
use std::sync::atomic::Ordering;

fn pause_event() -> VaultPauseUpdated {
    VaultPauseUpdated {
        version: 1,
        vault: Pubkey([1; 32]),
        caller: Pubkey([2; 32]),
        paused: true,
    }
}

fn program_data_line(event: &IronVaultEvent) -> String {
    let data = base64::engine::general_purpose::STANDARD.encode(event.encode());
    format!("Program data: {data}")
}

#[test]
fn large_withdrawal_threshold_is_inclusive() {
    let event = IronVaultEvent::WithdrawalRequested(WithdrawalRequested {
        version: 1,
        vault: Pubkey([1; 32]),
        vault_asset: Pubkey([2; 32]),
        withdrawal_request: Pubkey([3; 32]),
        proposer: Pubkey([4; 32]),
        recipient_owner: Pubkey([5; 32]),
        recipient_token_account: Pubkey([6; 32]),
        mint: Pubkey([7; 32]),
        withdrawal_id: 9,
        amount: 50_000,
        created_at: 10,
        execute_after: 20,
        expires_at: 30,
    });
    assert!(matches!(
        classify_event(&event, 50_000),
        Some(Alert::LargeWithdrawalRequested { .. })
    ));
}

#[test]
fn smaller_withdrawal_requests_raise_no_alert() {
    let event = IronVaultEvent::WithdrawalRequested(WithdrawalRequested {
        version: 1,
        vault: Pubkey([1; 32]),
        vault_asset: Pubkey([2; 32]),
        withdrawal_request: Pubkey([3; 32]),
        proposer: Pubkey([4; 32]),
        recipient_owner: Pubkey([5; 32]),
        recipient_token_account: Pubkey([6; 32]),
        mint: Pubkey([7; 32]),
        withdrawal_id: 9,
        amount: 49_999,
        created_at: 10,
        execute_after: 20,
        expires_at: 30,
    });
    assert_eq!(classify_event(&event, 50_000), None);
}

#[test]
fn vault_pause_alert_names_the_vault_in_base58() {
    let event = IronVaultEvent::VaultPauseUpdated(pause_event());
    assert_eq!(
        classify_event(&event, 0),
        Some(Alert::VaultPaused {
            vault: "4vJ9JU1bJJE96FWSJKvHsmmFADCg4gpZQff4P3bkLKi".to_owned()
        })
    );
    let mut unpaused = pause_event();
    unpaused.paused = false;
    assert_eq!(classify_event(&IronVaultEvent::VaultPauseUpdated(unpaused), 0), None);
}

#[test]
fn slot_lag_metric_is_signed_and_observable() {
    let metrics = Metrics::default();
    metrics.observer_slot_lag.store(7, Ordering::Relaxed);
    assert!(metrics.render().contains("ironvault_observer_slot_lag 7"));
}

#[test]
fn negative_slot_lag_is_rendered_with_its_sign() {
    let metrics = Metrics::default();
    metrics.observer_slot_lag.store(-12, Ordering::Relaxed);
    assert!(metrics.render().contains("ironvault_observer_slot_lag -12\n"));
}

#[test]
fn exposes_every_required_metric() {
    let rendered = Metrics::default().render();
    for metric in [
        "ironvault_events_total",
        "ironvault_rpc_errors_total",
        "ironvault_rpc_reconnects_total",
        "ironvault_observer_slot_lag",
        "ironvault_decode_errors_total",
        "ironvault_escrows_created_total",
        "ironvault_withdrawals_requested_total",
        "ironvault_withdrawals_executed_total",
        "ironvault_pauses_total",
    ] {
        assert!(rendered.contains(metric), "missing {metric}");
    }
}

#[test]
fn counters_render_help_type_and_sample_lines() {
    let metrics = Metrics::default();
    metrics.events_total.store(1_234_567, Ordering::Relaxed);
    let rendered = metrics.render();
    assert!(rendered.starts_with(
        "# HELP ironvault_events_total Persisted protocol events\n\
         # TYPE ironvault_events_total counter\n\
         ironvault_events_total 1234567\n"
    ));
    assert!(rendered.contains("# TYPE ironvault_observer_slot_lag gauge\nironvault_observer_slot_lag 0\n"));
    assert_eq!(rendered.matches("# HELP").count(), 9);
}

#[test]
fn decodes_anchor_event_and_rejects_trailing_bytes() {
    let event = pause_event();
    let mut encoded = discriminator("VaultPauseUpdated").to_vec();
    encoded.extend_from_slice(&1u16.to_le_bytes());
    encoded.extend_from_slice(&[1; 32]);
    encoded.extend_from_slice(&[2; 32]);
    encoded.push(1);
    assert_eq!(
        IronVaultEvent::decode(&encoded).unwrap(),
        IronVaultEvent::VaultPauseUpdated(event)
    );
    encoded.push(0);
    assert!(IronVaultEvent::decode(&encoded).is_err());
}

#[test]
fn program_data_parser_ignores_non_event_logs() {
    assert!(decode_program_data("Program log: hello").unwrap().is_none());
}

#[test]
fn program_data_with_invalid_base64_is_reported() {
    assert_eq!(
        decode_program_data("Program data: !!!"),
        Err(DecodeError::InvalidBase64)
    );
}

#[test]
fn all_event_discriminators_are_unique() {
    let names = [
        "ProtocolInitialized",
        "ProtocolPauseUpdated",
        "EscrowCreated",
        "EscrowReleased",
        "EscrowRefunded",
        "VaultCreated",
        "VaultAuthorityUpdated",
        "VaultPauseUpdated",
        "VaultAssetRegistered",
        "VaultDeposit",
        "VaultWithdrawal",
        "RoleGranted",
        "RoleRevoked",
        "VaultLimitsUpdated",
        "WithdrawalRequested",
        "WithdrawalExecuted",
        "WithdrawalCancelled",
    ];
    let unique = names
        .iter()
        .map(|name| discriminator(name))
        .collect::<std::collections::HashSet<_>>();
    assert_eq!(unique.len(), names.len());
}

#[test]
fn discriminator_is_the_sha256_prefix_of_the_event_name() {
    let digest = sha2::Sha256::digest(b"event:VaultPauseUpdated");
    assert_eq!(discriminator("VaultPauseUpdated").to_vec(), digest[..8].to_vec());
}

#[test]
fn assigns_stable_instruction_and_event_indexes_across_cpi() {
    let program = "Iron1111111111111111111111111111111111111";
    let event = IronVaultEvent::VaultPauseUpdated(pause_event());
    let data_line = program_data_line(&event);
    let logs = vec![
        "Program ComputeBudget111111111111111111111111111111 invoke [1]".to_owned(),
        "Program ComputeBudget111111111111111111111111111111 success".to_owned(),
        "Program Multisig111111111111111111111111111111111 invoke [1]".to_owned(),
        format!("Program {program} invoke [2]"),
        data_line.clone(),
        data_line,
        format!("Program {program} success"),
        "Program Multisig111111111111111111111111111111111 success".to_owned(),
    ];
    let events = extract_events("sig", 42, None, &logs, program)
        .into_iter()
        .collect::<Result<Vec<ObservedEvent>, DecodeError>>()
        .unwrap();
    assert_eq!(events.len(), 2);
    assert_eq!(events[0].id.instruction_index, 1);
    assert_eq!(events[0].id.event_index, 0);
    assert_eq!(events[1].id.event_index, 1);
    assert_eq!(events[0].id.transaction_signature, "sig");
    assert_eq!(events[0].slot, 42);
    assert_eq!(events[0].event, event);
}

#[test]
fn ignores_events_emitted_by_other_programs() {
    let logs = vec![
        "Program Other invoke [1]".to_owned(),
        "Program data: invalid".to_owned(),
        "Program Other success".to_owned(),
    ];
    assert!(extract_events("sig", 1, None, &logs, "Iron").is_empty());
}

#[test]
fn undecodable_program_data_is_reported_in_place() {
    let logs = vec![
        "Program Iron invoke [1]".to_owned(),
        "Program data: AAAA".to_owned(),
        "Program Iron failed: custom program error: 0x1".to_owned(),
        "Program data: AAAA".to_owned(),
    ];
    let items = extract_events("sig", 1, Some(5), &logs, "Iron");
    assert_eq!(items.len(), 1);
    assert!(matches!(items[0], Err(DecodeError::PayloadTooShort)));
}

#[test]
fn event_indexes_restart_with_each_top_level_instruction() {
    let program = "Iron";
    let event = IronVaultEvent::VaultPauseUpdated(pause_event());
    let line = program_data_line(&event);
    let logs = vec![
        format!("Program {program} invoke [1]"),
        line.clone(),
        format!("Program {program} success"),
        format!("Program {program} invoke [1]"),
        line.clone(),
        line,
        format!("Program {program} success"),
    ];
    let items = extract_events("sig", 7, Some(99), &logs, program);
    let ids: Vec<(u32, u32)> = items
        .iter()
        .map(|item| {
            let observed = item.as_ref().unwrap();
            (observed.id.instruction_index, observed.id.event_index)
        })
        .collect();
    assert_eq!(ids, vec![(0, 0), (1, 0), (1, 1)]);
    assert_eq!(items[2].as_ref().unwrap().block_time, Some(99));
}

#[test]
fn invocation_lines_are_parsed_exactly() {
    assert_eq!(parse_invoke("Program Iron invoke [2]"), Some(("Iron", 2)));
    assert_eq!(parse_invoke("Program Iron invoke [+3]"), Some(("Iron", 3)));
    assert_eq!(parse_invoke("Program Iron invoke [x]"), None);
    assert_eq!(parse_invoke("Program Iron invoke [4"), None);
    assert_eq!(parse_invoke("Program Iron success"), None);
    assert_eq!(parse_invoke("Program Iron invoke [4294967296]"), None);
    assert_eq!(parse_invoke("Program Iron invoke [4294967295]"), Some(("Iron", 4294967295)));
}

#[test]
fn a_bad_event_line_only_replaces_its_own_item() {
    let program = "Iron";
    let event = IronVaultEvent::VaultPauseUpdated(pause_event());
    let line = program_data_line(&event);
    let logs_with = |middle: String| {
        vec![
            format!("Program {program} invoke [1]"),
            line.clone(),
            middle,
            line.clone(),
            format!("Program {program} success"),
        ]
    };
    let bad = extract_events("sig", 3, None, &logs_with("Program data: AAAA".to_owned()), program);
    let good = extract_events("sig", 3, None, &logs_with(line.clone()), program);
    assert_eq!(bad.len(), 3);
    assert_eq!(good.len(), 3);
    assert_eq!(format!("{:?}", bad[0]), format!("{:?}", good[0]));
    assert_eq!(format!("{:?}", bad[2]), format!("{:?}", good[2]));
    assert!(matches!(bad[1], Err(DecodeError::PayloadTooShort)));
    let ids: Vec<(u32, u32)> = good
        .iter()
        .map(|item| {
            let observed = item.as_ref().unwrap();
            (observed.id.instruction_index, observed.id.event_index)
        })
        .collect();
    assert_eq!(ids, vec![(0, 0), (0, 1), (0, 2)]);
}
