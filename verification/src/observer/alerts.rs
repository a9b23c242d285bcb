//! Operator alerts raised by observed events and by the observer's own
//! monitoring.
use vstd::prelude::*;

use crate::events::IronVaultEvent;
use crate::pubkey::base58_text;

verus! {

/// A condition that an operator should look at. Addresses are given in
/// Base58.
#[derive(Clone, Debug, PartialEq, Eq)]
pub enum Alert {
    ProtocolPaused { flags: u32 },
    VaultPaused { vault: String },
    LargeWithdrawalRequested { request: String, amount: u64 },
    VaultAuthorityChanged { vault: String, new_authority: String },
    GuardianChanged { scope: String, new_guardian: String },
    ProgramUpgradeObserved,
    ObserverFallingBehind { lag: u64 },
}

/// The mathematical value of an [`Alert`].
pub enum AlertView {
    ProtocolPaused { flags: u32 },
    VaultPaused { vault: Seq<char> },
    LargeWithdrawalRequested { request: Seq<char>, amount: u64 },
    VaultAuthorityChanged { vault: Seq<char>, new_authority: Seq<char> },
    GuardianChanged { scope: Seq<char>, new_guardian: Seq<char> },
    ProgramUpgradeObserved,
    ObserverFallingBehind { lag: u64 },
}

impl View for Alert {
    type V = AlertView;

    open spec fn view(&self) -> AlertView {
        match self {
            Alert::ProtocolPaused { flags } => AlertView::ProtocolPaused { flags: *flags },
            Alert::VaultPaused { vault } => AlertView::VaultPaused { vault: vault@ },
            Alert::LargeWithdrawalRequested { request, amount } => {
                AlertView::LargeWithdrawalRequested { request: request@, amount: *amount }
            },
            Alert::VaultAuthorityChanged { vault, new_authority } => {
                AlertView::VaultAuthorityChanged { vault: vault@, new_authority: new_authority@ }
            },
            Alert::GuardianChanged { scope, new_guardian } => AlertView::GuardianChanged {
                scope: scope@,
                new_guardian: new_guardian@,
            },
            Alert::ProgramUpgradeObserved => AlertView::ProgramUpgradeObserved,
            Alert::ObserverFallingBehind { lag } => AlertView::ObserverFallingBehind { lag: *lag },
        }
    }
}

/// The value of an optional alert.
pub open spec fn alert_option_view(alert: Option<Alert>) -> Option<AlertView> {
    match alert {
        Some(a) => Some(a@),
        None => None,
    }
}

/// The alert an event raises: a protocol pause that sets any flag, a vault
/// pause, a withdrawal request of at least `large_withdrawal_threshold`, or
/// a change of vault authority; every other event raises none.
pub open spec fn spec_classify_event(event: IronVaultEvent, large_withdrawal_threshold: u64) -> Option<
    AlertView,
> {
    match event {
        IronVaultEvent::ProtocolPauseUpdated(e) => if e.new_flags != 0 {
            Some(AlertView::ProtocolPaused { flags: e.new_flags })
        } else {
            None
        },
        IronVaultEvent::VaultPauseUpdated(e) => if e.paused {
            Some(AlertView::VaultPaused { vault: base58_text(e.vault.0@) })
        } else {
            None
        },
        IronVaultEvent::WithdrawalRequested(e) => if e.amount >= large_withdrawal_threshold {
            Some(
                AlertView::LargeWithdrawalRequested {
                    request: base58_text(e.withdrawal_request.0@),
                    amount: e.amount,
                },
            )
        } else {
            None
        },
        IronVaultEvent::VaultAuthorityUpdated(e) => Some(
            AlertView::VaultAuthorityChanged {
                vault: base58_text(e.vault.0@),
                new_authority: base58_text(e.new_authority.0@),
            },
        ),
        _ => None,
    }
}

/// Classifies an observed event into the alert it raises, if any.
pub fn classify_event(event: &IronVaultEvent, large_withdrawal_threshold: u64) -> (alert: Option<
    Alert,
>)
    ensures
        alert_option_view(alert) == spec_classify_event(*event, large_withdrawal_threshold),
{
    match event {
        IronVaultEvent::ProtocolPauseUpdated(e) => if e.new_flags != 0 {
            Some(Alert::ProtocolPaused { flags: e.new_flags })
        } else {
            None
        },
        IronVaultEvent::VaultPauseUpdated(e) => if e.paused {
            Some(Alert::VaultPaused { vault: e.vault.to_base58() })
        } else {
            None
        },
        IronVaultEvent::WithdrawalRequested(e) => if e.amount >= large_withdrawal_threshold {
            Some(
                Alert::LargeWithdrawalRequested {
                    request: e.withdrawal_request.to_base58(),
                    amount: e.amount,
                },
            )
        } else {
            None
        },
        IronVaultEvent::VaultAuthorityUpdated(e) => Some(
            Alert::VaultAuthorityChanged {
                vault: e.vault.to_base58(),
                new_authority: e.new_authority.to_base58(),
            },
        ),
        _ => None,
    }
}

/// The alert for an observer whose observed slot trails the cluster by more
/// than `max_ready_slot_lag` slots.
pub fn lag_alert(lag: u64, max_ready_slot_lag: u64) -> (alert: Option<Alert>)
    ensures
        alert_option_view(alert) == if lag > max_ready_slot_lag {
            Some(AlertView::ObserverFallingBehind { lag })
        } else {
            None
        },
{
    if lag > max_ready_slot_lag {
        Some(Alert::ObserverFallingBehind { lag })
    } else {
        None
    }
}

/// The alert for a program whose deployment slot differs from the one seen
/// before: the program was upgraded.
pub fn upgrade_alert(previous_deployment_slot: Option<u64>, current_deployment_slot: u64) -> (alert:
    Option<Alert>)
    ensures
        alert_option_view(alert) == if previous_deployment_slot matches Some(previous) && previous
            != current_deployment_slot {
            Some(AlertView::ProgramUpgradeObserved)
        } else {
            None
        },
{
    match previous_deployment_slot {
        Some(previous) => if previous != current_deployment_slot {
            Some(Alert::ProgramUpgradeObserved)
        } else {
            None
        },
        None => None,
    }
}

/// Law: pause alerts report pausing, never resuming. A protocol pause update
/// raises an alert exactly when it leaves some flag set, and the alert
/// reports the flags now set; one that clears every flag raises none,
/// whatever was set before. A vault pause update raises an alert exactly
/// when it pauses the vault.
pub proof fn lemma_pause_alerts_report_pausing(
    protocol: crate::events::ProtocolPauseUpdated,
    vault: crate::events::VaultPauseUpdated,
    large_withdrawal_threshold: u64,
)
    ensures
        spec_classify_event(
            IronVaultEvent::ProtocolPauseUpdated(protocol),
            large_withdrawal_threshold,
        ) is Some <==> protocol.new_flags != 0,
        protocol.new_flags != 0 ==> spec_classify_event(
            IronVaultEvent::ProtocolPauseUpdated(protocol),
            large_withdrawal_threshold,
        ) == Some(AlertView::ProtocolPaused { flags: protocol.new_flags }),
        spec_classify_event(IronVaultEvent::VaultPauseUpdated(vault), large_withdrawal_threshold)
            is Some <==> vault.paused,
{
}

/// Law: a withdrawal request raises an alert exactly when its amount reaches
/// the threshold (the threshold itself counts as large), and the alert
/// carries that amount; every change of vault authority raises an alert.
pub proof fn lemma_large_requests_and_authority_changes_alert(
    request: crate::events::WithdrawalRequested,
    authority: crate::events::VaultAuthorityUpdated,
    large_withdrawal_threshold: u64,
)
    ensures
        spec_classify_event(IronVaultEvent::WithdrawalRequested(request), large_withdrawal_threshold)
            is Some <==> request.amount >= large_withdrawal_threshold,
        spec_classify_event(IronVaultEvent::WithdrawalRequested(request), large_withdrawal_threshold)
            matches Some(a) ==> a matches AlertView::LargeWithdrawalRequested { amount, .. }
            && amount == request.amount,
        spec_classify_event(IronVaultEvent::VaultAuthorityUpdated(authority), large_withdrawal_threshold)
            matches Some(a) && a is VaultAuthorityChanged,
{
}

} // verus!
