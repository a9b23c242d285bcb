//! Observer metrics in the Prometheus text exposition format.
use vstd::prelude::*;

use std::sync::atomic::{AtomicI64, AtomicU64};
use std::sync::atomic::Ordering;

use crate::events::IronVaultEvent;
use crate::observer::text::{push_decimal, push_signed_decimal, spec_decimal, spec_signed_decimal};

verus! {

/// Live counters and gauges, shared between the observer's tasks.
#[derive(Default)]
pub struct Metrics {
    pub events_total: AtomicU64,
    pub rpc_errors_total: AtomicU64,
    pub rpc_reconnects_total: AtomicU64,
    pub observer_slot_lag: AtomicI64,
    pub decode_errors_total: AtomicU64,
    pub escrows_created_total: AtomicU64,
    pub withdrawals_requested_total: AtomicU64,
    pub withdrawals_executed_total: AtomicU64,
    pub pauses_total: AtomicU64,
}

/// The values of all metrics at one moment.
#[derive(Clone, Copy, Debug, PartialEq, Eq, Structural)]
pub struct MetricsSnapshot {
    pub events_total: u64,
    pub rpc_errors_total: u64,
    pub rpc_reconnects_total: u64,
    pub observer_slot_lag: i64,
    pub decode_errors_total: u64,
    pub escrows_created_total: u64,
    pub withdrawals_requested_total: u64,
    pub withdrawals_executed_total: u64,
    pub pauses_total: u64,
}

/// The exposition of one metric: its help line, its type line, and its
/// sample.
pub open spec fn spec_metric(name: Seq<char>, help: Seq<char>, kind: Seq<char>, value: Seq<char>) -> Seq<
    char,
> {
    "# HELP "@ + name + " "@ + help + "\n# TYPE "@ + name + " "@ + kind + "\n"@ + name + " "@ + value
        + "\n"@
}

/// The exposition of a counter.
pub open spec fn spec_counter(name: Seq<char>, help: Seq<char>, value: u64) -> Seq<char> {
    spec_metric(name, help, "counter"@, spec_decimal(value as nat))
}

/// The exposition of a gauge.
pub open spec fn spec_gauge(name: Seq<char>, help: Seq<char>, value: i64) -> Seq<char> {
    spec_metric(name, help, "gauge"@, spec_signed_decimal(value as int))
}

/// The exposition of every metric, in a fixed order.
pub open spec fn spec_render(s: MetricsSnapshot) -> Seq<char> {
    spec_counter("ironvault_events_total"@, "Persisted protocol events"@, s.events_total)
        + spec_counter(
        "ironvault_rpc_errors_total"@,
        "Solana RPC and WebSocket errors"@,
        s.rpc_errors_total,
    ) + spec_counter(
        "ironvault_rpc_reconnects_total"@,
        "WebSocket reconnections"@,
        s.rpc_reconnects_total,
    ) + spec_gauge(
        "ironvault_observer_slot_lag"@,
        "Latest RPC slot minus latest observed slot"@,
        s.observer_slot_lag,
    ) + spec_counter(
        "ironvault_decode_errors_total"@,
        "IronVault event decode errors"@,
        s.decode_errors_total,
    ) + spec_counter(
        "ironvault_escrows_created_total"@,
        "Created escrows"@,
        s.escrows_created_total,
    ) + spec_counter(
        "ironvault_withdrawals_requested_total"@,
        "Requested timelocked withdrawals"@,
        s.withdrawals_requested_total,
    ) + spec_counter(
        "ironvault_withdrawals_executed_total"@,
        "Executed timelocked withdrawals"@,
        s.withdrawals_executed_total,
    ) + spec_counter(
        "ironvault_pauses_total"@,
        "Protocol and vault pause activations"@,
        s.pauses_total,
    )
}

/// Appends the help and type lines of a metric and the start of its sample.
fn push_metric_head(output: &mut String, name: &str, help: &str, kind: &str)
    ensures
        final(output)@ == old(output)@ + "# HELP "@ + name@ + " "@ + help@ + "\n# TYPE "@ + name@
            + " "@ + kind@ + "\n"@ + name@ + " "@,
{
    output.append("# HELP ");
    output.append(name);
    output.append(" ");
    output.append(help);
    output.append("\n# TYPE ");
    output.append(name);
    output.append(" ");
    output.append(kind);
    output.append("\n");
    output.append(name);
    output.append(" ");
}

/// Appends the exposition of a counter.
pub fn counter(output: &mut String, name: &str, help: &str, value: u64)
    ensures
        final(output)@ == old(output)@ + spec_counter(name@, help@, value),
{
    push_metric_head(output, name, help, "counter");
    push_decimal(output, value);
    output.append("\n");
    assert(final(output)@ =~= old(output)@ + spec_counter(name@, help@, value));
}

/// Appends the exposition of a gauge.
pub fn gauge(output: &mut String, name: &str, help: &str, value: i64)
    ensures
        final(output)@ == old(output)@ + spec_gauge(name@, help@, value),
{
    push_metric_head(output, name, help, "gauge");
    push_signed_decimal(output, value);
    output.append("\n");
    assert(final(output)@ =~= old(output)@ + spec_gauge(name@, help@, value));
}

impl MetricsSnapshot {
    /// Renders every metric.
    pub fn render(&self) -> (text: String)
        ensures
            text@ == spec_render(*self),
    {
        let mut output = String::new();
        counter(&mut output, "ironvault_events_total", "Persisted protocol events", self.events_total);
        counter(
            &mut output,
            "ironvault_rpc_errors_total",
            "Solana RPC and WebSocket errors",
            self.rpc_errors_total,
        );
        counter(
            &mut output,
            "ironvault_rpc_reconnects_total",
            "WebSocket reconnections",
            self.rpc_reconnects_total,
        );
        gauge(
            &mut output,
            "ironvault_observer_slot_lag",
            "Latest RPC slot minus latest observed slot",
            self.observer_slot_lag,
        );
        counter(
            &mut output,
            "ironvault_decode_errors_total",
            "IronVault event decode errors",
            self.decode_errors_total,
        );
        counter(
            &mut output,
            "ironvault_escrows_created_total",
            "Created escrows",
            self.escrows_created_total,
        );
        counter(
            &mut output,
            "ironvault_withdrawals_requested_total",
            "Requested timelocked withdrawals",
            self.withdrawals_requested_total,
        );
        counter(
            &mut output,
            "ironvault_withdrawals_executed_total",
            "Executed timelocked withdrawals",
            self.withdrawals_executed_total,
        );
        counter(
            &mut output,
            "ironvault_pauses_total",
            "Protocol and vault pause activations",
            self.pauses_total,
        );
        assert(output@ =~= spec_render(*self));
        output
    }
}

/// The counters, besides the event total, that an observed event advances.
#[derive(Clone, Copy, Debug, PartialEq, Eq, Structural)]
pub struct EventCounts {
    pub escrows_created: bool,
    pub withdrawals_requested: bool,
    pub withdrawals_executed: bool,
    pub pauses: bool,
}

/// Escrow creations, withdrawal requests and executions are counted, and so
/// are pause activations: a protocol pause that sets a flag or a vault
/// pause.
pub open spec fn spec_event_counts(event: IronVaultEvent) -> EventCounts {
    EventCounts {
        escrows_created: event is EscrowCreated,
        withdrawals_requested: event is WithdrawalRequested,
        withdrawals_executed: event is WithdrawalExecuted,
        pauses: match event {
            IronVaultEvent::ProtocolPauseUpdated(e) => e.new_flags != 0,
            IronVaultEvent::VaultPauseUpdated(e) => e.paused,
            _ => false,
        },
    }
}

/// The counters an observed event advances.
pub fn event_counts(event: &IronVaultEvent) -> (counts: EventCounts)
    ensures
        counts == spec_event_counts(*event),
{
    let mut counts = EventCounts {
        escrows_created: false,
        withdrawals_requested: false,
        withdrawals_executed: false,
        pauses: false,
    };
    match event {
        IronVaultEvent::EscrowCreated(_) => {
            counts.escrows_created = true;
        },
        IronVaultEvent::WithdrawalRequested(_) => {
            counts.withdrawals_requested = true;
        },
        IronVaultEvent::WithdrawalExecuted(_) => {
            counts.withdrawals_executed = true;
        },
        IronVaultEvent::ProtocolPauseUpdated(e) => {
            counts.pauses = e.new_flags != 0;
        },
        IronVaultEvent::VaultPauseUpdated(e) => {
            counts.pauses = e.paused;
        },
        _ => {},
    }
    counts
}

impl Metrics {
    /// Reads every metric. The values are read one by one, each at some
    /// moment of the call; other tasks may update metrics meanwhile.
    pub fn snapshot(&self) -> MetricsSnapshot {
        MetricsSnapshot {
            events_total: self.events_total.load(Ordering::Relaxed),
            rpc_errors_total: self.rpc_errors_total.load(Ordering::Relaxed),
            rpc_reconnects_total: self.rpc_reconnects_total.load(Ordering::Relaxed),
            observer_slot_lag: self.observer_slot_lag.load(Ordering::Relaxed),
            decode_errors_total: self.decode_errors_total.load(Ordering::Relaxed),
            escrows_created_total: self.escrows_created_total.load(Ordering::Relaxed),
            withdrawals_requested_total: self.withdrawals_requested_total.load(Ordering::Relaxed),
            withdrawals_executed_total: self.withdrawals_executed_total.load(Ordering::Relaxed),
            pauses_total: self.pauses_total.load(Ordering::Relaxed),
        }
    }

    /// Renders the current values of every metric.
    pub fn render(&self) -> (text: String)
        ensures
            exists|s: MetricsSnapshot| text@ == spec_render(s),
    {
        let snapshot = self.snapshot();
        snapshot.render()
    }

    /// Counts a newly persisted event.
    pub fn record_event(&self, event: &IronVaultEvent) {
        self.events_total.fetch_add(1, Ordering::Relaxed);
        let counts = event_counts(event);
        if counts.escrows_created {
            self.escrows_created_total.fetch_add(1, Ordering::Relaxed);
        }
        if counts.withdrawals_requested {
            self.withdrawals_requested_total.fetch_add(1, Ordering::Relaxed);
        }
        if counts.withdrawals_executed {
            self.withdrawals_executed_total.fetch_add(1, Ordering::Relaxed);
        }
        if counts.pauses {
            self.pauses_total.fetch_add(1, Ordering::Relaxed);
        }
    }
}

/// Law: each counter names the events it counts. Only an escrow creation
/// counts as created, only a withdrawal request as requested, only an
/// execution as executed (a cancellation advances none of them), and only a
/// pause that sets a protocol flag or pauses a vault as a pause; no event
/// advances two of these counters.
pub proof fn lemma_counters_name_their_events(event: IronVaultEvent)
    ensures
        spec_event_counts(event).escrows_created <==> event is EscrowCreated,
        spec_event_counts(event).withdrawals_requested <==> event is WithdrawalRequested,
        spec_event_counts(event).withdrawals_executed <==> event is WithdrawalExecuted,
        spec_event_counts(event).pauses <==> (event matches IronVaultEvent::ProtocolPauseUpdated(e)
            && e.new_flags != 0) || (event matches IronVaultEvent::VaultPauseUpdated(e) && e.paused),
        event is WithdrawalCancelled ==> spec_event_counts(event) == (EventCounts {
            escrows_created: false,
            withdrawals_requested: false,
            withdrawals_executed: false,
            pauses: false,
        }),
        !(spec_event_counts(event).escrows_created && spec_event_counts(event).withdrawals_requested),
        !(spec_event_counts(event).escrows_created && spec_event_counts(event).withdrawals_executed),
        !(spec_event_counts(event).escrows_created && spec_event_counts(event).pauses),
        !(spec_event_counts(event).withdrawals_requested
            && spec_event_counts(event).withdrawals_executed),
        !(spec_event_counts(event).withdrawals_requested && spec_event_counts(event).pauses),
        !(spec_event_counts(event).withdrawals_executed && spec_event_counts(event).pauses),
{
}

} // verus!
