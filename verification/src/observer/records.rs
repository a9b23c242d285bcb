//! Identities and records of observed events.
use vstd::prelude::*;

use crate::events::IronVaultEvent;

verus! {

/// The position of an event in the finalized history: its transaction, the
/// top-level instruction that produced it, and its order within that
/// instruction. Replays of one event always carry the same identity.
#[derive(Clone, Debug, PartialEq, Eq)]
pub struct EventId {
    pub transaction_signature: String,
    pub instruction_index: u32,
    pub event_index: u32,
}

/// The mathematical value of an [`EventId`].
pub struct EventIdView {
    pub transaction_signature: Seq<char>,
    pub instruction_index: u32,
    pub event_index: u32,
}

impl View for EventId {
    type V = EventIdView;

    open spec fn view(&self) -> EventIdView {
        EventIdView {
            transaction_signature: self.transaction_signature@,
            instruction_index: self.instruction_index,
            event_index: self.event_index,
        }
    }
}

/// A decoded program event with its identity and where it was observed.
#[derive(Clone, Debug)]
pub struct ObservedEvent {
    pub id: EventId,
    pub slot: u64,
    pub block_time: Option<i64>,
    pub event: IronVaultEvent,
}

/// The mathematical value of an [`ObservedEvent`].
pub struct ObservedEventView {
    pub id: EventIdView,
    pub slot: u64,
    pub block_time: Option<i64>,
    pub event: IronVaultEvent,
}

impl View for ObservedEvent {
    type V = ObservedEventView;

    open spec fn view(&self) -> ObservedEventView {
        ObservedEventView {
            id: self.id@,
            slot: self.slot,
            block_time: self.block_time,
            event: self.event,
        }
    }
}

} // verus!
