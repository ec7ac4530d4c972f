//! The ingestion loop as a state machine: connection manager, frame assembler
//! and telemetry snapshot under one roof.
//!
//! The driver performs the pending action and hands the outcome back: the
//! bytes of a completed read through `on_data`, everything else through
//! `on_event`. Bytes are framed and decoded as they arrive. What happens to
//! the link never touches the bytes already buffered or the snapshot, so a
//! frame that was cut in two by a disconnect is completed by the first bytes
//! that arrive over the new link.

use vstd::prelude::*;
use crate::assembler::{
    lemma_apply_all_concat, lemma_read_boundaries_do_not_matter, spec_apply_all, spec_events,
    spec_remainder, FrameAssembler, FrameEvent, FRAME_LEN,
};
use crate::connection::{
    spec_classify, spec_next_state, spec_pending_action, ConnectionManager, ErrorClass,
    LinkAction, LinkConfig, LinkEvent, LinkState, ReadErrorKind,
};
use crate::snapshot::{TelemetrySnapshot, TelemetryView};

verus! {

/// The state of the ingestion loop.
#[derive(Debug)]
pub struct Ingestion {
    link: ConnectionManager,
    assembler: FrameAssembler,
    snapshot: TelemetrySnapshot,
}

/// The mathematical value of an ingestion loop.
pub struct IngestionView {
    /// The state of the link.
    pub link: LinkState,
    /// The parameters of the link.
    pub config: LinkConfig,
    /// The bytes that have arrived and are not yet consumed, oldest first.
    pub queue: Seq<u8>,
    /// The telemetry snapshot.
    pub snapshot: TelemetryView,
}

impl View for Ingestion {
    type V = IngestionView;

    closed spec fn view(&self) -> IngestionView {
        IngestionView {
            link: self.link.spec_state(),
            config: self.link.spec_config(),
            queue: self.assembler@,
            snapshot: self.snapshot@,
        }
    }
}

impl IngestionView {
    /// The value after an event on the link: only the link state changes.
    pub open spec fn after_event(self, event: LinkEvent) -> IngestionView {
        IngestionView { link: spec_next_state(self.link, event), ..self }
    }

    /// The value after a completed read that delivered `data`: the bytes are
    /// appended, whole frames are consumed and their packets applied, and the
    /// link handles the completed read.
    pub open spec fn after_data(self, data: Seq<u8>) -> IngestionView {
        let arrived = self.queue + data;
        IngestionView {
            link: spec_next_state(self.link, LinkEvent::ReadCompleted),
            queue: spec_remainder(arrived),
            snapshot: spec_apply_all(self.snapshot, spec_events(arrived)),
            ..self
        }
    }
}

impl Ingestion {
    /// An ingestion loop that is about to connect for the first time, with
    /// nothing buffered and the initial snapshot.
    pub fn new(config: LinkConfig) -> (ingestion: Ingestion)
        ensures
            ingestion@ == (IngestionView {
                link: LinkState::Listing,
                config,
                queue: Seq::<u8>::empty(),
                snapshot: TelemetryView::initial(),
            }),
    {
        Ingestion {
            link: ConnectionManager::new(config),
            assembler: FrameAssembler::new(),
            snapshot: TelemetrySnapshot::new(),
        }
    }

    /// The telemetry snapshot as it stands.
    pub fn snapshot(&self) -> (snapshot: &TelemetrySnapshot)
        ensures
            snapshot@ == self@.snapshot,
    {
        &self.snapshot
    }

    /// The state of the link.
    pub fn link_state(&self) -> (state: LinkState)
        ensures
            state == self@.link,
    {
        self.link.state()
    }

    /// The number of bytes that are buffered and not yet consumed.
    pub fn buffered(&self) -> (n: usize)
        ensures
            n == self@.queue.len(),
    {
        self.assembler.len()
    }

    /// The action that the driver has to perform now.
    pub fn pending_action(&self) -> (action: LinkAction)
        ensures
            action == spec_pending_action(self@.link, self@.config),
    {
        self.link.pending_action()
    }

    /// Handles an outcome that delivered no data: a step of connecting, or a
    /// failed read. The buffered bytes and the snapshot stay as they are.
    /// Returns the action to perform next.
    pub fn on_event(&mut self, event: LinkEvent) -> (action: LinkAction)
        ensures
            final(self)@ == old(self)@.after_event(event),
            action == spec_pending_action(final(self)@.link, final(self)@.config),
    {
        self.link.step(event)
    }

    /// Handles a completed read that delivered `data`, which may be empty.
    /// Returns the action to perform next, and what the assembler made of the
    /// bytes it consumed, in order.
    pub fn on_data(&mut self, data: &[u8]) -> (outcome: (LinkAction, Vec<FrameEvent>))
        ensures
            final(self)@ == old(self)@.after_data(data@),
            final(self)@.queue.len() < FRAME_LEN,
            outcome.0 == spec_pending_action(final(self)@.link, final(self)@.config),
            outcome.1@ == spec_events(old(self)@.queue + data@),
    {
        self.assembler.push_bytes(data);
        let events = self.assembler.drain_into(&mut self.snapshot);
        let action = self.link.step(LinkEvent::ReadCompleted);
        (action, events)
    }
}

/// Two reads in a row leave the ingestion loop as one read of all their
/// bytes would: how the stream is cut into reads has no effect on the
/// snapshot or on the bytes left over.
pub proof fn lemma_reads_compose(before: IngestionView, first: Seq<u8>, second: Seq<u8>)
    ensures
        before.after_data(first).after_data(second) == before.after_data(first + second),
{
    let arrived = before.queue + first;
    assert(arrived + second =~= before.queue + (first + second));
    lemma_read_boundaries_do_not_matter(arrived, second);
    lemma_apply_all_concat(
        before.snapshot,
        spec_events(arrived),
        spec_events(spec_remainder(arrived) + second),
    );
}

/// Reconnection loses no buffered byte: when a connected link reports a
/// disconnect, a port is found and the open succeeds, the link is connected
/// again while the buffered bytes and the snapshot are what they were before
/// the disconnect. Data that arrives afterwards is framed exactly as if the
/// link had never been lost.
pub proof fn lemma_reconnect_keeps_bytes(
    before: IngestionView,
    kind: ReadErrorKind,
    count: usize,
    data: Seq<u8>,
)
    requires
        before.link == LinkState::Connected,
        spec_classify(kind) == ErrorClass::Disconnect,
        count > 0,
    ensures
        ({
            let lost = before.after_event(LinkEvent::ReadFailed { kind });
            let after = lost.after_event(LinkEvent::PortsListed { count }).after_event(
                LinkEvent::OpenSucceeded,
            );
            &&& lost.link == LinkState::Listing
            &&& after == before
            &&& after.after_data(data) == before.after_data(data)
        }),
{
}

} // verus!
