//! The frame assembler: carves 16-byte frames out of an unbounded byte stream.
//!
//! A frame is one tag byte followed by a 15-byte body. The transport has no
//! delimiter, so the assembler trusts the byte at the front of its queue to be
//! a tag. A known tag consumes a whole frame, whether or not its body decodes;
//! an unknown tag consumes only itself, and the byte after it is taken as the
//! next tag. After a corrupted or unrecognised tag the assembler therefore
//! finds its way back to a frame boundary one byte at a time.

use vstd::prelude::*;
use crate::packets::{
    checksum_ok, LightsPacket, MotorStatusPacket, MotorTempaturePacket, Packet, PedalPacket,
    VelocityPacket, BODY_LEN,
};
use crate::queue::ByteQueue;
use crate::snapshot::{TelemetrySnapshot, TelemetryView};

verus! {

/// Number of bytes in a frame: the tag and the body.
pub const FRAME_LEN: usize = 16;

/// Tag of a lights frame.
pub const LIGHTS_PACKET_ID: u8 = 0x02;

/// Tag of a velocity frame.
pub const VELOCITY_PACKET_ID: u8 = 0x03;

/// Tag of a pedal frame.
pub const PEDAL_PACKET_ID: u8 = 0x04;

/// Tag of a motor temperature frame.
pub const MOTOR_TEMPATURE_PACKET_ID: u8 = 0x05;

/// Tag of a motor status frame.
pub const MOTOR_STATUS_PACKET_ID: u8 = 0x06;

/// What the assembler made of the bytes it consumed in one step.
#[derive(Debug, Clone, Copy, PartialEq, Eq, Structural)]
pub enum FrameEvent {
    /// A frame with a known tag and a matching checksum.
    Decoded(Packet),
    /// A frame with a known tag whose checksum did not match.
    ChecksumFailed { tag: u8 },
    /// A byte that is no known tag; only this byte was consumed.
    UnknownTag { tag: u8 },
}

/// Whether a decoder exists for the tag.
pub open spec fn spec_known_tag(tag: u8) -> bool {
    tag == LIGHTS_PACKET_ID || tag == VELOCITY_PACKET_ID || tag == PEDAL_PACKET_ID || tag
        == MOTOR_TEMPATURE_PACKET_ID || tag == MOTOR_STATUS_PACKET_ID
}

/// The packet that a well-formed body carries under a known tag.
pub open spec fn spec_packet(tag: u8, body: Seq<u8>) -> Packet {
    if tag == PEDAL_PACKET_ID {
        Packet::Pedal(PedalPacket::spec_decode(body))
    } else if tag == VELOCITY_PACKET_ID {
        Packet::Velocity(VelocityPacket::spec_decode(body))
    } else if tag == LIGHTS_PACKET_ID {
        Packet::Lights(LightsPacket::spec_decode(body))
    } else if tag == MOTOR_TEMPATURE_PACKET_ID {
        Packet::MotorTemperature(MotorTempaturePacket::spec_decode(body))
    } else {
        Packet::MotorStatus(MotorStatusPacket::spec_decode(body))
    }
}

/// The outcome of handing a 15-byte body to the decoder that the tag selects.
pub open spec fn spec_decode_frame(tag: u8, body: Seq<u8>) -> FrameEvent {
    if !spec_known_tag(tag) {
        FrameEvent::UnknownTag { tag }
    } else if checksum_ok(body) {
        FrameEvent::Decoded(spec_packet(tag, body))
    } else {
        FrameEvent::ChecksumFailed { tag }
    }
}

/// One step of the assembler on the queue contents `queue`: nothing while
/// fewer than 16 bytes are buffered; otherwise the event for the byte at the
/// front, together with the bytes that remain.
pub open spec fn spec_step(queue: Seq<u8>) -> Option<(FrameEvent, Seq<u8>)> {
    if queue.len() < FRAME_LEN {
        None
    } else if spec_known_tag(queue[0]) {
        Some(
            (
                spec_decode_frame(queue[0], queue.subrange(1, FRAME_LEN as int)),
                queue.skip(FRAME_LEN as int),
            ),
        )
    } else {
        Some((FrameEvent::UnknownTag { tag: queue[0] }, queue.skip(1)))
    }
}

/// The snapshot after an event: a decoded packet is applied, anything else
/// leaves the snapshot as it was.
pub open spec fn spec_apply(snapshot: TelemetryView, event: FrameEvent) -> TelemetryView {
    match event {
        FrameEvent::Decoded(packet) => snapshot.with_packet(packet),
        _ => snapshot,
    }
}

/// The snapshot after a sequence of events, applied in order.
pub open spec fn spec_apply_all(snapshot: TelemetryView, events: Seq<FrameEvent>) -> TelemetryView
    decreases events.len(),
{
    if events.len() == 0 {
        snapshot
    } else {
        spec_apply(spec_apply_all(snapshot, events.drop_last()), events.last())
    }
}

/// The events that repeated steps produce on the queue contents `queue`, in
/// order, until fewer than 16 bytes remain.
pub open spec fn spec_events(queue: Seq<u8>) -> Seq<FrameEvent>
    decreases queue.len(),
{
    match spec_step(queue) {
        None => Seq::empty(),
        Some((event, rest)) => seq![event] + spec_events(rest),
    }
}

/// The bytes that repeated steps leave in the queue: always fewer than 16.
pub open spec fn spec_remainder(queue: Seq<u8>) -> Seq<u8>
    decreases queue.len(),
{
    match spec_step(queue) {
        None => queue,
        Some((_, rest)) => spec_remainder(rest),
    }
}

/// Whether a decoder exists for the tag.
pub fn is_known_tag(tag: u8) -> (known: bool)
    ensures
        known == spec_known_tag(tag),
{
    tag == LIGHTS_PACKET_ID || tag == VELOCITY_PACKET_ID || tag == PEDAL_PACKET_ID || tag
        == MOTOR_TEMPATURE_PACKET_ID || tag == MOTOR_STATUS_PACKET_ID
}

/// Hands a frame body to the decoder that the tag selects.
pub fn decode_frame(tag: u8, body: &[u8; 15]) -> (event: FrameEvent)
    ensures
        event == spec_decode_frame(tag, body@),
{
    if tag == PEDAL_PACKET_ID {
        match PedalPacket::from_bytes(body) {
            Ok(packet) => FrameEvent::Decoded(Packet::Pedal(packet)),
            Err(_) => FrameEvent::ChecksumFailed { tag },
        }
    } else if tag == VELOCITY_PACKET_ID {
        match VelocityPacket::from_bytes(body) {
            Ok(packet) => FrameEvent::Decoded(Packet::Velocity(packet)),
            Err(_) => FrameEvent::ChecksumFailed { tag },
        }
    } else if tag == LIGHTS_PACKET_ID {
        match LightsPacket::from_bytes(body) {
            Ok(packet) => FrameEvent::Decoded(Packet::Lights(packet)),
            Err(_) => FrameEvent::ChecksumFailed { tag },
        }
    } else if tag == MOTOR_TEMPATURE_PACKET_ID {
        match MotorTempaturePacket::from_bytes(body) {
            Ok(packet) => FrameEvent::Decoded(Packet::MotorTemperature(packet)),
            Err(_) => FrameEvent::ChecksumFailed { tag },
        }
    } else if tag == MOTOR_STATUS_PACKET_ID {
        match MotorStatusPacket::from_bytes(body) {
            Ok(packet) => FrameEvent::Decoded(Packet::MotorStatus(packet)),
            Err(_) => FrameEvent::ChecksumFailed { tag },
        }
    } else {
        FrameEvent::UnknownTag { tag }
    }
}

/// The frame assembler. Its value is the sequence of bytes that have arrived
/// and have not yet been consumed, oldest first.
#[derive(Debug)]
pub struct FrameAssembler {
    queue: ByteQueue,
}

impl View for FrameAssembler {
    type V = Seq<u8>;

    closed spec fn view(&self) -> Seq<u8> {
        self.queue@
    }
}

impl FrameAssembler {
    /// An assembler with nothing buffered.
    pub fn new() -> (assembler: FrameAssembler)
        ensures
            assembler@ == Seq::<u8>::empty(),
    {
        FrameAssembler { queue: ByteQueue::new() }
    }

    /// The number of bytes buffered.
    pub fn len(&self) -> (n: usize)
        ensures
            n == self@.len(),
    {
        self.queue.len()
    }

    /// Appends the bytes of one read, in order. A read of no bytes changes
    /// nothing.
    pub fn push_bytes(&mut self, data: &[u8])
        ensures
            final(self)@ == old(self)@ + data@,
    {
        self.queue.push_slice(data);
    }

    /// Copies the 15 bytes at the front of the queue without removing them.
    fn peek_body(&self) -> (body: [u8; 15])
        requires
            self@.len() >= BODY_LEN,
        ensures
            body@ == self@.subrange(0, BODY_LEN as int),
    {
        let mut body = [0u8; 15];
        let mut i: usize = 0;
        while i < BODY_LEN
            invariant
                i <= BODY_LEN,
                self@.len() >= BODY_LEN,
                forall|j: int| 0 <= j < i ==> body@[j] == self@[j],
            decreases BODY_LEN - i,
        {
            match self.queue.peek(i) {
                Some(byte) => {
                    body[i] = byte;
                },
                None => {},
            }
            i = i + 1;
        }
        assert(body@ =~= self@.subrange(0, BODY_LEN as int));
        body
    }

    /// Performs one step: with fewer than 16 bytes buffered, nothing happens;
    /// otherwise the byte at the front is taken as a tag. Under a known tag
    /// the 15 bytes after it are decoded and consumed with it; an unknown tag
    /// is consumed alone.
    pub fn step(&mut self) -> (event: Option<FrameEvent>)
        ensures
            spec_step(old(self)@) matches Some((e, rest)) ==> event == Some(e) && final(self)@
                == rest,
            spec_step(old(self)@) is None ==> event is None && final(self)@ == old(self)@,
    {
        if self.queue.len() < FRAME_LEN {
            return None;
        }
        let tag = match self.queue.pop_front() {
            Some(tag) => tag,
            None => {
                return None;
            },
        };
        if !is_known_tag(tag) {
            return Some(FrameEvent::UnknownTag { tag });
        }
        let body = self.peek_body();
        let event = decode_frame(tag, &body);
        let _ = self.queue.discard(BODY_LEN);
        proof {
            assert(body@ =~= old(self)@.subrange(1, FRAME_LEN as int));
            assert(self@ =~= old(self)@.skip(FRAME_LEN as int));
        }
        Some(event)
    }

    /// Consumes frames until fewer than 16 bytes remain, applying every
    /// decoded packet to the snapshot in the order of arrival. Returns the
    /// events of all steps, in order.
    pub fn drain_into(&mut self, snapshot: &mut TelemetrySnapshot) -> (events: Vec<FrameEvent>)
        ensures
            events@ == spec_events(old(self)@),
            final(self)@ == spec_remainder(old(self)@),
            final(self)@.len() < FRAME_LEN,
            final(snapshot)@ == spec_apply_all(old(snapshot)@, events@),
    {
        let mut events: Vec<FrameEvent> = Vec::new();
        loop
            invariant
                events@ + spec_events(self@) == spec_events(old(self)@),
                spec_remainder(self@) == spec_remainder(old(self)@),
                snapshot@ == spec_apply_all(old(snapshot)@, events@),
            ensures
                events@ == spec_events(old(self)@),
                self@ == spec_remainder(old(self)@),
                self@.len() < FRAME_LEN,
                snapshot@ == spec_apply_all(old(snapshot)@, events@),
            decreases self@.len(),
        {
            let ghost queue_before = self@;
            let ghost events_before = events@;
            match self.step() {
                None => {
                    assert(events@ + spec_events(self@) =~= events@);
                    break ;
                },
                Some(event) => {
                    match event {
                        FrameEvent::Decoded(packet) => {
                            snapshot.apply(&packet);
                        },
                        _ => {},
                    }
                    events.push(event);
                    proof {
                        assert(events@.drop_last() =~= events_before);
                        assert(events@ + spec_events(self@) =~= events_before + spec_events(
                            queue_before,
                        ));
                    }
                },
            }
        }
        events
    }
}

/// Applying a sequence of events is applying its first event and then the
/// rest.
pub proof fn lemma_apply_all_front(
    snapshot: TelemetryView,
    event: FrameEvent,
    events: Seq<FrameEvent>,
)
    ensures
        spec_apply_all(snapshot, seq![event] + events) == spec_apply_all(
            spec_apply(snapshot, event),
            events,
        ),
    decreases events.len(),
{
    let all = seq![event] + events;
    if events.len() == 0 {
        assert(all.drop_last() =~= Seq::<FrameEvent>::empty());
        assert(spec_apply_all(snapshot, all.drop_last()) == snapshot);
    } else {
        assert(all.drop_last() =~= seq![event] + events.drop_last());
        lemma_apply_all_front(snapshot, event, events.drop_last());
    }
}

/// Applying two sequences of events one after the other is applying their
/// concatenation.
pub proof fn lemma_apply_all_concat(
    snapshot: TelemetryView,
    first: Seq<FrameEvent>,
    second: Seq<FrameEvent>,
)
    ensures
        spec_apply_all(snapshot, first + second) == spec_apply_all(
            spec_apply_all(snapshot, first),
            second,
        ),
    decreases second.len(),
{
    if second.len() == 0 {
        assert(first + second =~= first);
    } else {
        assert((first + second).drop_last() =~= first + second.drop_last());
        lemma_apply_all_concat(snapshot, first, second.drop_last());
    }
}

/// Read boundaries do not matter: draining after the bytes `first` have
/// arrived and again after `second` has arrived gives, taken together, the
/// same events and leaves the same bytes as draining once after both.
pub proof fn lemma_read_boundaries_do_not_matter(first: Seq<u8>, second: Seq<u8>)
    ensures
        spec_events(first + second) == spec_events(first) + spec_events(
            spec_remainder(first) + second,
        ),
        spec_remainder(first + second) == spec_remainder(spec_remainder(first) + second),
    decreases first.len(),
{
    let all = first + second;
    match spec_step(first) {
        None => {
            assert(spec_events(first) + spec_events(all) =~= spec_events(all));
        },
        Some((event, rest)) => {
            assert(all[0] == first[0]);
            assert(all.subrange(1, FRAME_LEN as int) =~= first.subrange(1, FRAME_LEN as int));
            if spec_known_tag(first[0]) {
                assert(all.skip(FRAME_LEN as int) =~= rest + second);
            } else {
                assert(all.skip(1) =~= rest + second);
            }
            lemma_read_boundaries_do_not_matter(rest, second);
            assert(spec_events(all) =~= spec_events(first) + spec_events(
                spec_remainder(first) + second,
            ));
        },
    }
}

/// Draining always leaves fewer than 16 bytes, and a queue of fewer than 16
/// bytes is left as it is, without any event.
pub proof fn lemma_remainder_is_short(queue: Seq<u8>)
    ensures
        spec_remainder(queue).len() < FRAME_LEN,
        queue.len() < FRAME_LEN ==> spec_remainder(queue) == queue && spec_events(queue)
            == Seq::<FrameEvent>::empty(),
    decreases queue.len(),
{
    match spec_step(queue) {
        None => {},
        Some((_, rest)) => {
            lemma_remainder_is_short(rest);
        },
    }
}

/// A frame with a known tag at the front of the queue is consumed whole,
/// whether its checksum matches or not: it gives one event, that of its
/// decoder, and draining continues with the bytes behind it.
pub proof fn lemma_frame_at_front(frame: Seq<u8>, rest: Seq<u8>)
    requires
        frame.len() == FRAME_LEN,
        spec_known_tag(frame[0]),
    ensures
        spec_events(frame + rest) == seq![spec_decode_frame(frame[0], frame.skip(1))]
            + spec_events(rest),
        spec_remainder(frame + rest) == spec_remainder(rest),
{
    let queue = frame + rest;
    assert(queue.subrange(1, FRAME_LEN as int) =~= frame.skip(1));
    assert(queue.skip(FRAME_LEN as int) =~= rest);
}

/// The events of bytes that are skipped one by one.
pub open spec fn spec_skipped(junk: Seq<u8>) -> Seq<FrameEvent> {
    Seq::new(junk.len(), |i: int| FrameEvent::UnknownTag { tag: junk[i] })
}

/// Resynchronisation: bytes that are no known tag, standing in front of a
/// well-formed frame with a known tag, are skipped one by one, and the frame
/// behind them is then decoded exactly as if it had stood at the front.
/// Draining continues with the bytes behind the frame.
pub proof fn lemma_resynchronizes(junk: Seq<u8>, frame: Seq<u8>, rest: Seq<u8>)
    requires
        forall|i: int| 0 <= i < junk.len() ==> !spec_known_tag(#[trigger] junk[i]),
        frame.len() == FRAME_LEN,
        spec_known_tag(frame[0]),
        checksum_ok(frame.skip(1)),
    ensures
        spec_events(junk + frame + rest) == spec_skipped(junk) + seq![
            FrameEvent::Decoded(spec_packet(frame[0], frame.skip(1))),
        ] + spec_events(rest),
        spec_remainder(junk + frame + rest) == spec_remainder(rest),
    decreases junk.len(),
{
    let decoded = seq![FrameEvent::Decoded(spec_packet(frame[0], frame.skip(1)))];
    if junk.len() == 0 {
        assert(junk + frame + rest =~= frame + rest);
        assert(spec_skipped(junk) + decoded + spec_events(rest) =~= decoded + spec_events(rest));
        lemma_frame_at_front(frame, rest);
    } else {
        let queue = junk + frame + rest;
        assert(queue[0] == junk[0]);
        assert(queue.skip(1) =~= junk.skip(1) + frame + rest);
        lemma_resynchronizes(junk.skip(1), frame, rest);
        assert(spec_skipped(junk) =~= seq![FrameEvent::UnknownTag { tag: junk[0] }]
            + spec_skipped(junk.skip(1)));
        assert(spec_events(queue) =~= spec_skipped(junk) + decoded + spec_events(rest));
    }
}

/// Resynchronisation, seen from the snapshot: after stray bytes and a
/// well-formed frame have been drained, the snapshot holds the frame's packet
/// on top of what it held before, and nothing else has changed.
pub proof fn lemma_resynchronized_snapshot(junk: Seq<u8>, frame: Seq<u8>, snapshot: TelemetryView)
    requires
        forall|i: int| 0 <= i < junk.len() ==> !spec_known_tag(#[trigger] junk[i]),
        frame.len() == FRAME_LEN,
        spec_known_tag(frame[0]),
        checksum_ok(frame.skip(1)),
    ensures
        spec_apply_all(snapshot, spec_events(junk + frame)) == snapshot.with_packet(
            spec_packet(frame[0], frame.skip(1)),
        ),
        spec_remainder(junk + frame) == Seq::<u8>::empty(),
    decreases junk.len(),
{
    let packet = spec_packet(frame[0], frame.skip(1));
    let decoded = seq![FrameEvent::Decoded(packet)];
    let none = Seq::<u8>::empty();
    if junk.len() == 0 {
        assert(junk + frame =~= frame + none);
        lemma_frame_at_front(frame, none);
        assert(spec_events(none) =~= Seq::<FrameEvent>::empty());
        assert(spec_events(junk + frame) =~= decoded);
        assert(decoded.drop_last() =~= Seq::<FrameEvent>::empty());
        assert(spec_apply_all(snapshot, decoded.drop_last()) == snapshot);
        assert(spec_apply_all(snapshot, decoded) == spec_apply(snapshot, decoded.last()));
    } else {
        let queue = junk + frame;
        let skipped = FrameEvent::UnknownTag { tag: junk[0] };
        assert(queue[0] == junk[0]);
        assert(queue.skip(1) =~= junk.skip(1) + frame);
        assert(spec_events(queue) == seq![skipped] + spec_events(queue.skip(1)));
        lemma_resynchronized_snapshot(junk.skip(1), frame, snapshot);
        lemma_apply_all_front(snapshot, skipped, spec_events(queue.skip(1)));
    }
}

} // verus!
