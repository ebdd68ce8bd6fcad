//! The control channel between client and server: each message is a JSON text
//! behind its length in two bytes, most significant first.

use vstd::prelude::*;

use crate::protocol::json::{from_slice, is_flat, json_of, parsed, rendered, to_vec, Json};

verus! {

/// How long to wait for keepalive events, in seconds. The control channel
/// exchanges data about every second, so this is reasonable to avoid excess
/// noise.
pub const KEEPALIVE_SECONDS: u64 = 2;

/// How long to block on polling for a message, in milliseconds.
pub const POLL_TIMEOUT_MILLIS: u64 = 50;

/// How many bytes the length of a message takes.
pub const LENGTH_BYTES: usize = 2;

/// A message that cannot be carried.
#[derive(Debug)]
pub enum MessageError {
    /// The message has no JSON text. No JSON value lacks one.
    Unserialisable(serde_json::Error),
    /// The bytes are no JSON text.
    Undecodable(serde_json::Error),
}

/// The two bytes that stand before a message of `length` bytes. They hold the
/// length modulo 65536.
pub open spec fn length_prefix(length: nat) -> Seq<u8> {
    seq![(length / 256 % 256) as u8, (length % 256) as u8]
}

/// The length that two leading bytes announce.
pub open spec fn announced_length(bytes: Seq<u8>) -> nat {
    (bytes[0] as nat) * 256 + bytes[1] as nat
}

/// A message as it goes over the wire.
pub open spec fn frame(message: Seq<u8>) -> Seq<u8> {
    length_prefix(message.len()) + message
}

/// How long a message can be for its length to be announced right.
pub open spec fn is_announceable(message: Seq<u8>) -> bool {
    0 < message.len() <= u16::MAX
}

/// Puts the length before a message.
pub fn encode_frame(message: &[u8]) -> (wire: Vec<u8>)
    ensures
        wire@ == frame(message@),
{
    let length: usize = message.len();
    let mut wire: Vec<u8> = Vec::new();
    wire.push((length / 256 % 256) as u8);
    wire.push((length % 256) as u8);
    wire.extend_from_slice(message);
    assert(wire@ =~= frame(message@));
    wire
}

/// Whether a message can be carried unchanged: its length can be announced, and
/// its text reads back as the message.
pub open spec fn is_sendable(message: Json) -> bool {
    is_announceable(rendered(message)) && parsed(rendered(message)) == Some(message)
}

/// The bytes of a message on the wire.
pub open spec fn wire_of(message: Json) -> Seq<u8> {
    frame(rendered(message))
}

/// The bytes to send for `message`. There is always a text. A message can be
/// carried unchanged if its text reads back and is not too long for its length
/// to be announced; that of a flat message reads back.
pub fn frame_message(message: &serde_json::Value) -> (wire: Result<Vec<u8>, MessageError>)
    ensures
        wire matches Ok(bytes) && bytes@ == wire_of(json_of(*message)),
        rendered(json_of(*message)).len() > 0,
        is_flat(json_of(*message)) ==> parsed(rendered(json_of(*message))) == Some(
            json_of(*message),
        ),
        is_flat(json_of(*message)) && rendered(json_of(*message)).len() <= u16::MAX ==> is_sendable(
            json_of(*message),
        ),
{
    match to_vec(message) {
        Ok(text) => Ok(encode_frame(text.as_slice())),
        Err(reason) => Err(MessageError::Unserialisable(reason)),
    }
}

/// What follows the length in the bytes of a frame.
pub open spec fn frame_payload(bytes: Seq<u8>) -> Seq<u8> {
    bytes.skip(LENGTH_BYTES as int)
}

/// Why no message was received.
#[derive(Debug, PartialEq, Eq, Structural, Clone, Copy)]
pub enum ReceiveFailure {
    /// The peer closed the connection while the run went on.
    ConnectionLost,
    /// The peer closed the connection when the run had ended.
    ShutdownDuringReceive,
    /// The run ended before the message was complete.
    ShutdownRequested,
}

impl ReceiveFailure {
    /// What the failure is reported as.
    pub fn message(self) -> (text: &'static str)
        ensures
            text@ == (match self {
                ReceiveFailure::ConnectionLost => "connection lost"@,
                ReceiveFailure::ShutdownDuringReceive => "shutdown during receive"@,
                ReceiveFailure::ShutdownRequested => "shutdown requested or timeout"@,
            }),
    {
        match self {
            ReceiveFailure::ConnectionLost => "connection lost",
            ReceiveFailure::ShutdownDuringReceive => "shutdown during receive",
            ReceiveFailure::ShutdownRequested => "shutdown requested or timeout",
        }
    }
}

/// What a receiver waits for.
#[derive(Debug, PartialEq, Eq, Structural, Clone, Copy)]
pub enum Awaiting {
    /// Whether the run goes on, before the next round.
    Alive,
    /// The outstanding results to be sent, and then the outcome of a poll.
    Poll,
    /// The outcome of a read of the bytes that are still missing.
    Read,
    /// Whether the run goes on, now that the peer has closed the connection.
    AliveAfterClose,
    /// Nothing: the message is complete.
    Received,
    /// Nothing: there will be no message.
    Failed(ReceiveFailure),
}

/// How a poll ended.
#[derive(Debug, PartialEq, Eq, Structural, Clone, Copy)]
pub enum PollOutcome {
    /// The poll was interrupted.
    Interrupted,
    /// There is nothing to read.
    Idle,
    /// There is something to read.
    Readable,
}

/// How many bytes a frame has that begins with `bytes`, as far as they tell.
pub open spec fn expected_bytes(bytes: Seq<u8>) -> nat {
    if bytes.len() < LENGTH_BYTES {
        LENGTH_BYTES as nat
    } else {
        LENGTH_BYTES as nat + announced_length(bytes)
    }
}

/// Whether `bytes` are a whole frame. A frame without payload never counts as
/// whole.
pub open spec fn is_whole_frame(bytes: Seq<u8>) -> bool {
    bytes.len() > LENGTH_BYTES && bytes.len() == expected_bytes(bytes)
}

/// What a receiver waits for once it knows whether the run goes on.
pub open spec fn after_alive_check(awaiting: Awaiting, alive: bool) -> Awaiting {
    match (awaiting, alive) {
        (Awaiting::AliveAfterClose, true) => Awaiting::Failed(ReceiveFailure::ConnectionLost),
        (Awaiting::AliveAfterClose, false) => Awaiting::Failed(
            ReceiveFailure::ShutdownDuringReceive,
        ),
        (_, true) => Awaiting::Poll,
        (_, false) => Awaiting::Failed(ReceiveFailure::ShutdownRequested),
    }
}

/// What a receiver waits for once it holds `bytes`.
pub open spec fn after_data(bytes: Seq<u8>) -> Awaiting {
    if is_whole_frame(bytes) {
        Awaiting::Received
    } else if bytes.len() == LENGTH_BYTES {
        Awaiting::Alive
    } else {
        Awaiting::Read
    }
}

/// How far a receiver has come.
#[verifier::ext_equal]
pub struct ReceiverModel {
    /// The bytes of the frame that have been read, its length among them.
    pub received: Seq<u8>,
    /// What the receiver waits for.
    pub awaits: Awaiting,
}

impl ReceiverModel {
    /// A receiver that has read nothing.
    pub open spec fn initial() -> ReceiverModel {
        ReceiverModel { received: seq![], awaits: Awaiting::Alive }
    }

    /// How many bytes the length, or then the payload, still lacks.
    pub open spec fn missing(self) -> int {
        expected_bytes(self.received) - self.received.len()
    }

    /// No more has been read than the frame has, and the message is complete
    /// exactly when the receiver holds the whole frame.
    pub open spec fn wf(self) -> bool {
        &&& self.missing() >= 0
        &&& is_whole_frame(self.received) <==> self.awaits == Awaiting::Received
    }
}

/// Something that a receiver is told.
pub enum ReceiverEvent {
    /// Whether the run goes on.
    Alive(bool),
    /// How a poll ended.
    Poll(PollOutcome),
    /// That a read would have blocked.
    WouldBlock,
    /// That a read gave no bytes.
    Closed,
    /// The bytes that a read gave.
    Data(Seq<u8>),
}

/// Whether a receiver waits to be told this. A read gives no more than is
/// missing.
pub open spec fn is_asked_for(model: ReceiverModel, event: ReceiverEvent) -> bool {
    match event {
        ReceiverEvent::Alive(_) => model.awaits == Awaiting::Alive || model.awaits
            == Awaiting::AliveAfterClose,
        ReceiverEvent::Poll(_) => model.awaits == Awaiting::Poll,
        ReceiverEvent::WouldBlock | ReceiverEvent::Closed => model.awaits == Awaiting::Read,
        ReceiverEvent::Data(bytes) => model.awaits == Awaiting::Read && 0 < bytes.len()
            <= model.missing(),
    }
}

/// How far a receiver has come once it has been told something.
pub open spec fn receiver_next(model: ReceiverModel, event: ReceiverEvent) -> ReceiverModel {
    match event {
        ReceiverEvent::Alive(alive) => ReceiverModel {
            awaits: after_alive_check(model.awaits, alive),
            ..model
        },
        ReceiverEvent::Poll(PollOutcome::Readable) => ReceiverModel {
            awaits: Awaiting::Read,
            ..model
        },
        ReceiverEvent::Poll(_) | ReceiverEvent::WouldBlock => ReceiverModel {
            awaits: Awaiting::Alive,
            ..model
        },
        ReceiverEvent::Closed => ReceiverModel { awaits: Awaiting::AliveAfterClose, ..model },
        ReceiverEvent::Data(bytes) => ReceiverModel {
            received: model.received + bytes,
            awaits: after_data(model.received + bytes),
        },
    }
}

/// Receives one message, piece by piece.
#[derive(Debug)]
pub struct FrameReceiver {
    received: Vec<u8>,
    awaiting: Awaiting,
}

impl View for FrameReceiver {
    type V = ReceiverModel;

    closed spec fn view(&self) -> ReceiverModel {
        ReceiverModel { received: self.received@, awaits: self.awaiting }
    }
}

impl FrameReceiver {
    /// A receiver that has read nothing.
    pub fn new() -> (receiver: Self)
        ensures
            receiver@ == ReceiverModel::initial(),
            receiver@.wf(),
    {
        FrameReceiver { received: Vec::new(), awaiting: Awaiting::Alive }
    }

    /// What the receiver waits for.
    pub fn awaiting(&self) -> (awaiting: Awaiting)
        ensures
            awaiting == self@.awaits,
    {
        self.awaiting
    }

    /// How many bytes to read at most: those that the length, or then the
    /// payload, still lacks.
    pub fn missing(&self) -> (count: usize)
        requires
            self@.wf(),
        ensures
            count == self@.missing(),
    {
        let have: usize = self.received.len();
        if have < LENGTH_BYTES {
            LENGTH_BYTES - have
        } else {
            let announced: usize = self.received[0] as usize * 256 + self.received[1] as usize;
            LENGTH_BYTES + announced - have
        }
    }

    /// Tells the receiver whether the run goes on.
    pub fn on_alive(&mut self, alive: bool)
        requires
            old(self)@.wf(),
            is_asked_for(old(self)@, ReceiverEvent::Alive(alive)),
        ensures
            final(self)@ == receiver_next(old(self)@, ReceiverEvent::Alive(alive)),
            final(self)@.wf(),
    {
        self.awaiting = match self.awaiting {
            Awaiting::AliveAfterClose => if alive {
                Awaiting::Failed(ReceiveFailure::ConnectionLost)
            } else {
                Awaiting::Failed(ReceiveFailure::ShutdownDuringReceive)
            },
            _ => if alive {
                Awaiting::Poll
            } else {
                Awaiting::Failed(ReceiveFailure::ShutdownRequested)
            },
        };
    }

    /// Tells the receiver how a poll ended.
    pub fn on_poll(&mut self, outcome: PollOutcome)
        requires
            old(self)@.wf(),
            is_asked_for(old(self)@, ReceiverEvent::Poll(outcome)),
        ensures
            final(self)@ == receiver_next(old(self)@, ReceiverEvent::Poll(outcome)),
            final(self)@.wf(),
    {
        self.awaiting = match outcome {
            PollOutcome::Readable => Awaiting::Read,
            _ => Awaiting::Alive,
        };
    }

    /// Tells the receiver that a read would have blocked.
    pub fn on_would_block(&mut self)
        requires
            old(self)@.wf(),
            is_asked_for(old(self)@, ReceiverEvent::WouldBlock),
        ensures
            final(self)@ == receiver_next(old(self)@, ReceiverEvent::WouldBlock),
            final(self)@.wf(),
    {
        self.awaiting = Awaiting::Alive;
    }

    /// Tells the receiver that a read gave no bytes, as it does when the peer
    /// has closed the connection, and when none were asked for.
    pub fn on_closed(&mut self)
        requires
            old(self)@.wf(),
            is_asked_for(old(self)@, ReceiverEvent::Closed),
        ensures
            final(self)@ == receiver_next(old(self)@, ReceiverEvent::Closed),
            final(self)@.wf(),
    {
        self.awaiting = Awaiting::AliveAfterClose;
    }

    /// Hands the receiver the bytes that a read gave.
    pub fn on_data(&mut self, bytes: &[u8])
        requires
            old(self)@.wf(),
            is_asked_for(old(self)@, ReceiverEvent::Data(bytes@)),
        ensures
            final(self)@ == receiver_next(old(self)@, ReceiverEvent::Data(bytes@)),
            final(self)@.wf(),
    {
        proof {
            lemma_receiver_stays_wf(self@, ReceiverEvent::Data(bytes@));
        }
        let ghost before = self.received@;
        self.received.extend_from_slice(bytes);
        assert(self.received@ =~= before + bytes@);
        let have: usize = self.received.len();
        self.awaiting = if have < LENGTH_BYTES {
            Awaiting::Read
        } else if have == LENGTH_BYTES {
            Awaiting::Alive
        } else {
            let announced: usize = self.received[0] as usize * 256 + self.received[1] as usize;
            if have - LENGTH_BYTES == announced {
                Awaiting::Received
            } else {
                Awaiting::Read
            }
        };
    }

    /// Reads the message out of a complete frame.
    pub fn decode(&self) -> (message: Result<serde_json::Value, MessageError>)
        requires
            self@.wf(),
            self@.awaits == Awaiting::Received,
        ensures
            match parsed(frame_payload(self@.received)) {
                Some(json) => message matches Ok(value) && json_of(value) == json,
                None => message matches Err(MessageError::Undecodable(_)),
            },
    {
        let payload = vstd::slice::slice_subrange(
            self.received.as_slice(),
            LENGTH_BYTES,
            self.received.len(),
        );
        assert(payload@ =~= frame_payload(self.received@));
        match from_slice(payload) {
            Ok(value) => Ok(value),
            Err(reason) => Err(MessageError::Undecodable(reason)),
        }
    }
}

/// What a receiver is told keeps it well-formed.
proof fn lemma_receiver_stays_wf(model: ReceiverModel, event: ReceiverEvent)
    requires
        model.wf(),
        is_asked_for(model, event),
    ensures
        receiver_next(model, event).wf(),
{
    if let ReceiverEvent::Data(bytes) = event {
        assert(model.received.len() >= LENGTH_BYTES ==> announced_length(model.received + bytes)
            == announced_length(model.received));
    }
}

/// A frame of an announceable message is whole, and its payload is the
/// message.
pub proof fn law_frame_reads_back(message: Seq<u8>)
    requires
        is_announceable(message),
    ensures
        is_whole_frame(frame(message)),
        frame_payload(frame(message)) == message,
{
    lemma_prefix_announces_length(message);
    assert(frame_payload(frame(message)) =~= message);
}

/// The first bytes of a stream that begins with the frame of an announceable
/// message lead a receiver to the end of that frame and not beyond: what it
/// expects never exceeds the frame, and it holds a whole frame exactly when it
/// holds all of it.
pub proof fn law_receiver_stops_at_frame_end(message: Seq<u8>, following: Seq<u8>, count: int)
    requires
        is_announceable(message),
        0 <= count <= frame(message).len(),
    ensures
        ({
            let bytes = (frame(message) + following).take(count);
            &&& count <= expected_bytes(bytes) <= frame(message).len()
            &&& is_whole_frame(bytes) <==> count == frame(message).len()
            &&& is_whole_frame(bytes) ==> frame_payload(bytes) == message
            &&& !is_whole_frame(bytes) ==> count < expected_bytes(bytes)
        }),
{
    lemma_prefix_announces_length(message);
    let wire = frame(message) + following;
    let bytes = wire.take(count);
    assert(frame(message)[0] == wire[0] && frame(message)[1] == wire[1]);
    if count == frame(message).len() {
        assert(bytes =~= frame(message));
        law_frame_reads_back(message);
    }
}

/// How far a receiver has come after a sequence of events.
pub open spec fn receiver_after(events: Seq<ReceiverEvent>) -> ReceiverModel
    decreases events.len(),
{
    if events.len() == 0 {
        ReceiverModel::initial()
    } else {
        receiver_next(receiver_after(events.drop_last()), events.last())
    }
}

/// Whether a receiver can be told these events: it waits for each.
pub open spec fn is_reception(events: Seq<ReceiverEvent>) -> bool
    decreases events.len(),
{
    events.len() > 0 ==> {
        &&& is_reception(events.drop_last())
        &&& is_asked_for(receiver_after(events.drop_last()), events.last())
    }
}

/// Whether the run goes on and the connection stays open all the time.
pub open spec fn is_undisturbed(events: Seq<ReceiverEvent>) -> bool {
    forall|i: int|
        0 <= i < events.len() ==> #[trigger] events[i] != ReceiverEvent::Alive(false) && events[i]
            != ReceiverEvent::Closed
}

/// In whatever pieces a stream is read that begins with the frame of an
/// announceable message, and whatever happens between them, the receiver never
/// reads beyond that frame, it has a complete message exactly when it has all
/// of the frame, and it then has the message.
pub proof fn law_pieces_make_up_message(
    message: Seq<u8>,
    following: Seq<u8>,
    events: Seq<ReceiverEvent>,
)
    requires
        is_announceable(message),
        is_reception(events),
        receiver_after(events).received.is_prefix_of(frame(message) + following),
    ensures
        receiver_after(events).wf(),
        receiver_after(events).received.is_prefix_of(frame(message)),
        receiver_after(events).awaits == Awaiting::Received <==> receiver_after(events).received
            == frame(message),
        receiver_after(events).awaits == Awaiting::Received ==> frame_payload(
            receiver_after(events).received,
        ) == message,
    decreases events.len(),
{
    let wire = frame(message) + following;
    let received = receiver_after(events).received;
    let count = received.len() as int;
    assert(received =~= wire.take(count));
    assert(receiver_after(events).wf() && count <= frame(message).len()) by {
        if events.len() > 0 {
            let before = receiver_after(events.drop_last());
            assert(before.received =~= received.take(before.received.len() as int));
            assert(before.received =~= wire.take(before.received.len() as int));
            law_pieces_make_up_message(message, following, events.drop_last());
            law_receiver_stops_at_frame_end(message, following, before.received.len() as int);
            lemma_receiver_stays_wf(before, events.last());
        }
    }
    law_receiver_stops_at_frame_end(message, following, count);
    assert(received =~= frame(message).take(count));
    if count == frame(message).len() {
        assert(received =~= frame(message));
    }
}

/// Receiving undoes sending: while the run goes on and the connection stays
/// open, a receiver at the other end of a stream that begins with a message
/// does not fail, asks for bytes until it has all of that message's and for
/// none beyond them, and then reads that message.
pub proof fn law_receive_undoes_send(
    message: Json,
    following: Seq<u8>,
    events: Seq<ReceiverEvent>,
)
    requires
        is_sendable(message),
        is_reception(events),
        is_undisturbed(events),
        receiver_after(events).received.is_prefix_of(wire_of(message) + following),
    ensures
        receiver_after(events).awaits !is Failed,
        receiver_after(events).awaits == Awaiting::Received <==> receiver_after(events).received
            == wire_of(message),
        receiver_after(events).awaits == Awaiting::Received ==> parsed(
            frame_payload(receiver_after(events).received),
        ) == Some(message),
        receiver_after(events).awaits != Awaiting::Received ==> 0 < receiver_after(events).missing()
            <= wire_of(message).len() - receiver_after(events).received.len(),
{
    let received = receiver_after(events).received;
    law_pieces_make_up_message(rendered(message), following, events);
    law_receiver_stops_at_frame_end(rendered(message), following, received.len() as int);
    assert(received =~= (wire_of(message) + following).take(received.len() as int));
    lemma_undisturbed_reception_does_not_fail(events);
}

/// A receiver does not fail while the run goes on and the connection stays
/// open.
proof fn lemma_undisturbed_reception_does_not_fail(events: Seq<ReceiverEvent>)
    requires
        is_undisturbed(events),
    ensures
        receiver_after(events).awaits !is Failed,
        receiver_after(events).awaits != Awaiting::AliveAfterClose,
    decreases events.len(),
{
    if events.len() > 0 {
        let front = events.drop_last();
        assert forall|i: int| 0 <= i < front.len() implies #[trigger] front[i]
            != ReceiverEvent::Alive(false) && front[i] != ReceiverEvent::Closed by {
            assert(front[i] == events[i]);
        }
        lemma_undisturbed_reception_does_not_fail(front);
        assert(events[events.len() - 1] == events.last());
    }
}

/// Pieces of bytes, one after the other.
pub open spec fn joined(pieces: Seq<Seq<u8>>) -> Seq<u8>
    decreases pieces.len(),
{
    if pieces.len() == 0 {
        seq![]
    } else {
        joined(pieces.drop_last()) + pieces.last()
    }
}

/// The bytes of a row of messages on the wire.
pub open spec fn wires_of(messages: Seq<Json>) -> Seq<u8> {
    joined(messages.map_values(|message: Json| wire_of(message)))
}

/// The bytes that a row of receivers has read, each from where the one before
/// it stopped.
pub open spec fn bytes_taken(receptions: Seq<Seq<ReceiverEvent>>) -> Seq<u8> {
    joined(receptions.map_values(|events: Seq<ReceiverEvent>| receiver_after(events).received))
}

/// A row of messages comes back in order: where each of a row of receivers has
/// come to a complete message, the one at each place has read exactly the bytes
/// of the message at that place and reads that message, so that none is lost
/// and nothing of the next is taken.
pub proof fn law_messages_come_back_in_order(
    messages: Seq<Json>,
    following: Seq<u8>,
    receptions: Seq<Seq<ReceiverEvent>>,
)
    requires
        forall|i: int| 0 <= i < messages.len() ==> is_sendable(#[trigger] messages[i]),
        receptions.len() <= messages.len(),
        forall|i: int|
            0 <= i < receptions.len() ==> is_reception(#[trigger] receptions[i]) && receiver_after(
                receptions[i],
            ).awaits == Awaiting::Received,
        bytes_taken(receptions).is_prefix_of(wires_of(messages) + following),
    ensures
        bytes_taken(receptions) == wires_of(messages.take(receptions.len() as int)),
        forall|i: int|
            0 <= i < receptions.len() ==> {
                &&& receiver_after(#[trigger] receptions[i]).received == wire_of(messages[i])
                &&& parsed(frame_payload(receiver_after(receptions[i]).received)) == Some(
                    messages[i],
                )
            },
    decreases receptions.len(),
{
    let count = receptions.len() as int;
    let wires = messages.map_values(|message: Json| wire_of(message));
    let reads = receptions.map_values(
        |events: Seq<ReceiverEvent>| receiver_after(events).received,
    );
    assert(messages.take(count).map_values(|message: Json| wire_of(message)) =~= wires.take(count));
    if count > 0 {
        let front = receptions.drop_last();
        let last = count - 1;
        assert(front.map_values(|events: Seq<ReceiverEvent>| receiver_after(events).received)
            =~= reads.drop_last());
        let stream = wires_of(messages) + following;
        let taken = bytes_taken(receptions);
        let before = bytes_taken(front);
        assert(before =~= taken.take(before.len() as int));
        assert(before =~= stream.take(before.len() as int));
        assert forall|i: int| 0 <= i < front.len() implies is_reception(#[trigger] front[i])
            && receiver_after(front[i]).awaits == Awaiting::Received by {
            assert(front[i] == receptions[i]);
        }
        law_messages_come_back_in_order(messages, following, front);
        assert(messages.take(last).map_values(|message: Json| wire_of(message)) =~= wires.take(
            last,
        ));
        lemma_joined_splits(wires, count);
        assert(wires.take(count).drop_last() =~= wires.take(last));
        let rest = joined(wires.skip(count)) + following;
        assert(stream =~= before + (wire_of(messages[last]) + rest));
        let received = receiver_after(receptions[last]).received;
        assert(taken =~= before + received);
        assert(received =~= taken.skip(before.len() as int));
        assert(received =~= (wire_of(messages[last]) + rest).take(received.len() as int));
        law_pieces_make_up_message(rendered(messages[last]), rest, receptions[last]);
        assert forall|i: int| 0 <= i < count implies {
            &&& receiver_after(#[trigger] receptions[i]).received == wire_of(messages[i])
            &&& parsed(frame_payload(receiver_after(receptions[i]).received)) == Some(messages[i])
        } by {
            if i < last {
                assert(front[i] == receptions[i]);
            }
        }
    }
}

/// The bytes of pieces are those of the first and then those of the others.
proof fn lemma_joined_splits(pieces: Seq<Seq<u8>>, count: int)
    requires
        0 <= count <= pieces.len(),
    ensures
        joined(pieces) == joined(pieces.take(count)) + joined(pieces.skip(count)),
    decreases pieces.len(),
{
    if count == pieces.len() {
        assert(pieces.take(count) =~= pieces);
        assert(joined(pieces) =~= joined(pieces) + joined(pieces.skip(count)));
    } else {
        let front = pieces.drop_last();
        lemma_joined_splits(front, count);
        assert(front.take(count) =~= pieces.take(count));
        assert(pieces.skip(count).drop_last() =~= front.skip(count));
        assert(joined(pieces) =~= joined(pieces.take(count)) + joined(pieces.skip(count)));
    }
}

/// The length before an announceable message is its length.
proof fn lemma_prefix_announces_length(message: Seq<u8>)
    requires
        is_announceable(message),
    ensures
        announced_length(frame(message)) == message.len(),
{
    let n = message.len();
    assert(n / 256 % 256 == n / 256 && n / 256 * 256 + n % 256 == n) by {
        assert(n / 256 < 256);
    }
}

/// Whether whenever something is polled or read for, it is there at once.
pub open spec fn is_prompt(events: Seq<ReceiverEvent>) -> bool {
    forall|i: int|
        0 <= i < events.len() ==> #[trigger] events[i] != ReceiverEvent::WouldBlock && (
        events[i] is Poll ==> events[i] == ReceiverEvent::Poll(PollOutcome::Readable))
}

/// Where there is always something to read, a reception comes to its end:
/// between one read and the next the receiver asks no more than whether the run
/// goes on and whether there is something to read, so that it holds the whole
/// message after at most three events for each byte of it. Until then it always
/// waits for something.
pub proof fn law_prompt_reception_comes_to_its_end(
    message: Json,
    following: Seq<u8>,
    events: Seq<ReceiverEvent>,
)
    requires
        is_sendable(message),
        is_reception(events),
        is_undisturbed(events),
        is_prompt(events),
        receiver_after(events).received.is_prefix_of(wire_of(message) + following),
    ensures
        events.len() <= 3 * receiver_after(events).received.len() + 2,
        events.len() <= 3 * wire_of(message).len(),
        events.len() == 3 * wire_of(message).len() ==> receiver_after(events).received == wire_of(
            message,
        ),
        receiver_after(events).received == wire_of(message) ==> receiver_after(events).awaits
            == Awaiting::Received,
        receiver_after(events).received != wire_of(message) ==> receiver_after(events).awaits
            == Awaiting::Alive || receiver_after(events).awaits == Awaiting::Poll || (
        receiver_after(events).awaits == Awaiting::Read && receiver_after(events).missing() > 0),
{
    law_receive_undoes_send(message, following, events);
    lemma_prompt_reception_is_short(events);
    lemma_undisturbed_reception_does_not_fail(events);
    let received = receiver_after(events).received;
    law_pieces_make_up_message(rendered(message), following, events);
    if received.len() == wire_of(message).len() {
        assert(received =~= wire_of(message));
    }
}

/// A prompt reception has at most three events for each byte that was read, and
/// at most two more on the way to the next read.
proof fn lemma_prompt_reception_is_short(events: Seq<ReceiverEvent>)
    requires
        is_reception(events),
        is_undisturbed(events),
        is_prompt(events),
    ensures
        ({
            let model = receiver_after(events);
            events.len() <= 3 * model.received.len() + (match model.awaits {
                Awaiting::Poll => 1int,
                Awaiting::Read => 2int,
                _ => 0int,
            })
        }),
    decreases events.len(),
{
    if events.len() > 0 {
        let front = events.drop_last();
        assert forall|i: int| 0 <= i < front.len() implies #[trigger] front[i]
            != ReceiverEvent::Alive(false) && front[i] != ReceiverEvent::Closed && front[i]
            != ReceiverEvent::WouldBlock && (front[i] is Poll ==> front[i] == ReceiverEvent::Poll(
            PollOutcome::Readable,
        )) by {
            assert(front[i] == events[i]);
        }
        lemma_prompt_reception_is_short(front);
        lemma_undisturbed_reception_does_not_fail(front);
        assert(events[events.len() - 1] == events.last());
    }
}

/// A receiver that waits for something takes any answer to that, and nothing
/// else: a read may give any bytes, if there are some and not more than are
/// missing.
pub proof fn law_receiver_takes_what_it_waits_for(
    model: ReceiverModel,
    alive: bool,
    outcome: PollOutcome,
    bytes: Seq<u8>,
)
    ensures
        is_asked_for(model, ReceiverEvent::Alive(alive)) <==> model.awaits == Awaiting::Alive
            || model.awaits == Awaiting::AliveAfterClose,
        is_asked_for(model, ReceiverEvent::Poll(outcome)) <==> model.awaits == Awaiting::Poll,
        is_asked_for(model, ReceiverEvent::WouldBlock) <==> model.awaits == Awaiting::Read,
        is_asked_for(model, ReceiverEvent::Closed) <==> model.awaits == Awaiting::Read,
        is_asked_for(model, ReceiverEvent::Data(bytes)) <==> model.awaits == Awaiting::Read && 0
            < bytes.len() <= model.missing(),
{
}

/// However far a receiver has come, a poll that says that there is something to
/// read leads to a read, and any other back to the question whether the run
/// goes on, as does a read that would block; and a run that goes on leads to a
/// poll. None of these touches what was received.
pub proof fn law_receiver_polls_and_reads(model: ReceiverModel)
    ensures
        model.awaits == Awaiting::Alive ==> receiver_next(model, ReceiverEvent::Alive(true)) == (
        ReceiverModel { awaits: Awaiting::Poll, received: model.received }),
        model.awaits == Awaiting::Poll ==> receiver_next(
            model,
            ReceiverEvent::Poll(PollOutcome::Readable),
        ) == (ReceiverModel { awaits: Awaiting::Read, received: model.received }),
        model.awaits == Awaiting::Poll ==> receiver_next(
            model,
            ReceiverEvent::Poll(PollOutcome::Idle),
        ) == (ReceiverModel { awaits: Awaiting::Alive, received: model.received }),
        model.awaits == Awaiting::Poll ==> receiver_next(
            model,
            ReceiverEvent::Poll(PollOutcome::Interrupted),
        ) == (ReceiverModel { awaits: Awaiting::Alive, received: model.received }),
        model.awaits == Awaiting::Read ==> receiver_next(model, ReceiverEvent::WouldBlock) == (
        ReceiverModel { awaits: Awaiting::Alive, received: model.received }),
{
}

/// However far a receiver has come, a run that ends fails the reception, and so
/// does a connection that is closed, for the reason that the run state then
/// gives.
pub proof fn law_receiver_fails_for_its_reason(model: ReceiverModel, alive: bool)
    ensures
        model.awaits == Awaiting::Alive ==> receiver_next(
            model,
            ReceiverEvent::Alive(false),
        ).awaits == Awaiting::Failed(ReceiveFailure::ShutdownRequested),
        model.awaits == Awaiting::Read ==> receiver_next(
            receiver_next(model, ReceiverEvent::Closed),
            ReceiverEvent::Alive(true),
        ).awaits == Awaiting::Failed(ReceiveFailure::ConnectionLost),
        model.awaits == Awaiting::Read ==> receiver_next(
            receiver_next(model, ReceiverEvent::Closed),
            ReceiverEvent::Alive(false),
        ).awaits == Awaiting::Failed(ReceiveFailure::ShutdownDuringReceive),
        receiver_next(model, ReceiverEvent::Closed).received == model.received,
        receiver_next(model, ReceiverEvent::Alive(alive)).received == model.received,
{
}

/// Bytes that are read are added to those that were, in order. Once the two
/// bytes of the length are there, the receiver asks whether the run goes on
/// before it reads the payload; otherwise it reads on until nothing is missing.
pub proof fn law_receiver_takes_bytes_in_order(model: ReceiverModel, bytes: Seq<u8>)
    requires
        model.wf(),
        model.awaits == Awaiting::Read,
        0 < bytes.len() <= model.missing(),
    ensures
        ({
            let after = receiver_next(model, ReceiverEvent::Data(bytes));
            &&& after.received == model.received + bytes
            &&& after.received.len() == 2 ==> after.awaits == Awaiting::Alive
            &&& after.received.len() != 2 && after.missing() > 0 ==> after.awaits == Awaiting::Read
            &&& after.received.len() != 2 && after.missing() == 0 ==> after.awaits
                == Awaiting::Received
        }),
{
    lemma_receiver_stays_wf(model, ReceiverEvent::Data(bytes));
}

/// The receiver asks for what the two bytes of the length lack, and then for
/// what the number that they write, the higher byte first, lacks.
pub proof fn law_receiver_asks_for_what_is_announced(model: ReceiverModel)
    ensures
        model.received.len() < 2 ==> model.missing() == 2 - model.received.len(),
        model.received.len() >= 2 ==> model.missing() == 256 * model.received[0]
            + model.received[1] + 2 - model.received.len(),
{
}

/// A frame is two bytes, which write the length of the message by what is left
/// of it by 65536, the higher byte first, and then the message.
pub proof fn law_frame_is_length_and_message(message: Seq<u8>)
    ensures
        frame(message).len() == message.len() + 2,
        256 * frame(message)[0] + frame(message)[1] == message.len() % 65536,
        forall|i: int| 0 <= i < message.len() ==> #[trigger] frame(message)[i + 2] == message[i],
{
    let n = message.len() as int;
    assert(256 * (n / 256 % 256) + n % 256 == n % 65536);
}

/// How long the control channel waits.
pub proof fn law_channel_waits()
    ensures
        KEEPALIVE_SECONDS == 2,
        POLL_TIMEOUT_MILLIS == 50,
{
}

/// A receiver that is told that there is something to read reads next, whatever
/// it has received, and otherwise asks again whether the run goes on.
pub proof fn law_readable_poll_leads_to_read(receiver: &mut FrameReceiver, outcome: PollOutcome)
    requires
        call_ensures(FrameReceiver::on_poll, (receiver, outcome), ()),
        old(receiver)@.awaits == Awaiting::Poll,
    ensures
        final(receiver)@.awaits == Awaiting::Read <==> outcome == PollOutcome::Readable,
        final(receiver)@.awaits == Awaiting::Alive <==> outcome != PollOutcome::Readable,
        final(receiver)@.received == old(receiver)@.received,
{
    law_receiver_polls_and_reads(old(receiver)@);
}

/// A receiver takes what it is told by the step that belongs to it.
pub proof fn law_receiver_takes_its_steps(
    receiver: &mut FrameReceiver,
    fresh: FrameReceiver,
    alive: bool,
    bytes: &[u8],
)
    ensures
        call_ensures(FrameReceiver::new, (), fresh) ==> fresh@.received.len() == 0
            && fresh@.awaits == Awaiting::Alive,
        call_ensures(FrameReceiver::on_alive, (receiver, alive), ()) ==> final(receiver)@
            == receiver_next(old(receiver)@, ReceiverEvent::Alive(alive)),
        call_ensures(FrameReceiver::on_would_block, (receiver,), ()) ==> final(receiver)@
            == receiver_next(old(receiver)@, ReceiverEvent::WouldBlock),
        call_ensures(FrameReceiver::on_closed, (receiver,), ()) ==> final(receiver)@
            == receiver_next(old(receiver)@, ReceiverEvent::Closed),
        call_ensures(FrameReceiver::on_data, (receiver, bytes), ()) ==> final(receiver)@
            == receiver_next(old(receiver)@, ReceiverEvent::Data(bytes@)),
{
}

/// What a receiver tells is what it holds, and what it reads is what the text
/// behind the length stands for.
pub proof fn law_receiver_is_told_as_it_is(
    receiver: FrameReceiver,
    awaiting: Awaiting,
    count: usize,
    message: Result<serde_json::Value, MessageError>,
)
    ensures
        call_ensures(FrameReceiver::awaiting, (&receiver,), awaiting) ==> awaiting
            == receiver@.awaits,
        call_ensures(FrameReceiver::missing, (&receiver,), count) ==> count == receiver@.missing(),
        call_ensures(FrameReceiver::decode, (&receiver,), message) ==> match parsed(
            receiver@.received.skip(2),
        ) {
            Some(json) => message matches Ok(value) && json_of(value) == json,
            None => message matches Err(MessageError::Undecodable(_)),
        },
{
}

/// A message goes over the wire as its text behind the length of the text, and
/// one that was sent from its frame alone reads back as it was.
pub proof fn law_message_is_framed(
    text: &[u8],
    framed: Vec<u8>,
    message: serde_json::Value,
    wire: Result<Vec<u8>, MessageError>,
    receiver: FrameReceiver,
    read: Result<serde_json::Value, MessageError>,
)
    requires
        call_ensures(encode_frame, (text,), framed),
        call_ensures(frame_message, (&message,), wire),
        call_ensures(FrameReceiver::decode, (&receiver,), read),
        wire matches Ok(bytes) ==> receiver@.received == bytes@,
        is_flat(json_of(message)),
    ensures
        framed@.len() == text@.len() + 2,
        256 * framed@[0] + framed@[1] == text@.len() % 65536,
        framed@.skip(2) == text@,
        wire matches Ok(bytes) && bytes@.skip(2) == rendered(json_of(message)),
        read matches Ok(value) && json_of(value) == json_of(message),
{
    law_frame_is_length_and_message(text@);
    assert(framed@.skip(2) =~= text@);
    assert(wire_of(json_of(message)).skip(2) =~= rendered(json_of(message)));
}

} // verus!
