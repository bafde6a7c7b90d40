use std::collections::{HashSet, VecDeque};
use vstd::prelude::*;
use vstd::string::*;

verus! {

broadcast use {
    vstd::std_specs::hash::group_hash_axioms,
    vstd::std_specs::vecdeque::group_vec_dequeue_axioms,
};

/// How many of the most recently accepted sequence numbers are remembered
/// for duplicate detection.
pub const SEQUENCE_MEMORY: usize = 1024;

/// Failure of the envelope codec.
#[derive(Debug, Clone, PartialEq)]
pub enum CodecError {
    Serialization { reason: String },
}

impl CodecError {
    pub open spec fn spec_message(&self) -> Seq<char> {
        match self {
            CodecError::Serialization { reason } => "serialization error: "@ + reason@,
        }
    }

    /// The human-readable message of the error.
    pub fn message(&self) -> (text: String)
        ensures
            text@ == self.spec_message(),
    {
        match self {
            CodecError::Serialization { reason } => String::from_str("serialization error: ").concat(
                reason.as_str(),
            ),
        }
    }
}

/// Failure of the raw packet transport.
#[derive(Debug, Clone, PartialEq)]
pub enum TransportError {
    SendFailed { reason: String },
}

impl TransportError {
    pub open spec fn spec_message(&self) -> Seq<char> {
        match self {
            TransportError::SendFailed { reason } => "send failed: "@ + reason@,
        }
    }

    /// The human-readable message of the error.
    pub fn message(&self) -> (text: String)
        ensures
            text@ == self.spec_message(),
    {
        match self {
            TransportError::SendFailed { reason } => String::from_str("send failed: ").concat(
                reason.as_str(),
            ),
        }
    }
}

/// Failure of a link-layer send.
#[derive(Debug, Clone, PartialEq)]
pub enum LinkError {
    NotConnected,
    Transport { reason: String },
    Codec { reason: String },
}

/// Delivery mode of a packet. Synchronisation pings must travel unreliably:
/// a reliable transport with retransmissions lies about the delay.
#[derive(Debug, Clone, Copy, PartialEq, Eq, Structural)]
pub enum Delivery {
    /// Commands: must arrive, delay does not matter.
    Reliable,
    /// Synchronisation pings: the delay must be real, losses do not matter.
    Unreliable,
}

/// The kinds of messages exchanged between devices.
#[derive(Debug, Clone, Copy, PartialEq, Eq, Structural)]
pub enum MessageKind {
    Hello,
    RoleAssigned,
    Ping,
    Pong,
    StartRecording,
    StopRecording,
    Heartbeat,
    SyncLog,
}

/// Pings and pongs travel unreliably, everything else reliably. The choice
/// belongs to the link layer, not to the caller.
pub open spec fn spec_delivery_for(kind: MessageKind) -> Delivery {
    if kind == MessageKind::Ping || kind == MessageKind::Pong {
        Delivery::Unreliable
    } else {
        Delivery::Reliable
    }
}

pub fn delivery_for(kind: MessageKind) -> (delivery: Delivery)
    ensures
        delivery == spec_delivery_for(kind),
{
    match kind {
        MessageKind::Ping | MessageKind::Pong => Delivery::Unreliable,
        _ => Delivery::Reliable,
    }
}

/// A send whose encoding failed with `e` reports it as a codec error
/// carrying `e`'s message.
pub open spec fn reported_codec_failure(e: CodecError, outcome: Result<(), LinkError>) -> bool {
    outcome matches Err(LinkError::Codec { reason }) && reason@ == e.spec_message()
}

/// A send handed to the transport reports the transport's outcome: success,
/// or a transport error carrying the transport's own message.
pub open spec fn reported_transmission(
    sent: Result<(), TransportError>,
    outcome: Result<(), LinkError>,
) -> bool {
    match sent {
        Ok(()) => outcome is Ok,
        Err(e) => outcome matches Err(LinkError::Transport { reason }) && reason@ == e.spec_message(),
    }
}

/// The raw packet transport underneath a link. Production implementations
/// wrap the platform's peer-to-peer stack; tests use an in-memory fake.
pub trait PeerTransport {
    fn send(&self, data: Vec<u8>, delivery: Delivery) -> Result<(), TransportError>;

    fn is_connected(&self) -> bool;
}

/// The remembered window after accepting `sequence`: it is appended, and
/// the oldest entry is forgotten once the window would exceed its bound.
pub open spec fn remember(order: Seq<u64>, sequence: u64) -> Seq<u64> {
    let grown = order.push(sequence);
    if grown.len() > SEQUENCE_MEMORY {
        grown.drop_first()
    } else {
        grown
    }
}

/// The last `SEQUENCE_MEMORY` entries of `accepted` (all of them if fewer).
pub open spec fn recent_window(accepted: Seq<u64>) -> Seq<u64> {
    if accepted.len() > SEQUENCE_MEMORY {
        accepted.subrange(accepted.len() - SEQUENCE_MEMORY, accepted.len() as int)
    } else {
        accepted
    }
}

/// The link layer over a raw transport: numbers outgoing envelopes, drops
/// duplicates among incoming ones and counts malformed packets. Delivery
/// order is not enforced: every message carries its own timestamps.
pub struct PeerLink<T: PeerTransport> {
    transport: T,
    next_sequence: u64,
    seen: HashSet<u64>,
    seen_order: VecDeque<u64>,
    malformed: u64,
    connected: bool,
}

impl<T: PeerTransport> PeerLink<T> {
    /// Sequence number of the next outgoing envelope.
    pub closed spec fn spec_next_sequence(&self) -> u64 {
        self.next_sequence
    }

    /// Remembered incoming sequence numbers, oldest first.
    pub closed spec fn spec_remembered(&self) -> Seq<u64> {
        self.seen_order@
    }

    pub closed spec fn spec_malformed(&self) -> u64 {
        self.malformed
    }

    pub closed spec fn spec_connected(&self) -> bool {
        self.connected
    }

    pub closed spec fn spec_transport(&self) -> T {
        self.transport
    }

    /// The remembered set mirrors the remembered order, which holds no
    /// number twice and never exceeds the memory bound.
    pub closed spec fn wf(&self) -> bool {
        &&& forall|s: u64| self.seen@.contains(s) <==> self.seen_order@.contains(s)
        &&& self.seen_order@.no_duplicates()
        &&& self.seen_order@.len() <= SEQUENCE_MEMORY
    }

    pub fn new(transport: T) -> (link: Self)
        ensures
            link.wf(),
            link.spec_transport() == transport,
            link.spec_next_sequence() == 0,
            link.spec_remembered() == Seq::<u64>::empty(),
            link.spec_malformed() == 0,
            link.spec_connected(),
    {
        PeerLink {
            transport,
            next_sequence: 0,
            seen: HashSet::new(),
            seen_order: VecDeque::new(),
            malformed: 0,
            connected: true,
        }
    }

    pub fn is_connected(&self) -> (connected: bool)
        ensures
            connected == self.spec_connected(),
    {
        self.connected
    }

    pub fn set_connected(&mut self, connected: bool)
        requires
            old(self).wf(),
        ensures
            final(self).wf(),
            final(self).spec_connected() == connected,
            final(self).spec_next_sequence() == old(self).spec_next_sequence(),
            final(self).spec_remembered() == old(self).spec_remembered(),
            final(self).spec_malformed() == old(self).spec_malformed(),
            final(self).spec_transport() == old(self).spec_transport(),
    {
        self.connected = connected;
    }

    pub fn malformed_packet_count(&self) -> (count: u64)
        ensures
            count == self.spec_malformed(),
    {
        self.malformed
    }

    pub fn remembered_sequence_count(&self) -> (count: usize)
        requires
            self.wf(),
        ensures
            count == self.spec_remembered().len(),
            count <= SEQUENCE_MEMORY,
    {
        proof {
            self.seen_order@.unique_seq_to_set();
            assert(self.seen@ =~= self.seen_order@.to_set());
        }
        self.seen.len()
    }

    /// Sequence number that the next sent envelope will carry.
    pub fn next_sequence_number(&self) -> (sequence: u64)
        ensures
            sequence == self.spec_next_sequence(),
    {
        self.next_sequence
    }

    /// Sends a message of the given kind. While disconnected nothing is
    /// sent and the sequence counter is untouched. Otherwise the next
    /// sequence number is taken and `encode` turns it into the packet's bytes
    /// (the envelope carrying that number and the message). A codec failure
    /// is reported with its message and nothing is sent; otherwise exactly
    /// those bytes go to the transport, in the delivery mode that the kind
    /// calls for, and the transport's outcome is reported, a failure with
    /// the transport's own message.
    pub fn send<F: FnOnce(u64) -> Result<Vec<u8>, CodecError>>(
        &mut self,
        kind: MessageKind,
        encode: F,
    ) -> (outcome: Result<(), LinkError>)
        requires
            old(self).wf(),
            old(self).spec_connected() ==> old(self).spec_next_sequence() < u64::MAX,
            call_requires(encode, (old(self).spec_next_sequence(),)),
        ensures
            final(self).wf(),
            final(self).spec_remembered() == old(self).spec_remembered(),
            final(self).spec_malformed() == old(self).spec_malformed(),
            final(self).spec_connected() == old(self).spec_connected(),
            final(self).spec_transport() == old(self).spec_transport(),
            !old(self).spec_connected() ==> {
                &&& outcome == Err::<(), LinkError>(LinkError::NotConnected)
                &&& final(self).spec_next_sequence() == old(self).spec_next_sequence()
            },
            old(self).spec_connected() ==> {
                &&& final(self).spec_next_sequence() == old(self).spec_next_sequence() + 1
                &&& {
                    ||| exists|e: CodecError|
                        #[trigger] call_ensures(
                            encode,
                            (old(self).spec_next_sequence(),),
                            Err::<Vec<u8>, CodecError>(e),
                        ) && reported_codec_failure(e, outcome)
                    ||| exists|bytes: Vec<u8>, sent: Result<(), TransportError>|
                        #[trigger] call_ensures(
                            encode,
                            (old(self).spec_next_sequence(),),
                            Ok::<Vec<u8>, CodecError>(bytes),
                        ) && #[trigger] call_ensures(
                            T::send,
                            (&old(self).spec_transport(), bytes, spec_delivery_for(kind)),
                            sent,
                        ) && reported_transmission(sent, outcome)
                }
            },
    {
        let delivery = delivery_for(kind);
        if !self.connected {
            return Err(LinkError::NotConnected);
        }
        let sequence = self.next_sequence;
        self.next_sequence = self.next_sequence + 1;
        let bytes = match encode(sequence) {
            Ok(bytes) => bytes,
            Err(error) => {
                return Err(LinkError::Codec { reason: error.message() });
            },
        };
        let sent = self.transport.send(bytes, delivery);
        let outcome = match &sent {
            Ok(()) => Ok(()),
            Err(error) => Err(LinkError::Transport { reason: error.message() }),
        };
        assert(reported_transmission(sent, outcome));
        outcome
    }

    /// Takes in the result of decoding a packet: the envelope's sequence
    /// number and message, or the codec's failure. A malformed packet is
    /// counted and yields nothing; a sequence number still remembered is a
    /// duplicate and yields nothing; any other message is delivered and
    /// its number remembered.
    pub fn receive<M>(&mut self, decoded: Result<(u64, M), CodecError>) -> (delivered: Option<M>)
        requires
            old(self).wf(),
            decoded is Err ==> old(self).spec_malformed() < u64::MAX,
        ensures
            final(self).wf(),
            final(self).spec_next_sequence() == old(self).spec_next_sequence(),
            final(self).spec_connected() == old(self).spec_connected(),
            final(self).spec_transport() == old(self).spec_transport(),
            match decoded {
                Err(_) => {
                    &&& delivered is None
                    &&& final(self).spec_malformed() == old(self).spec_malformed() + 1
                    &&& final(self).spec_remembered() == old(self).spec_remembered()
                },
                Ok((sequence, message)) => {
                    &&& final(self).spec_malformed() == old(self).spec_malformed()
                    &&& if old(self).spec_remembered().contains(sequence) {
                        &&& delivered is None
                        &&& final(self).spec_remembered() == old(self).spec_remembered()
                    } else {
                        &&& delivered == Some(message)
                        &&& final(self).spec_remembered() == remember(
                            old(self).spec_remembered(),
                            sequence,
                        )
                    }
                },
            },
    {
        let (sequence, message) = match decoded {
            Ok(envelope) => envelope,
            Err(_) => {
                self.malformed = self.malformed + 1;
                return None;
            },
        };
        if self.seen.contains(&sequence) {
            return None;
        }
        let ghost old_order = self.seen_order@;
        self.seen.insert(sequence);
        self.seen_order.push_back(sequence);
        let ghost grown = old_order.push(sequence);
        assert(self.seen_order@ == grown);
        assert(grown.no_duplicates());
        assert forall|s: u64| self.seen@.contains(s) <==> grown.contains(s) by {
            if s != sequence && old_order.contains(s) {
                let k = choose|k: int| 0 <= k < old_order.len() && old_order[k] == s;
                assert(grown[k] == s);
            }
            if s == sequence {
                assert(grown[grown.len() - 1] == s);
            }
            if grown.contains(s) && s != sequence {
                let k = choose|k: int| 0 <= k < grown.len() && grown[k] == s;
                assert(old_order[k] == s);
            }
        }
        if self.seen_order.len() > SEQUENCE_MEMORY {
            let evicted = self.seen_order.pop_front();
            match evicted {
                Some(oldest) => {
                    let ghost before_removal = self.seen@;
                    self.seen.remove(&oldest);
                    assert(self.seen@ == before_removal.remove(oldest));
                    assert(self.seen_order@ =~= grown.drop_first());
                    assert forall|s: u64| self.seen@.contains(s) <==> self.seen_order@.contains(s) by {
                        if self.seen_order@.contains(s) {
                            let k = choose|k: int|
                                0 <= k < self.seen_order@.len() && self.seen_order@[k] == s;
                            assert(grown[k + 1] == s);
                            assert(grown.contains(s));
                            if s == oldest {
                                assert(grown[k + 1] == grown[0]);
                            }
                        }
                        if s != oldest && grown.contains(s) {
                            let k = choose|k: int| 0 <= k < grown.len() && grown[k] == s;
                            assert(k != 0);
                            assert(self.seen_order@[k - 1] == s);
                        }
                    }
                },
                None => {},
            }
        }
        Some(message)
    }
}

/// Right after a number is accepted, a second packet with that number is a
/// duplicate; the window never exceeds its bound.
pub proof fn lemma_remembered_is_dropped(order: Seq<u64>, sequence: u64)
    requires
        order.len() <= SEQUENCE_MEMORY,
    ensures
        remember(order, sequence).contains(sequence),
        remember(order, sequence).len() <= SEQUENCE_MEMORY,
{
    let r = remember(order, sequence);
    assert(r[r.len() - 1] == sequence);
}

/// The link remembers exactly the most recent `SEQUENCE_MEMORY` accepted
/// numbers: remembering one more number after the window of `accepted`
/// gives the window of `accepted` followed by that number.
pub proof fn lemma_remember_keeps_recent_window(accepted: Seq<u64>, sequence: u64)
    ensures
        remember(recent_window(accepted), sequence) == recent_window(accepted.push(sequence)),
{
    let w = recent_window(accepted);
    let lhs = remember(w, sequence);
    let rhs = recent_window(accepted.push(sequence));
    if accepted.len() >= SEQUENCE_MEMORY {
        assert(lhs =~= rhs);
    } else {
        assert(lhs =~= rhs);
    }
}

/// Only synchronisation traffic travels unreliably: pings and pongs, whose
/// delay must be real; every command and report (hello, role assignment,
/// start and stop of recording, heartbeat, synchronisation log) must arrive
/// and travels reliably.
pub proof fn lemma_only_sync_traffic_is_unreliable(kind: MessageKind)
    ensures
        spec_delivery_for(MessageKind::Ping) == Delivery::Unreliable,
        spec_delivery_for(MessageKind::Pong) == Delivery::Unreliable,
        spec_delivery_for(MessageKind::Hello) == Delivery::Reliable,
        spec_delivery_for(MessageKind::RoleAssigned) == Delivery::Reliable,
        spec_delivery_for(MessageKind::StartRecording) == Delivery::Reliable,
        spec_delivery_for(MessageKind::StopRecording) == Delivery::Reliable,
        spec_delivery_for(MessageKind::Heartbeat) == Delivery::Reliable,
        spec_delivery_for(MessageKind::SyncLog) == Delivery::Reliable,
        spec_delivery_for(kind) == Delivery::Unreliable <==> (kind is Ping || kind is Pong),
{
}

/// Accepting a number keeps every remembered number but the oldest, and
/// forgets the oldest only when the memory is full; the newest number comes
/// last.
pub proof fn lemma_remember_forgets_only_the_oldest(order: Seq<u64>, sequence: u64)
    requires
        order.len() <= SEQUENCE_MEMORY,
    ensures
        ({
            let kept = remember(order, sequence);
            &&& kept.len() == if order.len() < SEQUENCE_MEMORY {
                order.len() + 1
            } else {
                SEQUENCE_MEMORY as nat
            }
            &&& kept[kept.len() - 1] == sequence
            &&& forall|i: int| 0 < i < order.len() ==> kept.contains(#[trigger] order[i])
            &&& order.len() < SEQUENCE_MEMORY ==> forall|i: int|
                0 <= i < order.len() ==> kept.contains(#[trigger] order[i])
            &&& forall|x: u64| #[trigger] kept.contains(x) ==> x == sequence || order.contains(x)
        }),
{
    let kept = remember(order, sequence);
    let grown = order.push(sequence);
    assert forall|i: int| 0 < i < order.len() implies kept.contains(#[trigger] order[i]) by {
        if grown.len() > SEQUENCE_MEMORY {
            assert(kept[i - 1] == order[i]);
        } else {
            assert(kept[i] == order[i]);
        }
    }
    assert forall|i: int| order.len() < SEQUENCE_MEMORY && 0 <= i < order.len() implies kept.contains(
        #[trigger] order[i],
    ) by {
        assert(kept[i] == order[i]);
    }
    assert forall|x: u64| #[trigger] kept.contains(x) implies x == sequence || order.contains(x) by {
        let k = choose|k: int| 0 <= k < kept.len() && kept[k] == x;
        if grown.len() > SEQUENCE_MEMORY {
            assert(grown[k + 1] == x);
            if k + 1 < order.len() {
                assert(order[k + 1] == x);
            }
        } else {
            assert(grown[k] == x);
            if k < order.len() {
                assert(order[k] == x);
            }
        }
    }
}

} // verus!
