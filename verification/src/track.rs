//! A publisher of one remote track, the forwarding task that feeds its bus,
//! and the handles from which readers of that bus are minted.

use crate::bus::bus_capacity;
use crate::bus::bus_downgrade;
use crate::bus::bus_send;
use crate::bus::bus_sender_clone;
use crate::bus::bus_subscribe;
use crate::bus::bus_upgrade;
use crate::bus::bus_weak_clone;
use crate::bus::is_power_of_two;
use crate::bus::open_bus;
use crate::bus::receiver_bus;
use crate::bus::sender_bus;
use crate::bus::weak_bus;
use crate::bus::ForwardData;
use crate::bus::WeakBus;
use crate::bus::BUS_CAPACITY;
use crate::lifecycle::ForwardEvent;
use crate::lifecycle::ForwardState;
use crate::lifecycle::ForwardTrace;
use std::sync::Arc;
use tokio::sync::broadcast::Receiver;
use tokio::sync::broadcast::Sender;
use vstd::arithmetic::power2::lemma2_to64;
use vstd::arithmetic::power2::pow2;
use vstd::prelude::*;
use webrtc::rtp::packet::Packet;
use webrtc::rtp_transceiver::rtp_codec::RTPCodecType;

verus! {

/// `webrtc::rtp_transceiver::rtp_codec::RTPCodecType`, the kind of media
/// that a track carries; handed on as it came.
#[verifier::external_type_specification]
#[verifier::external_body]
pub struct ExRTPCodecType(RTPCodecType);

/// What is read of a remote track when a publisher is made for it.
pub struct TrackInfo {
    /// The stream variant that the track carries; empty where the stream
    /// has one variant only.
    pub rid: String,
    /// The kind of media.
    pub kind: RTPCodecType,
    /// The synchronisation source of the track.
    pub ssrc: u32,
}

/// Why no reader could be minted.
#[derive(Clone, Copy, Debug, PartialEq, Eq, Structural)]
pub enum SubscribeError {
    /// Every publisher of the bus is gone.
    BusUnavailable,
}

/// One remote track whose packets are fanned out. It owns the writing side
/// of the bus: readers can be minted for as long as it, or a clone of it,
/// lives.
pub struct PublishTrackRemote {
    rid: String,
    kind: RTPCodecType,
    rtp_broadcast: Arc<Sender<ForwardData>>,
}

/// A publisher as contracts see it.
pub ghost struct PublishView {
    /// The track's stream variant, as it was when the publisher was made.
    pub rid: Seq<char>,
    /// The track's kind of media, as it was when the publisher was made.
    pub kind: RTPCodecType,
    /// The channel that the publisher owns the writing side of.
    pub bus: nat,
    /// The number of packets that the channel retains.
    pub capacity: nat,
}

/// A handle from which readers of a publisher's bus are minted, any number
/// of times. It does not keep the publisher alive.
pub struct SubscribeTrackRemote {
    rid: String,
    kind: RTPCodecType,
    rtp_recv: WeakBus,
}

/// A handle as contracts see it.
pub ghost struct SubscribeView {
    /// The stream variant of the publisher's track, as it was when the
    /// handle was taken.
    pub rid: Seq<char>,
    /// The kind of media of the publisher's track, as it was when the
    /// handle was taken.
    pub kind: RTPCodecType,
    /// The channel whose readers the handle mints.
    pub bus: nat,
}

/// The forwarding task of one publisher: what it is called by in its
/// owner's records, where it stands, and the bus it writes to.
pub struct TrackForward {
    path: String,
    id: String,
    track: TrackInfo,
    state: ForwardState,
    rtp_sender: Sender<ForwardData>,
    forwarded: Ghost<Seq<Packet>>,
}

/// A forwarding task as contracts see it.
pub ghost struct ForwardView {
    /// The label of the path that the track was published under.
    pub path: Seq<char>,
    /// The session that published the track.
    pub id: Seq<char>,
    /// The track's stream variant.
    pub rid: Seq<char>,
    /// The track's kind of media.
    pub kind: RTPCodecType,
    /// The track's synchronisation source.
    pub ssrc: u32,
    /// The channel that the task writes to.
    pub bus: nat,
    /// Where the task stands, and the packets that the bus has taken from
    /// it.
    pub trace: ForwardTrace,
}

impl View for PublishTrackRemote {
    type V = PublishView;

    closed spec fn view(&self) -> PublishView {
        PublishView {
            rid: self.rid@,
            kind: self.kind,
            bus: sender_bus(*self.rtp_broadcast),
            capacity: bus_capacity(*self.rtp_broadcast),
        }
    }
}

impl Clone for PublishTrackRemote {
    /// Another owner of the same bus, naming the track alike.
    fn clone(&self) -> (twin: Self)
        ensures
            twin@ == self@,
    {
        PublishTrackRemote {
            rid: self.rid.clone(),
            kind: self.kind,
            rtp_broadcast: self.rtp_broadcast.clone(),
        }
    }
}

impl View for SubscribeTrackRemote {
    type V = SubscribeView;

    closed spec fn view(&self) -> SubscribeView {
        SubscribeView { rid: self.rid@, kind: self.kind, bus: weak_bus(self.rtp_recv) }
    }
}

impl View for TrackForward {
    type V = ForwardView;

    closed spec fn view(&self) -> ForwardView {
        ForwardView {
            path: self.path@,
            id: self.id@,
            rid: self.track.rid@,
            kind: self.track.kind,
            ssrc: self.track.ssrc,
            bus: sender_bus(self.rtp_sender),
            trace: ForwardTrace { state: self.state, forwarded: self.forwarded@ },
        }
    }
}

impl TrackForward {
    /// The label of the path that the track was published under.
    pub fn path(&self) -> (path: &String)
        ensures
            path@ == self@.path,
    {
        &self.path
    }

    /// The session that published the track.
    pub fn id(&self) -> (id: &String)
        ensures
            id@ == self@.id,
    {
        &self.id
    }

    /// The track's stream variant.
    pub fn rid(&self) -> (rid: &String)
        ensures
            rid@ == self@.rid,
    {
        &self.track.rid
    }

    /// The track's kind of media.
    pub fn kind(&self) -> (kind: RTPCodecType)
        ensures
            kind == self@.kind,
    {
        self.track.kind
    }

    /// The track's synchronisation source.
    pub fn ssrc(&self) -> (ssrc: u32)
        ensures
            ssrc == self@.ssrc,
    {
        self.track.ssrc
    }

    /// Where the task stands.
    pub fn state(&self) -> (state: ForwardState)
        ensures
            state == self@.trace.state,
    {
        self.state
    }

    /// Whether the task is to read another packet.
    pub fn is_running(&self) -> (running: bool)
        ensures
            running == (self@.trace.state is Running),
    {
        self.state.is_running()
    }

    /// One round of the task, given what the transport handed over: a
    /// packet, or `None` where the read failed. A running task wraps the
    /// packet for sharing and offers it to the bus, at once and whatever
    /// its readers do; it stops where there is no packet and where the bus
    /// refuses the write. A stopped task drops what it is given. The
    /// result is the state after the round: the caller reads on while it
    /// is `Running`.
    pub fn track_forward(&mut self, read: Option<Packet>) -> (next: ForwardState)
        ensures
            next == final(self)@.trace.state,
            final(self)@ == (ForwardView { trace: final(self)@.trace, ..old(self)@ }),
            old(self)@.trace.state is Stopped ==> final(self)@.trace == old(self)@.trace,
            old(self)@.trace.state is Running ==> match read {
                None => final(self)@.trace == old(self)@.trace.step(ForwardEvent::ReadFailed),
                Some(packet) => final(self)@.trace == old(self)@.trace.step(
                    ForwardEvent::Forwarded(packet),
                ) || final(self)@.trace == old(self)@.trace.step(
                    ForwardEvent::WriteRejected(packet),
                ),
            },
    {
        if self.state.is_running() {
            match read {
                None => {
                    self.state = ForwardState::after_read_failure();
                },
                Some(packet) => {
                    let ghost offered = packet;
                    let outcome = bus_send(&self.rtp_sender, Arc::new(packet));
                    self.state = ForwardState::after_push(&outcome);
                    if outcome.is_ok() {
                        self.forwarded = Ghost(self.forwarded@.push(offered));
                    }
                },
            }
        }
        self.state
    }
}

impl PublishTrackRemote {
    /// The track's stream variant.
    pub fn rid(&self) -> (rid: &String)
        ensures
            rid@ == self@.rid,
    {
        &self.rid
    }

    /// The track's kind of media.
    pub fn kind(&self) -> (kind: RTPCodecType)
        ensures
            kind == self@.kind,
    {
        self.kind
    }

    /// Makes the publisher of a track, with its bus of `BUS_CAPACITY`
    /// packets, and the two things that its owner has to set going: the
    /// forwarding task, which has not read anything yet, and a reader of
    /// the bus that is to be drained for as long as the bus is open, so
    /// that the bus never finds itself without a reader. `path` and `id`
    /// name the task in its owner's records and change nothing else.
    pub fn new(path: String, id: String, track: TrackInfo) -> (made: (
        PublishTrackRemote,
        TrackForward,
        Receiver<ForwardData>,
    ))
        ensures
            made.0@.rid == track.rid@,
            made.0@.kind == track.kind,
            made.0@.capacity == BUS_CAPACITY,
            receiver_bus(made.2) == made.0@.bus,
            made.1@ == (ForwardView {
                path: path@,
                id: id@,
                rid: track.rid@,
                kind: track.kind,
                ssrc: track.ssrc,
                bus: made.0@.bus,
                trace: ForwardTrace::start(),
            }),
    {
        proof {
            lemma2_to64();
            assert(pow2(7) == BUS_CAPACITY);
            assert(is_power_of_two(BUS_CAPACITY as nat));
        }
        let (rtp_sender, keep_alive) = open_bus(BUS_CAPACITY);
        let publisher = PublishTrackRemote {
            rid: track.rid.clone(),
            kind: track.kind,
            rtp_broadcast: Arc::new(bus_sender_clone(&rtp_sender)),
        };
        let forward = TrackForward {
            path,
            id,
            track,
            state: ForwardState::Running,
            rtp_sender,
            forwarded: Ghost(Seq::empty()),
        };
        (publisher, forward, keep_alive)
    }

    /// A handle for minting readers of this publisher's bus. It names the
    /// track as the publisher does and holds the bus weakly: taking it
    /// makes no reader and cannot fail.
    pub fn subscribe(&self) -> (handle: SubscribeTrackRemote)
        ensures
            handle@ == (SubscribeView { rid: self@.rid, kind: self@.kind, bus: self@.bus }),
    {
        SubscribeTrackRemote {
            rid: self.rid.clone(),
            kind: self.kind,
            rtp_recv: bus_downgrade(&self.rtp_broadcast),
        }
    }

    /// Mints a reader from a sender that a weak reference may have led to:
    /// a new reader of that sender's bus where there is one, and
    /// `BusUnavailable` where there is none.
    pub fn subscribe_resolved(resolved: Option<Arc<Sender<ForwardData>>>) -> (reader: Result<
        Receiver<ForwardData>,
        SubscribeError,
    >)
        ensures
            resolved is None <==> reader is Err,
            resolved matches Some(sender) ==> reader matches Ok(minted) && receiver_bus(minted)
                == sender_bus(*sender),
            reader matches Err(error) ==> error == SubscribeError::BusUnavailable,
    {
        match resolved {
            Some(broadcast) => Ok(bus_subscribe(&broadcast)),
            None => Err(SubscribeError::BusUnavailable),
        }
    }

    /// Mints a reader of the bus that `broadcast` stands for, if a
    /// publisher of it is still alive, and fails with `BusUnavailable` if
    /// none is.
    pub fn new_subscribe(broadcast: WeakBus) -> (reader: Result<
        Receiver<ForwardData>,
        SubscribeError,
    >)
        ensures
            reader matches Ok(minted) ==> receiver_bus(minted) == weak_bus(broadcast),
            reader matches Err(error) ==> error == SubscribeError::BusUnavailable,
    {
        Self::subscribe_resolved(bus_upgrade(&broadcast))
    }
}

impl SubscribeTrackRemote {
    /// The stream variant of the publisher's track.
    pub fn rid(&self) -> (rid: &String)
        ensures
            rid@ == self@.rid,
    {
        &self.rid
    }

    /// The kind of media of the publisher's track.
    pub fn kind(&self) -> (kind: RTPCodecType)
        ensures
            kind == self@.kind,
    {
        self.kind
    }

    /// Mints a reader of the publisher's bus. The reader starts at the
    /// packet written next, and is independent of every other reader. The
    /// handle stays as it was, and can be asked again.
    pub fn rtp_recv(&self) -> (reader: Result<Receiver<ForwardData>, SubscribeError>)
        ensures
            reader matches Ok(minted) ==> receiver_bus(minted) == self@.bus,
            reader matches Err(error) ==> error == SubscribeError::BusUnavailable,
    {
        PublishTrackRemote::new_subscribe(bus_weak_clone(&self.rtp_recv))
    }
}

impl SubscribeError {
    /// The error in words.
    pub fn message(&self) -> (text: &'static str)
        ensures
            text@ == "broadcast upgrade error"@,
    {
        "broadcast upgrade error"
    }
}

} // verus!
