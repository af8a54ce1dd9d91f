//! The life of a forwarding task: it runs, one round after another, until a
//! read from the transport fails or the bus takes no more; then it has
//! stopped for good. A round reads one packet and offers it to the bus.
//! Nothing of any reader enters a round, so no reader, fast or slow, polled
//! or not, can hold the task back. Beside it lives one reader that does
//! nothing but drain the bus, so that the bus always has a reader.

use crate::bus::ForwardData;
use vstd::prelude::*;
use webrtc::rtp::packet::Packet;

verus! {

/// Why a forwarding task has come to its end.
#[derive(Clone, Copy, Debug, PartialEq, Eq, Structural)]
pub enum StopReason {
    /// The transport gave no further packet: it ended, failed, or handed
    /// over what could not be read as a packet.
    TransportReadFailed,
    /// The bus took no further packet: it had no reader left, or was
    /// closed.
    BusWriteRejected,
}

/// Where a forwarding task stands.
#[derive(Clone, Copy, Debug, PartialEq, Eq, Structural)]
pub enum ForwardState {
    /// It reads the next packet.
    Running,
    /// It has ended, and does not start again.
    Stopped(StopReason),
}

/// What the bus handed to a reader that asked for the next packet.
pub enum BusRead {
    /// The next packet.
    Packet(ForwardData),
    /// Word that the reader fell behind by more than the bus retains and
    /// has lost this many packets; it reads on from the oldest that is
    /// left.
    Lagged(u64),
    /// Word that the bus is closed for good and holds nothing more.
    Closed,
}

impl BusRead {
    /// Whether the reader that keeps the bus open is to ask again. It
    /// throws away what it is handed and goes on, also after it has
    /// lagged, until the bus is closed for good.
    pub fn keeps_draining(&self) -> (again: bool)
        ensures
            again == !(*self is Closed),
    {
        match self {
            BusRead::Packet(_) => true,
            BusRead::Lagged(_) => true,
            BusRead::Closed => false,
        }
    }
}

/// How one round of a forwarding task ended.
pub ghost enum ForwardEvent {
    /// A packet was read, and the bus took it.
    Forwarded(Packet),
    /// A packet was read, and the bus refused it.
    WriteRejected(Packet),
    /// No packet could be read.
    ReadFailed,
}

/// What a forwarding task has done so far: where it stands, and the packets
/// that the bus has taken from it, oldest first.
pub ghost struct ForwardTrace {
    pub state: ForwardState,
    pub forwarded: Seq<Packet>,
}

impl ForwardTrace {
    /// A task that has just been started.
    pub open spec fn start() -> ForwardTrace {
        ForwardTrace { state: ForwardState::Running, forwarded: Seq::empty() }
    }

    /// The trace after one more round. A stopped task has no further round:
    /// whatever is reported to it changes nothing.
    pub open spec fn step(self, event: ForwardEvent) -> ForwardTrace {
        match self.state {
            ForwardState::Stopped(_) => self,
            ForwardState::Running => match event {
                ForwardEvent::Forwarded(packet) => ForwardTrace {
                    state: ForwardState::Running,
                    forwarded: self.forwarded.push(packet),
                },
                ForwardEvent::WriteRejected(_) => ForwardTrace {
                    state: ForwardState::Stopped(StopReason::BusWriteRejected),
                    forwarded: self.forwarded,
                },
                ForwardEvent::ReadFailed => ForwardTrace {
                    state: ForwardState::Stopped(StopReason::TransportReadFailed),
                    forwarded: self.forwarded,
                },
            },
        }
    }

    /// The trace after the rounds `events`, the first of them first.
    pub open spec fn run(self, events: Seq<ForwardEvent>) -> ForwardTrace
        decreases events.len(),
    {
        if events.len() == 0 {
            self
        } else {
            self.step(events[0]).run(events.skip(1))
        }
    }
}

/// The packets of the rounds that come before the first round in which
/// nothing was forwarded.
pub open spec fn leading_packets(events: Seq<ForwardEvent>) -> Seq<Packet>
    decreases events.len(),
{
    if events.len() == 0 {
        Seq::empty()
    } else {
        match events[0] {
            ForwardEvent::Forwarded(packet) => seq![packet] + leading_packets(events.skip(1)),
            _ => Seq::empty(),
        }
    }
}

/// The state that the rounds `events` leave a running task in: that of the
/// first round in which nothing was forwarded, and `Running` where there is
/// none.
pub open spec fn state_after(events: Seq<ForwardEvent>) -> ForwardState
    decreases events.len(),
{
    if events.len() == 0 {
        ForwardState::Running
    } else {
        match events[0] {
            ForwardEvent::Forwarded(_) => state_after(events.skip(1)),
            ForwardEvent::WriteRejected(_) => ForwardState::Stopped(StopReason::BusWriteRejected),
            ForwardEvent::ReadFailed => ForwardState::Stopped(StopReason::TransportReadFailed),
        }
    }
}

/// The rounds in which the packets `packets` are forwarded, one after
/// another.
pub open spec fn forwarded_rounds(packets: Seq<Packet>) -> Seq<ForwardEvent> {
    Seq::new(packets.len(), |i: int| ForwardEvent::Forwarded(packets[i]))
}

impl ForwardState {
    /// Whether the task reads on.
    pub fn is_running(&self) -> (running: bool)
        ensures
            running == (*self is Running),
    {
        match self {
            ForwardState::Running => true,
            ForwardState::Stopped(_) => false,
        }
    }

    /// The state of a running task once no packet could be read.
    pub fn after_read_failure() -> (next: ForwardState)
        ensures
            next == ForwardState::Stopped(StopReason::TransportReadFailed),
    {
        ForwardState::Stopped(StopReason::TransportReadFailed)
    }

    /// The state of a running task once the bus has answered a write: it
    /// runs on where the bus took the packet, for however many readers,
    /// and has stopped where the bus handed the packet back.
    pub fn after_push(outcome: &Result<usize, ForwardData>) -> (next: ForwardState)
        ensures
            outcome is Ok ==> next == ForwardState::Running,
            outcome is Err ==> next == ForwardState::Stopped(StopReason::BusWriteRejected),
    {
        match outcome {
            Ok(_) => ForwardState::Running,
            Err(_) => ForwardState::Stopped(StopReason::BusWriteRejected),
        }
    }
}

/// A stopped task stays as it is, whatever rounds are reported to it.
pub proof fn lemma_stopped_is_terminal(trace: ForwardTrace, events: Seq<ForwardEvent>)
    requires
        trace.state is Stopped,
    ensures
        trace.run(events) == trace,
    decreases events.len(),
{
    if events.len() > 0 {
        lemma_stopped_is_terminal(trace, events.skip(1));
    }
}

/// Running the rounds `events` and then `event` is one more step after
/// running `events`.
pub proof fn lemma_run_then_step(trace: ForwardTrace, events: Seq<ForwardEvent>, event: ForwardEvent)
    ensures
        trace.run(events.push(event)) == trace.run(events).step(event),
    decreases events.len(),
{
    if events.len() == 0 {
        assert(events.push(event).skip(1) =~= Seq::<ForwardEvent>::empty());
        assert(trace.step(event).run(Seq::<ForwardEvent>::empty()) == trace.step(event));
    } else {
        assert(events.push(event).skip(1) =~= events.skip(1).push(event));
        lemma_run_then_step(trace.step(events[0]), events.skip(1), event);
    }
}

/// What any rounds make of a running task. The bus has taken exactly the
/// packets that were read before the first failure, each once and in the
/// order in which they were read; the task still runs exactly where no
/// round failed, and has else stopped for the reason of the first round that
/// did.
pub proof fn lemma_forwards_in_read_order(trace: ForwardTrace, events: Seq<ForwardEvent>)
    requires
        trace.state is Running,
    ensures
        trace.run(events).forwarded == trace.forwarded + leading_packets(events),
        trace.run(events).state == state_after(events),
        trace.run(events).state is Running <==> forall|i: int|
            0 <= i < events.len() ==> events[i] is Forwarded,
    decreases events.len(),
{
    if events.len() == 0 {
        assert(trace.forwarded + Seq::<Packet>::empty() =~= trace.forwarded);
    } else {
        let rest = events.skip(1);
        let next = trace.step(events[0]);
        match events[0] {
            ForwardEvent::Forwarded(packet) => {
                lemma_forwards_in_read_order(next, rest);
                assert(trace.forwarded.push(packet) + leading_packets(rest) =~= trace.forwarded
                    + (seq![packet] + leading_packets(rest)));
                if next.run(rest).state is Running {
                    assert forall|i: int| 0 <= i < events.len() implies events[i] is Forwarded by {
                        if i > 0 {
                            assert(events[i] == rest[i - 1]);
                        }
                    }
                } else {
                    let j = choose|j: int| 0 <= j < rest.len() && !(rest[j] is Forwarded);
                    assert(events[j + 1] == rest[j]);
                }
            },
            _ => {
                lemma_stopped_is_terminal(next, rest);
                assert(trace.forwarded + Seq::<Packet>::empty() =~= trace.forwarded);
                assert(!(events[0] is Forwarded));
            },
        }
    }
}

/// A task keeps running through any number of packets that the bus takes,
/// with no reader asked, and the bus gets them all in the order read.
pub proof fn lemma_runs_while_bus_accepts(trace: ForwardTrace, packets: Seq<Packet>)
    requires
        trace.state is Running,
    ensures
        trace.run(forwarded_rounds(packets)) == (ForwardTrace {
            state: ForwardState::Running,
            forwarded: trace.forwarded + packets,
        }),
{
    let events = forwarded_rounds(packets);
    lemma_forwards_in_read_order(trace, events);
    lemma_leading_packets_of_forwarded(packets);
}

/// A task whose writes the bus takes runs until the transport ends, and
/// then stops with every packet forwarded that the transport gave.
pub proof fn lemma_runs_until_transport_ends(packets: Seq<Packet>)
    ensures
        ForwardTrace::start().run(forwarded_rounds(packets).push(ForwardEvent::ReadFailed)) == (
        ForwardTrace {
            state: ForwardState::Stopped(StopReason::TransportReadFailed),
            forwarded: packets,
        }),
{
    let start = ForwardTrace::start();
    lemma_runs_while_bus_accepts(start, packets);
    lemma_run_then_step(start, forwarded_rounds(packets), ForwardEvent::ReadFailed);
    assert(start.forwarded + packets =~= packets);
}

/// Rounds that all forward a packet have exactly those packets as their
/// leading packets.
proof fn lemma_leading_packets_of_forwarded(packets: Seq<Packet>)
    ensures
        leading_packets(forwarded_rounds(packets)) == packets,
    decreases packets.len(),
{
    let events = forwarded_rounds(packets);
    if packets.len() == 0 {
        assert(leading_packets(events) =~= packets);
    } else {
        lemma_leading_packets_of_forwarded(packets.skip(1));
        assert(events.skip(1) =~= forwarded_rounds(packets.skip(1)));
        assert(seq![packets[0]] + packets.skip(1) =~= packets);
    }
}

} // verus!
