//! The fan-out bus: a bounded broadcast channel of `tokio`, with one writing
//! side and any number of readers. The channel keeps its state behind shared
//! references and other tasks change it at any time, so nothing here speaks
//! of what the channel holds: the contracts say which channel a handle
//! belongs to, how many packets that channel retains, and what holds of
//! every outcome of a write.

use std::sync::Arc;
use std::sync::Weak;
use tokio::sync::broadcast::channel;
use tokio::sync::broadcast::error::SendError;
use tokio::sync::broadcast::Receiver;
use tokio::sync::broadcast::Sender;
use vstd::arithmetic::power2::pow2;
use vstd::prelude::*;
use webrtc::rtp::packet::Packet;

verus! {

/// A packet as the bus carries it: shared, never changed after it was read.
pub type ForwardData = Arc<Packet>;

/// The number of packets that a publisher's bus retains for a slow reader.
pub const BUS_CAPACITY: usize = 128;

/// `webrtc::rtp::packet::Packet`, carried through and never looked into.
#[verifier::external_type_specification]
#[verifier::external_body]
pub struct ExPacket(Packet);

/// `tokio::sync::broadcast::Sender`, the writing side of a channel.
#[verifier::external_type_specification]
#[verifier::external_body]
#[verifier::reject_recursive_types(T)]
pub struct ExSender<T>(Sender<T>);

/// `tokio::sync::broadcast::Receiver`, one reader of a channel.
#[verifier::external_type_specification]
#[verifier::external_body]
#[verifier::reject_recursive_types(T)]
pub struct ExReceiver<T>(Receiver<T>);

/// The channel that a sender writes to. Handles of one channel have one
/// number, as `Sender::same_channel` tells of two senders.
pub uninterp spec fn sender_bus(sender: Sender<Arc<Packet>>) -> nat;

/// The channel that a receiver reads from, numbered as `sender_bus` numbers
/// it.
pub uninterp spec fn receiver_bus(receiver: Receiver<Arc<Packet>>) -> nat;

/// The number of packets that a sender's channel retains: the length of its
/// ring buffer, fixed when the channel is made.
pub uninterp spec fn bus_capacity(sender: Sender<Arc<Packet>>) -> nat;

/// A reference to a shared sender that does not keep it alive. It holds a
/// `std::sync::Weak`, whose allocator parameter keeps it from being declared
/// as an outside type, so the whole struct is opaque: nothing is known of
/// it but the channel of the sender it was taken from.
#[verifier::external_body]
pub struct WeakBus {
    inner: Weak<Sender<ForwardData>>,
}

/// The channel of the sender that a weak reference was taken from.
pub uninterp spec fn weak_bus(weak: WeakBus) -> nat;

/// Whether `n` is a power of two.
pub open spec fn is_power_of_two(n: nat) -> bool {
    exists|k: nat| pow2(k) == n
}

/// Calls `tokio::sync::broadcast::channel`. Assumed: the sender and the
/// receiver it returns belong to one channel, and that channel retains
/// `capacity` packets. The call panics on a capacity of zero or above
/// `usize::MAX / 2`, and rounds any other up to the next power of two:
/// only capacities that it takes as they are can be asked for here.
#[verifier::external_body]
pub(crate) fn open_bus(capacity: usize) -> (ends: (Sender<ForwardData>, Receiver<ForwardData>))
    requires
        0 < capacity <= usize::MAX / 2,
        is_power_of_two(capacity as nat),
    ensures
        sender_bus(ends.0) == receiver_bus(ends.1),
        bus_capacity(ends.0) == capacity,
{
    channel(capacity)
}

/// Calls `Sender::send`. Assumed: a write that succeeds reports at least
/// one subscribed receiver, and one that fails hands the packet back.
/// Whether it succeeds depends on the receivers alive at that moment, which
/// no contract can know.
#[verifier::external_body]
pub(crate) fn bus_send(sender: &Sender<ForwardData>, packet: ForwardData) -> (outcome: Result<
    usize,
    ForwardData,
>)
    ensures
        outcome matches Ok(readers) ==> readers >= 1,
        outcome matches Err(back) ==> back == packet,
{
    match sender.send(packet) {
        Ok(readers) => Ok(readers),
        Err(SendError(back)) => Err(back),
    }
}

/// Calls `Sender::subscribe`. Assumed: the new receiver reads from the
/// sender's channel.
#[verifier::external_body]
pub(crate) fn bus_subscribe(sender: &Sender<ForwardData>) -> (reader: Receiver<ForwardData>)
    ensures
        receiver_bus(reader) == sender_bus(*sender),
{
    sender.subscribe()
}

/// Calls `Sender::clone`. Assumed: the clone writes to the same channel.
#[verifier::external_body]
pub(crate) fn bus_sender_clone(sender: &Sender<ForwardData>) -> (twin: Sender<ForwardData>)
    ensures
        sender_bus(twin) == sender_bus(*sender),
        bus_capacity(twin) == bus_capacity(*sender),
{
    sender.clone()
}

/// Calls `Arc::downgrade`. Assumed: the weak reference stands for the
/// sender it was taken from.
#[verifier::external_body]
pub(crate) fn bus_downgrade(bus: &Arc<Sender<ForwardData>>) -> (weak: WeakBus)
    ensures
        weak_bus(weak) == sender_bus(**bus),
{
    WeakBus { inner: Arc::downgrade(bus) }
}

/// Calls `Weak::upgrade`. Assumed: where a sender comes back, it is the
/// one the weak reference was taken from. Whether one comes back depends on
/// the owners alive at that moment.
#[verifier::external_body]
pub(crate) fn bus_upgrade(weak: &WeakBus) -> (bus: Option<Arc<Sender<ForwardData>>>)
    ensures
        bus matches Some(sender) ==> sender_bus(*sender) == weak_bus(*weak),
{
    weak.inner.upgrade()
}

/// Calls `Weak::clone`. Assumed: the clone stands for the same sender.
#[verifier::external_body]
pub(crate) fn bus_weak_clone(weak: &WeakBus) -> (twin: WeakBus)
    ensures
        weak_bus(twin) == weak_bus(*weak),
{
    WeakBus { inner: weak.inner.clone() }
}

} // verus!
