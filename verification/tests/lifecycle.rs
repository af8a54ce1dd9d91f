use std::sync::Arc;

use track_forward::bus::ForwardData;
use track_forward::bus::BUS_CAPACITY;
use track_forward::lifecycle::BusRead;
use track_forward::lifecycle::ForwardState;
use track_forward::lifecycle::StopReason;
use track_forward::track::SubscribeError;
use webrtc::rtp::packet::Packet;

fn packet(sequence_number: u16) -> ForwardData {
    let mut packet = Packet::default();
    packet.header.sequence_number = sequence_number;
    Arc::new(packet)
}

#[test]
fn bus_capacity_is_128() {
    assert_eq!(BUS_CAPACITY, 128);
}

#[test]
fn running_state_is_running() {
    assert!(ForwardState::Running.is_running());
}

#[test]
fn stopped_states_are_not_running() {
    assert!(!ForwardState::Stopped(StopReason::TransportReadFailed).is_running());
    assert!(!ForwardState::Stopped(StopReason::BusWriteRejected).is_running());
}

#[test]
fn read_failure_stops_with_transport_read_failed() {
    assert_eq!(
        ForwardState::after_read_failure(),
        ForwardState::Stopped(StopReason::TransportReadFailed)
    );
}

#[test]
fn accepted_push_keeps_running() {
    let one: Result<usize, ForwardData> = Ok(1);
    let many: Result<usize, ForwardData> = Ok(17);
    assert_eq!(ForwardState::after_push(&one), ForwardState::Running);
    assert_eq!(ForwardState::after_push(&many), ForwardState::Running);
}

#[test]
fn rejected_push_stops_with_bus_write_rejected() {
    let back: Result<usize, ForwardData> = Err(packet(7));
    assert_eq!(
        ForwardState::after_push(&back),
        ForwardState::Stopped(StopReason::BusWriteRejected)
    );
}

#[test]
fn keep_alive_drains_on_after_a_packet() {
    assert!(BusRead::Packet(packet(1)).keeps_draining());
}

#[test]
fn keep_alive_drains_on_after_lag() {
    assert!(BusRead::Lagged(1).keeps_draining());
    assert!(BusRead::Lagged(u64::MAX).keeps_draining());
}

#[test]
fn keep_alive_ends_when_bus_is_closed() {
    assert!(!BusRead::Closed.keeps_draining());
}

#[test]
fn bus_unavailable_message() {
    assert_eq!(SubscribeError::BusUnavailable.message(), "broadcast upgrade error");
}
