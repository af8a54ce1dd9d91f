use std::sync::Arc;
use std::time::Duration;
use std::time::Instant;

use tokio::sync::broadcast::error::TryRecvError;
use tokio::sync::broadcast::Receiver;
use track_forward::bus::ForwardData;
use track_forward::lifecycle::BusRead;
use track_forward::lifecycle::ForwardState;
use track_forward::lifecycle::StopReason;
use track_forward::track::PublishTrackRemote;
use track_forward::track::TrackForward;
use track_forward::track::TrackInfo;
use webrtc::rtp::packet::Packet;
use webrtc::rtp_transceiver::rtp_codec::RTPCodecType;

fn packet(sequence_number: u16) -> Packet {
    let mut packet = Packet::default();
    packet.header.sequence_number = sequence_number;
    packet
}

fn video(rid: &str) -> TrackInfo {
    TrackInfo { rid: rid.to_string(), kind: RTPCodecType::Video, ssrc: 0x1234_5678 }
}

fn publish(rid: &str) -> (PublishTrackRemote, TrackForward, Receiver<ForwardData>) {
    PublishTrackRemote::new("live/room".to_string(), "session-1".to_string(), video(rid))
}

fn sequence_of(read: Result<ForwardData, TryRecvError>) -> u16 {
    match read {
        Ok(packet) => packet.header.sequence_number,
        Err(error) => panic!("no packet: {:?}", error),
    }
}

#[test]
fn new_names_the_publisher_after_the_track() {
    let (publisher, _forward, _keep_alive) = publish("h");
    assert_eq!(publisher.rid(), "h");
    assert_eq!(publisher.kind(), RTPCodecType::Video);
}

#[test]
fn new_names_the_forwarding_task() {
    let track = TrackInfo { rid: "q".to_string(), kind: RTPCodecType::Audio, ssrc: 42 };
    let (_publisher, forward, _keep_alive) =
        PublishTrackRemote::new("path/a".to_string(), "id-9".to_string(), track);
    assert_eq!(forward.path(), "path/a");
    assert_eq!(forward.id(), "id-9");
    assert_eq!(forward.rid(), "q");
    assert_eq!(forward.kind(), RTPCodecType::Audio);
    assert_eq!(forward.ssrc(), 42);
}

#[test]
fn new_starts_the_task_running() {
    let (_publisher, forward, _keep_alive) = publish("");
    assert_eq!(forward.state(), ForwardState::Running);
    assert!(forward.is_running());
}

#[test]
fn new_hands_out_an_empty_keep_alive_reader() {
    let (_publisher, _forward, mut keep_alive) = publish("");
    assert_eq!(keep_alive.try_recv().err(), Some(TryRecvError::Empty));
}

#[test]
fn keep_alive_reader_is_on_the_forwarders_bus() {
    let (_publisher, mut forward, mut keep_alive) = publish("");
    assert_eq!(forward.track_forward(Some(packet(11))), ForwardState::Running);
    assert_eq!(sequence_of(keep_alive.try_recv()), 11);
}

#[test]
fn forwarded_packet_is_the_packet_read() {
    let (publisher, mut forward, _keep_alive) = publish("");
    let mut reader = publisher.subscribe().rtp_recv().unwrap();
    let mut read = packet(3);
    read.header.timestamp = 90_000;
    read.header.marker = true;
    let expected = read.clone();
    forward.track_forward(Some(read));
    assert_eq!(*reader.try_recv().unwrap(), expected);
}

#[test]
fn read_failure_stops_the_task() {
    let (_publisher, mut forward, _keep_alive) = publish("");
    assert_eq!(
        forward.track_forward(None),
        ForwardState::Stopped(StopReason::TransportReadFailed)
    );
    assert_eq!(forward.state(), ForwardState::Stopped(StopReason::TransportReadFailed));
    assert!(!forward.is_running());
}

#[test]
fn bus_without_readers_stops_the_task() {
    let (_publisher, mut forward, keep_alive) = publish("");
    drop(keep_alive);
    assert_eq!(
        forward.track_forward(Some(packet(1))),
        ForwardState::Stopped(StopReason::BusWriteRejected)
    );
    assert_eq!(forward.state(), ForwardState::Stopped(StopReason::BusWriteRejected));
}

#[test]
fn stopped_task_forwards_nothing_more() {
    let (publisher, mut forward, _keep_alive) = publish("");
    let mut reader = publisher.subscribe().rtp_recv().unwrap();
    assert_eq!(forward.track_forward(Some(packet(1))), ForwardState::Running);
    let stopped = forward.track_forward(None);
    assert_eq!(stopped, ForwardState::Stopped(StopReason::TransportReadFailed));
    assert_eq!(forward.track_forward(Some(packet(2))), stopped);
    assert_eq!(forward.track_forward(None), stopped);
    assert_eq!(sequence_of(reader.try_recv()), 1);
    assert_eq!(reader.try_recv().err(), Some(TryRecvError::Empty));
}

#[test]
fn task_stopped_by_the_bus_keeps_its_reason() {
    let (_publisher, mut forward, keep_alive) = publish("");
    drop(keep_alive);
    let stopped = forward.track_forward(Some(packet(1)));
    assert_eq!(stopped, ForwardState::Stopped(StopReason::BusWriteRejected));
    assert_eq!(forward.track_forward(None), stopped);
    assert_eq!(forward.track_forward(Some(packet(2))), stopped);
}

#[test]
fn unpolled_reader_does_not_hold_the_producer_back() {
    let (publisher, mut forward, _keep_alive) = publish("");
    let handle = publisher.subscribe();
    let _stalled = handle.rtp_recv().unwrap();
    let mut polled = handle.rtp_recv().unwrap();
    let started = Instant::now();
    let n: u16 = 1000;
    for i in 0..n {
        assert_eq!(forward.track_forward(Some(packet(i))), ForwardState::Running);
        assert_eq!(sequence_of(polled.try_recv()), i);
    }
    assert!(started.elapsed() < Duration::from_secs(10));
    assert_eq!(polled.try_recv().err(), Some(TryRecvError::Empty));
}

#[test]
fn polled_reader_receives_what_was_written_in_order() {
    let (publisher, mut forward, _keep_alive) = publish("");
    let mut reader = publisher.subscribe().rtp_recv().unwrap();
    let written: Vec<u16> = vec![5, 3, 9, 9, 0, 65535, 1];
    for sequence_number in written.iter() {
        forward.track_forward(Some(packet(*sequence_number)));
    }
    let mut received: Vec<u16> = Vec::new();
    while let Ok(read) = reader.try_recv() {
        received.push(read.header.sequence_number);
    }
    assert_eq!(received, written);
}

#[test]
fn reader_within_capacity_loses_nothing() {
    let (publisher, mut forward, _keep_alive) = publish("");
    let mut reader = publisher.subscribe().rtp_recv().unwrap();
    for i in 0..128u16 {
        forward.track_forward(Some(packet(i)));
    }
    for i in 0..128u16 {
        assert_eq!(sequence_of(reader.try_recv()), i);
    }
    assert_eq!(reader.try_recv().err(), Some(TryRecvError::Empty));
}

#[test]
fn lagging_reader_is_told_and_reads_on() {
    let (publisher, mut forward, _keep_alive) = publish("");
    let mut reader = publisher.subscribe().rtp_recv().unwrap();
    for i in 0..200u16 {
        assert_eq!(forward.track_forward(Some(packet(i))), ForwardState::Running);
    }
    assert_eq!(reader.try_recv().err(), Some(TryRecvError::Lagged(72)));
    for i in 72..200u16 {
        assert_eq!(sequence_of(reader.try_recv()), i);
    }
    assert_eq!(reader.try_recv().err(), Some(TryRecvError::Empty));
    assert_eq!(forward.track_forward(Some(packet(200))), ForwardState::Running);
    assert_eq!(sequence_of(reader.try_recv()), 200);
}

#[test]
fn reader_one_past_capacity_loses_one() {
    let (publisher, mut forward, _keep_alive) = publish("");
    let mut reader = publisher.subscribe().rtp_recv().unwrap();
    for i in 0..129u16 {
        forward.track_forward(Some(packet(i)));
    }
    assert_eq!(reader.try_recv().err(), Some(TryRecvError::Lagged(1)));
    assert_eq!(sequence_of(reader.try_recv()), 1);
}

#[test]
fn task_runs_to_the_end_of_the_transport_without_subscribers() {
    let (_publisher, mut forward, _keep_alive) = publish("");
    for i in 0..500u16 {
        assert_eq!(forward.track_forward(Some(packet(i))), ForwardState::Running);
    }
    assert_eq!(
        forward.track_forward(None),
        ForwardState::Stopped(StopReason::TransportReadFailed)
    );
}

#[test]
fn task_outlives_its_publisher() {
    let (publisher, mut forward, mut keep_alive) = publish("");
    drop(publisher);
    assert_eq!(forward.track_forward(Some(packet(8))), ForwardState::Running);
    assert_eq!(sequence_of(keep_alive.try_recv()), 8);
}

#[test]
fn bus_closes_when_publisher_and_task_are_gone() {
    let (publisher, mut forward, mut keep_alive) = publish("");
    forward.track_forward(Some(packet(1)));
    drop(publisher);
    assert_eq!(keep_alive.try_recv().map(|read| read.header.sequence_number), Ok(1));
    assert_eq!(keep_alive.try_recv().err(), Some(TryRecvError::Empty));
    drop(forward);
    assert_eq!(keep_alive.try_recv().err(), Some(TryRecvError::Closed));
}

#[test]
fn keep_alive_reader_drains_until_the_bus_is_closed() {
    let (publisher, mut forward, mut keep_alive) = publish("");
    for i in 0..300u16 {
        forward.track_forward(Some(packet(i)));
    }
    drop(publisher);
    drop(forward);
    let mut packets: u64 = 0;
    let mut lost: u64 = 0;
    loop {
        let read = match keep_alive.try_recv() {
            Ok(read) => BusRead::Packet(read),
            Err(TryRecvError::Lagged(missed)) => BusRead::Lagged(missed),
            Err(TryRecvError::Closed) => BusRead::Closed,
            Err(TryRecvError::Empty) => panic!("a closed bus is never just empty"),
        };
        if !read.keeps_draining() {
            break;
        }
        match read {
            BusRead::Packet(_) => packets += 1,
            BusRead::Lagged(missed) => lost += missed,
            BusRead::Closed => unreachable!(),
        }
    }
    assert_eq!(lost, 172);
    assert_eq!(packets, 128);
}
