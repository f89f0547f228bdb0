use lan_discovery::clock::Timestamp;
use lan_discovery::device::{DeviceInfo, DeviceType};
use lan_discovery::engine::{
    broadcast_step, discovered, listen_step, BroadcastStep, ListenEvent, ListenStep,
    ProtocolError, ANNOUNCE_INTERVAL_SECS,
};

fn info(alias: &str, fingerprint: &str) -> DeviceInfo {
    DeviceInfo {
        alias: alias.to_string(),
        device_model: Some("model".to_string()),
        version: "1".to_string(),
        device_type: Some(DeviceType::Mobile),
        fingerprint: fingerprint.to_string(),
        api_port: 7863,
        protocol: "http".to_string(),
    }
}

#[test]
fn own_announcement_emits_nothing() {
    let now = Timestamp::new(10, 0);
    assert!(discovered("me", &info("myself", "me"), now).is_none());
    let step = listen_step("me", ListenEvent::Datagram(Some(info("myself", "me"))), now);
    assert!(matches!(step, ListenStep::Continue));
}

#[test]
fn peer_announcement_is_emitted_as_seen_now() {
    let now = Timestamp::new(10, 7);
    let step = listen_step("me", ListenEvent::Datagram(Some(info("peer", "them"))), now);
    match step {
        ListenStep::Emit(device) => {
            assert_eq!(device.alias, "peer");
            assert_eq!(device.device_model, Some("model".to_string()));
            assert_eq!(device.device_type, Some(DeviceType::Mobile));
            assert_eq!(device.fingerprint, "them");
            assert_eq!(device.last_seen, now);
        }
        other => panic!("expected a device, got {:?}", other),
    }
}

#[test]
fn peer_with_the_same_alias_is_still_a_peer() {
    let device = discovered("me", &info("myself", "them"), Timestamp::new(1, 0));
    assert!(matches!(device, Some(d) if d.fingerprint == "them" && d.alias == "myself"));
}

#[test]
fn malformed_datagram_is_passed_over() {
    let step = listen_step("me", ListenEvent::Datagram(None), Timestamp::new(1, 0));
    assert!(matches!(step, ListenStep::Continue));
}

#[test]
fn failed_receive_is_tolerated() {
    let step =
        listen_step("me", ListenEvent::ReceiveFailed("reset".to_string()), Timestamp::new(1, 0));
    assert!(matches!(step, ListenStep::Continue));
}

#[test]
fn failed_bind_ends_the_listener() {
    let step =
        listen_step("me", ListenEvent::BindFailed("in use".to_string()), Timestamp::new(1, 0));
    assert!(matches!(step, ListenStep::Fail(ProtocolError::Bind(m)) if m == "in use"));
}

#[test]
fn cancelled_listener_stops() {
    let step = listen_step("me", ListenEvent::Cancelled, Timestamp::new(1, 0));
    assert!(matches!(step, ListenStep::Stop));
}

#[test]
fn broadcast_goes_on_until_its_time_is_over() {
    let started = Timestamp::new(100, 0);
    assert_eq!(ANNOUNCE_INTERVAL_SECS, 3);
    assert_eq!(broadcast_step(started, Timestamp::new(100, 0), 10), BroadcastStep::Sleep(3));
    assert_eq!(
        broadcast_step(started, Timestamp::new(109, 999_999_999), 10),
        BroadcastStep::Sleep(3)
    );
    assert_eq!(broadcast_step(started, Timestamp::new(110, 0), 10), BroadcastStep::Finish);
    assert_eq!(broadcast_step(started, Timestamp::new(500, 0), 10), BroadcastStep::Finish);
}

#[test]
fn broadcast_of_no_duration_announces_once() {
    let started = Timestamp::new(100, 0);
    assert_eq!(broadcast_step(started, started, 0), BroadcastStep::Finish);
}

#[test]
fn broadcast_goes_on_when_the_clock_stepped_back() {
    assert_eq!(
        broadcast_step(Timestamp::new(100, 0), Timestamp::new(90, 0), 5),
        BroadcastStep::Sleep(3)
    );
    assert_eq!(
        broadcast_step(Timestamp::new(100, 0), Timestamp::new(90, 0), 0),
        BroadcastStep::Sleep(3)
    );
}

#[test]
fn longest_broadcast_does_not_overflow() {
    assert_eq!(
        broadcast_step(Timestamp::new(0, 0), Timestamp::new(u64::MAX, u32::MAX), u32::MAX),
        BroadcastStep::Finish
    );
    assert_eq!(
        broadcast_step(Timestamp::new(0, 0), Timestamp::new(4_294_967_294, 0), u32::MAX),
        BroadcastStep::Sleep(3)
    );
}
