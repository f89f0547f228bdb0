use lan_discovery::command::{local_device_info, status_code, user_status, UserStatus, API_PORT};
use lan_discovery::device::DeviceType;

#[test]
fn status_numbers() {
    assert_eq!(user_status(0), UserStatus::Approved);
    assert_eq!(user_status(1), UserStatus::Pending);
    assert_eq!(user_status(2), UserStatus::Blocked);
    assert_eq!(user_status(3), UserStatus::Pending);
    assert_eq!(user_status(-1), UserStatus::Pending);
    assert_eq!(user_status(i32::MAX), UserStatus::Pending);
}

#[test]
fn status_round_trip() {
    for status in [UserStatus::Approved, UserStatus::Pending, UserStatus::Blocked] {
        assert_eq!(user_status(status_code(status)), status);
    }
    assert_eq!(status_code(UserStatus::Blocked), 2);
}

#[test]
fn local_node_description() {
    let info = local_device_info("living room", "fp");
    assert_eq!(info.alias, "living room");
    assert_eq!(info.device_model, Some("RuneAudio".to_string()));
    assert_eq!(info.version, "Technical Preview");
    assert_eq!(info.device_type, Some(DeviceType::Desktop));
    assert_eq!(info.fingerprint, "fp");
    assert_eq!(info.api_port, 7863);
    assert_eq!(API_PORT, 7863);
    assert_eq!(info.protocol, "http");
}
