//! What the commands of a front end mean for this node.

use vstd::prelude::*;
use vstd::string::StringExecFns;
use crate::device::{Announcement, DeviceInfo, DeviceType};

verus! {

/// The port on which this node serves its peers.
pub const API_PORT: u16 = 7863;

/// Where an approval of a client stands.
#[derive(Clone, Copy, Debug, PartialEq, Eq, Hash, Structural)]
pub enum UserStatus {
    Approved,
    Pending,
    Blocked,
}

/// The status that a front end's number stands for: 0 approved, 1 pending,
/// 2 blocked, and pending for every other number.
pub open spec fn status_of_code(code: i32) -> UserStatus {
    if code == 0 {
        UserStatus::Approved
    } else if code == 2 {
        UserStatus::Blocked
    } else {
        UserStatus::Pending
    }
}

/// The number that a front end gets for a status.
pub open spec fn code_of_status(status: UserStatus) -> i32 {
    match status {
        UserStatus::Approved => 0,
        UserStatus::Pending => 1,
        UserStatus::Blocked => 2,
    }
}

/// Reads a status from a front end's number.
pub fn user_status(code: i32) -> (status: UserStatus)
    ensures
        status == status_of_code(code),
{
    match code {
        0 => UserStatus::Approved,
        1 => UserStatus::Pending,
        2 => UserStatus::Blocked,
        _ => UserStatus::Pending,
    }
}

/// Writes a status as a front end's number.
pub fn status_code(status: UserStatus) -> (code: i32)
    ensures
        code == code_of_status(status),
{
    match status {
        UserStatus::Approved => 0,
        UserStatus::Pending => 1,
        UserStatus::Blocked => 2,
    }
}

/// This node as it presents itself under `alias` with `fingerprint`: a
/// desktop machine of the model "RuneAudio" in its technical preview, served
/// over http on the node's port.
pub open spec fn local_announcement(alias: Seq<char>, fingerprint: Seq<char>) -> Announcement {
    Announcement {
        alias,
        device_model: Some("RuneAudio"@),
        version: "Technical Preview"@,
        device_type: Some(DeviceType::Desktop),
        fingerprint,
        api_port: API_PORT,
        protocol: "http"@,
    }
}

/// Describes this node for a broadcast or a listener.
pub fn local_device_info(alias: &str, fingerprint: &str) -> (device_info: DeviceInfo)
    ensures
        device_info@ == local_announcement(alias@, fingerprint@),
{
    DeviceInfo {
        alias: alias.to_owned(),
        device_model: Some(String::from_str("RuneAudio")),
        version: String::from_str("Technical Preview"),
        device_type: Some(DeviceType::Desktop),
        fingerprint: fingerprint.to_owned(),
        api_port: API_PORT,
        protocol: String::from_str("http"),
    }
}

/// A status written as a number and read again is the status.
pub proof fn law_status_code_round_trip(status: UserStatus)
    ensures
        status_of_code(code_of_status(status)) == status,
{
}

} // verus!
