//! The decisions of the discovery protocol: what a listener makes of each
//! thing that happens on its socket, and when an announcer stops.
//!
//! Sockets, timers and the encoding of datagrams are the caller's part. The
//! caller reports each event and does what the step it gets back says.

use vstd::prelude::*;
use crate::clock::{age_nanos, Timestamp};
use crate::device::{clone_text, heard, DeviceInfo, DiscoveredDevice, Peer};
use crate::text::same_text;

verus! {

/// Seconds between two announcements of a broadcast.
pub const ANNOUNCE_INTERVAL_SECS: u64 = 3;

/// Why a protocol operation failed.
#[derive(Debug)]
pub enum ProtocolError {
    /// The socket could not be bound.
    Bind(String),
    /// A datagram could not be sent.
    Send(String),
    /// No datagram could be received.
    Receive(String),
}

/// Something that happened to a listener.
#[derive(Debug)]
pub enum ListenEvent {
    /// The listener was told to stop.
    Cancelled,
    /// The socket could not be bound.
    BindFailed(String),
    /// Receiving failed this once.
    ReceiveFailed(String),
    /// A datagram came in: the announcement it decodes to, or nothing where
    /// it is malformed or of another protocol.
    Datagram(Option<DeviceInfo>),
}

/// What a listener does next.
#[derive(Debug)]
pub enum ListenStep {
    /// Release the socket and end.
    Stop,
    /// End and report the failure, once.
    Fail(ProtocolError),
    /// Go on receiving.
    Continue,
    /// Hand the discovered device on, and go on receiving.
    Emit(DiscoveredDevice),
}

/// What an announcer does after an announcement.
#[derive(Clone, Copy, Debug, PartialEq, Eq, Structural)]
pub enum BroadcastStep {
    /// The requested time is over: end.
    Finish,
    /// Wait this many seconds, then announce again.
    Sleep(u64),
}

/// The device that an announcement received at `now` makes known, unless it
/// is the node's own.
pub fn discovered(own_fingerprint: &str, announcement: &DeviceInfo, now: Timestamp) -> (device:
    Option<DiscoveredDevice>)
    ensures
        match device {
            Some(d) => heard(own_fingerprint@, announcement@, now) == Some(d@),
            None => heard(own_fingerprint@, announcement@, now) is None,
        },
{
    if same_text(announcement.fingerprint.as_str(), own_fingerprint) {
        None
    } else {
        Some(
            DiscoveredDevice {
                alias: announcement.alias.clone(),
                device_model: clone_text(&announcement.device_model),
                device_type: announcement.device_type,
                fingerprint: announcement.fingerprint.clone(),
                last_seen: now,
            },
        )
    }
}

/// The peer that a listener emits on an event at `now`, if it emits one: the
/// sender of a well-formed announcement that is not the node's own.
pub open spec fn emitted(own_fingerprint: Seq<char>, event: ListenEvent, now: Timestamp)
    -> Option<Peer> {
    match event {
        ListenEvent::Datagram(Some(announcement)) => heard(own_fingerprint, announcement@, now),
        _ => None,
    }
}

/// Decides what a listener does on an event at `now`. It stops when told to,
/// fails when its socket cannot be bound, and goes on after anything else: a
/// failed receive, a malformed datagram and its own announcement are passed
/// over, and every other announcement is emitted as a discovered device last
/// seen at `now`.
pub fn listen_step(own_fingerprint: &str, event: ListenEvent, now: Timestamp) -> (step: ListenStep)
    ensures
        event is Cancelled <==> step is Stop,
        match event {
            ListenEvent::BindFailed(message) => step matches ListenStep::Fail(
                ProtocolError::Bind(m),
            ) && m@ == message@,
            _ => !(step is Fail),
        },
        match emitted(own_fingerprint@, event, now) {
            Some(peer) => step matches ListenStep::Emit(device) && device@ == peer,
            None => !(step is Emit),
        },
{
    match event {
        ListenEvent::Cancelled => ListenStep::Stop,
        ListenEvent::BindFailed(message) => ListenStep::Fail(ProtocolError::Bind(message)),
        ListenEvent::ReceiveFailed(_) => ListenStep::Continue,
        ListenEvent::Datagram(None) => ListenStep::Continue,
        ListenEvent::Datagram(Some(announcement)) => {
            match discovered(own_fingerprint, &announcement, now) {
                Some(device) => ListenStep::Emit(device),
                None => ListenStep::Continue,
            }
        },
    }
}

/// A broadcast that started at `started` and was asked to run for
/// `duration_seconds` is over at `now`.
pub open spec fn broadcast_over(started: Timestamp, now: Timestamp, duration_seconds: u32)
    -> bool {
    age_nanos(started, now) >= duration_seconds as int * 1_000_000_000
}

/// Decides what an announcer does after an announcement, whether or not it
/// could be sent: it ends once the requested time is over, and else waits
/// for the fixed interval before it announces again.
pub fn broadcast_step(started: Timestamp, now: Timestamp, duration_seconds: u32) -> (step:
    BroadcastStep)
    ensures
        step == if broadcast_over(started, now, duration_seconds) {
            BroadcastStep::Finish
        } else {
            BroadcastStep::Sleep(ANNOUNCE_INTERVAL_SECS)
        },
{
    let begun: u128 = started.secs as u128 * 1_000_000_000 + started.nanos as u128;
    let current: u128 = now.secs as u128 * 1_000_000_000 + now.nanos as u128;
    let wanted: u128 = duration_seconds as u128 * 1_000_000_000;
    if current >= begun && current - begun >= wanted {
        BroadcastStep::Finish
    } else {
        BroadcastStep::Sleep(ANNOUNCE_INTERVAL_SECS)
    }
}

/// A listener never emits the node's own announcement.
pub proof fn law_own_announcement_is_passed_over(announcement: DeviceInfo, now: Timestamp)
    ensures
        emitted(
            announcement.fingerprint@,
            ListenEvent::Datagram(Some(announcement)),
            now,
        ) is None,
{
}

} // verus!
