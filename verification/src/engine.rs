//! What the library asks of the media engine and what it hears back, as
//! plain values.
use crate::ids::RouterId;
use vstd::prelude::*;
use vstd::string::*;

verus! {

/// An IPv4 address by its four numbers.
#[derive(Debug, Copy, Clone, PartialEq, Eq, Structural, Hash)]
pub struct Ipv4(pub u8, pub u8, pub u8, pub u8);

/// The address of the machine itself.
pub open spec fn loopback() -> Ipv4 {
    Ipv4(127, 0, 0, 1)
}

/// How much a media worker logs.
#[derive(Debug, Copy, Clone, PartialEq, Eq, Structural)]
pub enum WorkerLogLevel {
    Debug,
    Warn,
    Error,
    Silent,
}

/// A subject that a media worker logs about.
#[derive(Debug, Copy, Clone, PartialEq, Eq, Structural)]
pub enum WorkerLogTag {
    Info,
    Ice,
    Dtls,
    Rtp,
    Srtp,
    Rtcp,
    Rtx,
    Bwe,
    Score,
    Simulcast,
    Svc,
    Sctp,
    Message,
}

/// The settings of the media worker that serves a room.
#[derive(Debug, Clone, PartialEq, Eq)]
pub struct WorkerSettings {
    /// Lowest port for media traffic.
    pub rtc_port_min: u16,
    /// Highest port for media traffic.
    pub rtc_port_max: u16,
    pub log_level: WorkerLogLevel,
    pub log_tags: Vec<WorkerLogTag>,
}

/// The subjects that a room's worker logs about, in the order configured.
pub open spec fn worker_log_tags() -> Seq<WorkerLogTag> {
    seq![
        WorkerLogTag::Info,
        WorkerLogTag::Ice,
        WorkerLogTag::Dtls,
        WorkerLogTag::Rtp,
        WorkerLogTag::Srtp,
        WorkerLogTag::Rtcp,
        WorkerLogTag::Rtx,
        WorkerLogTag::Bwe,
        WorkerLogTag::Score,
        WorkerLogTag::Simulcast,
        WorkerLogTag::Svc,
        WorkerLogTag::Sctp,
        WorkerLogTag::Message,
    ]
}

/// The settings with which a room's worker is created: media ports 50000 to
/// 51000, debug logging on every subject.
pub fn worker_settings() -> (settings: WorkerSettings)
    ensures
        settings.rtc_port_min == 50000,
        settings.rtc_port_max == 51000,
        settings.log_level == WorkerLogLevel::Debug,
        settings.log_tags@ == worker_log_tags(),
{
    let mut log_tags: Vec<WorkerLogTag> = Vec::new();
    log_tags.push(WorkerLogTag::Info);
    log_tags.push(WorkerLogTag::Ice);
    log_tags.push(WorkerLogTag::Dtls);
    log_tags.push(WorkerLogTag::Rtp);
    log_tags.push(WorkerLogTag::Srtp);
    log_tags.push(WorkerLogTag::Rtcp);
    log_tags.push(WorkerLogTag::Rtx);
    log_tags.push(WorkerLogTag::Bwe);
    log_tags.push(WorkerLogTag::Score);
    log_tags.push(WorkerLogTag::Simulcast);
    log_tags.push(WorkerLogTag::Svc);
    log_tags.push(WorkerLogTag::Sctp);
    log_tags.push(WorkerLogTag::Message);
    assert(log_tags@ =~= worker_log_tags());
    WorkerSettings {
        rtc_port_min: 50000,
        rtc_port_max: 51000,
        log_level: WorkerLogLevel::Debug,
        log_tags,
    }
}

/// How the engine answered the request for a room's worker and router.
#[derive(Debug, Clone, PartialEq, Eq)]
pub enum RouterOutcome {
    /// The worker could not be created, for the reason given.
    WorkerFailed(String),
    /// The worker stands but the router could not be created.
    RouterFailed(String),
    /// Both stand; this is the router.
    Created(RouterId),
}

/// The report of a room that could not be built, if `outcome` is a failure.
pub open spec fn construction_failure(outcome: RouterOutcome) -> Option<Seq<char>> {
    match outcome {
        RouterOutcome::WorkerFailed(error) => Some("Failed to create worker: "@ + error@),
        RouterOutcome::RouterFailed(error) => Some("Failed to create router: "@ + error@),
        RouterOutcome::Created(_) => None,
    }
}

/// Sorts the engine's answer into the router or the report of the failure.
pub fn built_router(outcome: &RouterOutcome) -> (built: Result<RouterId, String>)
    ensures
        match *outcome {
            RouterOutcome::Created(router) => built == Ok::<RouterId, String>(router),
            _ => built matches Err(report) && Some(report@) == construction_failure(*outcome),
        },
{
    match outcome {
        RouterOutcome::WorkerFailed(error) => {
            let mut report = "Failed to create worker: ".to_owned();
            report.append(error.as_str());
            Err(report)
        },
        RouterOutcome::RouterFailed(error) => {
            let mut report = "Failed to create router: ".to_owned();
            report.append(error.as_str());
            Err(report)
        },
        RouterOutcome::Created(router) => Ok(*router),
    }
}

/// A description that the client and the engine exchange and that the
/// library hands on unread: capabilities, DTLS, ICE or RTP parameters, as
/// the text in which they travel.
#[derive(Debug, Clone, PartialEq, Eq)]
pub struct Description {
    pub json: String,
}

impl Description {
    /// A copy of the description.
    pub fn copy(&self) -> (copy: Description)
        ensures
            copy == *self,
    {
        Description { json: self.json.clone() }
    }
}

/// The address that a transport listens on and the one it announces.
#[derive(Debug, Copy, Clone, PartialEq, Eq, Structural)]
pub struct ListenIp {
    pub ip: Ipv4,
    pub announced_ip: Option<Ipv4>,
}

/// The settings of a participant's transport.
#[derive(Debug, Copy, Clone, PartialEq, Eq, Structural)]
pub struct WebRtcTransportSettings {
    pub listen_ip: ListenIp,
    pub enable_tcp: bool,
    pub prefer_udp: bool,
}

/// The settings with which both transports of a participant are created:
/// listening on and announcing the machine's own address, TCP allowed, UDP
/// preferred.
pub fn webrtc_transport_settings() -> (settings: WebRtcTransportSettings)
    ensures
        settings == (WebRtcTransportSettings {
            listen_ip: ListenIp { ip: Ipv4(127, 0, 0, 1), announced_ip: Some(Ipv4(127, 0, 0, 1)) },
            enable_tcp: true,
            prefer_udp: true,
        }),
{
    WebRtcTransportSettings {
        listen_ip: ListenIp { ip: Ipv4(127, 0, 0, 1), announced_ip: Some(Ipv4(127, 0, 0, 1)) },
        enable_tcp: true,
        prefer_udp: true,
    }
}

} // verus!
