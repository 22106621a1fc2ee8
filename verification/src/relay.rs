//! The relay protocol's computable side: endpoint URLs, the two outbound
//! payloads, the success test on a response status, and the extraction of
//! the adaptive-interval hint. The transport itself (HTTP, TLS, timeouts)
//! stays outside the library; these functions say exactly what is sent
//! and what a response means.

use vstd::prelude::*;
use vstd::string::StringExecFns;
use crate::config::Config;
use crate::snapshot::{Job, JobView, MoonrakerSnapshot, Temperatures};

verus! {

/// A transport-level failure (connection, name resolution, timeout),
/// carried as a plain message. HTTP-level failure statuses are not
/// faults: they are absorbed into a "no hint" result.
#[derive(Clone, Debug)]
pub struct TransportFault {
    pub message: String,
}

/// Whether an HTTP status code reports success.
pub open spec fn spec_is_success(status: u16) -> bool {
    200 <= status < 300
}

/// Success test on an HTTP status code.
pub fn is_success_status(status: u16) -> (r: bool)
    ensures
        r == spec_is_success(status),
{
    200 <= status && status < 300
}

/// The adaptive-interval hint a relay response carries: the decoded
/// value on a success status, and no hint on any other status — a
/// misbehaving relay must never stall the agent.
pub open spec fn spec_hint(status: u16, decoded: Option<u64>) -> Option<u64> {
    if spec_is_success(status) {
        decoded
    } else {
        None
    }
}

/// Extract the adaptive-interval hint from a relay response: the body's
/// decoded value counts only when the status reports success.
pub fn hint_from_response(status: u16, decoded: Option<u64>) -> (r: Option<u64>)
    ensures
        r == spec_hint(status, decoded),
{
    if is_success_status(status) {
        decoded
    } else {
        None
    }
}

/// The registration endpoint under a relay base URL.
pub fn register_url(relay_url: &str) -> (u: String)
    ensures
        u@ == relay_url@ + "/api/reach-link/register"@,
{
    relay_url.to_owned().concat("/api/reach-link/register")
}

/// The telemetry endpoint under a relay base URL.
pub fn telemetry_url(relay_url: &str) -> (u: String)
    ensures
        u@ == relay_url@ + "/api/reach-link/printer-data"@,
{
    relay_url.to_owned().concat("/api/reach-link/printer-data")
}

/// The firmware status query under the firmware-API base URL: extruder,
/// heater bed, print stats and display status in one request.
pub fn moonraker_query_url(moonraker_url: &str) -> (u: String)
    ensures
        u@ == moonraker_url@
            + "/printer/objects/query?extruder&heater_bed&print_stats&display_status"@,
{
    moonraker_url.to_owned().concat(
        "/printer/objects/query?extruder&heater_bed&print_stats&display_status",
    )
}

/// The registration payload: identity, uptime and agent version.
#[derive(Clone, Debug)]
pub struct RegisterPayload {
    pub printer_id: String,
    pub token: String,
    pub timestamp: i64,
    pub uptime: u64,
    pub version: String,
}

/// The mathematical value of a registration payload.
pub ghost struct RegisterPayloadView {
    pub printer_id: Seq<char>,
    pub token: Seq<char>,
    pub timestamp: i64,
    pub uptime: u64,
    pub version: Seq<char>,
}

impl View for RegisterPayload {
    type V = RegisterPayloadView;

    open spec fn view(&self) -> RegisterPayloadView {
        RegisterPayloadView {
            printer_id: self.printer_id@,
            token: self.token@,
            timestamp: self.timestamp,
            uptime: self.uptime,
            version: self.version@,
        }
    }
}

/// Build the registration payload for one heartbeat tick.
pub fn build_register_payload(config: &Config, timestamp_ms: i64, uptime_secs: u64, version: &str)
    -> (p: RegisterPayload)
    ensures
        p@ == (RegisterPayloadView {
            printer_id: config@.printer_id,
            token: config@.token,
            timestamp: timestamp_ms,
            uptime: uptime_secs,
            version: version@,
        }),
{
    RegisterPayload {
        printer_id: config.printer_id.clone(),
        token: config.token.clone(),
        timestamp: timestamp_ms,
        uptime: uptime_secs,
        version: version.to_owned(),
    }
}

/// A reserved schema slot for host-health readings, never filled by the
/// current agent. Percentages are in thousandths of a percent.
#[derive(Clone, Copy, PartialEq, Eq, Structural, Debug)]
pub struct SystemHealth {
    pub cpu_milli_pct: Option<i64>,
    pub memory_milli_pct: Option<i64>,
    pub disk_milli_pct: Option<i64>,
}

/// A reserved schema slot for reported errors: the telemetry payload
/// carries an always-empty list of these.
#[derive(Clone, Debug)]
pub struct TelemetryError {
    pub error_type: String,
    pub message: String,
    pub timestamp: i64,
    pub severity: String,
}

/// The telemetry payload: identity, timestamp, the snapshot's fields,
/// and the reserved, empty error and log-tail lists.
#[derive(Clone, Debug)]
pub struct TelemetryPayload {
    pub printer_id: String,
    pub token: String,
    pub timestamp: i64,
    pub temperatures: Option<Temperatures>,
    pub job: Option<Job>,
    pub system_health: Option<SystemHealth>,
    pub errors: Vec<TelemetryError>,
    pub log_tail: Vec<String>,
}

/// The value of an optional job record.
pub open spec fn view_job_opt(o: Option<Job>) -> Option<JobView> {
    match o {
        Some(j) => Some(j@),
        None => None,
    }
}

/// Build the telemetry payload for one telemetry tick: the snapshot is
/// embedded whole, health stays absent, and the error and log-tail
/// lists are empty.
pub fn build_telemetry_payload(config: &Config, timestamp_ms: i64, snapshot: MoonrakerSnapshot)
    -> (p: TelemetryPayload)
    ensures
        p.printer_id@ == config@.printer_id,
        p.token@ == config@.token,
        p.timestamp == timestamp_ms,
        p.temperatures == snapshot.temperatures,
        view_job_opt(p.job) == snapshot@.job,
        p.system_health is None,
        p.errors@ == Seq::<TelemetryError>::empty(),
        p.log_tail@ == Seq::<String>::empty(),
{
    let errors: Vec<TelemetryError> = Vec::new();
    let log_tail: Vec<String> = Vec::new();
    proof {
        assert(errors@ =~= Seq::<TelemetryError>::empty());
        assert(log_tail@ =~= Seq::<String>::empty());
    }
    TelemetryPayload {
        printer_id: config.printer_id.clone(),
        token: config.token.clone(),
        timestamp: timestamp_ms,
        temperatures: snapshot.temperatures,
        job: snapshot.job,
        system_health: None,
        errors,
        log_tail,
    }
}

/// Milliseconds since the Unix epoch, for payload timestamps.
///
/// Relies on std::time::SystemTime::now and its distance from the Unix
/// epoch. The result depends on the clock, so nothing is promised of it;
/// a clock before the epoch reads as zero.
#[verifier::external_body]
pub fn unix_timestamp_ms() -> i64 {
    std::time::SystemTime::now().duration_since(std::time::UNIX_EPOCH).unwrap_or_default()
        .as_millis() as i64
}

} // verus!
