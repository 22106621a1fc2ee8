//! Validation of the agent's runtime configuration. The raw values come
//! from the process environment; the rules here decide which sets of
//! values are accepted, what each rejection says, and which optional
//! values fall back to their defaults.

use vstd::prelude::*;
use vstd::string::StringExecFns;
use crate::text::{
    digits_val, has_prefix, is_blank, is_blank_seq, parse_u64, parses_to_u64,
    strip_trailing_slashes, starts_with, trimmed_end,
};

verus! {

/// The named configuration values as read from the environment, each
/// absent when its variable is unset.
#[derive(Clone, Debug)]
pub struct RawConfig {
    pub relay_url: Option<String>,
    pub token: Option<String>,
    pub printer_id: Option<String>,
    pub printer_id_fallback: Option<String>,
    pub moonraker_url: Option<String>,
    pub heartbeat_interval: Option<String>,
    pub telemetry_interval: Option<String>,
    pub log_file: Option<String>,
    pub health_port: Option<String>,
}

/// The mathematical value of a raw configuration.
pub ghost struct RawConfigView {
    pub relay_url: Option<Seq<char>>,
    pub token: Option<Seq<char>>,
    pub printer_id: Option<Seq<char>>,
    pub printer_id_fallback: Option<Seq<char>>,
    pub moonraker_url: Option<Seq<char>>,
    pub heartbeat_interval: Option<Seq<char>>,
    pub telemetry_interval: Option<Seq<char>>,
    pub log_file: Option<Seq<char>>,
    pub health_port: Option<Seq<char>>,
}

/// The value of an optional string.
pub open spec fn view_opt(o: Option<String>) -> Option<Seq<char>> {
    match o {
        Some(s) => Some(s@),
        None => None,
    }
}

impl View for RawConfig {
    type V = RawConfigView;

    open spec fn view(&self) -> RawConfigView {
        RawConfigView {
            relay_url: view_opt(self.relay_url),
            token: view_opt(self.token),
            printer_id: view_opt(self.printer_id),
            printer_id_fallback: view_opt(self.printer_id_fallback),
            moonraker_url: view_opt(self.moonraker_url),
            heartbeat_interval: view_opt(self.heartbeat_interval),
            telemetry_interval: view_opt(self.telemetry_interval),
            log_file: view_opt(self.log_file),
            health_port: view_opt(self.health_port),
        }
    }
}

/// The validated configuration, immutable once constructed and shared
/// read-only by every task.
#[derive(Clone, Debug)]
pub struct Config {
    pub relay_url: String,
    pub token: String,
    pub printer_id: String,
    pub moonraker_url: String,
    pub heartbeat_interval_secs: u64,
    pub telemetry_interval_secs: u64,
    pub log_file: Option<String>,
    pub health_port: u16,
}

/// The mathematical value of a configuration.
pub ghost struct ConfigView {
    pub relay_url: Seq<char>,
    pub token: Seq<char>,
    pub printer_id: Seq<char>,
    pub moonraker_url: Seq<char>,
    pub heartbeat_interval_secs: u64,
    pub telemetry_interval_secs: u64,
    pub log_file: Option<Seq<char>>,
    pub health_port: u16,
}

impl View for Config {
    type V = ConfigView;

    open spec fn view(&self) -> ConfigView {
        ConfigView {
            relay_url: self.relay_url@,
            token: self.token@,
            printer_id: self.printer_id@,
            moonraker_url: self.moonraker_url@,
            heartbeat_interval_secs: self.heartbeat_interval_secs,
            telemetry_interval_secs: self.telemetry_interval_secs,
            log_file: view_opt(self.log_file),
            health_port: self.health_port,
        }
    }
}

/// Rejection message: the relay variable is unset.
pub open spec fn msg_missing_relay() -> Seq<char> {
    "Required environment variable REACH_LINK_RELAY is not set"@
}

/// Rejection message: the token variable is unset.
pub open spec fn msg_missing_token() -> Seq<char> {
    "Required environment variable REACH_LINK_TOKEN is not set"@
}

/// Rejection message: both printer-identifier variables are unset.
pub open spec fn msg_missing_printer_id() -> Seq<char> {
    "Required environment variable REACH_LINK_PRINTER_ID is not set (fallback REACH_PRINTER_ID also missing)"@
}

/// Rejection message for a relay URL without the encrypted scheme; the
/// offending value follows the prefix.
pub open spec fn msg_not_https(relay: Seq<char>) -> Seq<char> {
    "REACH_LINK_RELAY must use HTTPS, got: "@ + relay
}

/// Rejection message: the token is blank.
pub open spec fn msg_empty_token() -> Seq<char> {
    "REACH_LINK_TOKEN must not be empty"@
}

/// Rejection message: the resolved printer identifier is blank.
pub open spec fn msg_empty_printer_id() -> Seq<char> {
    "REACH_LINK_PRINTER_ID must not be empty"@
}

/// Rejection message: the health-probe port does not parse.
pub open spec fn msg_bad_port() -> Seq<char> {
    "REACH_LINK_HEALTH_PORT must be a valid port number"@
}

/// The default firmware-API base URL.
pub open spec fn default_moonraker_url() -> Seq<char> {
    "http://127.0.0.1:7125"@
}

/// A best-effort interval: the parsed value when the override is a valid
/// numeral, the default otherwise (including when it is absent).
pub open spec fn spec_interval(o: Option<Seq<char>>, default: u64) -> u64 {
    match o {
        Some(s) => if parses_to_u64(s) {
            digits_val(s) as u64
        } else {
            default
        },
        None => default,
    }
}

/// The printer identifier a raw configuration resolves to: the primary
/// key's value when present, else the fallback key's.
pub open spec fn spec_resolved_printer_id(r: RawConfigView) -> Option<Seq<char>> {
    match r.printer_id {
        Some(p) => Some(p),
        None => r.printer_id_fallback,
    }
}

/// The validation rules, in the order they are checked: presence of the
/// relay URL, the token and a printer identifier; the encrypted scheme;
/// non-blank token and identifier; a parseable health port. Firmware
/// URL and intervals are best-effort and never reject.
pub open spec fn spec_validate(r: RawConfigView) -> Result<ConfigView, Seq<char>> {
    if r.relay_url is None {
        Err(msg_missing_relay())
    } else if r.token is None {
        Err(msg_missing_token())
    } else if r.printer_id is None && r.printer_id_fallback is None {
        Err(msg_missing_printer_id())
    } else {
        let relay = r.relay_url.unwrap();
        let token = r.token.unwrap();
        let pid = spec_resolved_printer_id(r).unwrap();
        if !has_prefix(relay, "https://"@) {
            Err(msg_not_https(relay))
        } else if is_blank_seq(token) {
            Err(msg_empty_token())
        } else if is_blank_seq(pid) {
            Err(msg_empty_printer_id())
        } else {
            match r.health_port {
                Some(p) => if parses_to_u64(p) && digits_val(p) <= u16::MAX {
                    Ok(spec_config(r, (digits_val(p) as u16)))
                } else {
                    Err(msg_bad_port())
                },
                None => Ok(spec_config(r, 8080)),
            }
        }
    }
}

/// The configuration an accepted raw input produces.
pub open spec fn spec_config(r: RawConfigView, port: u16) -> ConfigView {
    ConfigView {
        relay_url: r.relay_url.unwrap(),
        token: r.token.unwrap(),
        printer_id: spec_resolved_printer_id(r).unwrap(),
        moonraker_url: trimmed_end(
            match r.moonraker_url {
                Some(m) => m,
                None => default_moonraker_url(),
            },
        ),
        heartbeat_interval_secs: spec_interval(r.heartbeat_interval, 30),
        telemetry_interval_secs: spec_interval(r.telemetry_interval, 10),
        log_file: r.log_file,
        health_port: port,
    }
}

impl Config {
    /// Validate a raw configuration: a configuration exactly when every
    /// rule holds, and the first violated rule's message otherwise.
    pub fn from_raw(raw: &RawConfig) -> (r: Result<Config, String>)
        ensures
            match r {
                Ok(c) => spec_validate(raw@) == Ok::<ConfigView, Seq<char>>(c@),
                Err(e) => spec_validate(raw@) == Err::<ConfigView, Seq<char>>(e@),
            },
    {
        let relay_url = match &raw.relay_url {
            Some(s) => s,
            None => {
                return Err("Required environment variable REACH_LINK_RELAY is not set".to_owned());
            },
        };
        let token = match &raw.token {
            Some(s) => s,
            None => {
                return Err("Required environment variable REACH_LINK_TOKEN is not set".to_owned());
            },
        };
        let printer_id = match &raw.printer_id {
            Some(p) => p,
            None => match &raw.printer_id_fallback {
                Some(f) => f,
                None => {
                    return Err(
                        "Required environment variable REACH_LINK_PRINTER_ID is not set (fallback REACH_PRINTER_ID also missing)".to_owned(),
                    );
                },
            },
        };
        if !starts_with(relay_url.as_str(), "https://") {
            let mut msg = "REACH_LINK_RELAY must use HTTPS, got: ".to_owned();
            msg.append(relay_url.as_str());
            return Err(msg);
        }
        if is_blank(token.as_str()) {
            return Err("REACH_LINK_TOKEN must not be empty".to_owned());
        }
        if is_blank(printer_id.as_str()) {
            return Err("REACH_LINK_PRINTER_ID must not be empty".to_owned());
        }
        let health_port: u16 = match &raw.health_port {
            Some(p) => {
                match parse_u64(p.as_str()) {
                    Some(v) => {
                        if v <= 65535 {
                            v as u16
                        } else {
                            return Err(
                                "REACH_LINK_HEALTH_PORT must be a valid port number".to_owned(),
                            );
                        }
                    },
                    None => {
                        return Err(
                            "REACH_LINK_HEALTH_PORT must be a valid port number".to_owned(),
                        );
                    },
                }
            },
            None => 8080,
        };
        let moonraker_url = match &raw.moonraker_url {
            Some(m) => strip_trailing_slashes(m.as_str()),
            None => strip_trailing_slashes("http://127.0.0.1:7125"),
        };
        let heartbeat_interval_secs: u64 = match &raw.heartbeat_interval {
            Some(s) => match parse_u64(s.as_str()) {
                Some(v) => v,
                None => 30,
            },
            None => 30,
        };
        let telemetry_interval_secs: u64 = match &raw.telemetry_interval {
            Some(s) => match parse_u64(s.as_str()) {
                Some(v) => v,
                None => 10,
            },
            None => 10,
        };
        Ok(
            Config {
                relay_url: relay_url.clone(),
                token: token.clone(),
                printer_id: printer_id.clone(),
                moonraker_url,
                heartbeat_interval_secs,
                telemetry_interval_secs,
                log_file: match &raw.log_file {
                    Some(l) => Some(l.clone()),
                    None => None,
                },
                health_port,
            },
        )
    }
}

/// The validator accepts exactly the configurations that satisfy every
/// rule: a present relay URL with the encrypted scheme, a present,
/// non-blank token, a resolvable, non-blank printer identifier, and an
/// absent or valid health port. Violating any one rule rejects the input.
pub proof fn lemma_validation_accepts_iff(r: RawConfigView)
    ensures
        spec_validate(r) is Ok <==> ((r.relay_url matches Some(u) && has_prefix(u, "https://"@))
            && (r.token matches Some(t) && !is_blank_seq(t)) && (spec_resolved_printer_id(r)
            matches Some(p) && !is_blank_seq(p)) && (match r.health_port {
            Some(hp) => parses_to_u64(hp) && digits_val(hp) <= u16::MAX,
            None => true,
        })),
{
}

/// Printer-identifier resolution: an accepted configuration carries the
/// primary key's value when that key was present, and the fallback key's
/// value when only the fallback was present.
pub proof fn lemma_printer_id_resolution(r: RawConfigView)
    requires
        spec_validate(r) is Ok,
    ensures
        r.printer_id matches Some(p) ==> spec_validate(r)->Ok_0.printer_id == p,
        r.printer_id is None ==> (r.printer_id_fallback matches Some(f) && spec_validate(
            r,
        )->Ok_0.printer_id == f),
{
}

/// Printer-identifier resolution: with both keys absent the input is
/// rejected with the message naming both keys, whatever else holds.
pub proof fn lemma_printer_id_both_missing(r: RawConfigView)
    requires
        r.relay_url is Some,
        r.token is Some,
        r.printer_id is None,
        r.printer_id_fallback is None,
    ensures
        spec_validate(r) == Err::<ConfigView, Seq<char>>(msg_missing_printer_id()),
{
}

} // verus!
