//! The status-snapshot mapper: turns the firmware's raw status document
//! into the normalized telemetry snapshot. Every extraction is
//! independently optional, the job state is folded into a fixed
//! vocabulary, and the remaining-time estimate is derived from elapsed
//! time and progress. The mapping is total: no input document makes it
//! fail.

use vstd::prelude::*;
use vstd::arithmetic::div_mod::{lemma_div_is_ordered, lemma_div_multiples_vanish};
use vstd::arithmetic::mul::lemma_mul_inequality;
use crate::doc::{DocValue, spec_get2, spec_num_at, spec_text_at, num_at, text_at};
use crate::relay::{is_success_status, spec_is_success};
use crate::text::{eq_ignore_case, str_eq_ignore_ascii_case};

verus! {

/// Temperature readings, in thousandths of a degree. The chamber reading
/// is reserved: the firmware does not report it yet, so it stays absent.
#[derive(Clone, Copy, PartialEq, Eq, Structural, Debug)]
pub struct Temperatures {
    pub nozzle_milli: Option<i64>,
    pub bed_milli: Option<i64>,
    pub chamber_milli: Option<i64>,
}

/// The job record of a snapshot. Progress is in thousandths of a percent,
/// clamped to the range 0 to 100 percent; durations are whole seconds.
#[derive(Clone, Debug)]
pub struct Job {
    pub filename: Option<String>,
    pub progress_milli_pct: Option<u64>,
    pub eta: Option<u64>,
    pub elapsed_time: Option<u64>,
    pub state: &'static str,
    pub totaltime: Option<u64>,
}

/// The mathematical value of a job record.
pub ghost struct JobView {
    pub filename: Option<Seq<char>>,
    pub progress_milli_pct: Option<u64>,
    pub eta: Option<u64>,
    pub elapsed_time: Option<u64>,
    pub state: Seq<char>,
    pub totaltime: Option<u64>,
}

impl View for Job {
    type V = JobView;

    open spec fn view(&self) -> JobView {
        JobView {
            filename: match self.filename {
                Some(f) => Some(f@),
                None => None,
            },
            progress_milli_pct: self.progress_milli_pct,
            eta: self.eta,
            elapsed_time: self.elapsed_time,
            state: self.state@,
            totaltime: self.totaltime,
        }
    }
}

/// One telemetry tick's view of the printer: every field independently
/// optional, so that a partly absent firmware document still yields a
/// snapshot.
#[derive(Clone, Debug)]
pub struct MoonrakerSnapshot {
    pub temperatures: Option<Temperatures>,
    pub job: Option<Job>,
}

/// The mathematical value of a snapshot.
pub ghost struct SnapshotView {
    pub temperatures: Option<Temperatures>,
    pub job: Option<JobView>,
}

impl View for MoonrakerSnapshot {
    type V = SnapshotView;

    open spec fn view(&self) -> SnapshotView {
        SnapshotView {
            temperatures: self.temperatures,
            job: match self.job {
                Some(j) => Some(j@),
                None => None,
            },
        }
    }
}

/// The snapshot with nothing known: what a failed fetch reports.
pub open spec fn spec_empty_snapshot() -> SnapshotView {
    SnapshotView { temperatures: None, job: None }
}

impl MoonrakerSnapshot {
    /// A snapshot with every field absent.
    pub fn empty() -> (s: Self)
        ensures
            s@ == spec_empty_snapshot(),
    {
        MoonrakerSnapshot { temperatures: None, job: None }
    }
}

/// The normalized job state for a raw firmware state string: the listed
/// raw values fold (ASCII case-insensitively) onto the four public
/// states, anything else or an absent value is `unknown`.
pub open spec fn spec_job_state(raw: Option<Seq<char>>) -> Seq<char> {
    match raw {
        None => "unknown"@,
        Some(s) => {
            if eq_ignore_case(s, "standby"@) || eq_ignore_case(s, "ready"@) || eq_ignore_case(
                s,
                "idle"@,
            ) || eq_ignore_case(s, "complete"@) || eq_ignore_case(s, "completed"@) {
                "idle"@
            } else if eq_ignore_case(s, "printing"@) {
                "printing"@
            } else if eq_ignore_case(s, "paused"@) {
                "paused"@
            } else if eq_ignore_case(s, "error"@) || eq_ignore_case(s, "cancelled"@)
                || eq_ignore_case(s, "canceled"@) || eq_ignore_case(s, "failed"@) {
                "error"@
            } else {
                "unknown"@
            }
        },
    }
}

/// Fold a raw firmware state string into the public job-state vocabulary.
pub fn map_job_state(value: Option<&str>) -> (r: &'static str)
    ensures
        r@ == spec_job_state(
            match value {
                Some(s) => Some(s@),
                None => None,
            },
        ),
{
    match value {
        None => "unknown",
        Some(s) => {
            if str_eq_ignore_ascii_case(s, "standby") || str_eq_ignore_ascii_case(s, "ready")
                || str_eq_ignore_ascii_case(s, "idle") || str_eq_ignore_ascii_case(s, "complete")
                || str_eq_ignore_ascii_case(s, "completed") {
                "idle"
            } else if str_eq_ignore_ascii_case(s, "printing") {
                "printing"
            } else if str_eq_ignore_ascii_case(s, "paused") {
                "paused"
            } else if str_eq_ignore_ascii_case(s, "error") || str_eq_ignore_ascii_case(
                s,
                "cancelled",
            ) || str_eq_ignore_ascii_case(s, "canceled") || str_eq_ignore_ascii_case(s, "failed") {
                "error"
            } else {
                "unknown"
            }
        },
    }
}

/// The job-state mapping is total: every input lands in the five-value
/// vocabulary.
pub proof fn lemma_job_state_total(raw: Option<Seq<char>>)
    ensures
        spec_job_state(raw) == "idle"@ || spec_job_state(raw) == "printing"@ || spec_job_state(raw)
            == "paused"@ || spec_job_state(raw) == "error"@ || spec_job_state(raw) == "unknown"@,
{
}

/// The job-state mapping is case-insensitive: two raw values equal up to
/// ASCII case fold to the same state.
pub proof fn lemma_job_state_case_insensitive(a: Seq<char>, b: Seq<char>)
    requires
        eq_ignore_case(a, b),
    ensures
        spec_job_state(Some(a)) == spec_job_state(Some(b)),
{
    assert forall|lit: Seq<char>| eq_ignore_case(a, lit) implies eq_ignore_case(b, lit) by {
        assert(forall|i: int|
            0 <= i < b.len() ==> crate::text::lower_code(b[i]) == crate::text::lower_code(a[i]));
    }
    assert forall|lit: Seq<char>| eq_ignore_case(b, lit) implies eq_ignore_case(a, lit) by {
        assert(forall|i: int|
            0 <= i < a.len() ==> crate::text::lower_code(a[i]) == crate::text::lower_code(b[i]));
    }
}

/// Progress as thousandths of a percent, from a fraction in thousandths,
/// clamped to the range 0 to 100 percent.
pub open spec fn spec_progress_milli_pct(frac_milli: i64) -> u64 {
    if frac_milli <= 0 {
        0
    } else if frac_milli >= 1000 {
        100000
    } else {
        (frac_milli * 100) as u64
    }
}

/// Convert a progress fraction (thousandths) to a clamped percentage
/// (thousandths of a percent).
pub fn progress_milli_pct(frac_milli: i64) -> (r: u64)
    ensures
        r == spec_progress_milli_pct(frac_milli),
{
    if frac_milli <= 0 {
        0
    } else if frac_milli >= 1000 {
        100000
    } else {
        (frac_milli * 100) as u64
    }
}

/// Whole seconds of a duration given in thousandths of a second; a
/// negative reading counts as zero.
pub open spec fn spec_secs_of_milli(m: i64) -> u64 {
    if m <= 0 {
        0
    } else {
        (m / 1000) as u64
    }
}

/// Convert a duration in thousandths of a second to whole seconds.
pub fn secs_of_milli(m: i64) -> (r: u64)
    ensures
        r == spec_secs_of_milli(m),
{
    if m <= 0 {
        0
    } else {
        (m / 1000) as u64
    }
}

/// The estimated seconds remaining: elapsed scaled by the inverse of
/// progress, less elapsed, computed only when progress is strictly
/// between 0 and 100 percent. The scaled total saturates at the largest
/// representable value.
pub open spec fn spec_eta_value(e: u64, p: u64) -> int
    recommends
        0 < p < 100000,
{
    vstd::math::min((e as int) * 100000 / (p as int), u64::MAX as int) - e
}

/// The remaining-time rule over optional inputs: absent elapsed time,
/// absent progress, 0 percent, or 100 percent all yield an absent
/// estimate.
pub open spec fn spec_eta(elapsed: Option<u64>, progress_milli_pct: Option<u64>) -> Option<u64> {
    match (elapsed, progress_milli_pct) {
        (Some(e), Some(p)) => {
            if 0 < p < 100000 {
                Some(spec_eta_value(e, p) as u64)
            } else {
                None
            }
        },
        _ => None,
    }
}

proof fn lemma_eta_value_bounds(e: u64, p: u64)
    requires
        0 < p < 100000,
    ensures
        0 <= spec_eta_value(e, p) <= u64::MAX,
{
    let total = (e as int) * 100000 / (p as int);
    lemma_mul_inequality(p as int, 100000, e as int);
    assert((e as int) * (p as int) <= (e as int) * 100000);
    lemma_div_is_ordered((e as int) * (p as int), (e as int) * 100000, p as int);
    lemma_div_multiples_vanish(e as int, p as int);
    assert((e as int) * (p as int) / (p as int) == e as int);
    assert(total >= e as int);
}

/// Estimate the seconds remaining for a job.
pub fn compute_eta(elapsed: Option<u64>, progress_milli_pct: Option<u64>) -> (r: Option<u64>)
    ensures
        r == spec_eta(elapsed, progress_milli_pct),
{
    match (elapsed, progress_milli_pct) {
        (Some(e), Some(p)) => {
            if 0 < p && p < 100000 {
                proof {
                    lemma_eta_value_bounds(e, p);
                }
                let scaled: u128 = (e as u128) * 100000 / (p as u128);
                let total: u64 = if scaled > u64::MAX as u128 {
                    u64::MAX
                } else {
                    scaled as u64
                };
                Some(total - e)
            } else {
                None
            }
        },
        _ => None,
    }
}

/// The `result.status` object of a firmware status document.
pub open spec fn spec_status(doc: DocValue) -> Option<DocValue> {
    spec_get2(doc, "result"@, "status"@)
}

/// A numeric leaf under the status object, if the whole path is present.
pub open spec fn spec_num_in(
    status: Option<DocValue>,
    outer: Seq<char>,
    inner: Seq<char>,
) -> Option<i64> {
    match status {
        Some(st) => spec_num_at(st, outer, inner),
        None => None,
    }
}

/// A text leaf under the status object, if the whole path is present.
pub open spec fn spec_text_in(
    status: Option<DocValue>,
    outer: Seq<char>,
    inner: Seq<char>,
) -> Option<Seq<char>> {
    match status {
        Some(st) => spec_text_at(st, outer, inner),
        None => None,
    }
}

/// The snapshot the mapper produces for a status document: temperatures
/// from the extruder and heater-bed sections, the job from the
/// print-stats and display-status sections, each field independently
/// optional.
pub open spec fn spec_map_snapshot(doc: DocValue) -> SnapshotView {
    let st = spec_status(doc);
    let progress = match spec_num_in(st, "display_status"@, "progress"@) {
        Some(f) => Some(spec_progress_milli_pct(f)),
        None => None,
    };
    let elapsed = match spec_num_in(st, "print_stats"@, "print_duration"@) {
        Some(m) => Some(spec_secs_of_milli(m)),
        None => None,
    };
    let total = match spec_num_in(st, "print_stats"@, "total_duration"@) {
        Some(m) => Some(spec_secs_of_milli(m)),
        None => None,
    };
    SnapshotView {
        temperatures: Some(
            Temperatures {
                nozzle_milli: spec_num_in(st, "extruder"@, "temperature"@),
                bed_milli: spec_num_in(st, "heater_bed"@, "temperature"@),
                chamber_milli: None,
            },
        ),
        job: Some(
            JobView {
                filename: spec_text_in(st, "print_stats"@, "filename"@),
                progress_milli_pct: progress,
                eta: spec_eta(elapsed, progress),
                elapsed_time: elapsed,
                state: spec_job_state(spec_text_in(st, "print_stats"@, "state"@)),
                totaltime: total,
            },
        ),
    }
}

/// Map a firmware status document to a snapshot. Total: any document —
/// including one standing in for an unparseable body — yields a snapshot
/// with the reachable fields filled and the rest absent.
pub fn map_snapshot(doc: &DocValue) -> (s: MoonrakerSnapshot)
    ensures
        s@ == spec_map_snapshot(*doc),
{
    let status = doc.get2("result", "status");
    let nozzle = opt_num_in(status, "extruder", "temperature");
    let bed = opt_num_in(status, "heater_bed", "temperature");
    let progress = match opt_num_in(status, "display_status", "progress") {
        Some(f) => Some(progress_milli_pct(f)),
        None => None,
    };
    let filename = opt_text_in(status, "print_stats", "filename");
    let elapsed = match opt_num_in(status, "print_stats", "print_duration") {
        Some(m) => Some(secs_of_milli(m)),
        None => None,
    };
    let total = match opt_num_in(status, "print_stats", "total_duration") {
        Some(m) => Some(secs_of_milli(m)),
        None => None,
    };
    let state_raw = opt_text_in(status, "print_stats", "state");
    let state = map_job_state(
        match &state_raw {
            Some(s) => Some(s.as_str()),
            None => None,
        },
    );
    let eta = compute_eta(elapsed, progress);
    MoonrakerSnapshot {
        temperatures: Some(
            Temperatures { nozzle_milli: nozzle, bed_milli: bed, chamber_milli: None },
        ),
        job: Some(
            Job {
                filename,
                progress_milli_pct: progress,
                eta,
                elapsed_time: elapsed,
                state,
                totaltime: total,
            },
        ),
    }
}

/// The value of an optional status reference, for stating contracts over
/// what `map_snapshot` saw.
pub open spec fn deref_status(status: Option<&DocValue>) -> Option<DocValue> {
    match status {
        Some(st) => Some(*st),
        None => None,
    }
}

/// The snapshot one fetch of the firmware status yields. `None` stands
/// for a transport failure; a response carries its status code and the
/// parsed document (or a null stand-in for an unparseable body).
pub open spec fn spec_snapshot_outcome(fetched: Option<(u16, DocValue)>) -> SnapshotView {
    match fetched {
        None => spec_empty_snapshot(),
        Some((status, doc)) => {
            if spec_is_success(status) {
                spec_map_snapshot(doc)
            } else {
                spec_empty_snapshot()
            }
        },
    }
}

/// The value of an optional response reference.
pub open spec fn deref_fetched(fetched: Option<(u16, &DocValue)>) -> Option<(u16, DocValue)> {
    match fetched {
        Some((status, doc)) => Some((status, *doc)),
        None => None,
    }
}

/// Turn one fetch of the firmware status into a snapshot. A transport
/// failure or a non-success status yields the empty snapshot — the local
/// controller is best-effort, and its unavailability must not interrupt
/// telemetry. This function never fails.
pub fn snapshot_for_fetch(fetched: Option<(u16, &DocValue)>) -> (s: MoonrakerSnapshot)
    ensures
        s@ == spec_snapshot_outcome(deref_fetched(fetched)),
{
    match fetched {
        None => MoonrakerSnapshot::empty(),
        Some((status, doc)) => {
            if is_success_status(status) {
                map_snapshot(doc)
            } else {
                MoonrakerSnapshot::empty()
            }
        },
    }
}

fn opt_num_in(status: Option<&DocValue>, outer: &str, inner: &str) -> (r: Option<i64>)
    ensures
        r == spec_num_in(deref_status(status), outer@, inner@),
{
    match status {
        Some(st) => num_at(st, outer, inner),
        None => None,
    }
}

fn opt_text_in(status: Option<&DocValue>, outer: &str, inner: &str) -> (r: Option<String>)
    ensures
        match r {
            Some(s) => spec_text_in(deref_status(status), outer@, inner@) == Some(s@),
            None => spec_text_in(deref_status(status), outer@, inner@) is None,
        },
{
    match status {
        Some(st) => text_at(st, outer, inner),
        None => None,
    }
}

} // verus!
