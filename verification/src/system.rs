//! The health and status endpoints.
//!
//! Each endpoint has two forms. `health_at` and `status_at` take everything
//! they report on as arguments. `health` and `status` read the clock and then
//! do as the first two say. The uptime that the status endpoint reports is
//! counted from the time the process started, which the caller keeps.

use vstd::prelude::*;
use crate::clock::{now, timestamp, timestamp_of, UnixTime};
use crate::errors::{response_of, AppError, AppErrorView, ErrorKind};
use crate::json::{json_object_text, json_response_view, object_response, JsonScalar, JsonValue};
use crate::response::Response;
use crate::text::failure_of;

verus! {

/// What the health endpoint reports as status.
pub const HEALTH_STATUS: &'static str = "health";

/// What the status endpoint reports of the database.
pub const DATABASE_CONNECTED: &'static str = "connected";

/// The detail of the error for a clock that gives no time to report.
pub const CLOCK_UNAVAILABLE: &'static str = "system clock is out of range";

/// What the health endpoint reports.
#[derive(Debug, Clone, PartialEq, Eq)]
pub struct HealthReport {
    pub status: String,
    pub timestamp: String,
}

/// What the status endpoint reports.
#[derive(Debug, Clone, PartialEq, Eq)]
pub struct StatusReport {
    pub version: String,
    pub uptime: u64,
    pub database: String,
    pub static_files: bool,
}

/// A health report as values.
pub struct HealthReportView {
    pub status: Seq<char>,
    pub timestamp: Seq<char>,
}

/// A status report as values.
pub struct StatusReportView {
    pub version: Seq<char>,
    pub uptime: u64,
    pub database: Seq<char>,
    pub static_files: bool,
}

impl View for HealthReport {
    type V = HealthReportView;

    open spec fn view(&self) -> HealthReportView {
        HealthReportView { status: self.status@, timestamp: self.timestamp@ }
    }
}

impl View for StatusReport {
    type V = StatusReportView;

    open spec fn view(&self) -> StatusReportView {
        StatusReportView {
            version: self.version@,
            uptime: self.uptime,
            database: self.database@,
            static_files: self.static_files,
        }
    }
}

/// The fields of a health report's body.
pub open spec fn health_fields(report: HealthReportView) -> Seq<(Seq<char>, JsonScalar)> {
    seq![
        ("status"@, JsonScalar::Text(report.status)),
        ("timestamp"@, JsonScalar::Text(report.timestamp)),
    ]
}

/// The fields of a status report's body.
pub open spec fn status_fields(report: StatusReportView) -> Seq<(Seq<char>, JsonScalar)> {
    seq![
        ("version"@, JsonScalar::Text(report.version)),
        ("uptime"@, JsonScalar::Number(report.uptime)),
        ("database"@, JsonScalar::Text(report.database)),
        ("static_files"@, JsonScalar::Flag(report.static_files)),
    ]
}

/// The error for a clock that gives no time to report.
pub open spec fn clock_error() -> AppErrorView {
    AppErrorView { kind: ErrorKind::Internal, detail: CLOCK_UNAVAILABLE@ }
}

/// What the health endpoint answers, where `failure` is the cause of a failed
/// storage probe and `timestamp` the time as text: the probe's failure as an
/// error of kind `Database`, whatever the time; else the report with that
/// timestamp; an error of kind `Internal` where there is no timestamp.
pub open spec fn health_answer(failure: Option<Seq<char>>, timestamp: Option<Seq<char>>) -> Result<
    HealthReportView,
    AppErrorView,
> {
    match failure {
        Some(cause) => Err(AppErrorView { kind: ErrorKind::Database, detail: cause }),
        None => match timestamp {
            Some(text) => Ok(HealthReportView { status: HEALTH_STATUS@, timestamp: text }),
            None => Err(clock_error()),
        },
    }
}

/// The whole seconds from `started` to `now`, both in seconds since the Unix
/// epoch, and 0 where the clock stands before the start.
pub open spec fn elapsed(started: u64, now: u64) -> u64 {
    if now >= started {
        (now - started) as u64
    } else {
        0
    }
}

/// What the status endpoint answers, where `started` is when the process
/// started and `now` the time, both in seconds since the Unix epoch: the
/// version, the seconds elapsed since the start as uptime, the database as
/// connected, and whether the static directory exists; an error of kind
/// `Internal` where there is no time.
pub open spec fn status_answer(
    version: Seq<char>,
    static_files: bool,
    started: u64,
    now: Option<u64>,
) -> Result<StatusReportView, AppErrorView> {
    match now {
        Some(secs) => Ok(
            StatusReportView {
                version,
                uptime: elapsed(started, secs),
                database: DATABASE_CONNECTED@,
                static_files,
            },
        ),
        None => Err(clock_error()),
    }
}

/// The view of a health answer.
pub open spec fn health_view(answer: Result<HealthReport, AppError>) -> Result<
    HealthReportView,
    AppErrorView,
> {
    match answer {
        Ok(report) => Ok(report@),
        Err(error) => Err(error@),
    }
}

/// The view of a status answer.
pub open spec fn status_view(answer: Result<StatusReport, AppError>) -> Result<
    StatusReportView,
    AppErrorView,
> {
    match answer {
        Ok(report) => Ok(report@),
        Err(error) => Err(error@),
    }
}

/// The seconds of a time.
pub open spec fn seconds_of(time: Option<UnixTime>) -> Option<u64> {
    match time {
        Some(at) => Some(at.secs),
        None => None,
    }
}

/// The text of a time, where it has one.
pub open spec fn text_of(time: Option<UnixTime>) -> Option<Seq<char>> {
    match time {
        Some(at) => timestamp_of(at),
        None => None,
    }
}

impl HealthReport {
    /// The fields of the body, in the order `status`, `timestamp`.
    pub fn body_fields(&self) -> (fields: Vec<(String, JsonValue)>)
        ensures
            fields.deep_view() == health_fields(self@),
    {
        let mut fields: Vec<(String, JsonValue)> = Vec::new();
        fields.push(("status".to_owned(), JsonValue::Text(self.status.clone())));
        fields.push(("timestamp".to_owned(), JsonValue::Text(self.timestamp.clone())));
        proof {
            assert(fields.deep_view() =~= health_fields(self@));
        }
        fields
    }

    /// The report as a response: status 200 and the fields as JSON.
    pub fn into_response(&self) -> (response: Response)
        ensures
            response@ == json_response_view(200, json_object_text(health_fields(self@))),
    {
        let fields = self.body_fields();
        object_response(200, &fields)
    }
}

impl StatusReport {
    /// The fields of the body, in the order `version`, `uptime`, `database`,
    /// `static_files`.
    pub fn body_fields(&self) -> (fields: Vec<(String, JsonValue)>)
        ensures
            fields.deep_view() == status_fields(self@),
    {
        let mut fields: Vec<(String, JsonValue)> = Vec::new();
        fields.push(("version".to_owned(), JsonValue::Text(self.version.clone())));
        fields.push(("uptime".to_owned(), JsonValue::Number(self.uptime)));
        fields.push(("database".to_owned(), JsonValue::Text(self.database.clone())));
        fields.push(("static_files".to_owned(), JsonValue::Flag(self.static_files)));
        proof {
            assert(fields.deep_view() =~= status_fields(self@));
        }
        fields
    }

    /// The report as a response: status 200 and the fields as JSON.
    pub fn into_response(&self) -> (response: Response)
        ensures
            response@ == json_response_view(200, json_object_text(status_fields(self@))),
    {
        let fields = self.body_fields();
        object_response(200, &fields)
    }
}

fn clock_unavailable() -> (error: AppError)
    ensures
        error@ == clock_error(),
{
    AppError::Internal(CLOCK_UNAVAILABLE.to_owned())
}

/// The health endpoint for a given timestamp. `probe` is the outcome of the
/// storage probe. A failed probe gives an error of kind `Database` with the
/// probe's cause as detail; a probe that passed gives the report with the
/// status `health` and the timestamp, or an error of kind `Internal` where
/// there is no timestamp.
pub fn health_at(probe: Result<(), String>, timestamp: Option<String>) -> (answer: Result<
    HealthReport,
    AppError,
>)
    ensures
        health_view(answer) == health_answer(failure_of(probe), timestamp.deep_view()),
{
    match probe {
        Err(cause) => Err(AppError::Database(cause)),
        Ok(_) => match timestamp {
            Some(text) => Ok(HealthReport { status: HEALTH_STATUS.to_owned(), timestamp: text }),
            None => Err(clock_unavailable()),
        },
    }
}

/// The uptime at `now` of a process that started at `started`, both in
/// seconds since the Unix epoch: the whole seconds elapsed, and 0 where the
/// clock stands before the start.
pub fn uptime(started: u64, now: u64) -> (secs: u64)
    ensures
        secs == elapsed(started, now),
{
    if now >= started {
        now - started
    } else {
        0
    }
}

/// The status endpoint at a given time. `started` is when the process
/// started and `now` the time, both in seconds since the Unix epoch. The
/// report holds the version, the seconds elapsed since the start as uptime,
/// the database as connected and `static_files`; where there is no time the
/// answer is an error of kind `Internal`.
pub fn status_at(version: &str, static_files: bool, started: u64, now: Option<u64>) -> (answer:
    Result<StatusReport, AppError>)
    ensures
        status_view(answer) == status_answer(version@, static_files, started, now),
{
    match now {
        Some(secs) => Ok(
            StatusReport {
                version: version.to_owned(),
                uptime: uptime(started, secs),
                database: DATABASE_CONNECTED.to_owned(),
                static_files,
            },
        ),
        None => Err(clock_unavailable()),
    }
}

/// The health endpoint, at the time the clock gives, written in RFC 3339
/// form: it answers as `health_at` does for the text of some time. In
/// particular a failed probe gives the error of kind `Database`.
pub fn health(probe: Result<(), String>) -> (answer: Result<HealthReport, AppError>)
    ensures
        exists|time: Option<UnixTime>|
            health_view(answer) == health_answer(failure_of(probe), #[trigger] text_of(time)),
        failure_of(probe) matches Some(cause) ==> health_view(answer) == Err::<
            HealthReportView,
            AppErrorView,
        >(AppErrorView { kind: ErrorKind::Database, detail: cause }),
{
    let time = now();
    let text = match time {
        Some(at) => timestamp(at),
        None => None,
    };
    assert(text.deep_view() == text_of(time));
    health_at(probe, text)
}

/// The status endpoint for a process that started at `started`, in seconds
/// since the Unix epoch, at the time the clock gives: it answers as
/// `status_at` does at some time.
pub fn status(version: &str, static_files: bool, started: u64) -> (answer: Result<
    StatusReport,
    AppError,
>)
    ensures
        exists|time: Option<UnixTime>|
            status_view(answer) == status_answer(
                version@,
                static_files,
                started,
                #[trigger] seconds_of(time),
            ),
{
    let time = now();
    let secs = match time {
        Some(at) => Some(at.secs),
        None => None,
    };
    assert(secs == seconds_of(time));
    status_at(version, static_files, started, secs)
}

/// The uptime counts from the start: it is 0 at the start and before it,
/// never more than the time since the epoch, and grows by one for each
/// second after the start.
pub proof fn lemma_uptime_counts_from_start(started: u64, now: u64)
    ensures
        elapsed(started, started) == 0,
        now <= started ==> elapsed(started, now) == 0,
        elapsed(started, now) <= now,
        now >= started ==> started + elapsed(started, now) == now,
{
}

/// A failed storage probe is answered with an error of kind `Database`,
/// whose response has status 500, whatever the time. The status endpoint
/// takes no probe: its answer is the same whether the probe fails or not.
pub proof fn lemma_failed_probe_is_database_error(cause: Seq<char>, timestamp: Option<Seq<char>>)
    ensures
        health_answer(Some(cause), timestamp) == Err::<HealthReportView, AppErrorView>(
            AppErrorView { kind: ErrorKind::Database, detail: cause },
        ),
        response_of(AppErrorView { kind: ErrorKind::Database, detail: cause }).status == 500,
{
}

} // verus!
