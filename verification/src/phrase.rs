use vstd::prelude::*;
use vstd::string::StrSliceExecFns;
use vstd::string::StringExecFns;

use chrono::Datelike;
use chrono::Timelike;

use crate::event::{Event, EventType, NotificationType, Status};

verus! {

// ---------------------------------------------------------------------------
// Localized phrase tables. Each is a total function over a closed enum, so a
// missing branch is a compile-time error rather than a runtime default.
// ---------------------------------------------------------------------------
/// The localized subject noun of a title: host or service.
pub open spec fn spec_title_type_name(t: EventType) -> Seq<char> {
    if t == EventType::Host {
        "ホスト"@
    } else {
        "サービス"@
    }
}

/// The localized tense phrase of a title: entered a problem state, or
/// returned to normal.
pub open spec fn spec_title_tense(n: NotificationType) -> Seq<char> {
    if n == NotificationType::Recovery {
        "が正常状態に復帰"@
    } else {
        "に問題が発生"@
    }
}

/// The full title: subject noun followed by tense phrase. It depends on the
/// event type and the notification type alone.
pub open spec fn spec_title(t: EventType, n: NotificationType) -> Seq<char> {
    spec_title_type_name(t) + spec_title_tense(n)
}

/// The host-status word of a host subject: a problem host is DOWN, a
/// recovered host is UP. Total over the two notification types.
pub open spec fn spec_host_status(n: NotificationType) -> Seq<char> {
    match n {
        NotificationType::Problem => "DOWN"@,
        NotificationType::Recovery => "UP"@,
    }
}

/// The localized status word. Only `Critical` differs between the two event
/// types: a critical host is worded as down, a critical service as fatal.
pub open spec fn spec_status_word(t: EventType, s: Status) -> Seq<char> {
    match s {
        Status::Okay => "回復"@,
        Status::Warning => "警告"@,
        Status::Critical => if t == EventType::Host {
            "ダウン"@
        } else {
            "致命的"@
        },
        Status::Unknown => "不明"@,
        Status::Unreachable => "到達不能（経路障害の可能性）"@,
    }
}

/// The status description of an event: the localized status word when a
/// status is present, absent otherwise. Absence propagates; it does not
/// default to any text at this layer.
pub open spec fn spec_status_description(t: EventType, s: Option<Status>) -> Option<Seq<char>> {
    match s {
        Some(st) => Some(spec_status_word(t, st)),
        None => None,
    }
}

/// The upper-case display word of a notification type, as it appears in
/// subject lines.
pub open spec fn spec_notification_word(n: NotificationType) -> Seq<char> {
    match n {
        NotificationType::Problem => "PROBLEM"@,
        NotificationType::Recovery => "RECOVERY"@,
    }
}

/// The upper-case display word of a status, as it appears in subject lines.
pub open spec fn spec_status_upper(s: Status) -> Seq<char> {
    match s {
        Status::Okay => "OK"@,
        Status::Warning => "WARNING"@,
        Status::Critical => "CRITICAL"@,
        Status::Unknown => "UNKNOWN"@,
        Status::Unreachable => "UNREACHABLE"@,
    }
}

/// The plain variant name of an event type, as the raw event shows it to the
/// template.
pub open spec fn spec_event_type_name(t: EventType) -> Seq<char> {
    match t {
        EventType::Host => "Host"@,
        EventType::Service => "Service"@,
    }
}

/// The plain variant name of a notification type, as the raw event shows it
/// to the template.
pub open spec fn spec_notification_name(n: NotificationType) -> Seq<char> {
    match n {
        NotificationType::Problem => "Problem"@,
        NotificationType::Recovery => "Recovery"@,
    }
}

/// The plain variant name of a status, as the raw event shows it to the
/// template.
pub open spec fn spec_status_name(s: Status) -> Seq<char> {
    match s {
        Status::Okay => "Ok"@,
        Status::Warning => "Warning"@,
        Status::Critical => "Critical"@,
        Status::Unknown => "Unknown"@,
        Status::Unreachable => "Unreachable"@,
    }
}

// ---------------------------------------------------------------------------
// Laws of the phrase tables.
// ---------------------------------------------------------------------------
/// The title is a function of the event type and the notification type alone:
/// two events that agree on those two fields have the same title, whatever
/// their status, host, service or other text.
pub proof fn lemma_title_depends_only_on_types(e1: Event, e2: Event)
    requires
        e1.event_type == e2.event_type,
        e1.notification_type == e2.notification_type,
    ensures
        spec_title(e1.event_type, e1.notification_type) == spec_title(
            e2.event_type,
            e2.notification_type,
        ),
{
}

/// The host-status word is exhaustive over the two notification types: a
/// problem is DOWN, a recovery is UP, and no third case exists.
pub proof fn lemma_host_status_total(n: NotificationType)
    ensures
        n == NotificationType::Problem ==> spec_host_status(n) == "DOWN"@,
        n == NotificationType::Recovery ==> spec_host_status(n) == "UP"@,
        spec_host_status(n) == "DOWN"@ || spec_host_status(n) == "UP"@,
{
    match n {
        NotificationType::Problem => {
        },
        NotificationType::Recovery => {
        },
    }
}

/// The status vocabulary differs between the two event types exactly at
/// `Critical`: a critical host is worded as down and a critical service as
/// fatal, while every other status is worded alike for both.
pub proof fn lemma_status_word_by_event_type(s: Status)
    ensures
        s != Status::Critical ==> spec_status_word(EventType::Host, s) == spec_status_word(
            EventType::Service,
            s,
        ),
        spec_status_word(EventType::Host, Status::Critical) == "ダウン"@,
        spec_status_word(EventType::Service, Status::Critical) == "致命的"@,
{
    match s {
        Status::Okay => {
        },
        Status::Warning => {
        },
        Status::Critical => {
        },
        Status::Unknown => {
        },
        Status::Unreachable => {
        },
    }
}

/// An absent status yields an absent description, for both event types:
/// absence propagates instead of defaulting to any wording.
pub proof fn lemma_status_description_absent(t: EventType, s: Option<Status>)
    requires
        s is None,
    ensures
        spec_status_description(t, s) is None,
{
}

// ---------------------------------------------------------------------------
// Executable phrase resolvers.
// ---------------------------------------------------------------------------
/// Whether this event concerns a whole host rather than a service.
pub fn is_host(event: &Event) -> (r: bool)
    ensures
        r == (event.event_type == EventType::Host),
{
    event.event_type == EventType::Host
}

/// The localized subject noun for the title.
pub fn title_type_name(event: &Event) -> (r: &str)
    ensures
        r@ == spec_title_type_name(event.event_type),
{
    if is_host(event) {
        "ホスト"
    } else {
        "サービス"
    }
}

/// The localized tense phrase for the title.
pub fn title_status_description(event: &Event) -> (r: &str)
    ensures
        r@ == spec_title_tense(event.notification_type),
{
    if event.notification_type == NotificationType::Recovery {
        "が正常状態に復帰"
    } else {
        "に問題が発生"
    }
}

/// The title of the notification body. For the two known notification types
/// it is the subject noun followed by the tense phrase; the generic fallback
/// branch is kept for defence although no third type exists.
pub fn title(event: &Event) -> (r: String)
    ensures
        r@ == spec_title(event.event_type, event.notification_type),
{
    if event.notification_type == NotificationType::Problem || event.notification_type
        == NotificationType::Recovery {
        let mut s = title_type_name(event).to_owned();
        s.append(title_status_description(event));
        s
    } else {
        proof {
            match event.notification_type {
                NotificationType::Problem => assert(event.notification_type
                    == NotificationType::Problem),
                NotificationType::Recovery => assert(event.notification_type
                    == NotificationType::Recovery),
            }
        }
        "何らかの問題が発生（詳細不明）".to_owned()
    }
}

/// The host-status word for a host subject.
pub fn host_status(event: &Event) -> (r: &str)
    ensures
        r@ == spec_host_status(event.notification_type),
{
    match event.notification_type {
        NotificationType::Problem => "DOWN",
        NotificationType::Recovery => "UP",
    }
}

/// The localized status description, absent when the event carries no status.
pub fn status_description(event: &Event) -> (r: Option<&str>)
    ensures
        r is Some <==> event.status is Some,
        r matches Some(w) ==> Some(w@) == spec_status_description(
            event.event_type,
            event.status,
        ),
{
    if is_host(event) {
        match event.status {
            Some(s) => Some(
                match s {
                    Status::Okay => "回復",
                    Status::Warning => "警告",
                    Status::Critical => "ダウン",
                    Status::Unknown => "不明",
                    Status::Unreachable => "到達不能（経路障害の可能性）",
                },
            ),
            None => None,
        }
    } else {
        match event.status {
            Some(s) => Some(
                match s {
                    Status::Okay => "回復",
                    Status::Warning => "警告",
                    Status::Critical => "致命的",
                    Status::Unknown => "不明",
                    Status::Unreachable => "到達不能（経路障害の可能性）",
                },
            ),
            None => None,
        }
    }
}

/// The upper-case display word of the notification type.
pub fn notification_word(n: NotificationType) -> (r: &'static str)
    ensures
        r@ == spec_notification_word(n),
{
    match n {
        NotificationType::Problem => "PROBLEM",
        NotificationType::Recovery => "RECOVERY",
    }
}

/// The upper-case display word of a status.
pub fn status_upper(s: Status) -> (r: &'static str)
    ensures
        r@ == spec_status_upper(s),
{
    match s {
        Status::Okay => "OK",
        Status::Warning => "WARNING",
        Status::Critical => "CRITICAL",
        Status::Unknown => "UNKNOWN",
        Status::Unreachable => "UNREACHABLE",
    }
}

/// The plain variant name of an event type.
pub fn event_type_name(t: EventType) -> (r: &'static str)
    ensures
        r@ == spec_event_type_name(t),
{
    match t {
        EventType::Host => "Host",
        EventType::Service => "Service",
    }
}

/// The plain variant name of a notification type.
pub fn notification_name(n: NotificationType) -> (r: &'static str)
    ensures
        r@ == spec_notification_name(n),
{
    match n {
        NotificationType::Problem => "Problem",
        NotificationType::Recovery => "Recovery",
    }
}

/// The plain variant name of a status.
pub fn status_name(s: Status) -> (r: &'static str)
    ensures
        r@ == spec_status_name(s),
{
    match s {
        Status::Okay => "Ok",
        Status::Warning => "Warning",
        Status::Critical => "Critical",
        Status::Unknown => "Unknown",
        Status::Unreachable => "Unreachable",
    }
}

// ---------------------------------------------------------------------------
// Datetime formatting. The source text is parsed by chrono; the localized
// month/day hour:minute rendering is produced here and proved exact. A text
// that does not parse degrades to a fixed placeholder instead of failing the
// run: a mislabeled alert is better than a suppressed one.
// ---------------------------------------------------------------------------
/// The month, day, hour and minute that the fixed source format
/// "Mon Jan 02 15:04:05 JST 2006" denotes, or nothing when the text does not
/// parse in that format.
pub uninterp spec fn datetime_parts_of(s: Seq<char>) -> Option<(u8, u8, u8, u8)>;

/// Relies on chrono::NaiveDateTime::parse_from_str with the fixed source
/// format "%a %b %d %H:%M:%S %Z %Y": the result depends on the input text
/// alone, and the month, day, hour and minute getters of a parsed value lie
/// in their calendar ranges.
#[verifier::external_body]
fn parse_datetime(s: &str) -> (r: Option<(u8, u8, u8, u8)>)
    ensures
        r == datetime_parts_of(s@),
        r matches Some(p) ==> 1 <= p.0 <= 12 && 1 <= p.1 <= 31 && p.2 < 24 && p.3 < 60,
{
    chrono::NaiveDateTime::parse_from_str(s, "%a %b %d %H:%M:%S %Z %Y").ok().map(
        |d| (d.month() as u8, d.day() as u8, d.hour() as u8, d.minute() as u8),
    )
}

/// The single decimal digit as text.
pub open spec fn spec_digit(d: u8) -> Seq<char> {
    if d == 0 {
        "0"@
    } else if d == 1 {
        "1"@
    } else if d == 2 {
        "2"@
    } else if d == 3 {
        "3"@
    } else if d == 4 {
        "4"@
    } else if d == 5 {
        "5"@
    } else if d == 6 {
        "6"@
    } else if d == 7 {
        "7"@
    } else if d == 8 {
        "8"@
    } else {
        "9"@
    }
}

/// A number below one hundred as two zero-padded decimal digits.
pub open spec fn spec_two_digit(n: u8) -> Seq<char> {
    spec_digit(n / 10) + spec_digit(n % 10)
}

fn digit(d: u8) -> (r: &'static str)
    requires
        d < 10,
    ensures
        r@ == spec_digit(d),
{
    if d == 0 {
        "0"
    } else if d == 1 {
        "1"
    } else if d == 2 {
        "2"
    } else if d == 3 {
        "3"
    } else if d == 4 {
        "4"
    } else if d == 5 {
        "5"
    } else if d == 6 {
        "6"
    } else if d == 7 {
        "7"
    } else if d == 8 {
        "8"
    } else {
        "9"
    }
}

fn two_digit(n: u8) -> (r: String)
    requires
        n < 100,
    ensures
        r@ == spec_two_digit(n),
{
    let mut s = digit(n / 10).to_owned();
    s.append(digit(n % 10));
    s
}

/// The localized rendering of a parsed datetime: zero-padded month and day,
/// then hour and minute; or the fixed placeholder for an unparsable text.
pub open spec fn spec_datetime_text(p: Option<(u8, u8, u8, u8)>) -> Seq<char> {
    match p {
        Some(q) => spec_two_digit(q.0) + "月"@ + spec_two_digit(q.1) + "日 "@ + spec_two_digit(
            q.2,
        ) + "時"@ + spec_two_digit(q.3) + "分"@,
        None => "不明"@,
    }
}

/// Reformat the event's datetime text into the localized month/day
/// hour:minute rendering; an unparsable text yields the fixed placeholder
/// rather than a failure.
pub fn datetime(event: &Event) -> (r: String)
    ensures
        r@ == spec_datetime_text(datetime_parts_of(event.datetime@)),
{
    match parse_datetime(event.datetime.as_str()) {
        Some(p) => {
            let mut s = two_digit(p.0);
            s.append("月");
            s.append(two_digit(p.1).as_str());
            s.append("日 ");
            s.append(two_digit(p.2).as_str());
            s.append("時");
            s.append(two_digit(p.3).as_str());
            s.append("分");
            proof {
                assert(s@ =~= spec_datetime_text(datetime_parts_of(event.datetime@)));
            }
            s
        },
        None => "不明".to_owned(),
    }
}

// ---------------------------------------------------------------------------
// The monitor name: the local machine's hostname, with a fixed fallback.
// ---------------------------------------------------------------------------
/// Relies on hostname::get for the local machine's name. The result depends
/// on the machine, so nothing is promised of it; an unreadable hostname, or
/// one that is not valid text, comes back as nothing.
#[verifier::external_body]
fn hostname_get() -> (r: Option<String>) {
    hostname::get().ok().and_then(|s| s.into_string().ok())
}

/// The monitor name derived from a hostname reading: the hostname itself when
/// one was obtained, the fixed fallback otherwise.
pub open spec fn spec_monitor_name(h: Option<String>) -> Seq<char> {
    match h {
        Some(s) => s@,
        None => "localhost"@,
    }
}

/// Turn a hostname reading into the monitor name: the hostname when
/// obtainable, the literal "localhost" otherwise. The fallback is deliberate
/// leniency, not a failure: an alert attributed to a placeholder is better
/// than one that is suppressed.
pub fn monitor_name(h: Option<String>) -> (r: String)
    ensures
        r@ == spec_monitor_name(h),
{
    match h {
        Some(s) => s,
        None => "localhost".to_owned(),
    }
}

/// Read the local machine's hostname once and resolve the monitor name from
/// it.
pub(crate) fn read_monitor() -> (r: String) {
    monitor_name(hostname_get())
}

} // verus!
