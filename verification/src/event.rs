use vstd::prelude::*;
use vstd::string::StrSliceExecFns;

use crate::error::NotifyError;

verus! {

/// Whether the event concerns a whole host or one monitored service on a host.
#[derive(Copy, Clone, Debug, PartialEq, Eq, Structural)]
pub enum EventType {
    Host,
    Service,
}

/// Whether the event signals a new problem or the recovery from one.
#[derive(Copy, Clone, Debug, PartialEq, Eq, Structural)]
pub enum NotificationType {
    Problem,
    Recovery,
}

/// The check-result severity carried by an event.
#[derive(Copy, Clone, Debug, PartialEq, Eq, Structural)]
pub enum Status {
    Okay,
    Warning,
    Critical,
    Unknown,
    Unreachable,
}

/// One notification occurrence handed in by the monitoring caller.
///
/// Constructed once from process input and read-only thereafter. `host` and
/// `addresses` are required; the optional fields degrade to placeholder text
/// downstream rather than failing the run.
pub struct Event {
    pub event_type: EventType,
    pub notification_type: NotificationType,
    pub host: String,
    pub host_address: Option<String>,
    pub service: Option<String>,
    pub status: Option<Status>,
    pub output: Option<String>,
    pub datetime: String,
    pub addresses: String,
}

/// ASCII lower-casing of one character; anything outside 'A'..='Z' is unchanged.
pub open spec fn lower_char(c: char) -> char {
    if 'A' <= c && c <= 'Z' {
        ((c as u32) + 32) as char
    } else {
        c
    }
}

/// ASCII lower-casing of a character sequence.
pub open spec fn lower_seq(s: Seq<char>) -> Seq<char> {
    s.map_values(|c: char| lower_char(c))
}

fn lower_char_exec(c: char) -> (r: char)
    ensures
        r == lower_char(c),
{
    if 'A' <= c && c <= 'Z' {
        (((c as u8)) + 32) as char
    } else {
        c
    }
}

/// Case-insensitive match of `s` against the lower-case keyword `k`.
fn str_eq_ci(s: &str, k: &str) -> (r: bool)
    ensures
        r == (lower_seq(s@) == k@),
{
    let n = s.unicode_len();
    let m = k.unicode_len();
    if n != m {
        proof {
            if lower_seq(s@) == k@ {
                assert(lower_seq(s@).len() == k@.len());
            }
        }
        return false;
    }
    let mut i: usize = 0;
    while i < n
        invariant
            n == s@.len(),
            n == k@.len(),
            i <= n,
            forall|j: int| 0 <= j < i ==> lower_char(s@[j]) == k@[j],
        decreases n - i,
    {
        let c = s.get_char(i);
        let d = k.get_char(i);
        if lower_char_exec(c) != d {
            proof {
                if lower_seq(s@) == k@ {
                    assert(lower_seq(s@)[i as int] == k@[i as int]);
                }
            }
            return false;
        }
        i += 1;
    }
    proof {
        assert(lower_seq(s@) =~= k@);
    }
    true
}

/// The event-type symbol table: "host" and "service", matched without regard
/// to ASCII case. Anything else is an invalid event.
pub open spec fn spec_parse_event_type(s: Seq<char>) -> Result<EventType, NotifyError> {
    if lower_seq(s) == "host"@ {
        Ok(EventType::Host)
    } else if lower_seq(s) == "service"@ {
        Ok(EventType::Service)
    } else {
        Err(NotifyError::InvalidEvent)
    }
}

/// Decode an event type from its textual symbol, case-insensitively.
pub fn parse_event_type(s: &str) -> (r: Result<EventType, NotifyError>)
    ensures
        r == spec_parse_event_type(s@),
{
    if str_eq_ci(s, "host") {
        Ok(EventType::Host)
    } else if str_eq_ci(s, "service") {
        Ok(EventType::Service)
    } else {
        Err(NotifyError::InvalidEvent)
    }
}

/// The notification-type symbol table: "problem" and "recovery".
pub open spec fn spec_parse_notification_type(s: Seq<char>) -> Result<
    NotificationType,
    NotifyError,
> {
    if lower_seq(s) == "problem"@ {
        Ok(NotificationType::Problem)
    } else if lower_seq(s) == "recovery"@ {
        Ok(NotificationType::Recovery)
    } else {
        Err(NotifyError::InvalidEvent)
    }
}

/// Decode a notification type from its textual symbol, case-insensitively.
pub fn parse_notification_type(s: &str) -> (r: Result<NotificationType, NotifyError>)
    ensures
        r == spec_parse_notification_type(s@),
{
    if str_eq_ci(s, "problem") {
        Ok(NotificationType::Problem)
    } else if str_eq_ci(s, "recovery") {
        Ok(NotificationType::Recovery)
    } else {
        Err(NotifyError::InvalidEvent)
    }
}

/// The status symbol table: "ok", "warning", "critical", "unknown", "unreachable".
pub open spec fn spec_parse_status(s: Seq<char>) -> Result<Status, NotifyError> {
    if lower_seq(s) == "ok"@ {
        Ok(Status::Okay)
    } else if lower_seq(s) == "warning"@ {
        Ok(Status::Warning)
    } else if lower_seq(s) == "critical"@ {
        Ok(Status::Critical)
    } else if lower_seq(s) == "unknown"@ {
        Ok(Status::Unknown)
    } else if lower_seq(s) == "unreachable"@ {
        Ok(Status::Unreachable)
    } else {
        Err(NotifyError::InvalidEvent)
    }
}

/// Decode a status from its textual symbol, case-insensitively.
pub fn parse_status(s: &str) -> (r: Result<Status, NotifyError>)
    ensures
        r == spec_parse_status(s@),
{
    if str_eq_ci(s, "ok") {
        Ok(Status::Okay)
    } else if str_eq_ci(s, "warning") {
        Ok(Status::Warning)
    } else if str_eq_ci(s, "critical") {
        Ok(Status::Critical)
    } else if str_eq_ci(s, "unknown") {
        Ok(Status::Unknown)
    } else if str_eq_ci(s, "unreachable") {
        Ok(Status::Unreachable)
    } else {
        Err(NotifyError::InvalidEvent)
    }
}

impl Event {
    /// Decode the enumerated fields and assemble the full input record.
    ///
    /// Fails with `InvalidEvent` when an enum symbol matches nothing in its
    /// table; this precedes all rendering, so a malformed notification is
    /// never sent. The optional scalar fields pass through unexamined.
    pub fn parse(
        host: String,
        addresses: String,
        host_address: Option<String>,
        event_type: &str,
        datetime: String,
        notification_type: &str,
        service: Option<String>,
        status: Option<&str>,
        output: Option<String>,
    ) -> (r: Result<Event, NotifyError>)
        ensures
            match r {
                Ok(e) => {
                    &&& spec_parse_event_type(event_type@) == Ok::<EventType, NotifyError>(
                        e.event_type,
                    )
                    &&& spec_parse_notification_type(notification_type@) == Ok::<
                        NotificationType,
                        NotifyError,
                    >(e.notification_type)
                    &&& match status {
                        Some(s) => e.status matches Some(st) && spec_parse_status(s@) == Ok::<
                            Status,
                            NotifyError,
                        >(st),
                        None => e.status is None,
                    }
                    &&& e.host == host
                    &&& e.addresses == addresses
                    &&& e.host_address == host_address
                    &&& e.datetime == datetime
                    &&& e.service == service
                    &&& e.output == output
                },
                Err(err) => {
                    &&& err == NotifyError::InvalidEvent
                    &&& {
                        ||| spec_parse_event_type(event_type@) is Err
                        ||| spec_parse_notification_type(notification_type@) is Err
                        ||| (status matches Some(s) && spec_parse_status(s@) is Err)
                    }
                },
            },
    {
        let event_type = match parse_event_type(event_type) {
            Ok(t) => t,
            Err(e) => {
                return Err(e);
            },
        };
        let notification_type = match parse_notification_type(notification_type) {
            Ok(t) => t,
            Err(e) => {
                return Err(e);
            },
        };
        let status = match status {
            Some(s) => match parse_status(s) {
                Ok(st) => Some(st),
                Err(e) => {
                    return Err(e);
                },
            },
            None => None,
        };
        Ok(Event { event_type, notification_type, host, host_address, service, status, output, datetime, addresses })
    }
}

} // verus!
