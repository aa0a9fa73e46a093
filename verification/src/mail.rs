use vstd::prelude::*;
use vstd::string::StringExecFns;

use crate::error::NotifyError;
use crate::event::{Event, EventType, Status};
use crate::phrase::{
    host_status, is_host, notification_word, spec_host_status, spec_notification_word,
    spec_status_upper, status_upper,
};

verus! {

// ---------------------------------------------------------------------------
// Configuration, owned by the delivery boundary: the SMTP endpoint, the
// credentials, and the sender address. Loaded once at process start and
// immutable for the run.
// ---------------------------------------------------------------------------
/// The `smtp` section of the configuration file.
pub struct Smtp {
    pub host: String,
    pub user_name: String,
    pub password: String,
    pub from: String,
}

/// The full configuration: one `smtp` section.
pub struct Config {
    pub smtp: Smtp,
}

// ---------------------------------------------------------------------------
// The subject line.
// ---------------------------------------------------------------------------
/// The service name shown in a service subject: the field itself, or the "?"
/// placeholder when absent.
pub open spec fn spec_service_text(s: Option<String>) -> Seq<char> {
    match s {
        Some(x) => x@,
        None => "?"@,
    }
}

/// The status word shown in a service subject: the upper-case status, or
/// UNKNOWN when the event carries no status.
pub open spec fn spec_subject_status(s: Option<Status>) -> Seq<char> {
    match s {
        Some(st) => spec_status_upper(st),
        None => "UNKNOWN"@,
    }
}

/// The one-line subject. A host subject names the host and its DOWN/UP word;
/// a service subject names host/service and the status word; both close with
/// the monitor attribution.
pub open spec fn spec_subject(e: Event, monitor: Seq<char>) -> Seq<char> {
    if e.event_type == EventType::Host {
        "["@ + spec_notification_word(e.notification_type) + "] "@ + spec_host_status(
            e.notification_type,
        ) + ": "@ + e.host@ + "    by "@ + monitor
    } else {
        "["@ + spec_notification_word(e.notification_type) + "] "@ + spec_subject_status(e.status)
            + ": "@ + e.host@ + "/"@ + spec_service_text(e.service) + "    by "@ + monitor
    }
}

/// Compute the subject line of the event, attributed to the given monitor.
pub fn subject(event: &Event, monitor: &str) -> (r: String)
    ensures
        r@ == spec_subject(*event, monitor@),
{
    let mut s = "[".to_owned();
    s.append(notification_word(event.notification_type));
    s.append("] ");
    if is_host(event) {
        s.append(host_status(event));
        s.append(": ");
        s.append(event.host.as_str());
    } else {
        match event.status {
            Some(st) => s.append(status_upper(st)),
            None => s.append("UNKNOWN"),
        }
        s.append(": ");
        s.append(event.host.as_str());
        s.append("/");
        match &event.service {
            Some(sv) => s.append(sv.as_str()),
            None => s.append("?"),
        }
    }
    s.append("    by ");
    s.append(monitor);
    proof {
        assert(s@ =~= spec_subject(*event, monitor@));
    }
    s
}

/// The fixed product identifier attached to every outgoing message.
pub open spec fn spec_mailer_name() -> Seq<char> {
    "Nagios Notify/0.1.0"@
}

/// The product/version identifying header value.
pub fn mailer_name() -> (r: String)
    ensures
        r@ == spec_mailer_name(),
{
    "Nagios Notify/0.1.0".to_owned()
}

// ---------------------------------------------------------------------------
// Addressing, behind lettre's RFC 2822 parsers.
// ---------------------------------------------------------------------------
#[verifier::external_type_specification]
#[verifier::external_body]
pub struct ExMailbox(lettre::message::Mailbox);

#[verifier::external_type_specification]
#[verifier::external_body]
pub struct ExMailboxes(lettre::message::Mailboxes);

#[verifier::external_type_specification]
#[verifier::external_body]
pub struct ExMessage(lettre::Message);

/// How many mailboxes the text parses to as a mailbox list, or nothing when
/// it is not a mailbox list at all. The empty text parses to zero mailboxes.
pub uninterp spec fn parsed_mailboxes(s: Seq<char>) -> Option<nat>;

/// The mailbox list that a successfully parsed text denotes.
pub uninterp spec fn mailboxes_of(s: Seq<char>) -> lettre::message::Mailboxes;

/// Whether the text parses as one mailbox.
pub uninterp spec fn mailbox_ok(s: Seq<char>) -> bool;

/// The mailbox that a successfully parsed text denotes.
pub uninterp spec fn mailbox_of(s: Seq<char>) -> lettre::message::Mailbox;

/// How many mailboxes a parsed list holds.
pub uninterp spec fn mailboxes_len(m: lettre::message::Mailboxes) -> nat;

/// Relies on lettre's `Mailboxes` parser (RFC 2822 mailbox-list): success,
/// the parsed list and its length depend on the text alone, and the empty
/// text is a successful parse of zero mailboxes.
#[verifier::external_body]
fn parse_mailboxes(s: &str) -> (r: Option<(lettre::message::Mailboxes, usize)>)
    ensures
        r is Some <==> parsed_mailboxes(s@) is Some,
        r matches Some(p) ==> Some(p.1 as nat) == parsed_mailboxes(s@) && mailboxes_len(p.0)
            == p.1 as nat && p.0 == mailboxes_of(s@),
{
    match s.parse::<lettre::message::Mailboxes>() {
        Ok(m) => {
            let n = m.iter().count();
            Some((m, n))
        },
        Err(_) => None,
    }
}

/// Relies on lettre's `Mailbox` parser (RFC 2822 mailbox): success and the
/// parsed mailbox depend on the text alone.
#[verifier::external_body]
fn parse_mailbox(s: &str) -> (r: Option<lettre::message::Mailbox>)
    ensures
        r is Some <==> mailbox_ok(s@),
        r matches Some(m) ==> m == mailbox_of(s@),
{
    s.parse::<lettre::message::Mailbox>().ok()
}

// What the assembled message holds. lettre's builder sets each of these
// fields deterministically from its arguments; only the Date header, which
// none of these names read, comes from the clock.
/// The From mailbox of an assembled message.
pub uninterp spec fn message_from(m: lettre::Message) -> lettre::message::Mailbox;

/// The Reply-To mailbox of an assembled message.
pub uninterp spec fn message_reply_to(m: lettre::Message) -> lettre::message::Mailbox;

/// The To mailbox list of an assembled message.
pub uninterp spec fn message_to(m: lettre::Message) -> lettre::message::Mailboxes;

/// The subject line of an assembled message.
pub uninterp spec fn message_subject(m: lettre::Message) -> Seq<char>;

/// The body text of an assembled message.
pub uninterp spec fn message_body(m: lettre::Message) -> Seq<char>;

/// Whether an assembled message carries the plain-text content type.
pub uninterp spec fn message_plain_text(m: lettre::Message) -> bool;

/// The user-agent (product identifier) header of an assembled message.
pub uninterp spec fn message_mailer(m: lettre::Message) -> Seq<char>;

/// Relies on lettre's message builder: with exactly one From mailbox, a
/// Reply-To, a non-empty To list, a subject, the fixed plain-text content
/// type, a user-agent header and a string body, assembly succeeds — its only
/// failure causes are a missing From, more than one From mailbox, or an empty
/// recipient list, all excluded here — and each set header and the body carry
/// over into the message unchanged.
#[verifier::external_body]
fn build_message(
    from: lettre::message::Mailbox,
    reply_to: lettre::message::Mailbox,
    to: lettre::message::Mailboxes,
    subject_line: &str,
    mailer: &str,
    body: &str,
) -> (r: lettre::Message)
    requires
        mailboxes_len(to) >= 1,
    ensures
        message_from(r) == from,
        message_reply_to(r) == reply_to,
        message_to(r) == to,
        message_subject(r) == subject_line@,
        message_body(r) == body@,
        message_plain_text(r),
        message_mailer(r) == mailer@,
{
    let to_header: lettre::message::header::To = to.into();
    lettre::Message::builder().from(from).reply_to(reply_to).mailbox(to_header).subject(
        subject_line,
    ).header(lettre::message::header::ContentType::TEXT_PLAIN).header(
        lettre::message::header::UserAgent::from(mailer.to_owned()),
    ).body(body.to_owned()).expect("assembly with a sender and a recipient")
}

// ---------------------------------------------------------------------------
// The verified assembler.
// ---------------------------------------------------------------------------
/// Whether the recipient field denotes one or more mailboxes.
pub open spec fn spec_recipients_ok(s: Seq<char>) -> bool {
    match parsed_mailboxes(s) {
        Some(n) => n >= 1,
        None => false,
    }
}

/// Package the final message: recipients from the event's address field, the
/// configured sender as From and Reply-To, the subject for this monitor, the
/// plain-text content type, the product header and the rendered body, all
/// carried into the message exactly.
///
/// Assembly is all-or-nothing and makes no network call: a recipient field
/// that does not denote at least one mailbox fails with `InvalidRecipients`,
/// and a malformed configured sender fails with `InvalidSender`, both before
/// any delivery can be attempted.
pub fn assemble(config: &Config, event: &Event, monitor: &str, body: &str) -> (r: Result<
    lettre::Message,
    NotifyError,
>)
    ensures
        match r {
            Ok(m) => {
                &&& spec_recipients_ok(event.addresses@)
                &&& mailbox_ok(config.smtp.from@)
                &&& message_from(m) == mailbox_of(config.smtp.from@)
                &&& message_reply_to(m) == mailbox_of(config.smtp.from@)
                &&& message_to(m) == mailboxes_of(event.addresses@)
                &&& message_subject(m) == spec_subject(*event, monitor@)
                &&& message_body(m) == body@
                &&& message_plain_text(m)
                &&& message_mailer(m) == spec_mailer_name()
            },
            Err(e) => {
                ||| (e == NotifyError::InvalidRecipients && !spec_recipients_ok(
                    event.addresses@,
                ))
                ||| (e == NotifyError::InvalidSender && spec_recipients_ok(event.addresses@)
                    && !mailbox_ok(config.smtp.from@))
            },
        },
{
    let to = match parse_mailboxes(event.addresses.as_str()) {
        Some(p) => p,
        None => {
            return Err(NotifyError::InvalidRecipients);
        },
    };
    if to.1 == 0 {
        return Err(NotifyError::InvalidRecipients);
    }
    let from = match parse_mailbox(config.smtp.from.as_str()) {
        Some(m) => m,
        None => {
            return Err(NotifyError::InvalidSender);
        },
    };
    let reply_to = match parse_mailbox(config.smtp.from.as_str()) {
        Some(m) => m,
        None => {
            return Err(NotifyError::InvalidSender);
        },
    };
    let subject_line = subject(event, monitor);
    let mailer = mailer_name();
    let msg = build_message(
        from,
        reply_to,
        to.0,
        subject_line.as_str(),
        mailer.as_str(),
        body,
    );
    Ok(msg)
}

} // verus!
