use nagios_notify::error::NotifyError;
use nagios_notify::event::{parse_event_type, parse_notification_type, parse_status};
use nagios_notify::event::{Event, EventType, NotificationType, Status};
use nagios_notify::mail::{assemble, mailer_name, subject, Config, Smtp};
use nagios_notify::notify::render_notification;
use nagios_notify::phrase::{datetime, host_status, monitor_name, status_description, title};
use nagios_notify::render::create_body;

fn event(event_type: EventType, notification_type: NotificationType) -> Event {
    Event {
        event_type,
        notification_type,
        host: "web01".to_string(),
        host_address: Some("192.0.2.10".to_string()),
        service: Some("nginx".to_string()),
        status: Some(Status::Okay),
        output: Some("all good".to_string()),
        datetime: "Mon Jan 02 15:04:05 JST 2006".to_string(),
        addresses: "ops@example.com".to_string(),
    }
}

fn config(from: &str) -> Config {
    Config {
        smtp: Smtp {
            host: "smtp.example.com".to_string(),
            user_name: "user".to_string(),
            password: "secret".to_string(),
            from: from.to_string(),
        },
    }
}

// ---------------------------------------------------------------------------
// Titles.
// ---------------------------------------------------------------------------
#[test]
fn title_host_problem() {
    let e = event(EventType::Host, NotificationType::Problem);
    assert_eq!(title(&e), "ホストに問題が発生");
}

#[test]
fn title_service_recovery() {
    let e = event(EventType::Service, NotificationType::Recovery);
    assert_eq!(title(&e), "サービスが正常状態に復帰");
}

#[test]
fn title_ignores_everything_but_the_two_types() {
    let mut a = event(EventType::Service, NotificationType::Problem);
    let mut b = event(EventType::Service, NotificationType::Problem);
    a.host = "alpha".to_string();
    a.status = Some(Status::Critical);
    a.service = None;
    b.host = "beta".to_string();
    b.status = None;
    b.output = None;
    assert_eq!(title(&a), title(&b));
    assert_eq!(title(&a), "サービスに問題が発生");
}

// ---------------------------------------------------------------------------
// Host status word.
// ---------------------------------------------------------------------------
#[test]
fn host_status_problem_is_down() {
    let e = event(EventType::Host, NotificationType::Problem);
    assert_eq!(host_status(&e), "DOWN");
}

#[test]
fn host_status_recovery_is_up() {
    let e = event(EventType::Host, NotificationType::Recovery);
    assert_eq!(host_status(&e), "UP");
}

// ---------------------------------------------------------------------------
// Status descriptions.
// ---------------------------------------------------------------------------
#[test]
fn status_description_critical_differs_by_event_type() {
    let mut host_event = event(EventType::Host, NotificationType::Problem);
    host_event.status = Some(Status::Critical);
    let mut service_event = event(EventType::Service, NotificationType::Problem);
    service_event.status = Some(Status::Critical);
    assert_eq!(status_description(&host_event), Some("ダウン"));
    assert_eq!(status_description(&service_event), Some("致命的"));
}

#[test]
fn status_description_same_words_outside_critical() {
    for status in [Status::Okay, Status::Warning, Status::Unknown, Status::Unreachable] {
        let mut host_event = event(EventType::Host, NotificationType::Problem);
        host_event.status = Some(status);
        let mut service_event = event(EventType::Service, NotificationType::Problem);
        service_event.status = Some(status);
        assert_eq!(status_description(&host_event), status_description(&service_event));
    }
    let mut e = event(EventType::Host, NotificationType::Problem);
    e.status = Some(Status::Unreachable);
    assert_eq!(status_description(&e), Some("到達不能（経路障害の可能性）"));
}

#[test]
fn status_description_absent_status_stays_absent() {
    let mut host_event = event(EventType::Host, NotificationType::Problem);
    host_event.status = None;
    let mut service_event = event(EventType::Service, NotificationType::Problem);
    service_event.status = None;
    assert_eq!(status_description(&host_event), None);
    assert_eq!(status_description(&service_event), None);
}

// ---------------------------------------------------------------------------
// Datetime formatting.
// ---------------------------------------------------------------------------
#[test]
fn datetime_reformats_the_fixed_source_format() {
    let e = event(EventType::Host, NotificationType::Problem);
    assert_eq!(datetime(&e), "01月02日 15時04分");
}

#[test]
fn datetime_other_timezone_word_is_skipped() {
    let mut e = event(EventType::Host, NotificationType::Problem);
    e.datetime = "Tue Dec 31 23:59:59 UTC 2024".to_string();
    assert_eq!(datetime(&e), "12月31日 23時59分");
}

#[test]
fn datetime_empty_text_degrades_to_placeholder() {
    let mut e = event(EventType::Host, NotificationType::Problem);
    e.datetime = String::new();
    assert_eq!(datetime(&e), "不明");
}

#[test]
fn datetime_garbage_degrades_to_placeholder() {
    let mut e = event(EventType::Host, NotificationType::Problem);
    e.datetime = "yesterday around noon".to_string();
    assert_eq!(datetime(&e), "不明");
}

// ---------------------------------------------------------------------------
// Subjects.
// ---------------------------------------------------------------------------
#[test]
fn subject_host_problem() {
    let e = event(EventType::Host, NotificationType::Problem);
    assert_eq!(subject(&e, "mon1"), "[PROBLEM] DOWN: web01    by mon1");
}

#[test]
fn subject_service_recovery_ok() {
    let e = event(EventType::Service, NotificationType::Recovery);
    assert_eq!(subject(&e, "mon1"), "[RECOVERY] OK: web01/nginx    by mon1");
}

#[test]
fn subject_service_missing_service_uses_placeholder() {
    let mut e = event(EventType::Service, NotificationType::Problem);
    e.service = None;
    e.status = Some(Status::Critical);
    assert_eq!(subject(&e, "mon1"), "[PROBLEM] CRITICAL: web01/?    by mon1");
}

#[test]
fn subject_service_missing_status_says_unknown() {
    let mut e = event(EventType::Service, NotificationType::Problem);
    e.status = None;
    assert_eq!(subject(&e, "mon1"), "[PROBLEM] UNKNOWN: web01/nginx    by mon1");
}

// ---------------------------------------------------------------------------
// Enum decoding.
// ---------------------------------------------------------------------------
#[test]
fn enum_decoding_is_case_insensitive() {
    assert_eq!(parse_event_type("HOST"), Ok(EventType::Host));
    assert_eq!(parse_event_type("Service"), Ok(EventType::Service));
    assert_eq!(parse_notification_type("problem"), Ok(NotificationType::Problem));
    assert_eq!(parse_notification_type("RECOVERY"), Ok(NotificationType::Recovery));
    assert_eq!(parse_status("Ok"), Ok(Status::Okay));
    assert_eq!(parse_status("CRITICAL"), Ok(Status::Critical));
    assert_eq!(parse_status("unreachable"), Ok(Status::Unreachable));
}

#[test]
fn enum_decoding_rejects_unknown_symbols() {
    assert_eq!(parse_event_type("disk"), Err(NotifyError::InvalidEvent));
    assert_eq!(parse_event_type(""), Err(NotifyError::InvalidEvent));
    assert_eq!(parse_event_type("ホスト"), Err(NotifyError::InvalidEvent));
    assert_eq!(parse_notification_type("escalation"), Err(NotifyError::InvalidEvent));
    assert_eq!(parse_status("fine"), Err(NotifyError::InvalidEvent));
}

#[test]
fn event_parse_assembles_the_record() {
    let e = Event::parse(
        "web01".to_string(),
        "ops@example.com".to_string(),
        None,
        "service",
        "Mon Jan 02 15:04:05 JST 2006".to_string(),
        "PROBLEM",
        Some("nginx".to_string()),
        Some("warning"),
        None,
    )
    .unwrap();
    assert_eq!(e.event_type, EventType::Service);
    assert_eq!(e.notification_type, NotificationType::Problem);
    assert_eq!(e.status, Some(Status::Warning));
    assert_eq!(e.host, "web01");
    assert_eq!(e.host_address, None);
}

#[test]
fn event_parse_rejects_bad_status() {
    let r = Event::parse(
        "web01".to_string(),
        "ops@example.com".to_string(),
        None,
        "host",
        "x".to_string(),
        "problem",
        None,
        Some("broken"),
        None,
    );
    assert_eq!(r.err(), Some(NotifyError::InvalidEvent));
}

// ---------------------------------------------------------------------------
// Body rendering.
// ---------------------------------------------------------------------------
#[test]
fn body_binds_title_and_raw_event() {
    let e = event(EventType::Host, NotificationType::Problem);
    let body = create_body(&e, "mon1", "{{ title }} on {{ args.host }} at {{ datetime }} by {{ monitor }}")
        .unwrap();
    assert_eq!(body, "ホストに問題が発生 on web01 at 01月02日 15時04分 by mon1");
}

#[test]
fn body_binds_host_address_placeholder_and_status_description() {
    let mut e = event(EventType::Service, NotificationType::Problem);
    e.host_address = None;
    e.status = Some(Status::Critical);
    let body = create_body(&e, "mon1", "{{ host_address }}/{{ status_description }}").unwrap();
    assert_eq!(body, "?/致命的");
}

#[test]
fn body_tolerates_an_absent_status_description() {
    let mut e = event(EventType::Host, NotificationType::Problem);
    e.status = None;
    let body = create_body(&e, "mon1", "[{{ status_description }}]").unwrap();
    assert_eq!(body, "[]");
}

#[test]
fn body_template_that_does_not_parse_is_a_load_failure() {
    let e = event(EventType::Host, NotificationType::Problem);
    let r = create_body(&e, "mon1", "{% if %}");
    assert_eq!(r.err(), Some(NotifyError::TemplateLoadError));
}

#[test]
fn body_template_that_does_not_render_is_a_render_failure() {
    let e = event(EventType::Host, NotificationType::Problem);
    let r = create_body(&e, "mon1", "{{ title | int }}");
    assert_eq!(r.err(), Some(NotifyError::TemplateRenderError));
}

#[test]
fn rendering_twice_is_byte_identical() {
    let e = event(EventType::Service, NotificationType::Recovery);
    let template = "{{ title }}|{{ args.service }}|{{ datetime }}";
    let b1 = create_body(&e, "mon1", template).unwrap();
    let b2 = create_body(&e, "mon1", template).unwrap();
    assert_eq!(b1, b2);
    let s1 = subject(&e, "mon1");
    let s2 = subject(&e, "mon1");
    assert_eq!(s1, s2);
    let n1 = render_notification(&e, template).unwrap();
    let n2 = render_notification(&e, template).unwrap();
    assert_eq!(n1.subject, n2.subject);
    assert_eq!(n1.body, n2.body);
    assert_eq!(n1.monitor, n2.monitor);
}

// ---------------------------------------------------------------------------
// Assembly.
// ---------------------------------------------------------------------------
#[test]
fn assemble_accepts_valid_addressing() {
    let e = event(EventType::Host, NotificationType::Problem);
    let r = assemble(&config("noreply@example.com"), &e, "mon1", "body text");
    assert!(r.is_ok());
}

#[test]
fn assemble_accepts_a_mailbox_list() {
    let mut e = event(EventType::Host, NotificationType::Problem);
    e.addresses = "Ops <ops@example.com>, oncall@example.com".to_string();
    let r = assemble(&config("noreply@example.com"), &e, "mon1", "body text");
    assert!(r.is_ok());
}

#[test]
fn assemble_rejects_malformed_recipients_before_any_delivery() {
    let mut e = event(EventType::Host, NotificationType::Problem);
    e.addresses = "not an address".to_string();
    let r = assemble(&config("noreply@example.com"), &e, "mon1", "body text");
    assert_eq!(r.err(), Some(NotifyError::InvalidRecipients));
}

#[test]
fn assemble_rejects_an_empty_recipient_list() {
    let mut e = event(EventType::Host, NotificationType::Problem);
    e.addresses = String::new();
    let r = assemble(&config("noreply@example.com"), &e, "mon1", "body text");
    assert_eq!(r.err(), Some(NotifyError::InvalidRecipients));
}

#[test]
fn assemble_rejects_a_malformed_sender() {
    let e = event(EventType::Host, NotificationType::Problem);
    let r = assemble(&config("no such sender"), &e, "mon1", "body text");
    assert_eq!(r.err(), Some(NotifyError::InvalidSender));
}

// ---------------------------------------------------------------------------
// Fixed strings.
// ---------------------------------------------------------------------------
#[test]
fn monitor_name_uses_the_hostname_or_falls_back() {
    assert_eq!(monitor_name(Some("mon1".to_string())), "mon1");
    assert_eq!(monitor_name(None), "localhost");
}

#[test]
fn mailer_name_is_the_product_identifier() {
    assert_eq!(mailer_name(), "Nagios Notify/0.1.0");
}

#[test]
fn error_messages_name_each_failure() {
    assert_eq!(NotifyError::ConfigError.message(), "failed to load config file");
    assert_eq!(NotifyError::InvalidEvent.message(), "invalid event field");
    assert_eq!(NotifyError::TemplateLoadError.message(), "failed to load template");
    assert_eq!(NotifyError::TemplateRenderError.message(), "failed to render template");
    assert_eq!(NotifyError::InvalidRecipients.message(), "invalid recipient addresses");
    assert_eq!(NotifyError::InvalidSender.message(), "invalid sender address");
    assert_eq!(NotifyError::DeliveryError.message(), "failed to send email");
}
