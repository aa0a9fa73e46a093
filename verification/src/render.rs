use vstd::prelude::*;

use crate::error::NotifyError;
use crate::event::{Event, Status};
use crate::phrase::{
    datetime, datetime_parts_of, event_type_name, notification_name, spec_datetime_text,
    spec_event_type_name, spec_notification_name, spec_status_description, spec_status_name,
    spec_title, status_description, status_name, title,
};

verus! {

// ---------------------------------------------------------------------------
// A ghost model of the template context. The template engine sees a mapping
// from names to values; each value here is either null, a text, or a record
// of optional texts (the raw event). The model is what the rendering result
// is stated over.
// ---------------------------------------------------------------------------
/// One value bound to a name in the template context.
pub enum CtxEntry {
    Null,
    Text(Seq<char>),
    Record(Map<Seq<char>, Option<Seq<char>>>),
}

/// The mapping from names to values that a context holds.
pub uninterp spec fn context_model(c: tera::Context) -> Map<Seq<char>, CtxEntry>;

/// Whether the template text parses under the engine's syntax.
pub uninterp spec fn template_ok(template: Seq<char>) -> bool;

/// The text that rendering the template with the given context produces, or
/// nothing when parsing or rendering fails.
pub uninterp spec fn tera_rendered(template: Seq<char>, context: Map<Seq<char>, CtxEntry>) -> Option<
    Seq<char>,
>;

#[verifier::external_type_specification]
#[verifier::external_body]
pub struct ExTeraContext(tera::Context);

/// A template context under construction.
pub type TemplateContext = tera::Context;

/// The model of a context that holds nothing yet.
pub open spec fn empty_context_model() -> Map<Seq<char>, CtxEntry> {
    Map::<Seq<char>, CtxEntry>::empty()
}

/// Relies on tera::Context::new: the new context is empty.
#[verifier::external_body]
fn context_new() -> (r: TemplateContext)
    ensures
        context_model(r) == empty_context_model(),
{
    tera::Context::new()
}

/// Relies on tera::Context::insert: the value is serialized (a string stays
/// the same text) and bound to the key, replacing any earlier binding.
#[verifier::external_body]
fn context_insert_str(c: &mut tera::Context, key: &str, value: &str)
    ensures
        context_model(*final(c)) == context_model(*old(c)).insert(
            key@,
            CtxEntry::Text(value@),
        ),
{
    c.insert(key.to_owned(), value);
}

/// Relies on tera::Context::insert: an absent optional serializes to the
/// engine's null value, a present one to its text.
#[verifier::external_body]
fn context_insert_opt_str(c: &mut tera::Context, key: &str, value: Option<&str>)
    ensures
        context_model(*final(c)) == context_model(*old(c)).insert(
            key@,
            match value {
                Some(v) => CtxEntry::Text(v@),
                None => CtxEntry::Null,
            },
        ),
{
    c.insert(key.to_owned(), &value);
}

/// The record of raw event fields shown to the template, keyed by field name.
/// Enum fields appear under their plain variant names; absent optionals stay
/// absent.
pub open spec fn spec_event_record(e: Event) -> Map<Seq<char>, Option<Seq<char>>> {
    Map::<Seq<char>, Option<Seq<char>>>::empty().insert("host"@, Some(e.host@)).insert(
        "addresses"@,
        Some(e.addresses@),
    ).insert("host_address"@, spec_opt_text(e.host_address)).insert(
        "type"@,
        Some(spec_event_type_name(e.event_type)),
    ).insert("datetime"@, Some(e.datetime@)).insert(
        "notification_type"@,
        Some(spec_notification_name(e.notification_type)),
    ).insert("service"@, spec_opt_text(e.service)).insert(
        "status"@,
        spec_opt_status_name(e.status),
    ).insert("output"@, spec_opt_text(e.output))
}

/// The view of an optional text field.
pub open spec fn spec_opt_text(s: Option<String>) -> Option<Seq<char>> {
    match s {
        Some(x) => Some(x@),
        None => None,
    }
}

/// The variant name of an optional status field.
pub open spec fn spec_opt_status_name(s: Option<Status>) -> Option<Seq<char>> {
    match s {
        Some(st) => Some(spec_status_name(st)),
        None => None,
    }
}

/// Relies on tera::Context::insert with a string-keyed ordered map: the map
/// serializes to a record of the same keys and values (strings stay the same
/// text, absent optionals become null), bound under "args".
#[verifier::external_body]
fn context_insert_event(
    c: &mut tera::Context,
    e: &Event,
    type_text: &str,
    notification_text: &str,
    status_text: Option<&str>,
)
    requires
        type_text@ == spec_event_type_name(e.event_type),
        notification_text@ == spec_notification_name(e.notification_type),
        match e.status {
            Some(st) => status_text matches Some(w) && w@ == spec_status_name(st),
            None => status_text is None,
        },
    ensures
        context_model(*final(c)) == context_model(*old(c)).insert(
            "args"@,
            CtxEntry::Record(spec_event_record(*e)),
        ),
{
    let mut a = std::collections::BTreeMap::new();
    a.insert("host", Some(e.host.clone()));
    a.insert("addresses", Some(e.addresses.clone()));
    a.insert("host_address", e.host_address.clone());
    a.insert("type", Some(type_text.to_owned()));
    a.insert("datetime", Some(e.datetime.clone()));
    a.insert("notification_type", Some(notification_text.to_owned()));
    a.insert("service", e.service.clone());
    a.insert("status", status_text.map(|s| s.to_owned()));
    a.insert("output", e.output.clone());
    c.insert("args", &a);
}

/// Relies on tera::Tera::add_raw_template on a default engine: it succeeds
/// exactly when the template text parses, and parsing depends on the text
/// alone.
#[verifier::external_body]
fn template_parses(template: &str) -> (r: bool)
    ensures
        r == template_ok(template@),
{
    tera::Tera::default().add_raw_template("template.txt", template).is_ok()
}

/// Relies on tera::Tera::one_off on a default engine, with auto-escaping off:
/// the result depends on the template text and the context contents alone
/// (the engine's built-in filters, tests and functions are all deterministic),
/// and it is a text exactly when the template both parses and renders.
#[verifier::external_body]
fn render_one_off(template: &str, c: &tera::Context) -> (r: Option<String>)
    ensures
        r is Some <==> tera_rendered(template@, context_model(*c)) is Some,
        r matches Some(b) ==> Some(b@) == tera_rendered(template@, context_model(*c)),
{
    tera::Tera::one_off(template, c, false).ok()
}

// ---------------------------------------------------------------------------
// The verified context construction and body rendering.
// ---------------------------------------------------------------------------
/// The host address shown to the template: the field itself, or the "?"
/// placeholder when absent.
pub open spec fn spec_host_address(a: Option<String>) -> Seq<char> {
    match a {
        Some(x) => x@,
        None => "?"@,
    }
}

/// The status description entry: the localized word, or null when the event
/// carries no status.
pub open spec fn spec_status_description_entry(e: Event) -> CtxEntry {
    match spec_status_description(e.event_type, e.status) {
        Some(w) => CtxEntry::Text(w),
        None => CtxEntry::Null,
    }
}

/// The full template context of an event: the raw event record, the title,
/// the localized datetime, the monitor name, the host address with its
/// placeholder, and the status description.
pub open spec fn spec_context(e: Event, monitor: Seq<char>) -> Map<Seq<char>, CtxEntry> {
    Map::<Seq<char>, CtxEntry>::empty().insert(
        "args"@,
        CtxEntry::Record(spec_event_record(e)),
    ).insert("title"@, CtxEntry::Text(spec_title(e.event_type, e.notification_type))).insert(
        "datetime"@,
        CtxEntry::Text(spec_datetime_text(datetime_parts_of(e.datetime@))),
    ).insert("monitor"@, CtxEntry::Text(monitor)).insert(
        "host_address"@,
        CtxEntry::Text(spec_host_address(e.host_address)),
    ).insert("status_description"@, spec_status_description_entry(e))
}

/// Render the email body for an event: load the fixed template text, bind the
/// context and render. A template that does not parse is a load failure, one
/// that does not render is a render failure; both are fatal, no body is
/// produced. On success the body is exactly the engine's rendering of this
/// event's context.
pub fn create_body(event: &Event, monitor: &str, template: &str) -> (r: Result<
    String,
    NotifyError,
>)
    ensures
        match r {
            Ok(b) => template_ok(template@) && tera_rendered(
                template@,
                spec_context(*event, monitor@),
            ) == Some(b@),
            Err(e) => {
                ||| (e == NotifyError::TemplateLoadError && !template_ok(template@))
                ||| (e == NotifyError::TemplateRenderError && template_ok(template@)
                    && tera_rendered(template@, spec_context(*event, monitor@)) is None)
            },
        },
{
    if !template_parses(template) {
        return Err(NotifyError::TemplateLoadError);
    }
    let host_address: &str = match &event.host_address {
        Some(a) => a.as_str(),
        None => "?",
    };
    let title_text = title(event);
    let datetime_text = datetime(event);
    let status_word = status_description(event);
    let mut c = context_new();
    context_insert_event(
        &mut c,
        event,
        event_type_name(event.event_type),
        notification_name(event.notification_type),
        match event.status {
            Some(s) => Some(status_name(s)),
            None => None,
        },
    );
    context_insert_str(&mut c, "title", title_text.as_str());
    context_insert_str(&mut c, "datetime", datetime_text.as_str());
    context_insert_str(&mut c, "monitor", monitor);
    context_insert_str(&mut c, "host_address", host_address);
    context_insert_opt_str(&mut c, "status_description", status_word);
    proof {
        assert(context_model(c) == spec_context(*event, monitor@));
    }
    match render_one_off(template, &c) {
        Some(b) => Ok(b),
        None => Err(NotifyError::TemplateRenderError),
    }
}

} // verus!
