use vstd::prelude::*;

use crate::error::NotifyError;
use crate::event::Event;
use crate::mail::{spec_subject, subject};
use crate::phrase::read_monitor;
use crate::render::{create_body, spec_context, template_ok, tera_rendered};

verus! {

/// A rendered notification: the monitor name the run used, and the subject
/// and body computed with it.
pub struct Notification {
    pub monitor: String,
    pub subject: String,
    pub body: String,
}

/// What a successful rendering of `e` under `template`, attributed to
/// `monitor`, looks like: the notification carries that monitor name, its
/// subject is the subject line for it, and its body is the engine's rendering
/// of the event's context with it.
pub open spec fn renders(e: Event, template: Seq<char>, monitor: Seq<char>, n: Notification) -> bool {
    &&& n.monitor@ == monitor
    &&& n.subject@ == spec_subject(e, monitor)
    &&& template_ok(template)
    &&& tera_rendered(template, spec_context(e, monitor)) == Some(n.body@)
}

/// Render one event end to end: read the monitor name once, render the body
/// with it, and compute the subject with that same name, so the two always
/// agree within a run.
pub fn render_notification(event: &Event, template: &str) -> (r: Result<Notification, NotifyError>)
    ensures
        match r {
            Ok(n) => renders(*event, template@, n.monitor@, n),
            Err(e) => {
                ||| (e == NotifyError::TemplateLoadError && !template_ok(template@))
                ||| (e == NotifyError::TemplateRenderError && template_ok(template@) && exists|m:
                    Seq<char>|
                    tera_rendered(template@, spec_context(*event, m)) is None)
            },
        },
{
    let monitor = read_monitor();
    let body = match create_body(event, monitor.as_str(), template) {
        Ok(b) => b,
        Err(e) => {
            proof {
                if e == NotifyError::TemplateRenderError {
                    assert(tera_rendered(template@, spec_context(*event, monitor@)) is None);
                }
            }
            return Err(e);
        },
    };
    let subject_line = subject(event, monitor.as_str());
    Ok(Notification { monitor, subject: subject_line, body })
}

/// Rendering is repeatable: two successful renderings of the same event, with
/// the same template and the same monitor name, agree byte for byte on
/// subject and body.
pub proof fn lemma_render_deterministic(
    e: Event,
    template: Seq<char>,
    monitor: Seq<char>,
    n1: Notification,
    n2: Notification,
)
    requires
        renders(e, template, monitor, n1),
        renders(e, template, monitor, n2),
    ensures
        n1.subject@ == n2.subject@,
        n1.body@ == n2.body@,
{
}

} // verus!
