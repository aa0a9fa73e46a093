use vstd::prelude::*;

verus! {

/// The failure taxonomy of the notification pipeline.
///
/// Every variant is terminal for the run: no failure is recovered locally and
/// nothing is retried. `ConfigError` and `DeliveryError` arise at the process
/// boundary (configuration loading and the SMTP transport); the other variants
/// are produced by the library itself.
#[derive(Copy, Clone, Debug, PartialEq, Eq, Structural)]
pub enum NotifyError {
    ConfigError,
    InvalidEvent,
    TemplateLoadError,
    TemplateRenderError,
    InvalidRecipients,
    InvalidSender,
    DeliveryError,
}

/// The fixed diagnostic line attached to each failure.
pub open spec fn spec_message(e: NotifyError) -> Seq<char> {
    match e {
        NotifyError::ConfigError => "failed to load config file"@,
        NotifyError::InvalidEvent => "invalid event field"@,
        NotifyError::TemplateLoadError => "failed to load template"@,
        NotifyError::TemplateRenderError => "failed to render template"@,
        NotifyError::InvalidRecipients => "invalid recipient addresses"@,
        NotifyError::InvalidSender => "invalid sender address"@,
        NotifyError::DeliveryError => "failed to send email"@,
    }
}

impl NotifyError {
    /// A fixed diagnostic line for this failure, for logs and operator output.
    pub fn message(&self) -> (r: &str)
        ensures
            r@ == spec_message(*self),
    {
        match self {
            NotifyError::ConfigError => "failed to load config file",
            NotifyError::InvalidEvent => "invalid event field",
            NotifyError::TemplateLoadError => "failed to load template",
            NotifyError::TemplateRenderError => "failed to render template",
            NotifyError::InvalidRecipients => "invalid recipient addresses",
            NotifyError::InvalidSender => "invalid sender address",
            NotifyError::DeliveryError => "failed to send email",
        }
    }
}

} // verus!
