//! A notification formatter and mailer for a host/service monitoring system.
//!
//! One invocation turns a single structured event (host, service, status,
//! notification type, timestamp) into a localized email: a one-line subject,
//! a templated body, and a send-ready message. The rendering rules live here,
//! verified; argument handling, configuration loading and the SMTP transport
//! are left to the surrounding program.

pub mod error;
pub mod event;
pub mod phrase;
pub mod render;
pub mod mail;
pub mod notify;
