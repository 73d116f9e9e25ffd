//! The core of a site monitor: which sites are due for a check, what a
//! check's outcome means, when the operator is notified, and how the daemon
//! is started, found and stopped.
//!
//! Everything here is a function of plain values. Probing a site, reading the
//! registry, showing a notification and handling processes are the caller's
//! work; the caller hands the results in and carries the decisions out.
//!
//! * [`status`]: descriptions of HTTP status codes.
//! * [`checker`]: the outcome of one probe.
//! * [`site`]: the record of a monitored site and its downtime window.
//! * [`transition`]: from an outcome and the recorded state to the new record
//!   and the notification.
//! * [`scheduler`]: which sites a tick launches and when each is due again.
//! * [`notifier`]: the chain of notification backends and its audit log.
//! * [`service`]: the daemon's identity record and the start and stop
//!   procedures.
//! * [`commands`]: what the operator's commands decide and show.
//! * [`text`]: helpers on characters and numerals.

pub mod checker;
pub mod commands;
pub mod notifier;
pub mod scheduler;
pub mod service;
pub mod site;
pub mod status;
pub mod text;
pub mod transition;
