//! Selection of the process-wide log and trace sink, and the lifecycle of
//! the single global slot that holds it.
//!
//! The library decides; the caller performs. `init_log` turns the caller's
//! configuration into a [`LogSetup`] that names the layers to compose, and
//! [`TelemetryState`] records whether the global slot is taken and whether a
//! remote span exporter still needs a flush.

mod lifecycle;
mod setup;

pub use lifecycle::{
    installed, lemma_install_only_once, lemma_shutdown_flushes_once,
    lemma_shutdown_without_exporter_is_noop, shut_down, shut_down_n, InitError, TelemetryState,
};
pub use setup::{
    init_log, is_otlp_export, is_setup_for, otlp_export, ExportSettings, LogSetup,
    EXPORT_TIMEOUT_SECS, MAX_ATTRIBUTES_PER_SPAN, MAX_EVENTS_PER_SPAN,
};
