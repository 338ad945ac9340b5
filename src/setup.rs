use vstd::prelude::*;

verus! {

/// Seconds that the span exporter waits for the collector on each send.
pub const EXPORT_TIMEOUT_SECS: u64 = 3;

/// Most events that one exported span keeps.
pub const MAX_EVENTS_PER_SPAN: u32 = 64;

/// Most attributes that one exported span keeps.
pub const MAX_ATTRIBUTES_PER_SPAN: u32 = 16;

/// How finished spans are shipped to a remote collector over OTLP/gRPC.
#[derive(Debug, PartialEq, Eq)]
pub struct ExportSettings {
    /// Reported as the `service.name` resource of every span.
    pub service_name: String,
    /// Address of the collector.
    pub endpoint: String,
    pub timeout_secs: u64,
    pub max_events_per_span: u32,
    pub max_attributes_per_span: u32,
    /// Every span is recorded and exported: no sampling.
    pub sample_all: bool,
}

/// The composition of the global subscriber, one variant per row of the
/// selection table.
///
/// `default_filter` is the level filter used when the environment supplies
/// no filter expression of its own.
#[derive(Debug, PartialEq, Eq)]
pub enum LogSetup {
    /// JSON log lines, with spans exported to a remote collector.
    Exported { service_name: String, default_filter: String, export: ExportSettings },
    /// JSON log lines only.
    Json { service_name: String, default_filter: String },
    /// Human-readable lines, decorated as the two flags say.
    Plain { default_filter: String, with_file: bool, with_line_number: bool },
}

impl LogSetup {
    /// The filter used when the environment supplies none.
    pub open spec fn default_filter_view(&self) -> Seq<char> {
        match self {
            LogSetup::Exported { default_filter, .. } => default_filter@,
            LogSetup::Json { default_filter, .. } => default_filter@,
            LogSetup::Plain { default_filter, .. } => default_filter@,
        }
    }

    /// Records are written as JSON lines.
    pub open spec fn writes_json(&self) -> bool {
        !(self is Plain)
    }

    /// A remote span exporter is part of the composition.
    pub open spec fn exports_spans(&self) -> bool {
        self is Exported
    }

    /// Executable form of `exports_spans`.
    pub fn has_exporter(&self) -> (r: bool)
        ensures
            r == self.exports_spans(),
    {
        match self {
            LogSetup::Exported { .. } => true,
            _ => false,
        }
    }
}

/// The exporter settings for `service_name` and `endpoint`.
pub open spec fn is_otlp_export(s: ExportSettings, service_name: Seq<char>, endpoint: Seq<char>) -> bool {
    &&& s.service_name@ == service_name
    &&& s.endpoint@ == endpoint
    &&& s.timeout_secs == EXPORT_TIMEOUT_SECS
    &&& s.max_events_per_span == MAX_EVENTS_PER_SPAN
    &&& s.max_attributes_per_span == MAX_ATTRIBUTES_PER_SPAN
    &&& s.sample_all
}

/// Settings of the OTLP span exporter for one service: a fixed send timeout,
/// bounded events and attributes per span, every span sampled.
pub fn otlp_export(service_name: String, endpoint: String) -> (s: ExportSettings)
    ensures
        is_otlp_export(s, service_name@, endpoint@),
{
    ExportSettings {
        service_name,
        endpoint,
        timeout_secs: EXPORT_TIMEOUT_SECS,
        max_events_per_span: MAX_EVENTS_PER_SPAN,
        max_attributes_per_span: MAX_ATTRIBUTES_PER_SPAN,
        sample_all: true,
    }
}

/// The composition that `init_log` selects.
///
/// A configured endpoint always gives JSON lines plus span export, whatever
/// `with_json` says: a remote pipeline needs machine-readable, correlated
/// records. Without an endpoint `with_json` picks JSON or plain lines, and
/// plain lines carry the source file and line number.
pub open spec fn is_setup_for(
    r: LogSetup,
    app_name: Seq<char>,
    log_level: Seq<char>,
    endpoint: Option<Seq<char>>,
    with_json: bool,
) -> bool {
    &&& r.default_filter_view() == log_level
    &&& match endpoint {
        Some(e) => r matches LogSetup::Exported { service_name, export, .. }
            && service_name@ == app_name && is_otlp_export(export, app_name, e),
        None => if with_json {
            r matches LogSetup::Json { service_name, .. } && service_name@ == app_name
        } else {
            r matches LogSetup::Plain { with_file, with_line_number, .. } && with_file
                && with_line_number
        },
    }
}

/// Selects the subscriber composition for an application.
///
/// The caller builds the layers that the result names and installs them as
/// the process-wide default (see `TelemetryState`).
pub fn init_log(app_name: String, log_level: String, endpoint: Option<String>, with_json: bool) -> (r:
    LogSetup)
    ensures
        is_setup_for(
            r,
            app_name@,
            log_level@,
            match endpoint {
                Some(e) => Some(e@),
                None => None,
            },
            with_json,
        ),
        endpoint.is_some() ==> r.writes_json() && r.exports_spans(),
        endpoint.is_none() ==> !r.exports_spans() && (r.writes_json() == with_json),
{
    match endpoint {
        Some(e) => {
            let service_name = app_name.clone();
            LogSetup::Exported {
                service_name,
                default_filter: log_level,
                export: otlp_export(app_name, e),
            }
        },
        None => {
            if with_json {
                LogSetup::Json { service_name: app_name, default_filter: log_level }
            } else {
                LogSetup::Plain { default_filter: log_level, with_file: true, with_line_number: true }
            }
        },
    }
}

} // verus!
