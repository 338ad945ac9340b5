use telemetry_init::{
    init_log, otlp_export, ExportSettings, InitError, LogSetup, TelemetryState,
    EXPORT_TIMEOUT_SECS, MAX_ATTRIBUTES_PER_SPAN, MAX_EVENTS_PER_SPAN,
};

fn s(x: &str) -> String {
    x.to_string()
}

#[test]
fn no_endpoint_with_json_selects_json_lines() {
    let setup = init_log(s("billing"), s("info"), None, true);
    assert_eq!(
        setup,
        LogSetup::Json { service_name: s("billing"), default_filter: s("info") }
    );
    assert!(!setup.has_exporter());
}

#[test]
fn no_endpoint_without_json_selects_plain_lines_with_file_and_line() {
    let setup = init_log(s("billing"), s("debug"), None, false);
    assert_eq!(
        setup,
        LogSetup::Plain { default_filter: s("debug"), with_file: true, with_line_number: true }
    );
    assert!(!setup.has_exporter());
}

#[test]
fn endpoint_forces_json_even_when_plain_was_asked() {
    let setup = init_log(s("billing"), s("warn"), Some(s("some-address")), false);
    match setup {
        LogSetup::Exported { service_name, default_filter, export } => {
            assert_eq!(service_name, "billing");
            assert_eq!(default_filter, "warn");
            assert_eq!(export.endpoint, "some-address");
            assert_eq!(export.service_name, "billing");
        }
        other => panic!("expected an exporting setup, got {:?}", other),
    }
}

#[test]
fn endpoint_with_json_also_exports() {
    let setup = init_log(s("api"), s("info"), Some(s("http://collector:4317")), true);
    assert!(setup.has_exporter());
}

#[test]
fn otlp_settings_carry_fixed_limits() {
    let e = otlp_export(s("api"), s("http://collector:4317"));
    assert_eq!(
        e,
        ExportSettings {
            service_name: s("api"),
            endpoint: s("http://collector:4317"),
            timeout_secs: 3,
            max_events_per_span: 64,
            max_attributes_per_span: 16,
            sample_all: true,
        }
    );
    assert_eq!(EXPORT_TIMEOUT_SECS, 3);
    assert_eq!(MAX_EVENTS_PER_SPAN, 64);
    assert_eq!(MAX_ATTRIBUTES_PER_SPAN, 16);
}

#[test]
fn empty_strings_are_carried_through() {
    let setup = init_log(s(""), s(""), None, true);
    assert_eq!(setup, LogSetup::Json { service_name: s(""), default_filter: s("") });
}

#[test]
fn second_install_is_refused() {
    let mut state = TelemetryState::new();
    assert!(!state.is_initialized());
    let setup = init_log(s("app"), s("info"), None, true);
    assert_eq!(state.install(&setup), Ok(()));
    assert!(state.is_initialized());
    let again = init_log(s("app"), s("info"), Some(s("some-address")), false);
    assert_eq!(state.install(&again), Err(InitError::AlreadyInitialized));
    assert_eq!(state, TelemetryState::Initialized { exporter_live: false });
}

#[test]
fn install_after_shutdown_is_refused() {
    let mut state = TelemetryState::new();
    let setup = init_log(s("app"), s("info"), Some(s("some-address")), true);
    assert_eq!(state.install(&setup), Ok(()));
    assert!(state.shutdown());
    assert_eq!(state.install(&setup), Err(InitError::AlreadyInitialized));
}

#[test]
fn shutdown_without_exporter_is_noop() {
    let mut state = TelemetryState::new();
    assert!(!state.shutdown());
    assert_eq!(state, TelemetryState::Uninitialized);
    let setup = init_log(s("app"), s("info"), None, false);
    assert_eq!(state.install(&setup), Ok(()));
    assert!(!state.shutdown());
    assert_eq!(state, TelemetryState::Initialized { exporter_live: false });
}

#[test]
fn shutdown_after_export_flushes_once() {
    let mut state = TelemetryState::new();
    let setup = init_log(s("app"), s("info"), Some(s("some-address")), false);
    assert_eq!(state.install(&setup), Ok(()));
    assert_eq!(state, TelemetryState::Initialized { exporter_live: true });
    assert!(state.shutdown());
    assert!(!state.shutdown());
    assert_eq!(state, TelemetryState::Initialized { exporter_live: false });
}
