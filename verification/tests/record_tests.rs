use otel_sdk::handle_log;
use otel_sdk::is_runtime_log_level_enabled;
use otel_sdk::map_severity_to_otel_severity;
use otel_sdk::set_log_level;
use otel_sdk::update_severity;
use otel_sdk::AnyValue;
use otel_sdk::Component;
use otel_sdk::ExporterBuilder;
use otel_sdk::LogLevel;
use otel_sdk::LogLimits;
use otel_sdk::LogRecord;
use otel_sdk::Pillar;
use otel_sdk::Severity;
use otel_sdk::StringValue;
use otel_sdk::TelemetryLog;
use otel_sdk::TelemetrySink;
use otel_sdk::TraceContext;
use otel_sdk::any_value_eq;
use otel_sdk::new_exporter;

#[test]
fn test_severity_names_and_numbers() {
    assert_eq!(Severity::Trace.name(), "TRACE");
    assert_eq!(Severity::Debug4.name(), "DEBUG4");
    assert_eq!(Severity::Info.name(), "INFO");
    assert_eq!(Severity::Warn2.name(), "WARN2");
    assert_eq!(Severity::Error.name(), "ERROR");
    assert_eq!(Severity::Fatal4.name(), "FATAL4");
    assert_eq!(Severity::Trace.number(), 1);
    assert_eq!(Severity::Info.number(), 9);
    assert_eq!(Severity::Fatal4.number(), 24);
}

#[test]
fn test_map_severity_to_otel_severity() {
    assert_eq!(map_severity_to_otel_severity("INFO"), Severity::Info);
    assert_eq!(map_severity_to_otel_severity("DEBUG"), Severity::Debug);
    assert_eq!(map_severity_to_otel_severity("TRACE"), Severity::Trace);
    assert_eq!(map_severity_to_otel_severity("WARN"), Severity::Warn);
    assert_eq!(map_severity_to_otel_severity("ERROR"), Severity::Error);
    assert_eq!(map_severity_to_otel_severity("whatever"), Severity::Info);
}

#[test]
fn test_update_severity() {
    let mut record = LogRecord::new();
    update_severity(&mut record, "Warn");
    assert_eq!(record.severity_text.as_deref(), Some("Warn"));
    assert_eq!(record.severity_number, Some(Severity::Warn));
}

#[test]
fn test_record_builders() {
    let record = LogRecord::new()
        .with_timestamp(10)
        .with_observed_timestamp(11)
        .with_span_context(TraceContext { trace_id: 1, span_id: 2, trace_flags: Some(1) })
        .with_severity_text("warning".to_string())
        .with_severity_number(Severity::Warn)
        .with_body(AnyValue::Boolean(true));
    assert_eq!(record.timestamp, Some(10));
    assert_eq!(record.observed_timestamp, Some(11));
    assert_eq!(record.trace_context.unwrap().span_id, 2);
    assert_eq!(record.severity_text.as_deref(), Some("warning"));
    assert_eq!(record.severity_number, Some(Severity::Warn));
    assert!(matches!(record.body, Some(AnyValue::Boolean(true))));
}

#[test]
fn test_attributes_contains() {
    let mut record = LogRecord::new();
    record.add_attribute("k".to_string(), AnyValue::Int(3));
    record.add_attribute(
        "nested".to_string(),
        AnyValue::ListAny(vec![AnyValue::Int(1), AnyValue::Bytes(vec![7, 8])]),
    );
    assert!(record.attributes_contains("k", &AnyValue::Int(3)));
    assert!(!record.attributes_contains("k", &AnyValue::Int(4)));
    assert!(!record.attributes_contains("missing", &AnyValue::Int(3)));
    assert!(record.attributes_contains(
        "nested",
        &AnyValue::ListAny(vec![AnyValue::Int(1), AnyValue::Bytes(vec![7, 8])]),
    ));
    assert!(!record.attributes_contains(
        "nested",
        &AnyValue::ListAny(vec![AnyValue::Int(1), AnyValue::Bytes(vec![7, 9])]),
    ));
}

#[test]
fn test_any_value_eq_deep() {
    let a = AnyValue::ValueMap(vec![
        (
            StringValue::from_static("inner"),
            AnyValue::ListAny(vec![AnyValue::Double(2.5f64.to_bits()), AnyValue::Int(-1)]),
        ),
        (StringValue::from_static("s"), AnyValue::String(StringValue::from_static("x"))),
    ]);
    let b = a.clone();
    assert!(any_value_eq(&a, &b));

    let c = AnyValue::ValueMap(vec![
        (
            StringValue::from_static("inner"),
            AnyValue::ListAny(vec![AnyValue::Double(2.5f64.to_bits()), AnyValue::Int(-2)]),
        ),
        (StringValue::from_static("s"), AnyValue::String(StringValue::from_static("x"))),
    ]);
    assert!(!any_value_eq(&a, &c));
    assert!(!any_value_eq(&a, &AnyValue::Int(0)));
}

#[test]
fn test_string_value() {
    let s = StringValue::from_static("hello");
    assert_eq!(s.as_str(), "hello");
    let t = StringValue::from_string("world".to_string());
    assert_eq!(t.as_str(), "world");
}

#[test]
fn test_log_limits() {
    let limits = LogLimits::new();
    assert_eq!(limits.max_number_of_attributes(), 128);
    assert_eq!(limits.max_attribute_value_length(), 1024);
    let limits = limits.with_max_attributes(5).with_max_value_length(64);
    assert_eq!(limits.max_number_of_attributes(), 5);
    assert_eq!(limits.max_attribute_value_length(), 64);
}

#[test]
fn test_telemetry_sink_filters_by_level() {
    let mut sink = TelemetrySink::new();
    assert!(is_runtime_log_level_enabled(&sink, LogLevel::Info));
    assert!(!is_runtime_log_level_enabled(&sink, LogLevel::Debug));

    handle_log(
        &mut sink,
        TelemetryLog {
            level: LogLevel::Debug,
            pillar: Pillar::Logs,
            component: Component::Processor,
            message: "filtered".to_string(),
        },
    );
    assert_eq!(sink.len(), 0);

    set_log_level(&mut sink, LogLevel::Debug);
    assert!(is_runtime_log_level_enabled(&sink, LogLevel::Debug));
    handle_log(
        &mut sink,
        TelemetryLog {
            level: LogLevel::Debug,
            pillar: Pillar::Logs,
            component: Component::Processor,
            message: "recorded".to_string(),
        },
    );
    assert_eq!(sink.len(), 1);
}

#[test]
fn test_exporter_builder_validates_provider_name() {
    let builder: ExporterBuilder = new_exporter("myprovider123");
    assert!(builder.validate_config());

    let builder = new_exporter("My-Provider");
    assert!(!builder.validate_config());

    let builder = new_exporter("");
    assert!(builder.validate_config());

    let builder = new_exporter("abc").with_provider_group("group1");
    assert_eq!(builder.provider_group.as_deref(), Some("group1"));
    assert!(builder.validate_config());
}
