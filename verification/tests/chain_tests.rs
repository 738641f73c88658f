use otel_sdk::AnyValue;
use otel_sdk::BatchConfig;
use otel_sdk::BatchLogProcessor;
use otel_sdk::InMemoryLogsExporterBuilder;
use otel_sdk::InstrumentationScope;
use otel_sdk::LogManager;
use otel_sdk::LogProcessors;
use otel_sdk::LogRecord;
use otel_sdk::Processor1;
use otel_sdk::Processor2;
use otel_sdk::Resource;
use otel_sdk::Severity;
use otel_sdk::SimpleLogProcessor;
use otel_sdk::StringValue;

fn scope() -> InstrumentationScope {
    InstrumentationScope::new("chain-scope".to_string())
}

fn string_value(s: &'static str) -> AnyValue {
    AnyValue::String(StringValue::from_static(s))
}

#[test]
fn test_log_data_modification_by_multiple_processors() {
    // The first stage adds processed_by=FirstProcessor; the second stage
    // observes that mutation and the exporter downstream sees it too.
    let mut manager: LogManager<otel_sdk::InMemoryLogsExporter> = LogManager::new();
    manager.add_processor(LogProcessors::Processor1(Processor1 {
        key: "processed_by".to_string(),
        value: string_value("FirstProcessor"),
    }));
    manager.add_processor(LogProcessors::Processor2(Processor2 {
        expected_key: "processed_by".to_string(),
        expected_value: string_value("FirstProcessor"),
        key: "seen_by".to_string(),
        value: string_value("SecondProcessor"),
        observed: false,
    }));
    let exporter = InMemoryLogsExporterBuilder::default().build();
    manager.add_processor(LogProcessors::Simple(SimpleLogProcessor::new(exporter)));

    let mut record = LogRecord::new();
    let instrumentation = scope();
    manager.emit_all(&mut record, &instrumentation);

    assert!(record.attributes_contains("processed_by", &string_value("FirstProcessor")));
    match &manager.processors[1] {
        LogProcessors::Processor2(p) => assert!(p.observed),
        _ => unreachable!(),
    }
    match &manager.processors[2] {
        LogProcessors::Simple(p) => {
            let logs = p.exporter.get_emitted_logs();
            assert_eq!(logs.len(), 1);
            assert!(logs[0]
                .record
                .attributes_contains("processed_by", &string_value("FirstProcessor")));
            assert!(logs[0]
                .record
                .attributes_contains("seen_by", &string_value("SecondProcessor")));
        }
        _ => unreachable!(),
    }
}

#[test]
fn test_chain_ordering_through_batch_processor() {
    // Same chain, with a batching processor wired downstream: after a
    // flush the exporter holds the record with both attributes.
    let mut manager: LogManager<otel_sdk::InMemoryLogsExporter> = LogManager::new();
    manager.add_processor(LogProcessors::Processor1(Processor1 {
        key: "k".to_string(),
        value: string_value("v1"),
    }));
    manager.add_processor(LogProcessors::Processor2(Processor2 {
        expected_key: "k".to_string(),
        expected_value: string_value("v1"),
        key: "k2".to_string(),
        value: string_value("v2"),
        observed: false,
    }));
    let exporter = InMemoryLogsExporterBuilder::default().build();
    manager.add_processor(LogProcessors::Batch(BatchLogProcessor::new(
        exporter,
        BatchConfig::default(),
    )));

    let mut record = LogRecord::new();
    let instrumentation = scope();
    manager.emit_all(&mut record, &instrumentation);

    match &manager.processors[1] {
        LogProcessors::Processor2(p) => assert!(p.observed),
        _ => unreachable!(),
    }

    assert!(manager.force_flush_all().is_ok());
    match &manager.processors[2] {
        LogProcessors::Batch(p) => {
            let logs = p.exporter.get_emitted_logs();
            assert_eq!(logs.len(), 1);
            assert!(logs[0].record.attributes_contains("k", &string_value("v1")));
            assert!(logs[0].record.attributes_contains("k2", &string_value("v2")));
        }
        _ => unreachable!(),
    }
}

#[test]
fn test_chain_shutdown_and_flush_aggregate_results() {
    let mut manager: LogManager<otel_sdk::InMemoryLogsExporter> = LogManager::new();
    let exporter = InMemoryLogsExporterBuilder::default().build();
    manager.add_processor(LogProcessors::Simple(SimpleLogProcessor::new(exporter)));
    let exporter = InMemoryLogsExporterBuilder::default().build();
    manager.add_processor(LogProcessors::Batch(BatchLogProcessor::new(
        exporter,
        BatchConfig::default(),
    )));

    assert!(manager.force_flush_all().is_ok());
    assert!(manager.shutdown_all().is_ok());
    // Shutting down again reports the terminated batch worker, but still
    // walks every processor.
    assert!(manager.shutdown_all().is_err());
}

#[test]
fn test_set_resource_all_reaches_every_exporter() {
    let mut manager: LogManager<otel_sdk::InMemoryLogsExporter> = LogManager::new();
    let exporter = InMemoryLogsExporterBuilder::default().build();
    manager.add_processor(LogProcessors::Simple(SimpleLogProcessor::new(exporter)));
    let exporter = InMemoryLogsExporterBuilder::default().build();
    manager.add_processor(LogProcessors::Batch(BatchLogProcessor::new(
        exporter,
        BatchConfig::default(),
    )));

    let resource = Resource::new(vec![("host".to_string(), "a".to_string())]);
    manager.set_resource_all(&resource);
    match &manager.processors[0] {
        LogProcessors::Simple(p) => assert_eq!(p.exporter.resource.as_ref().unwrap().len(), 1),
        _ => unreachable!(),
    }
    // The batch processor forwards the snapshot when its worker runs.
    match &mut manager.processors[1] {
        LogProcessors::Batch(p) => {
            p.poll();
            assert_eq!(p.exporter.resource.as_ref().unwrap().len(), 1);
        }
        _ => unreachable!(),
    }
}

#[test]
fn test_event_enabled_all() {
    let mut manager: LogManager<otel_sdk::InMemoryLogsExporter> = LogManager::new();
    assert!(!manager.event_enabled_all(Severity::Info, "t", "n"));
    let exporter = InMemoryLogsExporterBuilder::default().build();
    manager.add_processor(LogProcessors::Simple(SimpleLogProcessor::new(exporter)));
    assert!(manager.event_enabled_all(Severity::Info, "t", "n"));
}
