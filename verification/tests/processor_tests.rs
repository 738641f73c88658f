use otel_sdk::BatchConfig;
use otel_sdk::BatchConfigBuilder;
use otel_sdk::BatchLogProcessor;
use otel_sdk::InMemoryLogsExporterBuilder;
use otel_sdk::InstrumentationScope;
use otel_sdk::LogError;
use otel_sdk::LogRecord;
use otel_sdk::Resource;
use otel_sdk::SimpleLogProcessor;

fn scope() -> InstrumentationScope {
    InstrumentationScope::new("test-scope".to_string())
}

#[test]
fn test_simple_shutdown() {
    let exporter = InMemoryLogsExporterBuilder::default()
        .keep_records_on_shutdown()
        .build();
    let mut processor = SimpleLogProcessor::new(exporter);

    let mut record = LogRecord::new();
    let instrumentation = scope();

    processor.emit(&mut record, &instrumentation);

    processor.shutdown().unwrap();

    let is_shutdown = processor.is_shutdown;
    assert!(is_shutdown);

    processor.emit(&mut record, &instrumentation);

    assert_eq!(1, processor.exporter.get_emitted_logs().len());
}

#[test]
fn test_batch_shutdown() {
    let exporter = InMemoryLogsExporterBuilder::default()
        .keep_records_on_shutdown()
        .build();
    let mut processor = BatchLogProcessor::new(exporter, BatchConfig::default());

    let record = LogRecord::new();
    let instrumentation = scope();

    processor.emit(&record, &instrumentation);
    processor.force_flush().unwrap();
    processor.shutdown().unwrap();
    // After shutdown, emitting is an inert no-op.
    processor.emit(&record, &instrumentation);
    assert_eq!(1, processor.exporter.get_emitted_logs().len());
}

#[test]
fn test_set_resource_simple_processor() {
    let exporter = InMemoryLogsExporterBuilder::default().build();
    let mut processor = SimpleLogProcessor::new(exporter);
    processor.set_resource(&Resource::new(vec![
        ("k1".to_string(), "v1".to_string()),
        ("k2".to_string(), "v3".to_string()),
        ("k3".to_string(), "v3".to_string()),
        ("k4".to_string(), "v4".to_string()),
        ("k5".to_string(), "v5".to_string()),
    ]));
    assert_eq!(processor.exporter.resource.as_ref().unwrap().len(), 5);
}

#[test]
fn test_set_resource_batch_processor() {
    let exporter = InMemoryLogsExporterBuilder::default().build();
    let mut processor = BatchLogProcessor::new(exporter, BatchConfig::default());
    processor.set_resource(&Resource::new(vec![
        ("k1".to_string(), "v1".to_string()),
        ("k2".to_string(), "v3".to_string()),
        ("k3".to_string(), "v3".to_string()),
        ("k4".to_string(), "v4".to_string()),
        ("k5".to_string(), "v5".to_string()),
    ]));
    // Propagation is asynchronous: the snapshot reaches the exporter when
    // the worker runs.
    processor.poll();
    assert_eq!(processor.exporter.resource.as_ref().unwrap().len(), 5);
    let _ = processor.shutdown();
}

#[test]
fn test_drop_under_pressure() {
    // Queue bound 3: of 5 records emitted with no draining, exactly 3 are
    // accepted and 2 are dropped with a report each; emit never blocks.
    let exporter = InMemoryLogsExporterBuilder::default().build();
    let config = BatchConfigBuilder::default()
        .with_max_queue_size(3)
        .with_max_export_batch_size(3)
        .build();
    let mut processor = BatchLogProcessor::new(exporter, config);
    let record = LogRecord::new();
    let instrumentation = scope();

    for _ in 0..5 {
        processor.emit(&record, &instrumentation);
    }
    assert_eq!(processor.sink.entries.len(), 2);
    assert_eq!(processor.exporter.exported_count(), 0);

    processor.shutdown().unwrap();
    assert_eq!(processor.exporter.exported_count(), 3);
}

#[test]
fn test_size_triggered_flush() {
    // Batch size 2 with a long timer period: two records trigger an
    // export as soon as the worker runs, with no tick and no flush.
    let exporter = InMemoryLogsExporterBuilder::default().build();
    let config = BatchConfigBuilder::default()
        .with_max_export_batch_size(2)
        .with_scheduled_delay(10_000)
        .build();
    let mut processor = BatchLogProcessor::new(exporter, config);
    let record = LogRecord::new();
    let instrumentation = scope();

    processor.emit(&record, &instrumentation);
    processor.emit(&record, &instrumentation);
    assert_eq!(processor.exporter.exported_count(), 0);

    processor.poll();
    assert_eq!(processor.exporter.exported_count(), 2);
    assert_eq!(processor.buffer.len(), 0);
}

#[test]
fn test_timer_triggered_flush() {
    // One record, below the batch size; the timer tick exports it.
    let exporter = InMemoryLogsExporterBuilder::default().build();
    let config = BatchConfigBuilder::default()
        .with_scheduled_delay(100)
        .build();
    let mut processor = BatchLogProcessor::new(exporter, config);
    let mut record = LogRecord::new();
    record = record.with_timestamp(7);
    let instrumentation = scope();

    processor.emit(&record, &instrumentation);
    assert_eq!(processor.exporter.exported_count(), 0);

    processor.tick();
    assert_eq!(processor.exporter.exported_count(), 1);
    let logs = processor.exporter.get_emitted_logs();
    assert_eq!(logs[0].record.timestamp, Some(7));
}

#[test]
fn test_flush_returns_after_export() {
    // force_flush returns only after the exporter saw the one-element
    // batch, and returns success when the exporter succeeded.
    let exporter = InMemoryLogsExporterBuilder::default().build();
    let mut processor = BatchLogProcessor::new(exporter, BatchConfig::default());
    let record = LogRecord::new();
    let instrumentation = scope();

    processor.emit(&record, &instrumentation);
    let result = processor.force_flush();
    assert!(result.is_ok());
    assert_eq!(processor.exporter.exported_count(), 1);
}

#[test]
fn test_flush_propagates_export_failure() {
    let exporter = InMemoryLogsExporterBuilder::default()
        .with_export_result(Err(LogError::ExportFailed))
        .build();
    let mut processor = BatchLogProcessor::new(exporter, BatchConfig::default());
    let record = LogRecord::new();
    let instrumentation = scope();

    processor.emit(&record, &instrumentation);
    let result = processor.force_flush();
    assert_eq!(result, Err(LogError::ExportFailed));
    // The batch is discarded, not retried: it still reached the exporter
    // exactly once.
    assert_eq!(processor.exporter.exported_count(), 1);
}

#[test]
fn test_shutdown_idempotence() {
    // After shutdown completes, emits are inert and do not error or
    // panic; a second shutdown reports the terminated worker.
    let exporter = InMemoryLogsExporterBuilder::default()
        .keep_records_on_shutdown()
        .build();
    let mut processor = BatchLogProcessor::new(exporter, BatchConfig::default());
    let record = LogRecord::new();
    let instrumentation = scope();

    processor.emit(&record, &instrumentation);
    processor.shutdown().unwrap();
    assert_eq!(processor.exporter.exported_count(), 1);

    processor.emit(&record, &instrumentation);
    processor.emit(&record, &instrumentation);
    assert_eq!(processor.exporter.exported_count(), 1);

    assert_eq!(processor.shutdown(), Err(LogError::AlreadyShutdown));
    assert_eq!(processor.force_flush(), Err(LogError::AlreadyShutdown));
}

#[test]
fn test_flush_reports_timeout_verdict() {
    // An exporter that loses the deadline race surfaces the timeout to
    // the flush caller; the call returns instead of hanging, and the
    // in-flight batch is discarded.
    let exporter = InMemoryLogsExporterBuilder::default()
        .with_export_result(Err(LogError::ExportTimedOut(50)))
        .build();
    let config = BatchConfigBuilder::default()
        .with_max_export_timeout(50)
        .build();
    let mut processor = BatchLogProcessor::new(exporter, config);
    let record = LogRecord::new();
    let instrumentation = scope();

    processor.emit(&record, &instrumentation);
    let result = processor.force_flush();
    assert_eq!(result, Err(LogError::ExportTimedOut(50)));
    assert_eq!(processor.buffer.len(), 0);
    assert_eq!(processor.queue.len(), 0);
}

#[test]
fn test_resource_propagates_to_exporter() {
    let exporter = InMemoryLogsExporterBuilder::default().build();
    let mut processor = BatchLogProcessor::new(exporter, BatchConfig::default());
    let resource = Resource::new(vec![
        ("k1".to_string(), "v1".to_string()),
        ("k2".to_string(), "v2".to_string()),
    ]);

    processor.set_resource(&resource);
    assert!(processor.exporter.resource.is_none());

    processor.poll();
    let held = processor.exporter.resource.as_ref().unwrap();
    assert_eq!(held.len(), 2);
    assert_eq!(held.attributes[0].0, "k1");
    assert_eq!(held.attributes[1].1, "v2");
}

#[test]
fn test_simple_processor_exports_synchronously() {
    let exporter = InMemoryLogsExporterBuilder::default().build();
    let mut processor = SimpleLogProcessor::new(exporter);
    let mut record = LogRecord::new();
    let instrumentation = scope();

    processor.emit(&mut record, &instrumentation);
    assert_eq!(processor.exporter.exported_count(), 1);
    assert!(processor.force_flush().is_ok());
}

#[test]
fn test_simple_processor_reports_failures_to_sink() {
    let exporter = InMemoryLogsExporterBuilder::default()
        .with_export_result(Err(LogError::ExportFailed))
        .build();
    let mut processor = SimpleLogProcessor::new(exporter);
    let mut record = LogRecord::new();
    let instrumentation = scope();

    processor.emit(&mut record, &instrumentation);
    assert_eq!(processor.sink.entries.len(), 1);
    assert_eq!(processor.exporter.exported_count(), 1);
}
