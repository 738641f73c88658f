use otel_sdk::BatchConfig;
use otel_sdk::BatchConfigBuilder;
use otel_sdk::BatchLogProcessor;
use otel_sdk::InMemoryLogsExporterBuilder;
use otel_sdk::OTEL_BLRP_EXPORT_TIMEOUT;
use otel_sdk::OTEL_BLRP_EXPORT_TIMEOUT_DEFAULT;
use otel_sdk::OTEL_BLRP_MAX_EXPORT_BATCH_SIZE;
use otel_sdk::OTEL_BLRP_MAX_EXPORT_BATCH_SIZE_DEFAULT;
use otel_sdk::OTEL_BLRP_MAX_QUEUE_SIZE;
use otel_sdk::OTEL_BLRP_MAX_QUEUE_SIZE_DEFAULT;
use otel_sdk::OTEL_BLRP_SCHEDULE_DELAY;
use otel_sdk::OTEL_BLRP_SCHEDULE_DELAY_DEFAULT;

#[test]
fn test_default_const_values() {
    assert_eq!(OTEL_BLRP_SCHEDULE_DELAY, "OTEL_BLRP_SCHEDULE_DELAY");
    assert_eq!(OTEL_BLRP_SCHEDULE_DELAY_DEFAULT, 1_000);
    assert_eq!(OTEL_BLRP_EXPORT_TIMEOUT, "OTEL_BLRP_EXPORT_TIMEOUT");
    assert_eq!(OTEL_BLRP_EXPORT_TIMEOUT_DEFAULT, 30_000);
    assert_eq!(OTEL_BLRP_MAX_QUEUE_SIZE, "OTEL_BLRP_MAX_QUEUE_SIZE");
    assert_eq!(OTEL_BLRP_MAX_QUEUE_SIZE_DEFAULT, 2_048);
    assert_eq!(
        OTEL_BLRP_MAX_EXPORT_BATCH_SIZE,
        "OTEL_BLRP_MAX_EXPORT_BATCH_SIZE"
    );
    assert_eq!(OTEL_BLRP_MAX_EXPORT_BATCH_SIZE_DEFAULT, 512);
}

#[test]
fn test_default_batch_config_adheres_to_specification() {
    // No environment override is applied here, so every knob holds its
    // default value.
    let config = BatchConfig::default();

    assert_eq!(config.scheduled_delay, OTEL_BLRP_SCHEDULE_DELAY_DEFAULT);
    assert_eq!(config.max_export_timeout, OTEL_BLRP_EXPORT_TIMEOUT_DEFAULT);
    assert_eq!(config.max_queue_size, OTEL_BLRP_MAX_QUEUE_SIZE_DEFAULT);
    assert_eq!(
        config.max_export_batch_size,
        OTEL_BLRP_MAX_EXPORT_BATCH_SIZE_DEFAULT
    );
}

#[test]
fn test_batch_config_configurable_by_env_vars() {
    // The host parses OTEL_BLRP_SCHEDULE_DELAY=2000, OTEL_BLRP_EXPORT_TIMEOUT=60000,
    // OTEL_BLRP_MAX_QUEUE_SIZE=4096 and OTEL_BLRP_MAX_EXPORT_BATCH_SIZE=1024
    // and hands the parsed values over.
    let config = BatchConfigBuilder::default()
        .init_from_env_vars(Some(4096), Some(2000), Some(1024), Some(60000))
        .build();

    assert_eq!(config.scheduled_delay, 2000);
    assert_eq!(config.max_export_timeout, 60000);
    assert_eq!(config.max_queue_size, 4096);
    assert_eq!(config.max_export_batch_size, 1024);
}

#[test]
fn test_batch_config_max_export_batch_size_validation() {
    // OTEL_BLRP_MAX_QUEUE_SIZE=256 and OTEL_BLRP_MAX_EXPORT_BATCH_SIZE=1024:
    // the batch size is clamped to the queue size at build time.
    let config = BatchConfigBuilder::default()
        .init_from_env_vars(Some(256), None, Some(1024), None)
        .build();

    assert_eq!(config.max_queue_size, 256);
    assert_eq!(config.max_export_batch_size, 256);
    assert_eq!(config.scheduled_delay, OTEL_BLRP_SCHEDULE_DELAY_DEFAULT);
    assert_eq!(config.max_export_timeout, OTEL_BLRP_EXPORT_TIMEOUT_DEFAULT);
}

#[test]
fn test_batch_config_with_fields() {
    let batch = BatchConfigBuilder::default()
        .with_max_export_batch_size(1)
        .with_scheduled_delay(2)
        .with_max_export_timeout(3)
        .with_max_queue_size(4)
        .build();

    assert_eq!(batch.max_export_batch_size, 1);
    assert_eq!(batch.scheduled_delay, 2);
    assert_eq!(batch.max_export_timeout, 3);
    assert_eq!(batch.max_queue_size, 4);
}

#[test]
fn test_build_batch_log_processor_builder() {
    // OTEL_BLRP_MAX_EXPORT_BATCH_SIZE=500, an unparseable
    // OTEL_BLRP_SCHEDULE_DELAY ("I am not number" parses to nothing and
    // keeps the default), and OTEL_BLRP_EXPORT_TIMEOUT=2046.
    let config = BatchConfigBuilder::default()
        .init_from_env_vars(None, None, Some(500), Some(2046))
        .build();
    let builder =
        BatchLogProcessor::builder(InMemoryLogsExporterBuilder::default().build())
            .with_batch_config(config);

    assert_eq!(builder.config.max_export_batch_size, 500);
    assert_eq!(builder.config.scheduled_delay, OTEL_BLRP_SCHEDULE_DELAY_DEFAULT);
    assert_eq!(builder.config.max_queue_size, OTEL_BLRP_MAX_QUEUE_SIZE_DEFAULT);
    assert_eq!(builder.config.max_export_timeout, 2046);

    // The same overrides plus OTEL_BLRP_MAX_QUEUE_SIZE=120.
    let config = BatchConfigBuilder::default()
        .init_from_env_vars(Some(120), None, Some(500), Some(2046))
        .build();
    let builder =
        BatchLogProcessor::builder(InMemoryLogsExporterBuilder::default().build())
            .with_batch_config(config);
    assert_eq!(builder.config.max_export_batch_size, 120);
    assert_eq!(builder.config.max_queue_size, 120);
}

#[test]
fn test_build_batch_log_processor_builder_with_custom_config() {
    let expected = BatchConfigBuilder::default()
        .with_max_export_batch_size(1)
        .with_scheduled_delay(2)
        .with_max_export_timeout(3)
        .with_max_queue_size(4)
        .build();

    let builder = BatchLogProcessor::builder(InMemoryLogsExporterBuilder::default().build())
        .with_batch_config(expected);

    let actual = &builder.config;
    assert_eq!(actual.max_export_batch_size, 1);
    assert_eq!(actual.scheduled_delay, 2);
    assert_eq!(actual.max_export_timeout, 3);
    assert_eq!(actual.max_queue_size, 4);
}

#[test]
fn test_batch_size_never_exceeds_queue_size() {
    // The invariant holds even for an extreme request.
    let config = BatchConfigBuilder::default()
        .with_max_queue_size(10)
        .with_max_export_batch_size(usize::MAX)
        .build();
    assert!(config.max_export_batch_size <= config.max_queue_size);
    assert_eq!(config.max_export_batch_size, 10);
}
