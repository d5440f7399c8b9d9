use agent_pipeline::config::JsonValue;
use agent_pipeline::logger::{
    ConfigError, ConsoleLogger, FileLogger, Level, Logger, LoggerManager,
};

#[test]
fn level_from_u32_maps_known_values() {
    assert_eq!(Level::from_u32(0), Level::Debug);
    assert_eq!(Level::from_u32(1), Level::Info);
    assert_eq!(Level::from_u32(2), Level::Warn);
    assert_eq!(Level::from_u32(3), Level::Error);
    assert_eq!(Level::from_u32(4), Level::Fatal);
    assert_eq!(Level::from_u32(5), Level::Trace);
    assert_eq!(Level::from_u32(1000), Level::Trace);
}

#[test]
fn console_logger_formats_with_default_pattern() {
    let logger = ConsoleLogger::new(Level::Debug);
    assert_eq!(
        logger.log("network", Level::Info, "Network started"),
        Some("2024-12-30 12:00:00 Info [network]: Network started".to_string())
    );
}

#[test]
fn console_logger_filters_below_threshold() {
    let logger = ConsoleLogger::new(Level::Error);
    assert_eq!(logger.log("core", Level::Info, "quiet"), None);
    assert!(logger.log("core", Level::Fatal, "loud").is_some());
    // Trace counts as the highest severity.
    assert!(logger.log("core", Level::Trace, "loudest").is_some());
}

#[test]
fn console_logger_filters_disabled_categories() {
    let mut logger = ConsoleLogger::new(Level::Debug);
    logger.disable_category("ui");
    assert_eq!(logger.log("ui", Level::Error, "hidden"), None);
    assert!(logger.log("net", Level::Error, "shown").is_some());
}

#[test]
fn console_logger_honors_custom_pattern() {
    let mut logger = ConsoleLogger::new(Level::Debug);
    logger.set_pattern("%L|%M");
    assert_eq!(
        logger.log("any", Level::Warn, "watch out"),
        Some("Warn|watch out".to_string())
    );
}

#[test]
fn file_logger_formats_and_keeps_file_name() {
    let logger = FileLogger::new(Level::Info, "app.log");
    assert_eq!(logger.file_name, "app.log");
    assert_eq!(
        logger.log("disk", Level::Error, "full"),
        Some("2024-12-30 12:00:00 Error [disk]: full".to_string())
    );
    assert_eq!(logger.log("disk", Level::Debug, "below threshold"), None);
}

fn obj(pairs: Vec<(&str, JsonValue)>) -> JsonValue {
    JsonValue::Obj(
        pairs
            .into_iter()
            .map(|(k, v)| (k.to_string(), v))
            .collect(),
    )
}

fn demo_config() -> JsonValue {
    obj(vec![
        ("globalLevel", JsonValue::UInt(1)),
        (
            "globalDisabledCategories",
            JsonValue::Arr(vec![JsonValue::Str("network".to_string())]),
        ),
        (
            "loggers",
            JsonValue::Arr(vec![
                obj(vec![
                    ("type", JsonValue::Str("console".to_string())),
                    ("level", JsonValue::UInt(0)),
                    ("pattern", JsonValue::Str("%D %T %L [%C]: %M".to_string())),
                    (
                        "disabledCategories",
                        JsonValue::Arr(vec![JsonValue::Str("ui".to_string())]),
                    ),
                ]),
                obj(vec![
                    ("type", JsonValue::Str("file".to_string())),
                    ("level", JsonValue::UInt(1)),
                    ("filename", JsonValue::Str("app.log".to_string())),
                    ("pattern", JsonValue::Str("%D %T %L [%C]: %M".to_string())),
                    (
                        "disabledCategories",
                        JsonValue::Arr(vec![JsonValue::Str("network".to_string())]),
                    ),
                ]),
            ]),
        ),
    ])
}

#[test]
fn configure_builds_both_loggers_and_applies_global_disables() {
    let mut manager = LoggerManager::new();
    assert_eq!(manager.configure(&demo_config()), Ok(()));

    // "network" is globally disabled; "ui" is disabled on the console
    // logger and below the file logger's threshold.
    assert!(manager.log("network", Level::Info, "Network started").is_empty());
    assert!(manager.log("ui", Level::Debug, "UI initialized").is_empty());

    // An ordinary category reaches both loggers, console first.
    let lines = manager.log("core", Level::Warn, "ready");
    assert_eq!(
        lines,
        vec![
            "2024-12-30 12:00:00 Warn [core]: ready".to_string(),
            "2024-12-30 12:00:00 Warn [core]: ready".to_string(),
        ]
    );

    // The console logger accepts Debug; the file logger starts at Info.
    let lines = manager.log("core", Level::Debug, "detail");
    assert_eq!(lines.len(), 1);
}

#[test]
fn configure_falls_back_to_one_console_logger() {
    let mut manager = LoggerManager::new();
    assert_eq!(manager.configure(&obj(vec![])), Ok(()));
    // The fallback logger runs at the global level, Trace by default.
    assert!(manager.log("any", Level::Trace, "x").len() == 1);
    assert!(manager.log("any", Level::Debug, "x").is_empty());
}

#[test]
fn configure_rejects_wrong_global_level_type() {
    let mut manager = LoggerManager::new();
    let config = obj(vec![("globalLevel", JsonValue::Str("high".to_string()))]);
    let err = manager.configure(&config).unwrap_err();
    assert_eq!(err, ConfigError::GlobalLevelType);
    assert_eq!(err.message(), "parameter globalLevel has wrong type");
}

#[test]
fn configure_rejects_wrong_global_disabled_categories_type() {
    let mut manager = LoggerManager::new();
    let config = obj(vec![("globalDisabledCategories", JsonValue::UInt(3))]);
    let err = manager.configure(&config).unwrap_err();
    assert_eq!(err, ConfigError::GlobalDisabledCategoriesType);
    assert_eq!(
        err.message(),
        "parameter globalDisabledCategories has wrong type"
    );
}

#[test]
fn configure_rejects_wrong_loggers_type() {
    let mut manager = LoggerManager::new();
    let config = obj(vec![("loggers", JsonValue::Str("console".to_string()))]);
    let err = manager.configure(&config).unwrap_err();
    assert_eq!(err, ConfigError::LoggersType);
    assert_eq!(err.message(), "loggers parameter has wrong type");
}

#[test]
fn configure_rejects_unknown_logger_type() {
    let mut manager = LoggerManager::new();
    let config = obj(vec![(
        "loggers",
        JsonValue::Arr(vec![obj(vec![(
            "type",
            JsonValue::Str("syslog".to_string()),
        )])]),
    )]);
    let err = manager.configure(&config).unwrap_err();
    assert_eq!(err, ConfigError::UnknownLoggerType);
    assert_eq!(err.message(), "Unknown logger type");
}

#[test]
fn configure_skips_entries_that_are_not_objects() {
    let mut manager = LoggerManager::new();
    let config = obj(vec![(
        "loggers",
        JsonValue::Arr(vec![
            JsonValue::Str("ignored".to_string()),
            obj(vec![
                ("type", JsonValue::Str("console".to_string())),
                ("level", JsonValue::UInt(0)),
            ]),
        ]),
    )]);
    assert_eq!(manager.configure(&config), Ok(()));
    assert_eq!(manager.log("core", Level::Debug, "m").len(), 1);
}

#[test]
fn manager_disable_category_reaches_every_logger() {
    let mut manager = LoggerManager::new();
    assert_eq!(manager.configure(&obj(vec![])), Ok(()));
    manager.disable_category("secret");
    assert!(manager.log("secret", Level::Fatal, "x").is_empty());
}

#[test]
fn json_value_lookup_reads_first_match() {
    let v = obj(vec![
        ("a", JsonValue::UInt(1)),
        ("a", JsonValue::UInt(2)),
        ("b", JsonValue::Str("text".to_string())),
    ]);
    assert_eq!(v.get("a").and_then(|x| x.as_u64()), Some(1));
    assert_eq!(v.get("b").and_then(|x| x.as_str()), Some("text"));
    assert!(v.get("missing").is_none());
    assert!(JsonValue::Null.get("a").is_none());
}
