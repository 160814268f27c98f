use oslog::{
    complete_registration, init_once, Config, Emission, Level, LevelFilter, LoggerSlot, OsLogger,
    SinkHandle,
};

fn example_config() -> Config {
    Config::default()
        .with_subsystem(String::from("com.example.oslog"))
        .with_max_level(LevelFilter::Trace)
        .with_category_level_filter("Settings", LevelFilter::Warn)
        .with_category_level_filter("Database", LevelFilter::Error)
        .with_category_level_filter("Database", LevelFilter::Trace)
}

fn initialise(slot: &mut LoggerSlot, config: Config) {
    let requested = init_once(slot, config);
    let applied = complete_registration(slot, true, requested);
    assert_eq!(applied, requested);
}

fn expect_emitted(out: Option<Emission>, category: &str, level: Level, message: &str) -> bool {
    let emission = out.expect("the record is let through");
    assert_eq!(emission.sink.subsystem(), "com.example.oslog");
    assert_eq!(emission.sink.category(), category);
    assert_eq!(emission.level, level);
    assert_eq!(emission.message, message);
    emission.created
}

fn run_example_records(slot: &mut LoggerSlot) {
    let default_target = "oslog::logger::tests";

    // Below the threshold of its category.
    assert!(slot.log("Settings", Level::Info, "Info").is_none());

    assert!(!expect_emitted(slot.log("Settings", Level::Warn, "Warn"), "Settings", Level::Warn, "Warn"));
    assert!(!expect_emitted(
        slot.log("Settings", Level::Error, "Error"),
        "Settings",
        Level::Error,
        "Error"
    ));

    assert!(expect_emitted(
        slot.log(default_target, Level::Trace, "Trace"),
        default_target,
        Level::Trace,
        "Trace"
    ));
    assert!(!expect_emitted(
        slot.log(default_target, Level::Debug, "Debug"),
        default_target,
        Level::Debug,
        "Debug"
    ));
    assert!(!expect_emitted(
        slot.log(default_target, Level::Info, "Info"),
        default_target,
        Level::Info,
        "Info"
    ));
    assert!(!expect_emitted(slot.log("Database", Level::Warn, "Warn"), "Database", Level::Warn, "Warn"));
    assert!(!expect_emitted(
        slot.log(default_target, Level::Error, "Error"),
        default_target,
        Level::Error,
        "Error"
    ));
}

#[test]
fn test_basic_usage() {
    let mut slot = LoggerSlot::new();
    initialise(&mut slot, example_config());
    assert!(slot.is_initialized());
    run_example_records(&mut slot);

    let logger = slot.logger().expect("the slot holds a logger");
    assert_eq!(logger.config().category_count(), 3);
    assert_eq!(logger.config().category_level_filter("Settings"), Some(LevelFilter::Warn));
    assert_eq!(logger.config().category_level_filter("Database"), Some(LevelFilter::Trace));
    assert_eq!(logger.config().category_level_filter("oslog::logger::tests"), None);
}

#[test]
fn test_multiple_initialization() {
    let mut slot = LoggerSlot::new();
    initialise(&mut slot, example_config());
    initialise(&mut slot, example_config());
    initialise(&mut slot, example_config());
    assert!(slot.is_initialized());
    run_example_records(&mut slot);
    assert_eq!(slot.logger().expect("a logger").config().category_count(), 3);
}

#[test]
fn second_initialisation_with_another_config_is_ignored() {
    let mut slot = LoggerSlot::new();
    let first = init_once(&mut slot, example_config());
    assert_eq!(first, Some(LevelFilter::Trace));

    let other = Config::default()
        .with_subsystem(String::from("org.other"))
        .with_max_level(LevelFilter::Off)
        .with_category_level_filter("Settings", LevelFilter::Off)
        .with_category_level_filter("Network", LevelFilter::Debug);
    let second = init_once(&mut slot, other);
    // The call reports what its own configuration asked for ...
    assert_eq!(second, Some(LevelFilter::Off));
    // ... but the logger of the first call is the one in the slot.
    let logger = slot.logger().expect("a logger");
    assert_eq!(logger.config().subsystem(), "com.example.oslog");
    assert_eq!(logger.config().max_level(), Some(LevelFilter::Trace));
    assert_eq!(logger.config().category_level_filter("Settings"), Some(LevelFilter::Warn));
    assert_eq!(logger.config().category_level_filter("Database"), Some(LevelFilter::Trace));
    assert!(!logger.config().has_category("Network"));
    assert_eq!(logger.config().category_count(), 2);
    assert!(slot.log("Settings", Level::Warn, "still routed").is_some());
}

#[test]
fn empty_slot_routes_nothing() {
    let mut slot = LoggerSlot::new();
    assert!(!slot.is_initialized());
    assert!(slot.logger().is_none());
    assert!(slot.log("Settings", Level::Error, "lost").is_none());
    assert!(slot.log_under("Settings", Level::Error, "lost", None).is_none());
    assert!(!slot.is_initialized());
}

#[test]
fn refused_registration_applies_nothing() {
    let mut slot = LoggerSlot::new();
    init_once(&mut slot, Config::default());
    assert_eq!(complete_registration(&mut slot, false, Some(LevelFilter::Info)), None);
    assert_eq!(complete_registration(&mut slot, false, None), None);
    assert_eq!(complete_registration(&mut slot, true, None), None);
    assert!(!slot.logger().expect("a logger").ambient_in_force());
    // Without an ambient threshold in force, and with nothing configured,
    // every record is let through.
    assert!(slot.log("Any", Level::Trace, "kept").is_some());
}

#[test]
fn registration_without_a_logger_applies_nothing() {
    let mut slot = LoggerSlot::new();
    assert_eq!(complete_registration(&mut slot, true, Some(LevelFilter::Info)), None);
    assert!(!slot.is_initialized());
}

#[test]
fn default_config_is_empty() {
    let config = Config::default();
    assert_eq!(config.subsystem(), "");
    assert_eq!(config.max_level(), None);
    assert_eq!(config.category_count(), 0);
    assert_eq!(config.category_level_filter("Settings"), None);
    assert!(!config.has_category("Settings"));
}

#[test]
fn permissive_without_any_threshold() {
    let mut logger = OsLogger::new(Config::default());
    assert!(!logger.ambient_in_force());
    assert_eq!(logger.configured_threshold("Anything"), None);
    for level in [Level::Error, Level::Warn, Level::Info, Level::Debug, Level::Trace] {
        assert!(logger.enabled("Anything", level));
        assert!(logger.enabled_under("Anything", level, None));
        let emission = logger.log("Anything", level, "kept").expect("let through");
        assert_eq!(emission.level, level);
    }
    // An entry without a threshold changes nothing about that.
    assert!(logger.config().has_category("Anything"));
    assert_eq!(logger.config().category_level_filter("Anything"), None);
    assert!(logger.enabled("Anything", Level::Trace));
}

#[test]
fn category_threshold_is_inclusive() {
    let logger = OsLogger::new(
        Config::default()
            .with_max_level(LevelFilter::Error)
            .with_category_level_filter("Settings", LevelFilter::Warn),
    );
    assert_eq!(logger.configured_threshold("Settings"), Some(LevelFilter::Warn));
    assert!(logger.enabled("Settings", Level::Error));
    assert!(logger.enabled("Settings", Level::Warn));
    assert!(!logger.enabled("Settings", Level::Info));
    assert!(!logger.enabled("Settings", Level::Debug));
    assert!(!logger.enabled("Settings", Level::Trace));
    // The category's own threshold wins over the ambient one as well.
    assert!(logger.enabled_under("Settings", Level::Warn, Some(LevelFilter::Off)));
    assert!(!logger.enabled_under("Settings", Level::Info, Some(LevelFilter::Trace)));
    // Another category falls under the default.
    assert_eq!(logger.configured_threshold("Other"), Some(LevelFilter::Error));
    assert!(logger.enabled("Other", Level::Error));
    assert!(!logger.enabled("Other", Level::Warn));
}

#[test]
fn off_rejects_even_errors() {
    let mut logger =
        OsLogger::new(Config::default().with_category_level_filter("Quiet", LevelFilter::Off));
    for level in [Level::Error, Level::Warn, Level::Info, Level::Debug, Level::Trace] {
        assert!(!logger.enabled("Quiet", level));
        assert!(!logger.enabled_under("Quiet", level, Some(LevelFilter::Trace)));
        assert!(logger.log("Quiet", level, "dropped").is_none());
    }
    assert_eq!(logger.config().category_count(), 1);
}

#[test]
fn ambient_threshold_applies_last() {
    let logger = OsLogger::new(Config::default());
    assert!(logger.enabled_under("Any", Level::Info, Some(LevelFilter::Info)));
    assert!(!logger.enabled_under("Any", Level::Debug, Some(LevelFilter::Info)));
    assert!(!logger.enabled_under("Any", Level::Error, Some(LevelFilter::Off)));
    let with_default = OsLogger::new(Config::default().with_max_level(LevelFilter::Debug));
    assert!(with_default.enabled_under("Any", Level::Debug, Some(LevelFilter::Off)));
    assert!(!with_default.enabled_under("Any", Level::Trace, Some(LevelFilter::Trace)));
}

#[test]
fn enabled_registers_nothing() {
    let logger = OsLogger::new(Config::default().with_max_level(LevelFilter::Trace));
    assert!(logger.enabled("Unseen", Level::Info));
    assert!(logger.enabled_under("Unseen", Level::Info, None));
    assert!(!logger.config().has_category("Unseen"));
    assert_eq!(logger.config().category_level_filter("Unseen"), None);
    assert_eq!(logger.config().category_count(), 0);
}

#[test]
fn suppressed_record_registers_nothing() {
    let mut logger = OsLogger::new(Config::default().with_max_level(LevelFilter::Warn));
    assert!(logger.log("Unseen", Level::Info, "dropped").is_none());
    assert!(!logger.config().has_category("Unseen"));
    assert_eq!(logger.config().category_count(), 0);
}

#[test]
fn category_is_registered_once() {
    let mut logger = OsLogger::new(
        Config::default().with_subsystem(String::from("sub")).with_max_level(LevelFilter::Trace),
    );
    let first = logger.log("Fresh", Level::Info, "one").expect("let through");
    assert!(first.created);
    assert_eq!(first.sink.subsystem(), "sub");
    assert_eq!(first.sink.category(), "Fresh");
    assert_eq!(first.message, "one");
    assert_eq!(first.level, Level::Info);
    assert_eq!(logger.config().category_count(), 1);
    for _ in 0..16 {
        let next = logger.log("Fresh", Level::Error, "again").expect("let through");
        assert!(!next.created);
        assert_eq!(next.sink.subsystem(), "sub");
        assert_eq!(next.sink.category(), "Fresh");
    }
    assert_eq!(logger.config().category_count(), 1);
    assert!(logger.config().has_category("Fresh"));
    // Registering by a record sets no threshold.
    assert_eq!(logger.config().category_level_filter("Fresh"), None);
    assert!(logger.log("Other", Level::Info, "two").expect("let through").created);
    assert_eq!(logger.config().category_count(), 2);
}

#[test]
fn later_override_replaces_earlier() {
    let config = Config::default()
        .with_category_level_filter("Database", LevelFilter::Error)
        .with_category_level_filter("Database", LevelFilter::Trace);
    assert_eq!(config.category_level_filter("Database"), Some(LevelFilter::Trace));
    assert_eq!(config.category_count(), 1);
    let config = config.with_category_level_filter("Database", LevelFilter::Off);
    assert_eq!(config.category_level_filter("Database"), Some(LevelFilter::Off));
    assert_eq!(config.category_count(), 1);
}

#[test]
fn subsystem_set_after_a_category_applies_to_it() {
    let config = Config::default()
        .with_category_level_filter("Settings", LevelFilter::Warn)
        .with_subsystem(String::from("com.example.oslog"));
    assert_eq!(config.subsystem(), "com.example.oslog");
    assert_eq!(config.max_level(), None);
    assert_eq!(config.category_level_filter("Settings"), Some(LevelFilter::Warn));
    assert_eq!(config.category_count(), 1);
    let sinks = config.sinks();
    assert_eq!(sinks.len(), 1);
    assert_eq!(sinks[0].subsystem(), "com.example.oslog");
    assert_eq!(sinks[0].category(), "Settings");

    let mut logger = OsLogger::new(config);
    let emission = logger.log("Settings", Level::Warn, "w").expect("let through");
    assert_eq!(emission.sink.subsystem(), "com.example.oslog");
    assert_eq!(emission.sink.category(), "Settings");
    assert!(!emission.created);
}

#[test]
fn builder_order_does_not_matter() {
    let one = Config::default()
        .with_subsystem(String::from("first"))
        .with_category_level_filter("A", LevelFilter::Info)
        .with_max_level(LevelFilter::Error)
        .with_subsystem(String::from("second"))
        .with_category_level_filter("B", LevelFilter::Debug);
    let other = Config::default()
        .with_category_level_filter("B", LevelFilter::Debug)
        .with_subsystem(String::from("second"))
        .with_category_level_filter("A", LevelFilter::Info)
        .with_max_level(LevelFilter::Error);
    for config in [one, other] {
        assert_eq!(config.subsystem(), "second");
        assert_eq!(config.max_level(), Some(LevelFilter::Error));
        assert_eq!(config.category_level_filter("A"), Some(LevelFilter::Info));
        assert_eq!(config.category_level_filter("B"), Some(LevelFilter::Debug));
        assert_eq!(config.category_count(), 2);
        let mut listed: Vec<(String, String)> = config
            .sinks()
            .iter()
            .map(|sink| (sink.category().to_owned(), sink.subsystem().to_owned()))
            .collect();
        listed.sort();
        assert_eq!(
            listed,
            vec![
                (String::from("A"), String::from("second")),
                (String::from("B"), String::from("second")),
            ]
        );
        let mut logger = OsLogger::new(config);
        let a = logger.log("A", Level::Info, "a").expect("let through");
        assert_eq!(a.sink.subsystem(), "second");
        let c = logger.log("C", Level::Error, "c").expect("let through");
        assert_eq!(c.sink.subsystem(), "second");
        assert!(c.created);
    }
}

#[test]
fn sinks_lists_every_category_once() {
    let config = Config::default().with_subsystem(String::from("sub"));
    assert!(config.sinks().is_empty());
    let mut logger = OsLogger::new(
        config
            .with_category_level_filter("A", LevelFilter::Off)
            .with_category_level_filter("A", LevelFilter::Info),
    );
    assert!(logger.log("B", Level::Error, "b").is_some());
    assert!(logger.log("B", Level::Error, "b").is_some());
    let mut categories: Vec<String> =
        logger.config().sinks().iter().map(|sink| sink.category().to_owned()).collect();
    categories.sort();
    assert_eq!(categories, vec![String::from("A"), String::from("B")]);
    for sink in logger.config().sinks() {
        assert_eq!(sink.subsystem(), "sub");
    }
}

#[test]
fn builders_set_one_field_each() {
    let config = Config::default().with_max_level(LevelFilter::Info);
    assert_eq!(config.max_level(), Some(LevelFilter::Info));
    assert_eq!(config.subsystem(), "");
    let config = config.with_subsystem(String::from("s")).with_max_level(LevelFilter::Warn);
    assert_eq!(config.max_level(), Some(LevelFilter::Warn));
    assert_eq!(config.subsystem(), "s");
    assert_eq!(config.category_count(), 0);
}

#[test]
fn sink_handle_names_subsystem_and_category() {
    let sink = SinkHandle::new("com.example", "Net");
    assert_eq!(sink.subsystem(), "com.example");
    assert_eq!(sink.category(), "Net");
    let copy = sink.clone();
    assert_eq!(copy.subsystem(), "com.example");
    assert_eq!(copy.category(), "Net");
}

#[test]
fn flush_does_nothing() {
    let logger = OsLogger::new(example_config());
    logger.flush();
    assert_eq!(logger.config().category_count(), 2);
}
