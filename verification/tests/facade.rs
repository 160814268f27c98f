use oslog::{complete_registration, init_once, Config, Level, LevelFilter, LoggerSlot};

const LEVELS: [Level; 5] = [Level::Error, Level::Warn, Level::Info, Level::Debug, Level::Trace];

#[test]
fn facade_level_is_set_and_read() {
    log::set_max_level(log::LevelFilter::Off);
    let mut slot = LoggerSlot::new();
    assert_eq!(init_once(&mut slot, Config::default().with_subsystem(String::from("sub"))), None);

    // Nothing is configured and no ambient threshold is in force: every
    // record is let through, whatever level the facade happens to be at.
    for level in LEVELS {
        assert!(slot.logger().expect("a logger").enabled("Any", level));
    }
    assert_eq!(complete_registration(&mut slot, true, None), None);
    assert_eq!(log::max_level(), log::LevelFilter::Off);
    assert_eq!(complete_registration(&mut slot, false, Some(LevelFilter::Trace)), None);
    assert_eq!(log::max_level(), log::LevelFilter::Off);
    assert!(!slot.logger().expect("a logger").ambient_in_force());
    assert!(slot.logger().expect("a logger").enabled("Any", Level::Trace));

    // A registration that succeeded makes the requested default the facade's
    // maximum level, and an ambient threshold is in force from then on.
    assert_eq!(
        complete_registration(&mut slot, true, Some(LevelFilter::Warn)),
        Some(LevelFilter::Warn)
    );
    assert_eq!(log::max_level(), log::LevelFilter::Warn);
    assert!(slot.logger().expect("a logger").ambient_in_force());

    // A category without a configured threshold now falls under that level.
    assert_eq!(slot.logger().expect("a logger").configured_threshold("Any"), None);
    assert!(slot.logger().expect("a logger").enabled("Any", Level::Error));
    assert!(slot.logger().expect("a logger").enabled("Any", Level::Warn));
    assert!(!slot.logger().expect("a logger").enabled("Any", Level::Info));
    assert!(slot.log("Any", Level::Info, "dropped").is_none());
    assert!(!slot.logger().expect("a logger").config().has_category("Any"));
    let emitted = slot.log("Any", Level::Warn, "kept").expect("let through");
    assert!(emitted.created);
    assert_eq!(emitted.sink.category(), "Any");
    assert_eq!(emitted.sink.subsystem(), "sub");

    // The level is read anew at each call.
    log::set_max_level(log::LevelFilter::Debug);
    assert!(slot.logger().expect("a logger").enabled("Any", Level::Debug));
    assert!(!slot.logger().expect("a logger").enabled("Any", Level::Trace));
    log::set_max_level(log::LevelFilter::Off);
    assert!(!slot.logger().expect("a logger").enabled("Any", Level::Error));
    assert!(slot.log("Any", Level::Error, "dropped").is_none());

    // Once in force, the ambient threshold stays in force.
    assert_eq!(complete_registration(&mut slot, false, None), None);
    assert!(slot.logger().expect("a logger").ambient_in_force());

    for (ours, theirs) in [
        (LevelFilter::Off, log::LevelFilter::Off),
        (LevelFilter::Error, log::LevelFilter::Error),
        (LevelFilter::Warn, log::LevelFilter::Warn),
        (LevelFilter::Info, log::LevelFilter::Info),
        (LevelFilter::Debug, log::LevelFilter::Debug),
        (LevelFilter::Trace, log::LevelFilter::Trace),
    ] {
        assert_eq!(complete_registration(&mut slot, true, Some(ours)), Some(ours));
        assert_eq!(log::max_level(), theirs);
        for level in LEVELS {
            assert_eq!(
                slot.logger().expect("a logger").enabled("Any", level),
                ours.allows(level)
            );
        }
    }
}
