//! The logger: decides for each record whether it passes the threshold in
//! force for its category, and routes it to the category's sink.
use crate::config::{Config, ConfigView};
use crate::facade::ambient_max_level;
use crate::level::{permits, Level, LevelFilter};
use crate::registry::{threshold_in, with_category};
use crate::sink::{Emission, EmissionView};
use vstd::prelude::*;

verus! {

/// The threshold that the configuration itself gives `category`: the
/// category's own where one is set, else the default threshold.
pub open spec fn configured_threshold(config: ConfigView, category: Seq<char>) -> Option<
    LevelFilter,
> {
    match threshold_in(config.categories, category) {
        Some(threshold) => Some(threshold),
        None => config.default_threshold,
    }
}

/// The threshold in force for `category`: the configured one, else the
/// ambient one, else none.
pub open spec fn effective_threshold(
    config: ConfigView,
    category: Seq<char>,
    ambient: Option<LevelFilter>,
) -> Option<LevelFilter> {
    match configured_threshold(config, category) {
        Some(threshold) => Some(threshold),
        None => ambient,
    }
}

/// Whether a record of `category` and `level` is let through.
pub open spec fn is_enabled(
    config: ConfigView,
    category: Seq<char>,
    level: Level,
    ambient: Option<LevelFilter>,
) -> bool {
    permits(effective_threshold(config, category, ambient), level)
}

/// The logger's state after a record of `category` and `level` was handed to
/// it: a record that is let through registers its category if that is new,
/// and one that is not leaves the state alone.
pub open spec fn after_log(
    config: ConfigView,
    category: Seq<char>,
    level: Level,
    ambient: Option<LevelFilter>,
) -> ConfigView {
    if is_enabled(config, category, level, ambient) {
        ConfigView {
            categories: with_category(config.categories, config.subsystem, category),
            ..config
        }
    } else {
        config
    }
}

/// What is sent out for a record: nothing where it is not let through, else
/// the record with the sink of its category.
pub open spec fn emission_of(
    config: ConfigView,
    category: Seq<char>,
    level: Level,
    message: Seq<char>,
    ambient: Option<LevelFilter>,
) -> Option<EmissionView> {
    if is_enabled(config, category, level, ambient) {
        Some(
            EmissionView {
                sink: with_category(config.categories, config.subsystem, category)[category].sink,
                created: !config.categories.contains_key(category),
                level,
                message,
            },
        )
    } else {
        None
    }
}

/// The view of an optional emission.
pub open spec fn emission_view(emission: Option<Emission>) -> Option<EmissionView> {
    match emission {
        Some(emission) => Some(emission@),
        None => None,
    }
}

/// What an `OsLogger` stands for: its configuration with the categories
/// registered since, and whether an ambient threshold is in force, that is,
/// whether a default threshold was handed to the facade on the logger's
/// behalf.
pub struct LoggerView {
    pub config: ConfigView,
    pub ambient_in_force: bool,
}

/// The logger after a record was handed to it under the ambient threshold
/// `ambient`.
pub open spec fn logged(
    logger: LoggerView,
    category: Seq<char>,
    level: Level,
    ambient: Option<LevelFilter>,
) -> LoggerView {
    LoggerView { config: after_log(logger.config, category, level, ambient), ..logger }
}

/// The logger decides on `category` by itself: the configuration gives the
/// category a threshold, or no ambient threshold is in force.
pub open spec fn decides_alone(logger: LoggerView, category: Seq<char>) -> bool {
    configured_threshold(logger.config, category) is Some || !logger.ambient_in_force
}

/// The logger. Its configuration is fixed when it is made; from then on only
/// records that are let through change it, by registering their category.
pub struct OsLogger {
    config: Config,
    ambient_in_force: bool,
}

impl View for OsLogger {
    type V = LoggerView;

    closed spec fn view(&self) -> LoggerView {
        LoggerView { config: self.config@, ambient_in_force: self.ambient_in_force }
    }
}

impl OsLogger {
    /// A logger for `config`, with no ambient threshold in force.
    pub fn new(config: Config) -> (logger: Self)
        ensures
            logger@ == (LoggerView { config: config@, ambient_in_force: false }),
    {
        OsLogger { config, ambient_in_force: false }
    }

    /// The logger's configuration, with the categories registered since.
    pub fn config(&self) -> (config: &Config)
        ensures
            config@ == self@.config,
    {
        &self.config
    }

    /// Whether an ambient threshold is in force.
    pub fn ambient_in_force(&self) -> (in_force: bool)
        ensures
            in_force == self@.ambient_in_force,
    {
        self.ambient_in_force
    }

    /// Records that a default threshold was handed to the facade, so that an
    /// ambient threshold is in force from now on.
    pub(crate) fn note_ambient_threshold(&mut self)
        ensures
            final(self)@ == (LoggerView { ambient_in_force: true, ..old(self)@ }),
    {
        self.ambient_in_force = true;
    }

    /// The threshold that the configuration gives `category`: its own, else
    /// the default, else none.
    pub fn configured_threshold(&self, category: &str) -> (threshold: Option<LevelFilter>)
        ensures
            threshold == configured_threshold(self@.config, category@),
    {
        match self.config.category_level_filter(category) {
            Some(threshold) => Some(threshold),
            None => self.config.max_level(),
        }
    }

    /// Whether a record of `category` and `level` is let through, where
    /// `ambient` is the threshold that holds outside the logger, if there is
    /// one. The logger is only read: no entry is made for `category`.
    pub fn enabled_under(&self, category: &str, level: Level, ambient: Option<LevelFilter>) -> (on:
        bool)
        ensures
            on == is_enabled(self@.config, category@, level, ambient),
    {
        let effective = match self.configured_threshold(category) {
            Some(threshold) => Some(threshold),
            None => ambient,
        };
        match effective {
            Some(threshold) => threshold.allows(level),
            None => true,
        }
    }

    /// Whether a record of `category` and `level` is let through. A category
    /// with a configured threshold is decided by it. One without is let
    /// through at every severity as long as no ambient threshold is in
    /// force; once one is, the category falls under the facade's maximum
    /// level, read at the moment of the call. The logger is only read: no
    /// entry is made for `category`.
    pub fn enabled(&self, category: &str, level: Level) -> (on: bool)
        ensures
            decides_alone(self@, category@) ==> on == is_enabled(
                self@.config,
                category@,
                level,
                None,
            ),
            configured_threshold(self@.config, category@) is None && !self@.ambient_in_force
                ==> on,
            exists|ambient: Option<LevelFilter>|
                ambient is Some == self@.ambient_in_force && on == #[trigger] is_enabled(
                    self@.config,
                    category@,
                    level,
                    ambient,
                ),
    {
        let ambient = self.ambient_for(category);
        proof {
            let witness = if self@.ambient_in_force && ambient is None {
                Some(LevelFilter::Off)
            } else {
                ambient
            };
            assert(is_enabled(self@.config, category@, level, witness) == is_enabled(
                self@.config,
                category@,
                level,
                ambient,
            ));
        }
        self.enabled_under(category, level, ambient)
    }

    /// The ambient threshold that bears on `category` now: none where the
    /// logger decides alone, else the facade's maximum level.
    fn ambient_for(&self, category: &str) -> (ambient: Option<LevelFilter>)
        ensures
            ambient is Some == !decides_alone(self@, category@),
    {
        if self.ambient_in_force && self.configured_threshold(category).is_none() {
            Some(ambient_max_level())
        } else {
            None
        }
    }

    /// Handles a record under the ambient threshold `ambient`. A record that
    /// is not let through changes nothing and yields nothing. One that is let
    /// through registers its category if that is new, and yields the emission
    /// for the category's sink.
    pub fn log_under(
        &mut self,
        category: &str,
        level: Level,
        message: &str,
        ambient: Option<LevelFilter>,
    ) -> (out: Option<Emission>)
        ensures
            final(self)@ == logged(old(self)@, category@, level, ambient),
            emission_view(out) == emission_of(
                old(self)@.config,
                category@,
                level,
                message@,
                ambient,
            ),
    {
        if self.enabled_under(category, level, ambient) {
            let created = !self.config.has_category(category);
            let sink = self.config.sink_for(category);
            Some(Emission { sink, created, level, message: message.to_owned() })
        } else {
            None
        }
    }

    /// Handles a record. The decision is that of `enabled`: a configured
    /// threshold decides; without one every severity is let through as long
    /// as no ambient threshold is in force, and the facade's maximum level,
    /// read at the moment of the call, decides once one is.
    pub fn log(&mut self, category: &str, level: Level, message: &str) -> (out: Option<Emission>)
        ensures
            decides_alone(old(self)@, category@) ==> {
                &&& final(self)@ == logged(old(self)@, category@, level, None)
                &&& emission_view(out) == emission_of(
                    old(self)@.config,
                    category@,
                    level,
                    message@,
                    None,
                )
            },
            exists|ambient: Option<LevelFilter>|
                {
                    &&& ambient is Some == old(self)@.ambient_in_force
                    &&& final(self)@ == #[trigger] logged(old(self)@, category@, level, ambient)
                    &&& emission_view(out) == emission_of(
                        old(self)@.config,
                        category@,
                        level,
                        message@,
                        ambient,
                    )
                },
    {
        let ambient = self.ambient_for(category);
        let ghost before = self@;
        let out = self.log_under(category, level, message, ambient);
        proof {
            let witness = if before.ambient_in_force && ambient is None {
                Some(LevelFilter::Off)
            } else {
                ambient
            };
            assert(logged(before, category@, level, witness) == logged(
                before,
                category@,
                level,
                ambient,
            ));
            assert(emission_of(before.config, category@, level, message@, witness) == emission_of(
                before.config,
                category@,
                level,
                message@,
                ambient,
            ));
        }
        out
    }

    /// Nothing is buffered, so there is nothing to flush.
    pub fn flush(&self) {
    }
}

/// A category without a threshold of its own, under a configuration without
/// a default and with no ambient threshold, lets every severity through.
pub proof fn lemma_permissive_default(config: ConfigView, category: Seq<char>, level: Level)
    requires
        threshold_in(config.categories, category) is None,
        config.default_threshold is None,
    ensures
        is_enabled(config, category, level, None),
{
}

/// A category's own threshold decides alone, whatever the default and the
/// ambient threshold are: a record is let through exactly when it is at least
/// as severe as the threshold, a record of the threshold's own severity
/// included.
pub proof fn lemma_category_threshold_decides(
    config: ConfigView,
    category: Seq<char>,
    threshold: LevelFilter,
    level: Level,
    ambient: Option<LevelFilter>,
)
    requires
        threshold_in(config.categories, category) == Some(threshold),
    ensures
        is_enabled(config, category, level, ambient) == (level.rank() <= threshold.rank()),
        level.rank() == threshold.rank() ==> is_enabled(config, category, level, ambient),
{
}

/// A category whose threshold is `Off` lets nothing through, not even an
/// error.
pub proof fn lemma_off_silences_category(
    config: ConfigView,
    category: Seq<char>,
    level: Level,
    ambient: Option<LevelFilter>,
)
    requires
        threshold_in(config.categories, category) == Some(LevelFilter::Off),
    ensures
        !is_enabled(config, category, level, ambient),
        !is_enabled(config, category, Level::Error, ambient),
{
}

/// A category without a threshold of its own falls under the default
/// threshold, whatever the ambient one is.
pub proof fn lemma_default_threshold_decides(
    config: ConfigView,
    category: Seq<char>,
    default: LevelFilter,
    level: Level,
    ambient: Option<LevelFilter>,
)
    requires
        threshold_in(config.categories, category) is None,
        config.default_threshold == Some(default),
    ensures
        is_enabled(config, category, level, ambient) == default.admits(level),
{
}

/// Handling a record changes no decision: subsystem and default stay, every
/// entry that was there stays as it was, and every category has the
/// configured threshold it had.
pub proof fn lemma_log_keeps_thresholds(
    config: ConfigView,
    category: Seq<char>,
    level: Level,
    ambient: Option<LevelFilter>,
    other: Seq<char>,
)
    ensures
        after_log(config, category, level, ambient).subsystem == config.subsystem,
        after_log(config, category, level, ambient).default_threshold == config.default_threshold,
        config.categories.contains_key(other) ==> after_log(
            config,
            category,
            level,
            ambient,
        ).categories.contains_key(other) && after_log(
            config,
            category,
            level,
            ambient,
        ).categories[other] == config.categories[other],
        configured_threshold(after_log(config, category, level, ambient), other)
            == configured_threshold(config, other),
{
}

/// However often records of one category are handed over in a row, the
/// category is registered once: after the first record a further one leaves
/// the logger as it is, is decided alike, goes to the same sink, and is never
/// marked as having created it.
pub proof fn lemma_log_registers_category_once(
    config: ConfigView,
    category: Seq<char>,
    level: Level,
    message: Seq<char>,
    ambient: Option<LevelFilter>,
)
    ensures
        ({
            let once = after_log(config, category, level, ambient);
            let first = emission_of(config, category, level, message, ambient);
            let second = emission_of(once, category, level, message, ambient);
            &&& after_log(once, category, level, ambient) == once
            &&& first is Some == second is Some
            &&& first is Some ==> once.categories.contains_key(category)
            &&& first is Some ==> second->0.sink == first->0.sink && !second->0.created
            &&& first is None ==> once == config
        }),
{
    lemma_log_keeps_thresholds(config, category, level, ambient, category);
}

} // verus!
