//! The configuration that a logger is made from.
use crate::level::LevelFilter;
use crate::registry::{
    lemma_last_threshold_wins, lemma_rehoming_keeps_thresholds, lemma_update_order_is_immaterial,
    no_entries, rehomed, threshold_in, well_formed, with_category, with_threshold, EntryView,
    Registry,
};
use crate::sink::{SinkHandle, SinkView};
use vstd::prelude::*;

verus! {

/// What a logger is made from: the subsystem that its sinks are opened under,
/// an optional default threshold, and the thresholds of single categories.
pub struct Config {
    pub(crate) log_level: Option<LevelFilter>,
    pub(crate) loggers: Registry,
}

/// What a `Config` stands for.
pub struct ConfigView {
    pub subsystem: Seq<char>,
    pub default_threshold: Option<LevelFilter>,
    pub categories: Map<Seq<char>, EntryView>,
}

impl View for Config {
    type V = ConfigView;

    closed spec fn view(&self) -> ConfigView {
        ConfigView {
            subsystem: self.loggers@.subsystem,
            default_threshold: self.log_level,
            categories: self.loggers@.entries,
        }
    }
}

/// The configuration that nothing was set in: an empty subsystem name, no
/// default threshold and no category.
pub open spec fn empty_config() -> ConfigView {
    ConfigView { subsystem: Seq::empty(), default_threshold: None, categories: no_entries() }
}

/// `config` with the subsystem set: every sink is opened under it, those of
/// the categories set before as well as those of the categories to come.
pub open spec fn config_with_subsystem(config: ConfigView, subsystem: Seq<char>) -> ConfigView {
    ConfigView { subsystem, categories: rehomed(config.categories, subsystem), ..config }
}

/// `config` with the default threshold set.
pub open spec fn config_with_max_level(config: ConfigView, level: LevelFilter) -> ConfigView {
    ConfigView { default_threshold: Some(level), ..config }
}

/// `config` with the threshold of `category` set.
pub open spec fn config_with_category_level(
    config: ConfigView,
    category: Seq<char>,
    level: LevelFilter,
) -> ConfigView {
    ConfigView {
        categories: with_threshold(config.categories, config.subsystem, category, level),
        ..config
    }
}

/// Every sink of the configuration is the sink of its category under the
/// configuration's subsystem, and there are finitely many categories.
pub open spec fn config_well_formed(config: ConfigView) -> bool {
    well_formed(config.categories, config.subsystem)
}

impl Default for Config {
    fn default() -> (config: Self)
        ensures
            config@ == empty_config(),
            config_well_formed(config@),
    {
        let config = Config { log_level: None, loggers: Registry::new() };
        assert(config@.categories.dom() =~= Set::empty());
        config
    }
}

impl Config {
    /// Sets the subsystem. Every sink is opened under it, whether its
    /// category was set before this call or is set after it.
    pub fn with_subsystem(self, subsystem: String) -> (config: Self)
        ensures
            config@ == config_with_subsystem(self@, subsystem@),
            config_well_formed(config@),
    {
        Config { log_level: self.log_level, loggers: self.loggers.with_subsystem(subsystem) }
    }

    /// Sets the default threshold, which holds for every category without a
    /// threshold of its own.
    pub fn with_max_level(self, level: LevelFilter) -> (config: Self)
        ensures
            config@ == config_with_max_level(self@, level),
    {
        Config { log_level: Some(level), loggers: self.loggers }
    }

    /// Sets or updates the threshold of `category`. Setting it again replaces
    /// the threshold set before and adds no second entry.
    pub fn with_category_level_filter(self, category: &str, level: LevelFilter) -> (config:
        Self)
        ensures
            config@ == config_with_category_level(self@, category@, level),
            threshold_in(config@.categories, category@) == Some(level),
            config_well_formed(config@),
    {
        let mut config = self;
        config.loggers.set_threshold(category, level);
        config
    }

    /// The subsystem that sinks are opened under.
    pub fn subsystem(&self) -> (subsystem: &str)
        ensures
            subsystem@ == self@.subsystem,
    {
        self.loggers.subsystem()
    }

    /// The default threshold, if one was set.
    pub fn max_level(&self) -> (level: Option<LevelFilter>)
        ensures
            level == self@.default_threshold,
    {
        self.log_level
    }

    /// The threshold set for `category`, if any.
    pub fn category_level_filter(&self, category: &str) -> (level: Option<LevelFilter>)
        ensures
            level == threshold_in(self@.categories, category@),
    {
        self.loggers.get_threshold(category)
    }

    /// Whether an entry exists for `category`.
    pub fn has_category(&self, category: &str) -> (present: bool)
        ensures
            present == self@.categories.contains_key(category@),
    {
        self.loggers.contains(category)
    }

    /// The sinks of all categories that an entry exists for, each of them
    /// once, in no stated order.
    pub fn sinks(&self) -> (sinks: Vec<SinkHandle>)
        ensures
            sinks@.len() == self@.categories.dom().len(),
            forall|i: int|
                0 <= i < sinks@.len() ==> self@.categories.contains_key(
                    (#[trigger] sinks@[i])@.category,
                ) && self@.categories[sinks@[i]@.category].sink == sinks@[i]@,
            forall|i: int, j: int|
                0 <= i < j < sinks@.len() ==> sinks@[i]@.category != sinks@[j]@.category,
    {
        self.loggers.sinks()
    }

    /// The sink of `category`. A category without an entry gets one, without
    /// a threshold; nothing else changes.
    pub(crate) fn sink_for(&mut self, category: &str) -> (sink: SinkHandle)
        ensures
            final(self)@ == (ConfigView {
                categories: with_category(old(self)@.categories, old(self)@.subsystem, category@),
                ..old(self)@
            }),
            config_well_formed(final(self)@),
            sink@ == (SinkView { subsystem: old(self)@.subsystem, category: category@ }),
    {
        self.loggers.get_or_create(category)
    }

    /// The number of categories that an entry exists for.
    pub fn category_count(&self) -> (n: usize)
        ensures
            n == self@.categories.dom().len(),
            self@.categories.dom().finite(),
    {
        self.loggers.len()
    }
}

/// The order in which a configuration is built does not matter: any two of
/// the three settings may change places, and so may the thresholds of two
/// different categories.
pub proof fn lemma_builder_order_is_immaterial(
    config: ConfigView,
    subsystem: Seq<char>,
    default: LevelFilter,
    category: Seq<char>,
    level: LevelFilter,
    other: Seq<char>,
    other_level: LevelFilter,
)
    ensures
        config_with_subsystem(config_with_category_level(config, category, level), subsystem)
            == config_with_category_level(
            config_with_subsystem(config, subsystem),
            category,
            level,
        ),
        config_with_subsystem(config_with_max_level(config, default), subsystem)
            == config_with_max_level(config_with_subsystem(config, subsystem), default),
        config_with_category_level(config_with_max_level(config, default), category, level)
            == config_with_max_level(config_with_category_level(config, category, level), default),
        other != category ==> config_with_category_level(
            config_with_category_level(config, category, level),
            other,
            other_level,
        ) == config_with_category_level(
            config_with_category_level(config, other, other_level),
            category,
            level,
        ),
{
    lemma_update_order_is_immaterial(
        config.categories,
        config.subsystem,
        subsystem,
        category,
        level,
        other,
        other_level,
    );
}

/// Of two settings of the same thing the later one stands: the subsystem,
/// the default threshold, and the threshold of one category.
pub proof fn lemma_later_setting_wins(
    config: ConfigView,
    earlier_subsystem: Seq<char>,
    later_subsystem: Seq<char>,
    category: Seq<char>,
    earlier: LevelFilter,
    later: LevelFilter,
)
    ensures
        config_with_subsystem(config_with_subsystem(config, earlier_subsystem), later_subsystem)
            == config_with_subsystem(config, later_subsystem),
        config_with_max_level(config_with_max_level(config, earlier), later)
            == config_with_max_level(config, later),
        config_with_category_level(config_with_category_level(config, category, earlier), category, later)
            == config_with_category_level(config, category, later),
        threshold_in(config_with_category_level(config, category, later).categories, category)
            == Some(later),
{
    lemma_rehoming_keeps_thresholds(
        config.categories,
        earlier_subsystem,
        later_subsystem,
        category,
    );
    lemma_last_threshold_wins(config.categories, config.subsystem, category, earlier, later);
}

} // verus!
