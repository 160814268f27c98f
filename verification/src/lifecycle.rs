//! The write-once holder of the process's logger, and its initialisation.
use crate::config::{Config, ConfigView};
use crate::facade::set_ambient_max_level;
use crate::level::{Level, LevelFilter};
use crate::logger::{decides_alone, emission_of, emission_view, logged, LoggerView, OsLogger};
use crate::sink::{Emission, EmissionView};
use vstd::prelude::*;

verus! {

/// Holds no logger or one. Once a logger is in it, it stays: the slot is
/// filled by `init_once` alone and never emptied or refilled.
pub struct LoggerSlot {
    logger: Option<OsLogger>,
}

impl View for LoggerSlot {
    type V = Option<LoggerView>;

    closed spec fn view(&self) -> Option<LoggerView> {
        match self.logger {
            Some(logger) => Some(logger@),
            None => None,
        }
    }
}

/// The logger in a slot after an initialisation with `config`: a logger that
/// is there stays, else one is made from `config`, with no ambient threshold
/// in force.
pub open spec fn first_wins(slot: Option<LoggerView>, config: ConfigView) -> LoggerView {
    match slot {
        Some(present) => present,
        None => LoggerView { config, ambient_in_force: false },
    }
}

/// The default threshold that is handed to the facade at the end of an
/// initialisation: the one asked for, where the slot holds a logger and the
/// facade took it, else none.
pub open spec fn applied_default(
    slot: Option<LoggerView>,
    registered: bool,
    requested: Option<LevelFilter>,
) -> Option<LevelFilter> {
    if registered && slot is Some {
        requested
    } else {
        None
    }
}

/// The slot at the end of an initialisation: where a default threshold was
/// handed to the facade, an ambient threshold is in force for the logger from
/// then on. Nothing else changes.
pub open spec fn slot_after_registration(
    slot: Option<LoggerView>,
    registered: bool,
    requested: Option<LevelFilter>,
) -> Option<LoggerView> {
    match slot {
        Some(present) => Some(
            LoggerView {
                ambient_in_force: present.ambient_in_force || (registered && requested is Some),
                ..present
            },
        ),
        None => None,
    }
}

/// The state of a slot after a record was handed to it under the ambient
/// threshold `ambient`.
pub open spec fn slot_after_log(
    slot: Option<LoggerView>,
    category: Seq<char>,
    level: Level,
    ambient: Option<LevelFilter>,
) -> Option<LoggerView> {
    match slot {
        Some(present) => Some(logged(present, category, level, ambient)),
        None => None,
    }
}

/// What a slot sends out for a record: what its logger does, and nothing
/// where it has none.
pub open spec fn slot_emission_of(
    slot: Option<LoggerView>,
    category: Seq<char>,
    level: Level,
    message: Seq<char>,
    ambient: Option<LevelFilter>,
) -> Option<EmissionView> {
    match slot {
        Some(present) => emission_of(present.config, category, level, message, ambient),
        None => None,
    }
}

impl LoggerSlot {
    /// An empty slot.
    pub fn new() -> (slot: Self)
        ensures
            slot@ is None,
    {
        LoggerSlot { logger: None }
    }

    /// Whether a logger is in the slot.
    pub fn is_initialized(&self) -> (filled: bool)
        ensures
            filled == (self@ is Some),
    {
        self.logger.is_some()
    }

    /// The logger in the slot, if there is one.
    pub fn logger(&self) -> (logger: Option<&OsLogger>)
        ensures
            match logger {
                Some(logger) => self@ == Some(logger@),
                None => self@ is None,
            },
    {
        self.logger.as_ref()
    }

    /// Hands a record to the slot's logger under the ambient threshold
    /// `ambient`. An empty slot stays empty and yields nothing.
    pub fn log_under(
        &mut self,
        category: &str,
        level: Level,
        message: &str,
        ambient: Option<LevelFilter>,
    ) -> (out: Option<Emission>)
        ensures
            final(self)@ == slot_after_log(old(self)@, category@, level, ambient),
            emission_view(out) == slot_emission_of(
                old(self)@,
                category@,
                level,
                message@,
                ambient,
            ),
    {
        match &mut self.logger {
            Some(logger) => logger.log_under(category, level, message, ambient),
            None => None,
        }
    }

    /// Hands a record to the slot's logger, which decides as `OsLogger::log`
    /// does. An empty slot stays empty and yields nothing.
    pub fn log(&mut self, category: &str, level: Level, message: &str) -> (out: Option<Emission>)
        ensures
            old(self)@ is None ==> final(self)@ is None && out is None,
            old(self)@ matches Some(present) && decides_alone(present, category@) ==> {
                &&& final(self)@ == slot_after_log(old(self)@, category@, level, None)
                &&& emission_view(out) == slot_emission_of(
                    old(self)@,
                    category@,
                    level,
                    message@,
                    None,
                )
            },
            old(self)@ matches Some(present) ==> exists|ambient: Option<LevelFilter>|
                {
                    &&& ambient is Some == present.ambient_in_force
                    &&& final(self)@ == #[trigger] slot_after_log(
                        old(self)@,
                        category@,
                        level,
                        ambient,
                    )
                    &&& emission_view(out) == slot_emission_of(
                        old(self)@,
                        category@,
                        level,
                        message@,
                        ambient,
                    )
                },
    {
        match &mut self.logger {
            Some(logger) => {
                let ghost before = logger@;
                let out = logger.log(category, level, message);
                proof {
                    let ambient = choose|ambient: Option<LevelFilter>|
                        {
                            &&& ambient is Some == before.ambient_in_force
                            &&& logger@ == #[trigger] logged(before, category@, level, ambient)
                            &&& emission_view(out) == emission_of(
                                before.config,
                                category@,
                                level,
                                message@,
                                ambient,
                            )
                        };
                    assert(Some(logger@) == slot_after_log(
                        Some(before),
                        category@,
                        level,
                        ambient,
                    ));
                }
                out
            },
            None => None,
        }
    }
}

/// Initialises the slot with `config`, once. An empty slot gets a logger made
/// from `config`. A slot that holds a logger keeps it, with every category
/// and threshold it has, and `config` is dropped. Either way the call returns
/// the default threshold that `config` asked for: the caller registers the
/// logger with the facade and passes the outcome to `complete_registration`.
pub fn init_once(slot: &mut LoggerSlot, config: Config) -> (requested: Option<LevelFilter>)
    ensures
        final(slot)@ == Some(first_wins(old(slot)@, config@)),
        requested == config@.default_threshold,
{
    let requested = config.max_level();
    if !slot.is_initialized() {
        slot.logger = Some(OsLogger::new(config));
    }
    requested
}

/// Ends an initialisation. Where the facade took the logger (`registered`)
/// and a default threshold was asked for, that threshold becomes the facade's
/// maximum level, and an ambient threshold is in force for the slot's logger
/// from then on. Where the facade refused, because it has a logger already,
/// nothing is set and nothing fails; nor is anything set for a slot without a
/// logger. Returns the threshold that was handed to the facade.
pub fn complete_registration(
    slot: &mut LoggerSlot,
    registered: bool,
    requested: Option<LevelFilter>,
) -> (applied: Option<LevelFilter>)
    ensures
        applied == applied_default(old(slot)@, registered, requested),
        final(slot)@ == slot_after_registration(old(slot)@, registered, requested),
{
    if !registered {
        return None;
    }
    match &mut slot.logger {
        Some(logger) => {
            if let Some(level) = requested {
                set_ambient_max_level(level);
                logger.note_ambient_threshold();
            }
            requested
        },
        None => None,
    }
}

/// A second initialisation changes nothing: the logger that the first one
/// left is the logger after the second, whatever configuration the second one
/// was given, and whatever the facade answered in between.
pub proof fn lemma_second_init_is_ignored(
    slot: Option<LoggerView>,
    first: ConfigView,
    registered: bool,
    second: ConfigView,
)
    ensures
        first_wins(Some(first_wins(slot, first)), second) == first_wins(slot, first),
        slot is None ==> first_wins(Some(first_wins(slot, first)), second).config == first,
        ({
            let registered_first = slot_after_registration(
                Some(first_wins(slot, first)),
                registered,
                first.default_threshold,
            );
            &&& registered_first is Some
            &&& first_wins(registered_first, second) == registered_first->0
            &&& registered_first->0.config == first_wins(slot, first).config
        }),
{
}

/// Registration touches nothing but the ambient threshold: the logger's
/// configuration, with every category and threshold, is what it was, and an
/// ambient threshold that is in force stays in force.
pub proof fn lemma_registration_keeps_configuration(
    slot: Option<LoggerView>,
    registered: bool,
    requested: Option<LevelFilter>,
)
    ensures
        slot is Some == slot_after_registration(slot, registered, requested) is Some,
        slot matches Some(present) ==> {
            let after = slot_after_registration(slot, registered, requested)->0;
            &&& after.config == present.config
            &&& present.ambient_in_force ==> after.ambient_in_force
            &&& after.ambient_in_force == (present.ambient_in_force || applied_default(
                slot,
                registered,
                requested,
            ) is Some)
        },
{
}

} // verus!
