//! Handles of the sinks that records are sent to.
use crate::level::Level;
use vstd::prelude::*;

verus! {

/// Names the sink of one category: the subsystem it was opened under and the
/// category it serves. The handle is a plain value; whoever performs the
/// emission opens the platform's log for it.
#[derive(Debug)]
pub struct SinkHandle {
    subsystem: String,
    category: String,
}

/// What a `SinkHandle` stands for.
pub struct SinkView {
    pub subsystem: Seq<char>,
    pub category: Seq<char>,
}

impl View for SinkHandle {
    type V = SinkView;

    closed spec fn view(&self) -> SinkView {
        SinkView { subsystem: self.subsystem@, category: self.category@ }
    }
}

impl Clone for SinkHandle {
    fn clone(&self) -> (copy: Self)
        ensures
            copy@ == self@,
    {
        SinkHandle { subsystem: self.subsystem.clone(), category: self.category.clone() }
    }
}

impl SinkHandle {
    /// The handle of the sink for `category` under `subsystem`.
    pub fn new(subsystem: &str, category: &str) -> (sink: Self)
        ensures
            sink@ == (SinkView { subsystem: subsystem@, category: category@ }),
    {
        SinkHandle { subsystem: subsystem.to_owned(), category: category.to_owned() }
    }

    /// The subsystem that the sink was opened under.
    pub fn subsystem(&self) -> (s: &str)
        ensures
            s@ == self@.subsystem,
    {
        self.subsystem.as_str()
    }

    /// The category that the sink serves.
    pub fn category(&self) -> (s: &str)
        ensures
            s@ == self@.category,
    {
        self.category.as_str()
    }
}

/// A record on its way out: the sink that receives it, whether that sink was
/// registered for this very record, and what the sink is to write.
#[derive(Debug)]
pub struct Emission {
    pub sink: SinkHandle,
    pub created: bool,
    pub level: Level,
    pub message: String,
}

/// What an `Emission` stands for.
pub struct EmissionView {
    pub sink: SinkView,
    pub created: bool,
    pub level: Level,
    pub message: Seq<char>,
}

impl View for Emission {
    type V = EmissionView;

    open spec fn view(&self) -> EmissionView {
        EmissionView {
            sink: self.sink@,
            created: self.created,
            level: self.level,
            message: self.message@,
        }
    }
}

} // verus!
