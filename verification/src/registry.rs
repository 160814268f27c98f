//! The category registry: one entry per category name, held in a concurrent
//! hash map.
use crate::level::LevelFilter;
use crate::sink::{SinkHandle, SinkView};
use dashmap::DashMap;
use std::collections::hash_map::RandomState;
use vstd::prelude::*;

verus! {

/// What the registry keeps for one category.
pub struct CategoryEntry {
    pub(crate) threshold: Option<LevelFilter>,
    pub(crate) sink: SinkHandle,
}

/// What a `CategoryEntry` stands for.
pub struct EntryView {
    pub threshold: Option<LevelFilter>,
    pub sink: SinkView,
}

impl View for CategoryEntry {
    type V = EntryView;

    closed spec fn view(&self) -> EntryView {
        EntryView { threshold: self.threshold, sink: self.sink@ }
    }
}

impl CategoryEntry {
    /// An entry for `sink` under `threshold`.
    pub(crate) fn new(threshold: Option<LevelFilter>, sink: SinkHandle) -> (entry: Self)
        ensures
            entry@ == (EntryView { threshold, sink: sink@ }),
    {
        CategoryEntry { threshold, sink }
    }

    /// Replaces the entry's threshold and keeps its sink.
    pub(crate) fn set_threshold(&mut self, level: LevelFilter)
        ensures
            final(self)@ == (EntryView { threshold: Some(level), sink: old(self)@.sink }),
    {
        self.threshold = Some(level);
    }

    /// The entry with its sink opened under `subsystem`: threshold and
    /// category stay.
    pub(crate) fn under(self, subsystem: &str) -> (entry: Self)
        ensures
            entry@ == moved_under(self@, subsystem@),
    {
        let sink = SinkHandle::new(subsystem, self.sink.category());
        CategoryEntry { threshold: self.threshold, sink }
    }
}

/// An entry with its sink opened under `subsystem`.
pub open spec fn moved_under(entry: EntryView, subsystem: Seq<char>) -> EntryView {
    EntryView {
        threshold: entry.threshold,
        sink: SinkView { subsystem, category: entry.sink.category },
    }
}

/// `dashmap::DashMap`, the concurrent hash map that holds the entries. Its
/// inside is not visible to the verifier.
#[verifier::external_type_specification]
#[verifier::external_body]
#[verifier::reject_recursive_types(K)]
#[verifier::reject_recursive_types(V)]
#[verifier::reject_recursive_types(S)]
pub struct ExDashMap<K, V, S>(DashMap<K, V, S>);

/// The entries that the map holds, by category name.
pub uninterp spec fn stored_entries(map: DashMap<String, CategoryEntry, RandomState>) -> Map<
    Seq<char>,
    EntryView,
>;

/// The registry without any entry.
pub open spec fn no_entries() -> Map<Seq<char>, EntryView> {
    Map::empty()
}

/// The entries with every sink opened under `subsystem`: the same
/// categories, each with the threshold it had.
pub open spec fn rehomed(entries: Map<Seq<char>, EntryView>, subsystem: Seq<char>) -> Map<
    Seq<char>,
    EntryView,
> {
    Map::new(
        |category: Seq<char>| entries.contains_key(category),
        |category: Seq<char>| moved_under(entries[category], subsystem),
    )
}

/// `DashMap::new`: the map it returns holds no entry.
#[verifier::external_body]
fn map_new() -> (map: DashMap<String, CategoryEntry, RandomState>)
    ensures
        stored_entries(map) == no_entries(),
{
    DashMap::new()
}

/// `DashMap::get`: the threshold of the entry stored under `category`, or
/// `None` where the map holds no such entry. The map is left as it was.
#[verifier::external_body]
fn map_threshold(map: &DashMap<String, CategoryEntry, RandomState>, category: &str) -> (found:
    Option<Option<LevelFilter>>)
    ensures
        found == (if stored_entries(*map).contains_key(category@) {
            Some(stored_entries(*map)[category@].threshold)
        } else {
            None
        }),
{
    match map.get(category) {
        Some(entry) => Some(entry.threshold),
        None => None,
    }
}

/// `DashMap::len`: the number of entries.
#[verifier::external_body]
fn map_len(map: &DashMap<String, CategoryEntry, RandomState>) -> (n: usize)
    ensures
        n == stored_entries(*map).dom().len(),
{
    map.len()
}

/// `DashMap::iter`: the category names that the map holds an entry under,
/// each of them once, in no stated order.
#[verifier::external_body]
fn map_categories(map: &DashMap<String, CategoryEntry, RandomState>) -> (names: Vec<String>)
    ensures
        names@.len() == stored_entries(*map).dom().len(),
        forall|i: int|
            0 <= i < names@.len() ==> stored_entries(*map).contains_key(#[trigger] names@[i]@),
        forall|i: int, j: int| 0 <= i < j < names@.len() ==> names@[i]@ != names@[j]@,
{
    map.iter().map(|entry| entry.key().clone()).collect()
}

/// `DashMap::alter_all`: every entry is replaced by what `CategoryEntry::under`
/// makes of it, that is, by itself with its sink opened under `subsystem`.
/// No entry is added or removed.
#[verifier::external_body]
fn map_rehome(map: &mut DashMap<String, CategoryEntry, RandomState>, subsystem: &str)
    ensures
        stored_entries(*final(map)) == rehomed(stored_entries(*old(map)), subsystem@),
{
    map.alter_all(|_, entry| entry.under(subsystem));
}

/// `DashMap::entry`, then `Entry::and_modify` and `Entry::or_insert`: where
/// the map holds an entry under `category`, that entry's threshold becomes
/// `level` and its sink stays; where it holds none, `fresh` is stored under
/// `category`. No other entry changes. The call is taken not to unwind: the
/// map is borrowed exclusively, so no lock is contended.
#[verifier::external_body]
fn map_set_threshold(
    map: &mut DashMap<String, CategoryEntry, RandomState>,
    category: &str,
    level: LevelFilter,
    fresh: CategoryEntry,
)
    ensures
        stored_entries(*final(map)) == stored_entries(*old(map)).insert(
            category@,
            if stored_entries(*old(map)).contains_key(category@) {
                EntryView {
                    threshold: Some(level),
                    sink: stored_entries(*old(map))[category@].sink,
                }
            } else {
                fresh@
            },
        ),
    no_unwind
{
    map.entry(category.into()).and_modify(|entry| entry.set_threshold(level)).or_insert(fresh);
}

/// `DashMap::entry`, then `Entry::or_insert`: where the map holds no entry
/// under `category`, `fresh` is stored under it; an entry that is there stays
/// as it is. Returns a copy of the sink of the entry then stored under
/// `category`. No other entry changes. The call is taken not to unwind: the
/// map is borrowed exclusively, so no lock is contended.
#[verifier::external_body]
fn map_get_or_insert(
    map: &mut DashMap<String, CategoryEntry, RandomState>,
    category: &str,
    fresh: CategoryEntry,
) -> (sink: SinkHandle)
    ensures
        stored_entries(*final(map)) == (if stored_entries(*old(map)).contains_key(category@) {
            stored_entries(*old(map))
        } else {
            stored_entries(*old(map)).insert(category@, fresh@)
        }),
        sink@ == stored_entries(*final(map))[category@].sink,
    no_unwind
{
    map.entry(category.into()).or_insert(fresh).sink.clone()
}

/// The threshold set for `category`: `None` where the registry holds no entry
/// for it, or holds one without a threshold.
pub open spec fn threshold_in(entries: Map<Seq<char>, EntryView>, category: Seq<char>) -> Option<
    LevelFilter,
> {
    if entries.contains_key(category) {
        entries[category].threshold
    } else {
        None
    }
}

/// The entries after the threshold of `category` is set to `level`: the
/// category's entry holds that threshold and the sink of `category` under
/// `subsystem`.
pub open spec fn with_threshold(
    entries: Map<Seq<char>, EntryView>,
    subsystem: Seq<char>,
    category: Seq<char>,
    level: LevelFilter,
) -> Map<Seq<char>, EntryView> {
    entries.insert(
        category,
        EntryView { threshold: Some(level), sink: SinkView { subsystem, category } },
    )
}

/// The entries after `category` is looked up for a record: an entry that is
/// there stays as it is, and one that is not is made without a threshold, with
/// the sink of `category` under `subsystem`.
pub open spec fn with_category(
    entries: Map<Seq<char>, EntryView>,
    subsystem: Seq<char>,
    category: Seq<char>,
) -> Map<Seq<char>, EntryView> {
    if entries.contains_key(category) {
        entries
    } else {
        entries.insert(category, EntryView { threshold: None, sink: SinkView { subsystem, category } })
    }
}

/// What a `Registry` stands for: the subsystem that its sinks are opened
/// under, and its entries by category name.
pub struct RegistryView {
    pub subsystem: Seq<char>,
    pub entries: Map<Seq<char>, EntryView>,
}

/// There are finitely many entries, and the sink of each is the sink of the
/// category that the entry is stored under, opened under `subsystem`.
pub open spec fn well_formed(entries: Map<Seq<char>, EntryView>, subsystem: Seq<char>) -> bool {
    &&& entries.dom().finite()
    &&& forall|category: Seq<char>|
        entries.contains_key(category) ==> (#[trigger] entries[category]).sink == (SinkView {
            subsystem,
            category,
        })
}

/// The category registry. Entries are added and their thresholds set; none is
/// ever removed, and no entry moves to another category.
pub struct Registry {
    subsystem: String,
    map: DashMap<String, CategoryEntry, RandomState>,
}

impl View for Registry {
    type V = RegistryView;

    closed spec fn view(&self) -> RegistryView {
        RegistryView { subsystem: self.subsystem@, entries: stored_entries(self.map) }
    }
}

impl Registry {
    #[verifier::type_invariant]
    spec fn inv(&self) -> bool {
        well_formed(stored_entries(self.map), self.subsystem@)
    }

    /// A registry without entries, under the empty subsystem.
    pub fn new() -> (registry: Self)
        ensures
            registry@ == (RegistryView { subsystem: Seq::empty(), entries: no_entries() }),
    {
        Registry { subsystem: String::new(), map: map_new() }
    }

    /// The registry under `subsystem`: every category keeps its threshold,
    /// and every sink, of the entries that are there and of those to come, is
    /// opened under `subsystem`.
    pub fn with_subsystem(self, subsystem: String) -> (registry: Self)
        ensures
            registry@ == (RegistryView {
                subsystem: subsystem@,
                entries: rehomed(self@.entries, subsystem@),
            }),
            well_formed(registry@.entries, registry@.subsystem),
    {
        proof {
            use_type_invariant(&self);
        }
        let mut map = self.map;
        let ghost before = stored_entries(map);
        map_rehome(&mut map, subsystem.as_str());
        proof {
            assert(stored_entries(map).dom() =~= before.dom());
        }
        Registry { subsystem, map }
    }

    /// The subsystem that sinks are opened under.
    pub fn subsystem(&self) -> (subsystem: &str)
        ensures
            subsystem@ == self@.subsystem,
    {
        self.subsystem.as_str()
    }

    /// The threshold set for `category`, if any. Looking it up adds no entry.
    pub fn get_threshold(&self, category: &str) -> (threshold: Option<LevelFilter>)
        ensures
            threshold == threshold_in(self@.entries, category@),
    {
        match map_threshold(&self.map, category) {
            Some(threshold) => threshold,
            None => None,
        }
    }

    /// Whether the registry holds an entry for `category`.
    pub fn contains(&self, category: &str) -> (present: bool)
        ensures
            present == self@.entries.contains_key(category@),
    {
        map_threshold(&self.map, category).is_some()
    }

    /// The number of categories that the registry holds an entry for.
    pub fn len(&self) -> (n: usize)
        ensures
            n == self@.entries.dom().len(),
            self@.entries.dom().finite(),
    {
        proof {
            use_type_invariant(self);
        }
        map_len(&self.map)
    }

    /// The sinks of all categories that the registry holds an entry for, each
    /// of them once, in no stated order.
    pub fn sinks(&self) -> (sinks: Vec<SinkHandle>)
        ensures
            sinks@.len() == self@.entries.dom().len(),
            forall|i: int|
                0 <= i < sinks@.len() ==> self@.entries.contains_key(
                    (#[trigger] sinks@[i])@.category,
                ) && self@.entries[sinks@[i]@.category].sink == sinks@[i]@,
            forall|i: int, j: int|
                0 <= i < j < sinks@.len() ==> sinks@[i]@.category != sinks@[j]@.category,
    {
        proof {
            use_type_invariant(self);
        }
        let names = map_categories(&self.map);
        let mut sinks: Vec<SinkHandle> = Vec::new();
        let mut i: usize = 0;
        while i < names.len()
            invariant
                i <= names.len(),
                sinks@.len() == i,
                forall|j: int|
                    0 <= j < i ==> (#[trigger] sinks@[j])@ == (SinkView {
                        subsystem: self.subsystem@,
                        category: names@[j]@,
                    }),
            decreases names.len() - i,
        {
            sinks.push(SinkHandle::new(self.subsystem.as_str(), names[i].as_str()));
            i += 1;
        }
        sinks
    }

    /// Sets the threshold of `category` to `level`, making the entry where
    /// there is none. No other entry changes.
    pub fn set_threshold(&mut self, category: &str, level: LevelFilter)
        ensures
            final(self)@ == (RegistryView {
                entries: with_threshold(
                    old(self)@.entries,
                    old(self)@.subsystem,
                    category@,
                    level,
                ),
                ..old(self)@
            }),
            well_formed(final(self)@.entries, final(self)@.subsystem),
    {
        proof {
            use_type_invariant(&*self);
        }
        let fresh = CategoryEntry::new(
            Some(level),
            SinkHandle::new(self.subsystem.as_str(), category),
        );
        map_set_threshold(&mut self.map, category, level, fresh);
    }

    /// The sink of `category`. Where the registry holds no entry for it, one
    /// is made without a threshold; an entry that is there is left as it is.
    pub fn get_or_create(&mut self, category: &str) -> (sink: SinkHandle)
        ensures
            final(self)@ == (RegistryView {
                entries: with_category(old(self)@.entries, old(self)@.subsystem, category@),
                ..old(self)@
            }),
            well_formed(final(self)@.entries, final(self)@.subsystem),
            sink@ == (SinkView { subsystem: old(self)@.subsystem, category: category@ }),
    {
        proof {
            use_type_invariant(&*self);
        }
        let fresh = CategoryEntry::new(None, SinkHandle::new(self.subsystem.as_str(), category));
        map_get_or_insert(&mut self.map, category, fresh)
    }
}

/// Setting the threshold of a category makes it the category's threshold,
/// and of two settings in a row the later one stands: the registry is as if
/// the earlier one had not been made.
pub proof fn lemma_last_threshold_wins(
    entries: Map<Seq<char>, EntryView>,
    subsystem: Seq<char>,
    category: Seq<char>,
    earlier: LevelFilter,
    later: LevelFilter,
)
    ensures
        threshold_in(with_threshold(entries, subsystem, category, later), category) == Some(later),
        with_threshold(
            with_threshold(entries, subsystem, category, earlier),
            subsystem,
            category,
            later,
        ) == with_threshold(entries, subsystem, category, later),
{
    let once = with_threshold(entries, subsystem, category, earlier);
    assert(with_threshold(once, subsystem, category, later) =~= with_threshold(
        entries,
        subsystem,
        category,
        later,
    ));
}

/// Setting a threshold and looking a category up touch that category's entry
/// alone and remove none: every other category is present after exactly when
/// it was before, with the entry it had, and the category itself is present.
pub proof fn lemma_updates_are_local(
    entries: Map<Seq<char>, EntryView>,
    subsystem: Seq<char>,
    category: Seq<char>,
    level: LevelFilter,
    other: Seq<char>,
)
    requires
        other != category,
    ensures
        with_threshold(entries, subsystem, category, level).contains_key(category),
        with_category(entries, subsystem, category).contains_key(category),
        with_threshold(entries, subsystem, category, level).contains_key(other)
            == entries.contains_key(other),
        with_category(entries, subsystem, category).contains_key(other) == entries.contains_key(
            other,
        ),
        entries.contains_key(other) ==> with_threshold(entries, subsystem, category, level)[other]
            == entries[other],
        entries.contains_key(other) ==> with_category(entries, subsystem, category)[other]
            == entries[other],
{
}

/// Looking a category up leaves an entry that is there untouched, threshold
/// and sink, and a second lookup changes nothing.
pub proof fn lemma_lookup_creates_once(
    entries: Map<Seq<char>, EntryView>,
    subsystem: Seq<char>,
    category: Seq<char>,
)
    ensures
        entries.contains_key(category) ==> with_category(entries, subsystem, category) == entries,
        with_category(with_category(entries, subsystem, category), subsystem, category)
            == with_category(entries, subsystem, category),
        threshold_in(with_category(entries, subsystem, category), category) == threshold_in(
            entries,
            category,
        ),
{
}

/// Moving the registry under a subsystem keeps every category and every
/// threshold, and of two moves in a row the later one stands.
pub proof fn lemma_rehoming_keeps_thresholds(
    entries: Map<Seq<char>, EntryView>,
    earlier: Seq<char>,
    later: Seq<char>,
    category: Seq<char>,
)
    ensures
        rehomed(entries, later).contains_key(category) == entries.contains_key(category),
        threshold_in(rehomed(entries, later), category) == threshold_in(entries, category),
        rehomed(rehomed(entries, earlier), later) == rehomed(entries, later),
{
    assert(rehomed(rehomed(entries, earlier), later) =~= rehomed(entries, later));
}

/// The order of the updates does not matter. Setting a threshold and then
/// moving under a subsystem gives what moving first and setting then gives,
/// and so does looking a category up; thresholds of two different categories
/// may be set in either order.
pub proof fn lemma_update_order_is_immaterial(
    entries: Map<Seq<char>, EntryView>,
    before: Seq<char>,
    subsystem: Seq<char>,
    category: Seq<char>,
    level: LevelFilter,
    other: Seq<char>,
    other_level: LevelFilter,
)
    ensures
        rehomed(with_threshold(entries, before, category, level), subsystem) == with_threshold(
            rehomed(entries, subsystem),
            subsystem,
            category,
            level,
        ),
        rehomed(with_category(entries, before, category), subsystem) == with_category(
            rehomed(entries, subsystem),
            subsystem,
            category,
        ),
        other != category ==> with_threshold(
            with_threshold(entries, before, category, level),
            before,
            other,
            other_level,
        ) == with_threshold(
            with_threshold(entries, before, other, other_level),
            before,
            category,
            level,
        ),
{
    assert(rehomed(with_threshold(entries, before, category, level), subsystem) =~= with_threshold(
        rehomed(entries, subsystem),
        subsystem,
        category,
        level,
    ));
    assert(rehomed(with_category(entries, before, category), subsystem) =~= with_category(
        rehomed(entries, subsystem),
        subsystem,
        category,
    ));
    if other != category {
        assert(with_threshold(
            with_threshold(entries, before, category, level),
            before,
            other,
            other_level,
        ) =~= with_threshold(
            with_threshold(entries, before, other, other_level),
            before,
            category,
            level,
        ));
    }
}

/// A well-formed registry stays well-formed under every update, and grows by
/// one entry at most.
pub proof fn lemma_updates_keep_well_formed(
    entries: Map<Seq<char>, EntryView>,
    subsystem: Seq<char>,
    category: Seq<char>,
    level: LevelFilter,
    moved_to: Seq<char>,
)
    requires
        well_formed(entries, subsystem),
    ensures
        well_formed(with_threshold(entries, subsystem, category, level), subsystem),
        well_formed(with_category(entries, subsystem, category), subsystem),
        well_formed(rehomed(entries, moved_to), moved_to),
        with_threshold(entries, subsystem, category, level).dom().len() == entries.dom().len() + (
        if entries.contains_key(category) {
            0nat
        } else {
            1nat
        }),
        with_category(entries, subsystem, category).dom().len() == entries.dom().len() + (
        if entries.contains_key(category) {
            0nat
        } else {
            1nat
        }),
        rehomed(entries, moved_to).dom().len() == entries.dom().len(),
{
    assert(with_threshold(entries, subsystem, category, level).dom() =~= entries.dom().insert(
        category,
    ));
    assert(with_category(entries, subsystem, category).dom() =~= entries.dom().insert(category));
    assert(rehomed(entries, moved_to).dom() =~= entries.dom());
}

} // verus!
