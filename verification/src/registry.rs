use vstd::prelude::*;

use std::collections::HashMap;
use vstd::std_specs::iter::IteratorSpec;

use crate::settings::SettingsType;

verus! {

/// The map that the settings file's entries give: each entry's id is cut to
/// 32 bits, and a later entry replaces an earlier one with the same id.
pub open spec fn id_map(entries: Seq<(u64, SettingsType)>) -> Map<u32, SettingsType>
    decreases entries.len(),
{
    if entries.len() == 0 {
        Map::empty()
    } else {
        id_map(entries.drop_last()).insert(entries.last().0 as u32, entries.last().1)
    }
}

/// The settings known to the service, by id.
pub struct SettingsRegistry {
    settings: HashMap<u32, SettingsType>,
}

impl View for SettingsRegistry {
    type V = Map<u32, SettingsType>;

    closed spec fn view(&self) -> Map<u32, SettingsType> {
        self.settings@
    }
}

impl SettingsRegistry {
    /// No settings.
    pub fn new() -> (r: SettingsRegistry)
        ensures
            r@ == Map::<u32, SettingsType>::empty(),
    {
        SettingsRegistry { settings: HashMap::new() }
    }

    /// The setting with the given id, if there is one.
    pub fn get(&self, id: u32) -> (r: Option<&SettingsType>)
        ensures
            r is Some <==> self@.contains_key(id),
            r matches Some(s) ==> *s == self@[id],
    {
        broadcast use vstd::std_specs::hash::group_hash_axioms;

        self.settings.get(&id)
    }

    /// Puts a setting under an id, replacing the one that was there.
    pub fn insert(&mut self, id: u32, setting: SettingsType)
        ensures
            final(self)@ == old(self)@.insert(id, setting),
    {
        broadcast use vstd::std_specs::hash::group_hash_axioms;

        self.settings.insert(id, setting);
    }

    /// The ids of the settings, each once, in no particular order.
    pub fn ids(&self) -> (r: Vec<u32>)
        ensures
            r@.no_duplicates(),
            forall|i: int| 0 <= i < r@.len() ==> self@.contains_key(#[trigger] r@[i]),
            forall|id: u32| #[trigger] self@.contains_key(id) ==> r@.contains(id),
    {
        broadcast use vstd::std_specs::hash::group_hash_axioms;

        let mut r: Vec<u32> = Vec::new();
        for k in it: self.settings.keys()
            invariant
                it.seq() == vstd::std_specs::hash::spec_keys_iter(&self.settings).remaining(),
                r@ == it.seq().unref().take(it.index()),
        {
            r.push(*k);
        }
        let ghost keys = vstd::std_specs::hash::spec_keys_iter(&self.settings).remaining();
        assert(r@ =~= keys.unref());
        assert forall|i: int| 0 <= i < r@.len() implies self@.contains_key(#[trigger] r@[i]) by {
            assert(keys.unref().to_set().contains(r@[i]));
        }
        assert forall|id: u32| #[trigger] self@.contains_key(id) implies r@.contains(id) by {
            assert(keys.unref().to_set().contains(id));
        }
        assert(r@.no_duplicates()) by {
            assert forall|i: int, j: int| 0 <= i < r@.len() && 0 <= j < r@.len() && i != j implies r@[i] != r@[j] by {
                assert(keys[i] != keys[j]);
            }
        }
        r
    }

    /// The settings of the settings file, given as its entries in order: an
    /// id is cut to 32 bits, and a later entry replaces an earlier one with
    /// the same id.
    pub fn construct_id_map(entries: Vec<(u64, SettingsType)>) -> (r: SettingsRegistry)
        ensures
            r@ == id_map(entries@),
    {
        let mut registry = SettingsRegistry::new();
        let mut i: usize = 0;
        while i < entries.len()
            invariant
                i <= entries@.len(),
                registry@ == id_map(entries@.take(i as int)),
            decreases entries@.len() - i,
        {
            let id = entries[i].0 as u32;
            let setting = entries[i].1.clone();
            registry.insert(id, setting);
            assert(entries@.take(i + 1).drop_last() =~= entries@.take(i as int));
            i = i + 1;
        }
        assert(entries@.take(entries@.len() as int) =~= entries@);
        registry
    }
}

/// Of the entries of the settings file, the last one with a given id is the
/// one the settings keep under that id.
pub proof fn lemma_last_entry_wins(entries: Seq<(u64, SettingsType)>, k: int)
    requires
        0 <= k < entries.len(),
        forall|j: int| k < j < entries.len() ==> (entries[j].0 as u32) != (entries[k].0 as u32),
    ensures
        id_map(entries).contains_key(entries[k].0 as u32),
        id_map(entries)[entries[k].0 as u32] == entries[k].1,
    decreases entries.len(),
{
    if k < entries.len() - 1 {
        let t = entries.drop_last();
        assert forall|j: int| k < j < t.len() implies (t[j].0 as u32) != (t[k].0 as u32) by {
            assert(t[j] == entries[j]);
        }
        lemma_last_entry_wins(t, k);
        assert(t[k] == entries[k]);
    }
}

/// The settings file gives a setting under an id exactly when one of its
/// entries has that id once cut to 32 bits.
pub proof fn lemma_id_map_domain(entries: Seq<(u64, SettingsType)>, id: u32)
    ensures
        id_map(entries).contains_key(id) <==> exists|k: int| 0 <= k < entries.len() && (entries[k].0 as u32) == id,
    decreases entries.len(),
{
    if entries.len() > 0 {
        let t = entries.drop_last();
        lemma_id_map_domain(t, id);
        if exists|k: int| 0 <= k < t.len() && (t[k].0 as u32) == id {
            let k = choose|k: int| 0 <= k < t.len() && (t[k].0 as u32) == id;
            assert(entries[k] == t[k]);
        }
        if exists|k: int| 0 <= k < entries.len() && (entries[k].0 as u32) == id {
            let k = choose|k: int| 0 <= k < entries.len() && (entries[k].0 as u32) == id;
            if k < entries.len() - 1 {
                assert(t[k] == entries[k]);
            }
        }
    }
}

/// Putting a setting under an id and reading that id gives the setting back;
/// every other id keeps what it had.
pub proof fn lemma_read_after_insert(before: Map<u32, SettingsType>, id: u32, setting: SettingsType, other: u32)
    ensures
        before.insert(id, setting).contains_key(id),
        before.insert(id, setting)[id] == setting,
        other != id ==> (before.insert(id, setting).contains_key(other) == before.contains_key(other)),
        other != id && before.contains_key(other) ==> before.insert(id, setting)[other] == before[other],
{
}

} // verus!
