//! The read-through indexes of the caches: for a key (a server, a user), the set of ids
//! that belong to it (member links, linked accounts, groups). A key is filled once from
//! its source; later reads answer from the index. The index is a dashmap `DashMap` of
//! `DashSet`s.
use vstd::prelude::*;

verus! {

/// The outside concurrent map that holds, for each key, the set of its ids.
#[verifier::external_type_specification]
#[verifier::external_body]
#[verifier::reject_recursive_types(K)]
#[verifier::reject_recursive_types(V)]
#[verifier::reject_recursive_types(S)]
pub struct ExDashMap<K, V, S>(dashmap::DashMap<K, V, S>);

/// The map behind an index.
pub type IdMap = dashmap::DashMap<u64, dashmap::DashSet<u64>>;

/// What an index map holds: for each key present, the ids in its set.
pub uninterp spec fn index_contents(map: IdMap) -> Map<u64, Set<u64>>;

/// The index that knows no key.
pub open spec fn no_ids() -> Map<u64, Set<u64>> {
    Map::empty()
}

/// `DashMap::new`: an empty map.
#[verifier::external_body]
fn index_new() -> (fresh: IdMap)
    ensures
        index_contents(fresh) == no_ids(),
{
    dashmap::DashMap::new()
}

/// `DashMap::contains_key`: whether the key is present.
#[verifier::external_body]
fn index_contains(map: &IdMap, key: u64) -> (present: bool)
    ensures
        present == index_contents(*map).contains_key(key),
{
    map.contains_key(&key)
}

/// `DashMap::get` and `DashSet::iter`, collected: the ids of the key, each once, in an
/// order the source leaves open; `None` where the key is absent.
#[verifier::external_body]
fn index_get(map: &IdMap, key: u64) -> (ids: Option<Vec<u64>>)
    ensures
        ids is None <==> !index_contents(*map).contains_key(key),
        ids matches Some(v) ==> v@.to_set() == index_contents(*map)[key] && v@.no_duplicates(),
{
    map.get(&key).map(|set| set.iter().map(|id| *id).collect())
}

/// `DashMap::entry`, `Entry::or_default` and `DashSet::extend`: adds the ids to the set
/// of the key, starting from an empty set where the key is absent.
#[verifier::external_body]
fn index_extend(target: &mut IdMap, key: u64, ids: &[u64])
    ensures
        index_contents(*final(target)) == filled(index_contents(*old(target)), key, ids@),
{
    target.entry(key).or_default().extend(ids.iter().copied());
}

/// The index after the ids fetched for `key` are added to what it held for `key`.
pub open spec fn filled(index: Map<u64, Set<u64>>, key: u64, ids: Seq<u64>) -> Map<u64, Set<u64>> {
    let before = if index.contains_key(key) { index[key] } else { Set::empty() };
    index.insert(key, before.union(ids.to_set()))
}

/// A key read for the first time holds exactly the ids fetched for it; filling it again
/// with the same ids changes nothing, so later reads give the same ids.
pub proof fn lemma_read_through(index: Map<u64, Set<u64>>, key: u64, ids: Seq<u64>)
    ensures
        !index.contains_key(key) ==> filled(index, key, ids)[key] == ids.to_set(),
        filled(filled(index, key, ids), key, ids) == filled(index, key, ids),
{
    assert(Set::<u64>::empty().union(ids.to_set()) =~= ids.to_set());
    let once = filled(index, key, ids);
    assert(once[key].union(ids.to_set()) =~= once[key]);
    assert(filled(once, key, ids) =~= once);
}

/// For each key known, the set of ids that belong to it.
pub struct IdIndex {
    map: IdMap,
}

impl View for IdIndex {
    type V = Map<u64, Set<u64>>;

    closed spec fn view(&self) -> Map<u64, Set<u64>> {
        index_contents(self.map)
    }
}

impl Default for IdIndex {
    fn default() -> (index: IdIndex)
        ensures
            index@ == Map::<u64, Set<u64>>::empty(),
    {
        IdIndex::new()
    }
}

impl IdIndex {
    /// An empty index.
    pub fn new() -> (index: IdIndex)
        ensures
            index@ == Map::<u64, Set<u64>>::empty(),
    {
        IdIndex { map: index_new() }
    }

    /// The ids of `key`, each once, or `None` where the key has not been filled.
    pub fn ids(&self, key: u64) -> (ids: Option<Vec<u64>>)
        ensures
            ids is None <==> !self@.contains_key(key),
            ids matches Some(v) ==> v@.to_set() == self@[key] && v@.no_duplicates(),
    {
        index_get(&self.map, key)
    }

    /// Adds the ids fetched for `key` to those it holds, creating the key if needed.
    pub fn fill(&mut self, key: u64, ids: &Vec<u64>)
        ensures
            final(self)@ == filled(old(self)@, key, ids@),
    {
        index_extend(&mut self.map, key, ids.as_slice());
    }

    /// Adds `id` to the ids of `key` where the key has been filled, and tells whether it
    /// had; an unfilled key stays unfilled, so that its first read still fetches.
    pub fn add_if_filled(&mut self, key: u64, id: u64) -> (was_filled: bool)
        ensures
            was_filled == old(self)@.contains_key(key),
            was_filled ==> final(self)@ == old(self)@.insert(key, old(self)@[key].insert(id)),
            !was_filled ==> final(self)@ == old(self)@,
    {
        if index_contains(&self.map, key) {
            let one: Vec<u64> = vec![id];
            index_extend(&mut self.map, key, one.as_slice());
            proof {
                assert(one@.to_set() =~= Set::<u64>::empty().insert(id));
                assert(old(self)@[key].union(one@.to_set()) =~= old(self)@[key].insert(id));
            }
            true
        } else {
            false
        }
    }
}

} // verus!
