use vstd::prelude::*;

verus! {

/// A key of a [`Cache`]: two keys name the same entry exactly when their views agree.
pub trait CacheKey: View + Sized {
    fn same_key(&self, other: &Self) -> (b: bool)
        ensures
            b == (self@ == other@),
    ;
}

/// The map that a list of (key, value) entries stands for.
pub open spec fn entries_map<K: View, V>(s: Seq<(K, V)>) -> Map<K::V, V>
    decreases s.len(),
{
    if s.len() == 0 {
        Map::empty()
    } else {
        entries_map(s.drop_last()).insert(s.last().0@, s.last().1)
    }
}

pub open spec fn keys_distinct<K: View, V>(s: Seq<(K, V)>) -> bool {
    forall|i: int, j: int| 0 <= i < j < s.len() ==> s[i].0@ != s[j].0@
}

proof fn lemma_entries_map_absent<K: View, V>(s: Seq<(K, V)>, k: K::V)
    requires
        forall|i: int| 0 <= i < s.len() ==> s[i].0@ != k,
    ensures
        !entries_map(s).contains_key(k),
    decreases s.len(),
{
    if s.len() > 0 {
        lemma_entries_map_absent(s.drop_last(), k);
    }
}

proof fn lemma_entries_map_at<K: View, V>(s: Seq<(K, V)>, i: int)
    requires
        keys_distinct(s),
        0 <= i < s.len(),
    ensures
        entries_map(s).contains_key(s[i].0@),
        entries_map(s)[s[i].0@] == s[i].1,
    decreases s.len(),
{
    if i < s.len() - 1 {
        lemma_entries_map_at(s.drop_last(), i);
    }
}

/// Things loaded once and then handed out again: each key is held at most once.
pub struct Cache<K: CacheKey, V> {
    entries: Vec<(K, V)>,
}

impl<K: CacheKey, V> Cache<K, V> {
    #[verifier::type_invariant]
    spec fn distinct(self) -> bool {
        keys_distinct(self.entries@)
    }

    /// The cached values by key.
    pub closed spec fn view(&self) -> Map<K::V, V> {
        entries_map(self.entries@)
    }

    pub fn new() -> (c: Self)
        ensures
            c.view() == Map::<K::V, V>::empty(),
    {
        Cache { entries: Vec::new() }
    }

    /// The value cached under `key`, if there is one.
    pub fn get(&self, key: &K) -> (r: Option<&V>)
        ensures
            match r {
                Some(v) => self.view().contains_key(key@) && self.view()[key@] == *v,
                None => !self.view().contains_key(key@),
            },
    {
        proof {
            use_type_invariant(self);
        }
        let mut i: usize = 0;
        while i < self.entries.len()
            invariant
                i <= self.entries@.len(),
                keys_distinct(self.entries@),
                forall|j: int| 0 <= j < i ==> self.entries@[j].0@ != key@,
            decreases self.entries@.len() - i,
        {
            if self.entries[i].0.same_key(key) {
                proof {
                    lemma_entries_map_at(self.entries@, i as int);
                }
                return Some(&self.entries[i].1);
            }
            i = i + 1;
        }
        proof {
            lemma_entries_map_absent(self.entries@, key@);
        }
        None
    }

    /// Caches `value` under `key`, which holds nothing yet.
    pub fn insert(&mut self, key: K, value: V)
        requires
            !old(self).view().contains_key(key@),
        ensures
            final(self).view() == old(self).view().insert(key@, value),
    {
        proof {
            use_type_invariant(&*self);
        }
        let ghost before = self.entries@;
        assert forall|i: int| 0 <= i < before.len() implies before[i].0@ != key@ by {
            lemma_entries_map_at(before, i);
        }
        let mut entries: Vec<(K, V)> = Vec::new();
        std::mem::swap(&mut entries, &mut self.entries);
        entries.push((key, value));
        assert(entries@.drop_last() =~= before);
        self.entries = entries;
    }
}

/// What is loaded once is fetched from the cache afterwards: once `value` has been
/// cached under `key`, the cache holds exactly `value` there, and every other key
/// keeps what it held.
pub proof fn lemma_cached_after_insert<K: CacheKey, V>(
    before: Cache<K, V>,
    after: Cache<K, V>,
    key: K,
    value: V,
    other: K::V,
)
    requires
        !before.view().contains_key(key@),
        after.view() == before.view().insert(key@, value),
    ensures
        after.view().contains_key(key@),
        after.view()[key@] == value,
        other != key@ ==> (after.view().contains_key(other) == before.view().contains_key(other)),
        other != key@ && before.view().contains_key(other) ==> after.view()[other] == before.view()[other],
        after.view().dom().len() == before.view().dom().len() + 1,
{
    lemma_entries_map_finite(before.entries@);
}

proof fn lemma_entries_map_finite<K: View, V>(s: Seq<(K, V)>)
    ensures
        entries_map(s).dom().finite(),
    decreases s.len(),
{
    if s.len() > 0 {
        lemma_entries_map_finite(s.drop_last());
    }
}

} // verus!
