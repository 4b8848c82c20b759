//! A cache of what was learnt about links, so as not to ask for the same link again and again.

use vstd::hash_map::StringHashMap;
use vstd::prelude::*;

verus! {

/// How long an entry outlives every cleaning, in milliseconds. One that is older stays until the
/// next cleaning, and is found until then.
pub const ENTRY_LIFE_MILLIS: u128 = 60_000;

/// How long to wait before old entries are dropped again, in seconds.
pub const CLEANING_PERIOD_SECS: u64 = 5;

/// What was learnt about a link, and when it was posted, in milliseconds.
#[derive(Debug)]
pub struct CacheEntry {
    pub timestamp: i64,
    pub platform: String,
    pub channel: String,
    pub title: String,
}

/// The contents of a [`CacheEntry`].
pub struct EntryView {
    pub timestamp: int,
    pub platform: Seq<char>,
    pub channel: Seq<char>,
    pub title: Seq<char>,
}

impl View for CacheEntry {
    type V = EntryView;

    open spec fn view(&self) -> EntryView {
        EntryView {
            timestamp: self.timestamp as int,
            platform: self.platform@,
            channel: self.channel@,
            title: self.title@,
        }
    }
}

/// The entries by their links.
pub type Entries = Map<Seq<char>, EntryView>;

/// The cache. `keys` lists the links that `map` has entries for.
pub struct Cache {
    map: StringHashMap<CacheEntry>,
    keys: Vec<String>,
}

impl View for Cache {
    type V = Entries;

    closed spec fn view(&self) -> Entries {
        self.map@.map_values(|e: CacheEntry| e@)
    }
}

/// What is left of the entries at a time: those that are younger than their life.
pub open spec fn young_entries(entries: Entries, now_millis: int) -> Entries {
    entries.restrict(
        Set::new(
            |link: Seq<char>|
                entries.contains_key(link) && entries[link].timestamp > now_millis
                    - ENTRY_LIFE_MILLIS,
        ),
    )
}

/// A time for which the age of an entry can be told.
pub open spec fn is_clock_millis(now_millis: int) -> bool {
    ENTRY_LIFE_MILLIS <= now_millis <= ENTRY_LIFE_MILLIS + i64::MAX
}

/// An entry that has outlived its life.
spec fn is_stale(entry: CacheEntry, now_millis: int) -> bool {
    entry.timestamp <= now_millis - ENTRY_LIFE_MILLIS
}

/// What a list holds once an item was added to it.
proof fn push_contains(s: Seq<Seq<char>>, x: Seq<char>)
    ensures
        forall|l: Seq<char>| #[trigger] s.push(x).contains(l) <==> s.contains(l) || l == x,
{
    assert forall|l: Seq<char>| #[trigger] s.push(x).contains(l) <==> s.contains(l) || l == x by {
        if s.contains(l) {
            let i = choose|i: int| 0 <= i < s.len() && s[i] == l;
            assert(s.push(x)[i] == l);
        }
        assert(s.push(x)[s.len() as int] == x);
    }
}

impl Cache {
    /// The keys are the links of the entries, each of them once.
    pub closed spec fn wf(&self) -> bool {
        &&& forall|i: int, j: int|
            0 <= i < j < self.keys@.len() ==> self.keys.deep_view()[i]
                != self.keys.deep_view()[j]
        &&& forall|link: Seq<char>|
            self.map@.contains_key(link) <==> #[trigger] self.keys.deep_view().contains(link)
    }

    /// An empty cache.
    pub fn new() -> (r: Cache)
        ensures
            r.wf(),
            r@ == Map::<Seq<char>, EntryView>::empty(),
    {
        let r = Cache { map: StringHashMap::new(), keys: Vec::new() };
        assert(r@ =~= Map::<Seq<char>, EntryView>::empty());
        r
    }

    /// Whether there is no entry.
    pub fn is_empty(&self) -> (r: bool)
        requires
            self.wf(),
        ensures
            r == self@.is_empty(),
    {
        proof {
            assert(self@.is_empty() <==> self.map@.is_empty()) by {
                assert(self@.dom() =~= self.map@.dom());
            }
        }
        self.map.is_empty()
    }

    /// Whether there is an entry for a link.
    pub fn contains_key(&self, link: &str) -> (r: bool)
        requires
            self.wf(),
        ensures
            r == self@.contains_key(link@),
    {
        self.map.contains_key(link)
    }

    /// The title in the entry for a link.
    pub fn title(&self, link: &str) -> (r: Option<String>)
        requires
            self.wf(),
        ensures
            match r {
                Some(title) => self@.contains_key(link@) && title@ == self@[link@].title,
                None => !self@.contains_key(link@),
            },
    {
        match self.map.get(link) {
            Some(entry) => Some(entry.title.clone()),
            None => None,
        }
    }

    /// Puts in an entry for a link, in place of the one that there was.
    pub fn insert(&mut self, link: String, entry: CacheEntry)
        requires
            old(self).wf(),
        ensures
            final(self).wf(),
            final(self)@ == old(self)@.insert(link@, entry@),
    {
        let ghost keys = self.keys.deep_view();
        if !self.map.contains_key(link.as_str()) {
            self.keys.push(link.clone());
            proof {
                assert(self.keys.deep_view() =~= keys.push(link@));
                push_contains(keys, link@);
                assert(keys.push(link@)[keys.len() as int] == link@);
                assert forall|i: int| 0 <= i < keys.len() implies keys[i] != link@ by {
                    assert(keys.contains(keys[i]));
                }
            }
        }
        self.map.insert(link, entry);
        assert(self@ =~= old(self)@.insert(link@, entry@));
    }

    /// Drops the entries that have outlived their life.
    pub fn retain_young(&mut self, now_millis: u128)
        requires
            old(self).wf(),
            old(self)@.is_empty() || is_clock_millis(now_millis as int),
        ensures
            final(self).wf(),
            final(self)@ == young_entries(old(self)@, now_millis as int),
    {
        let ghost all = self.keys.deep_view();
        let ghost entries = self.map@;
        let mut kept: Vec<String> = Vec::new();
        let n: usize = self.keys.len();
        let mut i: usize = 0;
        proof {
            if n > 0 {
                assert(all.contains(all[0]));
                assert(self@.dom().contains(all[0]));
            }
        }
        while i < n
            invariant
                n == self.keys@.len(),
                i <= n,
                self.keys.deep_view() == all,
                forall|a: int, b: int| 0 <= a < b < all.len() ==> all[a] != all[b],
                forall|l: Seq<char>| entries.contains_key(l) <==> #[trigger] all.contains(l),
                n > 0 ==> is_clock_millis(now_millis as int),
                forall|l: Seq<char>| #[trigger]
                    self.map@.contains_key(l) <==> entries.contains_key(l) && !(is_stale(
                        entries[l],
                        now_millis as int,
                    ) && all.take(i as int).contains(l)),
                forall|l: Seq<char>|
                    self.map@.contains_key(l) ==> #[trigger] self.map@[l] == entries[l],
                forall|a: int, b: int|
                    0 <= a < b < kept@.len() ==> kept.deep_view()[a] != kept.deep_view()[b],
                forall|l: Seq<char>| #[trigger]
                    kept.deep_view().contains(l) <==> all.take(i as int).contains(l) && !is_stale(
                        entries[l],
                        now_millis as int,
                    ),
            decreases n - i,
        {
            let ghost link = all[i as int];
            let ghost seen = all.take(i as int);
            let ghost kept_before = kept.deep_view();
            proof {
                assert(all.take(i + 1) =~= seen.push(link));
                push_contains(seen, link);
                push_contains(kept_before, link);
                assert(all.contains(link));
                assert(!seen.contains(link));
            }
            let cutoff: i64 = (now_millis - ENTRY_LIFE_MILLIS) as i64;
            let young = match self.map.get(self.keys[i].as_str()) {
                Some(entry) => entry.timestamp > cutoff,
                None => false,
            };
            if young {
                kept.push(self.keys[i].clone());
                proof {
                    assert(kept.deep_view() =~= kept_before.push(link));
                    assert forall|a: int| 0 <= a < kept_before.len() implies kept_before[a]
                        != link by {
                        assert(kept_before.contains(kept_before[a]));
                    }
                }
            } else {
                self.map.remove(self.keys[i].as_str());
            }
            i += 1;
        }
        self.keys = kept;
        proof {
            assert(all.take(n as int) =~= all);
            assert(self@ =~= young_entries(old(self)@, now_millis as int));
        }
    }
}

} // verus!
