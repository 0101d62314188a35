//! The glyph-texture cache: maps a text string to a lazily created,
//! GPU-resident coverage texture plus its pixel dimensions.
//!
//! The cache key is the literal string drawn — color is a per-vertex
//! attribute, so one glyph bitmap is reused across colors — and entries are
//! never evicted within a session.  Rasterization and texture upload happen
//! outside the engine; the driver asks the cache first, rasterizes only on a
//! miss, and records the resulting texture here, so a string is uploaded at
//! most once (see [`lemma_rasterize_once_is_enough`]).

use vstd::prelude::*;

use crate::types::COORD_LIMIT;

verus! {

/// A cached glyph texture: the GPU handle and the pixel size of the
/// rasterized string.
#[derive(Clone, Copy, Debug, PartialEq, Eq, Structural)]
pub struct TextEntry {
    pub texture: u32,
    pub width: i64,
    pub height: i64,
}

/// Dimensions a cache entry may record: non-negative and small enough that
/// text-quad geometry cannot overflow.
pub open spec fn entry_wf(e: TextEntry) -> bool {
    &&& 0 <= e.width <= COORD_LIMIT
    &&& 0 <= e.height <= COORD_LIMIT
}

/// Character-for-character string equality.
pub fn str_eq(a: &str, b: &str) -> (r: bool)
    ensures
        r == (a@ == b@),
{
    let a_len = a.unicode_len();
    let b_len = b.unicode_len();
    if a_len != b_len {
        assert(a@ != b@) by {
            assert(a@.len() != b@.len());
        }
        return false;
    }
    let mut i: usize = 0;
    while i < a_len
        invariant
            a_len == a@.len(),
            b_len == b@.len(),
            a_len == b_len,
            i <= a_len,
            forall|j: int| 0 <= j < i ==> a@[j] == b@[j],
        decreases a_len - i,
    {
        if a.get_char(i) != b.get_char(i) {
            return false;
        }
        i = i + 1;
    }
    proof {
        assert(a@ =~= b@);
    }
    true
}

/// The glyph-texture cache.  Entries are stored in insertion order with
/// pairwise distinct keys; lookups are by exact string.
pub struct TextCache {
    entries: Vec<(String, TextEntry)>,
}

/// The map described by an association list, later entries shadowing earlier
/// ones (the cache's invariant keeps keys distinct, so nothing is shadowed).
pub open spec fn map_of(s: Seq<(String, TextEntry)>) -> Map<Seq<char>, TextEntry>
    decreases s.len(),
{
    if s.len() == 0 {
        Map::empty()
    } else {
        map_of(s.drop_last()).insert(s.last().0@, s.last().1)
    }
}

impl View for TextCache {
    type V = Map<Seq<char>, TextEntry>;

    closed spec fn view(&self) -> Map<Seq<char>, TextEntry> {
        map_of(self.entries@)
    }
}

/// What one get-or-rasterize step does to a cache `m`: a hit returns the
/// cached entry and leaves the cache alone; a miss records `e` and returns
/// it.
pub open spec fn note_spec(m: Map<Seq<char>, TextEntry>, t: Seq<char>, e: TextEntry) -> (
    Map<Seq<char>, TextEntry>,
    TextEntry,
) {
    if m.contains_key(t) {
        (m, m[t])
    } else {
        (m.insert(t, e), e)
    }
}

impl TextCache {
    /// Keys are pairwise distinct and every entry's dimensions are bounded.
    pub closed spec fn wf(&self) -> bool {
        &&& forall|i: int, j: int|
            0 <= i < j < self.entries@.len() ==> self.entries@[i].0@ != self.entries@[j].0@
        &&& forall|i: int| 0 <= i < self.entries@.len() ==> entry_wf(#[trigger] self.entries@[i].1)
    }

    /// An empty cache.
    pub fn new() -> (c: TextCache)
        ensures
            c@ == Map::<Seq<char>, TextEntry>::empty(),
            c.wf(),
    {
        TextCache { entries: Vec::new() }
    }

    /// Entries listed in the map are exactly the stored ones.
    proof fn lemma_map_of_entries(s: Seq<(String, TextEntry)>, t: Seq<char>)
        ensures
            map_of(s).contains_key(t) <==> exists|i: int| 0 <= i < s.len() && s[i].0@ == t,
            map_of(s).contains_key(t) ==> exists|i: int|
                0 <= i < s.len() && s[i].0@ == t && map_of(s)[t] == s[i].1,
        decreases s.len(),
    {
        if s.len() > 0 {
            let pre = s.drop_last();
            Self::lemma_map_of_entries(pre, t);
            assert(forall|i: int| 0 <= i < s.len() - 1 ==> #[trigger] pre[i] == s[i]);
            if s.last().0@ == t {
                assert(s[s.len() - 1].0@ == t && map_of(s)[t] == s[s.len() - 1].1);
            } else {
                if map_of(s).contains_key(t) {
                    let i = choose|i: int|
                        0 <= i < pre.len() && pre[i].0@ == t && map_of(pre)[t] == pre[i].1;
                    assert(0 <= i < s.len() && s[i].0@ == t && map_of(s)[t] == s[i].1);
                }
                if exists|i: int| 0 <= i < s.len() && s[i].0@ == t {
                    let i = choose|i: int| 0 <= i < s.len() && s[i].0@ == t;
                    assert(i != s.len() - 1);
                    assert(pre[i].0@ == t);
                    assert(map_of(pre).contains_key(t));
                }
            }
        }
    }

    /// Return the cached texture and dimensions for `text`, if it has been
    /// rasterized before.
    pub fn lookup(&self, text: &str) -> (r: Option<TextEntry>)
        requires
            self.wf(),
        ensures
            match r {
                Some(e) => self@.contains_key(text@) && self@[text@] == e && entry_wf(e),
                None => !self@.contains_key(text@),
            },
    {
        let n = self.entries.len();
        let mut i: usize = 0;
        while i < n
            invariant
                self.wf(),
                n == self.entries@.len(),
                i <= n,
                forall|j: int| 0 <= j < i ==> self.entries@[j].0@ != text@,
            decreases n - i,
        {
            if str_eq(self.entries[i].0.as_str(), text) {
                proof {
                    Self::lemma_map_of_entries(self.entries@, text@);
                    let k = choose|k: int|
                        0 <= k < self.entries@.len() && self.entries@[k].0@ == text@ && map_of(
                            self.entries@,
                        )[text@] == self.entries@[k].1;
                    assert(k == i);
                }
                return Some(self.entries[i].1);
            }
            i = i + 1;
        }
        proof {
            Self::lemma_map_of_entries(self.entries@, text@);
        }
        None
    }

    /// Record the texture rasterized for `text`.  Only ever called on a
    /// cache miss; entries are never replaced or evicted.
    pub fn insert(&mut self, text: &str, entry: TextEntry)
        requires
            old(self).wf(),
            !old(self)@.contains_key(text@),
            entry_wf(entry),
        ensures
            final(self).wf(),
            final(self)@ == old(self)@.insert(text@, entry),
    {
        proof {
            Self::lemma_map_of_entries(self.entries@, text@);
        }
        let key = text.to_owned();
        self.entries.push((key, entry));
        proof {
            assert forall|i: int, j: int|
                0 <= i < j < self.entries@.len() implies self.entries@[i].0@
                != self.entries@[j].0@ by {
                if j == self.entries@.len() - 1 {
                    Self::lemma_map_of_entries(old(self).entries@, self.entries@[i].0@);
                }
            }
            assert(self.entries@.drop_last() =~= old(self).entries@);
        }
    }

    /// Get-or-record in one step: the entry already cached for `text`, or
    /// else `entry`, newly recorded.  Implements [`note_spec`].
    pub fn note(&mut self, text: &str, entry: TextEntry) -> (r: TextEntry)
        requires
            old(self).wf(),
            entry_wf(entry),
        ensures
            final(self).wf(),
            (final(self)@, r) == note_spec(old(self)@, text@, entry),
            entry_wf(r),
    {
        match self.lookup(text) {
            Some(e) => e,
            None => {
                self.insert(text, entry);
                entry
            },
        }
    }
}

/// Rasterizing is idempotent: once a string has been through one
/// get-or-rasterize step, every later step for that string returns the very
/// same texture handle and dimensions and leaves the cache unchanged — so no
/// second upload ever happens.
pub proof fn lemma_rasterize_once_is_enough(
    m: Map<Seq<char>, TextEntry>,
    t: Seq<char>,
    e1: TextEntry,
    e2: TextEntry,
)
    ensures
        ({
            let (m1, r1) = note_spec(m, t, e1);
            let (m2, r2) = note_spec(m1, t, e2);
            m2 == m1 && r2 == r1
        }),
{
}

} // verus!
