//! Scrub-oriented cache of decoded video frames.
//!
//! The cache remembers recently decoded frames keyed by (source path, source
//! timestamp), so that scrubbing near the playhead does not re-decode the
//! same frames over and over. It keeps a window of frames around the
//! playhead per source, and a global capacity bound: when an insertion would
//! exceed the bound, the oldest quarter of the entries (by insertion order)
//! is evicted in bulk — amortized constant cost over precise recency
//! tracking. A miss is always safe: the caller simply decodes.

use vstd::prelude::*;
use crate::media::VideoFrame;
use crate::time::{Time, NANOS_PER_SECOND};

verus! {

/// One cached frame with its key.
#[derive(Debug)]
pub struct CachedFrame {
    pub source_path: String,
    /// Source timestamp of the frame, in nanoseconds.
    pub timestamp: Time,
    pub frame: VideoFrame,
}

/// Whether an entry carries the given key.
pub open spec fn key_matches(e: CachedFrame, source: Seq<char>, timestamp: Time) -> bool {
    e.source_path@ == source && e.timestamp == timestamp
}

/// The entries left standing when every entry is pruned whose key names
/// `source` and whose timestamp lies outside `[start, end]`; entries of
/// other sources are untouched.
pub open spec fn entries_within(
    entries: Seq<CachedFrame>,
    source: Seq<char>,
    start: Time,
    end: Time,
) -> Seq<CachedFrame>
    decreases entries.len(),
{
    if entries.len() == 0 {
        Seq::<CachedFrame>::empty()
    } else {
        let prefix = entries_within(entries.drop_last(), source, start, end);
        let e = entries.last();
        if e.source_path@ != source || (start <= e.timestamp <= end) {
            prefix.push(e)
        } else {
            prefix
        }
    }
}

/// What survives the capacity check: when the cache already holds at least
/// `max` entries, the oldest quarter (by insertion order) is dropped.
pub open spec fn spec_pruned(entries: Seq<CachedFrame>, max: int) -> Seq<CachedFrame> {
    if entries.len() >= max {
        entries.skip(entries.len() as int / 4)
    } else {
        entries
    }
}

/// Bounded cache of decoded frames around the playhead.
#[derive(Debug)]
pub struct FrameCache {
    /// The cached frames in insertion order, oldest first.
    entries: Vec<CachedFrame>,
    /// Half-window cached on each side of the playhead, in nanoseconds.
    cache_window_size: Time,
    /// Capacity bound on the entry count.
    max_cache_size: usize,
}

impl FrameCache {
    /// The cached entries in insertion order, oldest first.
    pub closed spec fn spec_entries(self) -> Seq<CachedFrame> {
        self.entries@
    }

    /// The configured half-window, in nanoseconds.
    pub closed spec fn spec_window_size(self) -> Time {
        self.cache_window_size
    }

    /// The configured capacity bound.
    pub closed spec fn spec_max_size(self) -> usize {
        self.max_cache_size
    }

    /// Well-formedness: the half-window is a length, never negative.
    pub open spec fn wf(self) -> bool {
        self.spec_window_size() >= 0
    }

    /// The lower edge of the window around `playhead`, `playhead - W`
    /// saturated at the smallest time.
    pub open spec fn spec_window_start(self, playhead: Time) -> Time {
        if playhead >= i64::MIN + self.spec_window_size() {
            (playhead - self.spec_window_size()) as i64
        } else {
            i64::MIN
        }
    }

    /// The upper edge of the window around `playhead`, `playhead + W`
    /// saturated at the largest time.
    pub open spec fn spec_window_end(self, playhead: Time) -> Time {
        if playhead <= i64::MAX - self.spec_window_size() {
            (playhead + self.spec_window_size()) as i64
        } else {
            i64::MAX
        }
    }

    /// An empty cache with the given half-window and capacity bound.
    pub fn new(cache_window_nanos: Time, max_cache_size: usize) -> (cache: FrameCache)
        requires
            cache_window_nanos >= 0,
        ensures
            cache.wf(),
            cache.spec_entries() == Seq::<CachedFrame>::empty(),
            cache.spec_window_size() == cache_window_nanos,
            cache.spec_max_size() == max_cache_size,
    {
        FrameCache {
            entries: Vec::new(),
            cache_window_size: cache_window_nanos,
            max_cache_size,
        }
    }

    /// An empty cache with the default settings: a one-second half-window
    /// and at most a thousand frames.
    pub fn default() -> (cache: FrameCache)
        ensures
            cache.wf(),
            cache.spec_entries() == Seq::<CachedFrame>::empty(),
            cache.spec_window_size() == NANOS_PER_SECOND,
            cache.spec_max_size() == 1000usize,
    {
        FrameCache::new(NANOS_PER_SECOND, 1000)
    }

    /// Look a frame up by its key; `None` exactly when no entry has it.
    pub fn get(&self, source_path: &String, timestamp: Time) -> (r: Option<&VideoFrame>)
        ensures
            r is Some <==> exists|i: int|
                0 <= i < self.spec_entries().len() && key_matches(
                    #[trigger] self.spec_entries()[i],
                    source_path@,
                    timestamp,
                ),
            r matches Some(f) ==> exists|i: int|
                0 <= i < self.spec_entries().len() && key_matches(
                    #[trigger] self.spec_entries()[i],
                    source_path@,
                    timestamp,
                ) && *f == self.spec_entries()[i].frame,
    {
        let n = self.entries.len();
        let mut i: usize = 0;
        while i < n
            invariant
                n == self.entries.len(),
                i <= n,
                forall|j: int|
                    0 <= j < i ==> !key_matches(
                        #[trigger] self.entries@[j],
                        source_path@,
                        timestamp,
                    ),
            decreases n - i,
        {
            if self.entries[i].timestamp == timestamp && self.entries[i].source_path
                == *source_path {
                proof {
                    assert(key_matches(self.spec_entries()[i as int], source_path@, timestamp));
                }
                return Some(&self.entries[i].frame);
            }
            i += 1;
        }
        None
    }

    /// Drop the oldest quarter of the entries, by insertion order.
    fn evict_oldest(&mut self)
        ensures
            final(self).spec_entries() == old(self).spec_entries().skip(
                old(self).spec_entries().len() as int / 4,
            ),
            final(self).spec_window_size() == old(self).spec_window_size(),
            final(self).spec_max_size() == old(self).spec_max_size(),
    {
        let to_remove = self.entries.len() / 4;
        let mut r: usize = 0;
        proof {
            assert(self.entries@ =~= old(self).entries@.skip(0));
        }
        while r < to_remove
            invariant
                r <= to_remove,
                to_remove == old(self).entries@.len() as int / 4,
                self.entries@ == old(self).entries@.skip(r as int),
                self.cache_window_size == old(self).cache_window_size,
                self.max_cache_size == old(self).max_cache_size,
            decreases to_remove - r,
        {
            self.entries.remove(0);
            proof {
                assert(self.entries@ =~= old(self).entries@.skip(r + 1 as int));
            }
            r += 1;
        }
    }

    /// Insert a frame under (source path, frame timestamp).
    ///
    /// When the cache already holds `max_cache_size` entries or more, the
    /// oldest quarter is evicted first. A frame whose key is already present
    /// replaces the old frame in place; otherwise the entry is appended as
    /// the newest.
    pub fn insert(&mut self, source_path: String, frame: VideoFrame)
        ensures
            final(self).spec_window_size() == old(self).spec_window_size(),
            final(self).spec_max_size() == old(self).spec_max_size(),
            ({
                let pruned = spec_pruned(old(self).spec_entries(), old(self).spec_max_size() as int);
                let entry = CachedFrame { source_path, timestamp: frame.timestamp, frame };
                if exists|j: int|
                    0 <= j < pruned.len() && key_matches(
                        #[trigger] pruned[j],
                        source_path@,
                        frame.timestamp,
                    ) {
                    exists|j: int|
                        0 <= j < pruned.len() && key_matches(
                            #[trigger] pruned[j],
                            source_path@,
                            frame.timestamp,
                        ) && final(self).spec_entries() == pruned.update(j, entry) && (forall|k: int|
                            0 <= k < j ==> !key_matches(pruned[k], source_path@, frame.timestamp))
                } else {
                    final(self).spec_entries() == pruned.push(entry)
                }
            }),
    {
        if self.entries.len() >= self.max_cache_size {
            self.evict_oldest();
        }
        let n = self.entries.len();
        let mut i: usize = 0;
        while i < n
            invariant
                n == self.entries.len(),
                i <= n,
                forall|j: int|
                    0 <= j < i ==> !key_matches(
                        #[trigger] self.entries@[j],
                        source_path@,
                        frame.timestamp,
                    ),
                self.entries@ == spec_pruned(
                    old(self).spec_entries(),
                    old(self).spec_max_size() as int,
                ),
                self.cache_window_size == old(self).cache_window_size,
                self.max_cache_size == old(self).max_cache_size,
            decreases n - i,
        {
            if self.entries[i].timestamp == frame.timestamp && self.entries[i].source_path
                == source_path {
                let entry = CachedFrame { source_path, timestamp: frame.timestamp, frame };
                self.entries.set(i, entry);
                return;
            }
            i += 1;
        }
        let entry = CachedFrame { source_path, timestamp: frame.timestamp, frame };
        self.entries.push(entry);
    }

    /// The window of timestamps worth caching around `playhead`:
    /// `[playhead - W, playhead + W]`, saturated at the ends of the time
    /// type.
    pub fn cache_window(&self, playhead_time: Time) -> (r: (Time, Time))
        requires
            self.wf(),
        ensures
            r.0 == self.spec_window_start(playhead_time),
            r.1 == self.spec_window_end(playhead_time),
    {
        let start = if playhead_time >= i64::MIN + self.cache_window_size {
            playhead_time - self.cache_window_size
        } else {
            i64::MIN
        };
        let end = if playhead_time <= i64::MAX - self.cache_window_size {
            playhead_time + self.cache_window_size
        } else {
            i64::MAX
        };
        (start, end)
    }

    /// Whether a timestamp lies within the window around `playhead`.
    pub fn is_in_window(&self, timestamp: Time, playhead_time: Time) -> (r: bool)
        requires
            self.wf(),
        ensures
            r == (self.spec_window_start(playhead_time) <= timestamp <= self.spec_window_end(
                playhead_time,
            )),
    {
        let (start, end) = self.cache_window(playhead_time);
        timestamp >= start && timestamp <= end
    }

    /// Evict every entry of `source_path` whose timestamp falls outside the
    /// window around `playhead`; entries of other sources are untouched.
    pub fn trim_to_window(&mut self, source_path: &String, playhead_time: Time)
        requires
            old(self).wf(),
        ensures
            final(self).wf(),
            final(self).spec_entries() == entries_within(
                old(self).spec_entries(),
                source_path@,
                old(self).spec_window_start(playhead_time),
                old(self).spec_window_end(playhead_time),
            ),
            final(self).spec_window_size() == old(self).spec_window_size(),
            final(self).spec_max_size() == old(self).spec_max_size(),
    {
        let (start, end) = self.cache_window(playhead_time);
        let ghost orig = self.entries@;
        let mut i: usize = 0;
        let ghost mut j: int = 0;
        proof {
            assert(orig.take(0) =~= Seq::<CachedFrame>::empty());
            assert(self.entries@ =~= entries_within(orig.take(0), source_path@, start, end)
                + orig.skip(0));
        }
        while i < self.entries.len()
            invariant
                0 <= j <= orig.len(),
                self.entries@ == entries_within(orig.take(j), source_path@, start, end)
                    + orig.skip(j),
                i == entries_within(orig.take(j), source_path@, start, end).len(),
                start == self.spec_window_start(playhead_time),
                end == self.spec_window_end(playhead_time),
                self.wf(),
                self.cache_window_size == old(self).cache_window_size,
                self.max_cache_size == old(self).max_cache_size,
            decreases orig.len() - j,
        {
            let ghost within = entries_within(orig.take(j), source_path@, start, end);
            proof {
                assert(j < orig.len());
                assert(self.entries@[i as int] == orig.skip(j)[0]);
                assert(orig.skip(j)[0] == orig[j]);
                assert(orig.take(j + 1).drop_last() =~= orig.take(j));
                assert(orig.take(j + 1).last() == orig[j]);
            }
            let keep = !(self.entries[i].source_path == *source_path) || (self.entries[i].timestamp
                >= start && self.entries[i].timestamp <= end);
            if keep {
                proof {
                    assert(entries_within(orig.take(j + 1), source_path@, start, end)
                        == within.push(orig[j]));
                    assert(self.entries@ =~= entries_within(
                        orig.take(j + 1),
                        source_path@,
                        start,
                        end,
                    ) + orig.skip(j + 1));
                    j = j + 1;
                }
                i += 1;
            } else {
                self.entries.remove(i);
                proof {
                    assert(entries_within(orig.take(j + 1), source_path@, start, end) == within);
                    assert(self.entries@ =~= entries_within(
                        orig.take(j + 1),
                        source_path@,
                        start,
                        end,
                    ) + orig.skip(j + 1));
                    j = j + 1;
                }
            }
        }
        proof {
            assert(j == orig.len());
            assert(orig.take(j) =~= orig);
            assert(orig.skip(j) =~= Seq::<CachedFrame>::empty());
            assert(self.entries@ =~= entries_within(orig, source_path@, start, end));
        }
    }

    /// Drop every cached frame.
    pub fn clear(&mut self)
        ensures
            final(self).spec_entries() == Seq::<CachedFrame>::empty(),
            final(self).spec_window_size() == old(self).spec_window_size(),
            final(self).spec_max_size() == old(self).spec_max_size(),
    {
        self.entries.clear();
    }

    /// The number of cached frames.
    pub fn len(&self) -> (r: usize)
        ensures
            r == self.spec_entries().len(),
    {
        self.entries.len()
    }

    /// Whether the cache holds nothing.
    pub fn is_empty(&self) -> (r: bool)
        ensures
            r == (self.spec_entries().len() == 0),
    {
        self.entries.is_empty()
    }
}

/// Law of the capacity bound: one insertion into a cache holding at most
/// `max` entries, `max` at least four, leaves at most `max` entries — a full
/// cache first sheds its oldest quarter, which makes room for the newcomer.
pub proof fn lemma_insert_capacity(len: int, max: int)
    requires
        0 <= len <= max,
        4 <= max,
    ensures
        (if len >= max {
            len - len / 4
        } else {
            len
        }) + 1 <= max,
{
}

} // verus!
