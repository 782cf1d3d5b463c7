//! The concurrent quality store: a sharded map of file threads behind
//! trusted bindings, a micro-batching writer with last-write-wins
//! semantics per path, a TTL read cache over derived colours, a
//! bounded-parallel revision processor, and a constant-memory streaming
//! analyzer.
//!
//! The sharded maps come from an outside crate; the library states their
//! behaviour over an abstract contents map and verifies every decision
//! (batching, grouping, expiry, chunk sizing) against it.

use vstd::prelude::*;

use dashmap::DashMap;
use rayon::iter::ParallelIterator;
use rayon::slice::ParallelSlice;

use crate::errors::{GdkError, GdkResult};
use crate::platform;
use crate::{eq_thread, CommitNode, FileThread, ThreadColor, SCORE_SCALE};

verus! {

#[verifier::external_type_specification]
#[verifier::external_body]
#[verifier::reject_recursive_types(K)]
#[verifier::reject_recursive_types(V)]
#[verifier::reject_recursive_types(S)]
pub struct ExDashMap<K, V, S>(DashMap<K, V, S>);

/// A sharded, thread-safe map from file path to thread record.
pub type ThreadMap = DashMap<String, FileThread>;

/// What the sharded thread map holds: file path to thread record.
pub uninterp spec fn thread_map_contents(m: ThreadMap) -> Map<Seq<char>, FileThread>;

/// The empty path-to-thread map.
pub open spec fn empty_thread_map() -> Map<Seq<char>, FileThread> {
    Map::empty()
}

/// Relies on `dashmap::DashMap::new`: a fresh map holds nothing.
#[verifier::external_body]
fn dm_threads_new() -> (r: ThreadMap)
    ensures
        thread_map_contents(r) == empty_thread_map(),
{
    DashMap::new()
}

/// Relies on `dashmap::DashMap::insert`: after the call the key maps to
/// the value; other keys are untouched.
#[verifier::external_body]
fn dm_threads_insert(m: &mut ThreadMap, k: String, v: FileThread)
    ensures
        thread_map_contents(*final(m)) == thread_map_contents(*old(m)).insert(k@, v),
{
    m.insert(k, v);
}

/// Relies on `dashmap::DashMap::get`: the value stored under the key, if
/// any, handed out as a field-by-field copy.
#[verifier::external_body]
fn dm_threads_get(m: &ThreadMap, k: &String) -> (r: Option<FileThread>)
    ensures
        r matches Some(v) ==> thread_map_contents(*m).contains_key(k@) && eq_thread(
            v,
            thread_map_contents(*m)[k@],
        ),
        r is None ==> !thread_map_contents(*m).contains_key(k@),
{
    m.get(k).map(|e| e.value().clone())
}

/// Relies on `dashmap::DashMap::len`: how many keys the map holds.
#[verifier::external_body]
fn dm_threads_len(m: &ThreadMap) -> (n: usize)
    ensures
        n == thread_map_contents(*m).dom().len(),
{
    m.len()
}

/// Relies on `dashmap::DashMap::remove`: after the call the key is
/// absent; other keys are untouched.
#[verifier::external_body]
fn dm_threads_remove(m: &mut ThreadMap, k: &String)
    ensures
        thread_map_contents(*final(m)) == thread_map_contents(*old(m)).remove(k@),
{
    m.remove(k);
}

/// A cached derived-colour entry: the colour, the composite score, the
/// write time and a hash of the inputs for validation.
#[derive(Debug, Clone, Copy, PartialEq, Eq, Structural)]
pub struct QualitySnapshot {
    pub color: ThreadColor,
    pub score: u32,
    pub timestamp_ms: u64,
    pub data_hash: u64,
}

/// A sharded, thread-safe read cache from file path to derived colour.
pub type CacheMap = DashMap<String, QualitySnapshot>;

/// What the cache map holds: file path to cached snapshot.
pub uninterp spec fn cache_contents(m: CacheMap) -> Map<Seq<char>, QualitySnapshot>;

/// The empty path-to-snapshot map.
pub open spec fn empty_cache_map() -> Map<Seq<char>, QualitySnapshot> {
    Map::empty()
}

/// Relies on `dashmap::DashMap::new`: a fresh map holds nothing.
#[verifier::external_body]
fn dm_cache_new() -> (r: CacheMap)
    ensures
        cache_contents(r) == empty_cache_map(),
{
    DashMap::new()
}

/// Relies on `dashmap::DashMap::insert`: after the call the key maps to
/// the value; other keys are untouched.
#[verifier::external_body]
fn dm_cache_insert(m: &mut CacheMap, k: String, v: QualitySnapshot)
    ensures
        cache_contents(*final(m)) == cache_contents(*old(m)).insert(k@, v),
{
    m.insert(k, v);
}

/// Relies on `dashmap::DashMap::get`: the value stored under the key, if
/// any; the entry is plain data, copied out.
#[verifier::external_body]
fn dm_cache_get(m: &CacheMap, k: &String) -> (r: Option<QualitySnapshot>)
    ensures
        r matches Some(v) ==> cache_contents(*m).contains_key(k@) && v == cache_contents(*m)[k@],
        r is None ==> !cache_contents(*m).contains_key(k@),
{
    m.get(k).map(|e| *e.value())
}

/// Relies on `dashmap::DashMap::remove`: after the call the key is
/// absent; other keys are untouched.
#[verifier::external_body]
fn dm_cache_remove(m: &mut CacheMap, k: &String)
    ensures
        cache_contents(*final(m)) == cache_contents(*old(m)).remove(k@),
{
    m.remove(k);
}

/// Relies on `dashmap::DashMap::len`: how many keys the map holds.
#[verifier::external_body]
fn dm_cache_len(m: &CacheMap) -> (n: usize)
    ensures
        n == cache_contents(*m).dom().len(),
{
    m.len()
}

/// One pending score update for a file.
#[derive(Debug, PartialEq)]
pub struct ThreadUpdate {
    pub file_path: String,
    pub lint_score: u32,
    pub type_check_score: u32,
    pub test_coverage: u32,
    pub functionality_score: u32,
}

impl Clone for ThreadUpdate {
    /// An exact copy.
    fn clone(&self) -> (res: Self)
        ensures
            res == *self,
    {
        ThreadUpdate {
            file_path: self.file_path.clone(),
            lint_score: self.lint_score,
            type_check_score: self.type_check_score,
            test_coverage: self.test_coverage,
            functionality_score: self.functionality_score,
        }
    }
}

/// The pending buffer of the micro-batching writer.
#[derive(Debug)]
pub struct BatchProcessor {
    /// Updates waiting for the next flush, in arrival order.
    pub pending_updates: Vec<ThreadUpdate>,
    /// Flush when the buffer reaches this size (default 50).
    pub batch_size: usize,
    /// When the last flush happened, in Unix milliseconds.
    pub last_flush_ms: u64,
}

/// The latest pending update for a path, if any.
pub open spec fn last_update_for(pending: Seq<ThreadUpdate>, p: Seq<char>) -> Option<ThreadUpdate>
    decreases pending.len(),
{
    if pending.len() == 0 {
        None
    } else if pending.last().file_path@ == p {
        Some(pending.last())
    } else {
        last_update_for(pending.drop_last(), p)
    }
}

/// Whether `t1` is the record after applying update `u` to the prior
/// record `t0` (absent records are created with an empty history): the
/// four scores are taken from the update, the colour is re-derived from
/// their mean, and identity plus history carry over.
pub open spec fn update_applied(t0: Option<FileThread>, u: ThreadUpdate, t1: FileThread) -> bool {
    &&& t1.file_path@ == u.file_path@
    &&& t1.lint_score == u.lint_score
    &&& t1.type_check_score == u.type_check_score
    &&& t1.test_coverage == u.test_coverage
    &&& t1.functionality_score == u.functionality_score
    &&& t1.color_status == crate::color_of_score_sum(
        u.lint_score + u.type_check_score + u.test_coverage + u.functionality_score,
    )
    &&& (t0 matches Some(t) ==> t1.history@ == t.history@ && t1.thread_id == t.thread_id)
    &&& (t0 is None ==> t1.history@.len() == 0)
}

/// Whether `m1` is `m0` after one batch of pending updates was applied:
/// per path the last update wins, untouched paths keep their records
/// exactly, and updated paths hold the applied record.
pub open spec fn batch_applied(
    m0: Map<Seq<char>, FileThread>,
    m1: Map<Seq<char>, FileThread>,
    pending: Seq<ThreadUpdate>,
) -> bool {
    &&& forall|p: Seq<char>|
        #[trigger] m1.contains_key(p) <==> (m0.contains_key(p) || last_update_for(pending, p)
            is Some)
    &&& forall|p: Seq<char>|
        m0.contains_key(p) && last_update_for(pending, p) is None ==> #[trigger] m1[p] == m0[p]
    &&& forall|p: Seq<char>|
        #[trigger] last_update_for(pending, p) matches Some(u) ==> m1.contains_key(p)
            && update_applied(
            if m0.contains_key(p) {
                Some(m0[p])
            } else {
                None
            },
            u,
            m1[p],
        )
}

/// High-throughput store of file threads for concurrent use: a sharded
/// map, a micro-batching writer and a TTL read cache.
#[derive(Debug)]
pub struct ConcurrentThreadManager {
    threads: ThreadMap,
    batch_processor: BatchProcessor,
    quality_cache: CacheMap,
}

impl ConcurrentThreadManager {
    /// The canonical stored records, by path.
    pub closed spec fn threads_view(&self) -> Map<Seq<char>, FileThread> {
        thread_map_contents(self.threads)
    }

    /// The cached derived entries, by path.
    pub closed spec fn cache_view(&self) -> Map<Seq<char>, QualitySnapshot> {
        cache_contents(self.quality_cache)
    }

    /// The updates waiting for the next flush.
    pub closed spec fn pending_view(&self) -> Seq<ThreadUpdate> {
        self.batch_processor.pending_updates@
    }

    /// The configured flush size.
    pub closed spec fn batch_size_view(&self) -> int {
        self.batch_processor.batch_size as int
    }

    /// An empty manager with the default flush size of fifty updates.
    pub fn new() -> (m: ConcurrentThreadManager)
        ensures
            m.threads_view() == empty_thread_map(),
            m.cache_view() == empty_cache_map(),
            m.pending_view().len() == 0,
            m.batch_size_view() == 50,
    {
        ConcurrentThreadManager {
            threads: dm_threads_new(),
            batch_processor: BatchProcessor {
                pending_updates: Vec::new(),
                batch_size: 50,
                last_flush_ms: platform::unix_now_millis(),
            },
            quality_cache: dm_cache_new(),
        }
    }

    /// Apply one update to the canonical map: scores replaced, colour
    /// re-derived, record created on first write.
    fn apply_update(threads: &mut ThreadMap, u: &ThreadUpdate)
        ensures
            ({
                let m0 = thread_map_contents(*old(threads));
                let m1 = thread_map_contents(*final(threads));
                &&& m1.dom() == m0.dom().insert(u.file_path@)
                &&& forall|q: Seq<char>|
                    q != u.file_path@ && m0.contains_key(q) ==> #[trigger] m1[q] == m0[q]
                &&& m1.contains_key(u.file_path@)
                &&& update_applied(
                    if m0.contains_key(u.file_path@) {
                        Some(m0[u.file_path@])
                    } else {
                        None
                    },
                    *u,
                    m1[u.file_path@],
                )
            }),
    {
        let color = ThreadColor::from_scores(
            u.lint_score,
            u.type_check_score,
            u.test_coverage,
            u.functionality_score,
        );
        let existing = dm_threads_get(threads, &u.file_path);
        let updated = match existing {
            Some(t) => FileThread {
                file_path: u.file_path.clone(),
                thread_id: t.thread_id,
                color_status: color,
                lint_score: u.lint_score,
                type_check_score: u.type_check_score,
                test_coverage: u.test_coverage,
                functionality_score: u.functionality_score,
                history: t.history,
            },
            None => FileThread {
                file_path: u.file_path.clone(),
                thread_id: platform::fresh_id(),
                color_status: color,
                lint_score: u.lint_score,
                type_check_score: u.type_check_score,
                test_coverage: u.test_coverage,
                functionality_score: u.functionality_score,
                history: Vec::new(),
            },
        };
        dm_threads_insert(threads, u.file_path.clone(), updated);
        proof {
            assert(thread_map_contents(*threads).dom() =~= thread_map_contents(
                *old(threads),
            ).dom().insert(u.file_path@));
        }
    }

    /// Queue updates and invalidate their cache entries immediately; then
    /// flush if the buffer reached the configured size or the flush
    /// window elapsed. On a flush, the last update per path wins and all
    /// grouped updates are applied before the call returns.
    pub fn update_threads_batch(&mut self, updates: &Vec<ThreadUpdate>) -> (r: GdkResult<()>)
        ensures
            r is Ok,
            final(self).batch_size_view() == old(self).batch_size_view(),
            // a write invalidates the written path's cache entry at once,
            // whatever its age
            final(self).cache_view() == remove_paths(old(self).cache_view(), updates@),
            // the buffer either grew, or was flushed whole into the map
            ({
                let pend1 = old(self).pending_view() + updates@;
                ||| (final(self).pending_view() == pend1 && final(self).threads_view() == old(self).threads_view() && pend1.len() < old(self).batch_size_view())
                ||| (final(self).pending_view().len() == 0 && batch_applied(
                    old(self).threads_view(),
                    final(self).threads_view(),
                    pend1,
                ))
            }),
            // reaching the flush size always flushes
            old(self).pending_view().len() + updates@.len() >= old(self).batch_size_view() ==> final(self).pending_view().len() == 0,
    {
        let ghost pend0 = self.batch_processor.pending_updates@;
        let ghost cache0 = cache_contents(self.quality_cache);
        let mut k: usize = 0;
        let n = updates.len();
        while k < n
            invariant
                0 <= k <= n,
                n == updates@.len(),
                self.batch_processor.pending_updates@ == pend0 + updates@.subrange(0, k as int),
                cache_contents(self.quality_cache) == remove_paths(
                    cache0,
                    updates@.subrange(0, k as int),
                ),
                self.batch_processor.batch_size == old(self).batch_processor.batch_size,
                thread_map_contents(self.threads) == thread_map_contents(old(self).threads),
            decreases n - k,
        {
            proof {
                assert(updates@.subrange(0, k + 1).drop_last() =~= updates@.subrange(0, k as int));
                assert(updates@.subrange(0, k + 1).last() == updates@[k as int]);
            }
            let u = &updates[k];
            self.batch_processor.pending_updates.push(u.clone());
            dm_cache_remove(&mut self.quality_cache, &u.file_path);
            proof {
                assert(self.batch_processor.pending_updates@ =~= pend0 + updates@.subrange(
                    0,
                    k + 1,
                ));
            }
            k = k + 1;
        }
        proof {
            assert(updates@.subrange(0, n as int) == updates@);
        }
        let now = platform::unix_now_millis();
        let pending_len = self.batch_processor.pending_updates.len();
        let elapsed = if now >= self.batch_processor.last_flush_ms {
            now - self.batch_processor.last_flush_ms
        } else {
            0
        };
        if pending_len >= self.batch_processor.batch_size || elapsed > 100 {
            self.flush_pending(now);
        }
        Ok(())
    }

    /// Apply every pending update, oldest first (so the last write per
    /// path wins), and clear the buffer.
    fn flush_pending(&mut self, now: u64)
        ensures
            final(self).pending_view().len() == 0,
            final(self).batch_size_view() == old(self).batch_size_view(),
            final(self).cache_view() == old(self).cache_view(),
            batch_applied(
                old(self).threads_view(),
                final(self).threads_view(),
                old(self).pending_view(),
            ),
    {
        let ghost m0 = thread_map_contents(self.threads);
        let ghost pend = self.batch_processor.pending_updates@;
        let n = self.batch_processor.pending_updates.len();
        let mut i: usize = 0;
        while i < n
            invariant
                0 <= i <= n,
                n == self.batch_processor.pending_updates@.len(),
                self.batch_processor.pending_updates@ == pend,
                self.batch_processor.batch_size == old(self).batch_processor.batch_size,
                cache_contents(self.quality_cache) == cache_contents(old(self).quality_cache),
                m0 == thread_map_contents(old(self).threads),
                batch_applied(
                    m0,
                    thread_map_contents(self.threads),
                    pend.subrange(0, i as int),
                ),
            decreases n - i,
        {
            let ghost mcur = thread_map_contents(self.threads);
            let u = self.batch_processor.pending_updates[i].clone();
            Self::apply_update(&mut self.threads, &u);
            proof {
                let mnew = thread_map_contents(self.threads);
                let prefix = pend.subrange(0, i as int);
                let prefix1 = pend.subrange(0, i + 1);
                assert(prefix1.drop_last() =~= prefix);
                assert(prefix1.last() == pend[i as int]);
                assert(pend[i as int] == u);
                lemma_batch_applied_step(m0, mcur, mnew, prefix, u);
            }
            i = i + 1;
        }
        proof {
            assert(pend.subrange(0, n as int) == pend);
        }
        self.batch_processor.pending_updates = Vec::new();
        self.batch_processor.last_flush_ms = now;
    }

    /// The mixing hash of four scores, used to validate cache entries.
    pub open spec fn spec_thread_hash(l: u32, t: u32, c: u32, f: u32) -> u64 {
        (l as u64) ^ ((t as u64) << 16) ^ ((c as u64) << 32) ^ ((f as u64) << 48)
    }

    /// Hash a thread's four scores for cache validation.
    fn calculate_thread_hash(t: &FileThread) -> (h: u64)
        ensures
            h == Self::spec_thread_hash(
                t.lint_score,
                t.type_check_score,
                t.test_coverage,
                t.functionality_score,
            ),
    {
        (t.lint_score as u64) ^ ((t.type_check_score as u64) << 16u64) ^ ((t.test_coverage
            as u64) << 32u64) ^ ((t.functionality_score as u64) << 48u64)
    }

    /// Whether a cache entry written at `e.timestamp_ms` is still fresh
    /// at `now_ms`: younger than sixty seconds (a clock that went
    /// backwards counts as fresh).
    pub open spec fn cache_fresh(e: QualitySnapshot, now_ms: u64) -> bool {
        now_ms < e.timestamp_ms || now_ms - e.timestamp_ms < 60000
    }

    /// The colour for a path at a given instant: a fresh cache entry is
    /// served as is — even if the canonical record changed meanwhile —
    /// otherwise the canonical record answers and repopulates the cache.
    pub fn get_thread_cached_at(&mut self, file_path: &str, now_ms: u64) -> (r: Option<
        ThreadColor,
    >)
        ensures
            final(self).threads_view() == old(self).threads_view(),
            final(self).pending_view() == old(self).pending_view(),
            final(self).batch_size_view() == old(self).batch_size_view(),
            ({
                let cache0 = old(self).cache_view();
                let threads0 = old(self).threads_view();
                let p = file_path@;
                let hit = cache0.contains_key(p) && Self::cache_fresh(cache0[p], now_ms);
                &&& (hit ==> r == Some(cache0[p].color) && final(self).cache_view() == cache0)
                &&& (!hit && threads0.contains_key(p) ==> {
                    let t = threads0[p];
                    &&& r == Some(t.color_status)
                    &&& final(self).cache_view() == cache0.insert(
                        p,
                        QualitySnapshot {
                            color: t.color_status,
                            score: ((t.lint_score + t.type_check_score + t.test_coverage
                                + t.functionality_score) as u64 / 4) as u32,
                            timestamp_ms: now_ms,
                            data_hash: Self::spec_thread_hash(
                                t.lint_score,
                                t.type_check_score,
                                t.test_coverage,
                                t.functionality_score,
                            ),
                        },
                    )
                })
                &&& (!hit && !threads0.contains_key(p) ==> r is None && final(self).cache_view()
                    == cache0)
            }),
    {
        let key = String::from_str(file_path);
        match dm_cache_get(&self.quality_cache, &key) {
            Some(entry) => {
                let elapsed = if now_ms >= entry.timestamp_ms {
                    now_ms - entry.timestamp_ms
                } else {
                    0
                };
                if elapsed < 60000 {
                    return Some(entry.color);
                }
            },
            None => {},
        }
        match dm_threads_get(&self.threads, &key) {
            None => None,
            Some(t) => {
                let color = t.color_status;
                let sum: u64 = t.lint_score as u64 + t.type_check_score as u64 + t.test_coverage
                    as u64 + t.functionality_score as u64;
                let snapshot = QualitySnapshot {
                    color,
                    score: (sum / 4) as u32,
                    timestamp_ms: now_ms,
                    data_hash: Self::calculate_thread_hash(&t),
                };
                dm_cache_insert(&mut self.quality_cache, key, snapshot);
                Some(color)
            },
        }
    }

    /// The colour for a path, read through the TTL cache at the current
    /// clock (see [`Self::get_thread_cached_at`] for the exact law).
    pub fn get_thread_cached(&mut self, file_path: &str) -> (r: Option<ThreadColor>)
        ensures
            final(self).threads_view() == old(self).threads_view(),
            final(self).pending_view() == old(self).pending_view(),
            final(self).batch_size_view() == old(self).batch_size_view(),
            r matches Some(c) ==> (old(self).cache_view().contains_key(file_path@) && c == old(self).cache_view()[file_path@].color) || (old(self).threads_view().contains_key(file_path@)
                && c == old(self).threads_view()[file_path@].color_status),
            r is None ==> !old(self).threads_view().contains_key(file_path@),
    {
        let now = platform::unix_now_millis();
        self.get_thread_cached_at(file_path, now)
    }

    /// Counts and the cache hit ratio estimate.
    pub fn get_stats(&self) -> (s: ConcurrentManagerStats)
        ensures
            s.active_threads == self.threads_view().dom().len(),
            s.cached_entries == self.cache_view().dom().len(),
            s.cache_hit_ratio == spec_hit_ratio(
                self.cache_view().dom().len() as int,
                self.threads_view().dom().len() as int,
            ),
            s.cache_hit_ratio <= SCORE_SCALE,
    {
        let active = dm_threads_len(&self.threads);
        let cached = dm_cache_len(&self.quality_cache);
        ConcurrentManagerStats {
            active_threads: active,
            cached_entries: cached,
            cache_hit_ratio: Self::hit_ratio(cached, active),
        }
    }

    /// The cache hit ratio estimate: cached entries over active threads,
    /// clamped to one.
    fn hit_ratio(cached: usize, active: usize) -> (r: u32)
        ensures
            r == spec_hit_ratio(cached as int, active as int),
            r <= SCORE_SCALE,
    {
        if active == 0 {
            0
        } else {
            proof {
                assert(0 <= (cached as int) * (SCORE_SCALE as int) <= 0xffffffffffffffffint
                    * 10000int) by (nonlinear_arith)
                    requires
                        0 <= cached as int <= 0xffffffffffffffffint,
                ;
            }
            let q = (cached as u128) * (SCORE_SCALE as u128) / (active as u128);
            if q > SCORE_SCALE as u128 {
                SCORE_SCALE
            } else {
                q as u32
            }
        }
    }
}

/// The cache map after removing the path of every update in the batch.
pub open spec fn remove_paths(
    m: Map<Seq<char>, QualitySnapshot>,
    ups: Seq<ThreadUpdate>,
) -> Map<Seq<char>, QualitySnapshot>
    decreases ups.len(),
{
    if ups.len() == 0 {
        m
    } else {
        remove_paths(m, ups.drop_last()).remove(ups.last().file_path@)
    }
}

/// The cached-share estimate: cached over active, clamped to one, zero
/// without threads.
pub open spec fn spec_hit_ratio(cached: int, active: int) -> int {
    if active == 0 {
        0
    } else if cached * SCORE_SCALE / active > SCORE_SCALE {
        SCORE_SCALE as int
    } else {
        cached * SCORE_SCALE / active
    }
}

/// Counts and the cache hit ratio of a [`ConcurrentThreadManager`].
#[derive(Debug, Clone, Copy, PartialEq, Eq, Structural)]
pub struct ConcurrentManagerStats {
    pub active_threads: usize,
    pub cached_entries: usize,
    /// Cached share of active threads, in `[0, SCORE_SCALE]`.
    pub cache_hit_ratio: u32,
}

/// Applying one more update on top of an applied batch yields the batch
/// extended by that update.
proof fn lemma_batch_applied_step(
    m0: Map<Seq<char>, FileThread>,
    mcur: Map<Seq<char>, FileThread>,
    mnew: Map<Seq<char>, FileThread>,
    prefix: Seq<ThreadUpdate>,
    u: ThreadUpdate,
)
    requires
        batch_applied(m0, mcur, prefix),
        mnew.dom() == mcur.dom().insert(u.file_path@),
        forall|q: Seq<char>| q != u.file_path@ && mcur.contains_key(q) ==> #[trigger] mnew[q]
            == mcur[q],
        mnew.contains_key(u.file_path@),
        update_applied(
            if mcur.contains_key(u.file_path@) {
                Some(mcur[u.file_path@])
            } else {
                None
            },
            u,
            mnew[u.file_path@],
        ),
    ensures
        batch_applied(m0, mnew, prefix.push(u)),
{
    let pend1 = prefix.push(u);
    assert(pend1.drop_last() =~= prefix);
    assert(pend1.last() == u);
    assert forall|p: Seq<char>| #[trigger] mnew.contains_key(p) <==> (m0.contains_key(p)
        || last_update_for(pend1, p) is Some) by {
        if p == u.file_path@ {
            assert(last_update_for(pend1, p) == Some(u));
        } else {
            assert(last_update_for(pend1, p) == last_update_for(prefix, p));
            assert(mnew.contains_key(p) <==> mcur.contains_key(p));
        }
    }
    assert forall|p: Seq<char>| m0.contains_key(p) && last_update_for(pend1, p) is None implies (
    #[trigger] mnew[p]) == m0[p] by {
        assert(p != u.file_path@);
        assert(last_update_for(prefix, p) is None);
        assert(mcur[p] == m0[p]);
        assert(mcur.contains_key(p));
    }
    assert forall|p: Seq<char>| #[trigger] last_update_for(pend1, p) is Some implies
        mnew.contains_key(p) && update_applied(
        if m0.contains_key(p) {
            Some(m0[p])
        } else {
            None
        },
        last_update_for(pend1, p)->0,
        mnew[p],
    ) by {
        if p == u.file_path@ {
            assert(last_update_for(pend1, p) == Some(u));
            if mcur.contains_key(p) {
                if last_update_for(prefix, p) is Some {
                    let w = last_update_for(prefix, p)->0;
                    assert(update_applied(
                        if m0.contains_key(p) {
                            Some(m0[p])
                        } else {
                            None
                        },
                        w,
                        mcur[p],
                    ));
                } else {
                    assert(mcur[p] == m0[p]);
                }
            } else {
                assert(!m0.contains_key(p) && last_update_for(prefix, p) is None);
            }
        } else {
            assert(last_update_for(pend1, p) == last_update_for(prefix, p));
            assert(mcur.contains_key(p));
            assert(mnew[p] == mcur[p]);
        }
    }
}

/// Memory usage statistics (populated by profiling at the boundary).
#[derive(Debug, Clone, Copy, PartialEq, Eq, Structural)]
pub struct MemoryStats {
    pub peak_memory_bytes: u64,
    pub current_memory_bytes: u64,
    pub cache_entries: usize,
    pub avg_commit_memory: u64,
}

/// Performance counters of the parallel processor.
#[derive(Debug, Clone, Copy, PartialEq, Eq, Structural)]
pub struct ProcessorMetrics {
    /// Total commits processed (saturating).
    pub commits_processed: u64,
    /// Moving average processing time per commit, in microseconds.
    pub avg_commit_time_us: u64,
    /// Cache hit ratio in `[0, SCORE_SCALE]`.
    pub cache_hit_ratio: u32,
    pub memory_stats: MemoryStats,
    /// Parallel efficiency in `[0, SCORE_SCALE]`.
    pub parallel_efficiency: u32,
}

/// The all-zero counters.
pub open spec fn spec_zero_metrics() -> ProcessorMetrics {
    ProcessorMetrics {
        commits_processed: 0u64,
        avg_commit_time_us: 0u64,
        cache_hit_ratio: 0u32,
        memory_stats: MemoryStats {
            peak_memory_bytes: 0u64,
            current_memory_bytes: 0u64,
            cache_entries: 0usize,
            avg_commit_memory: 0u64,
        },
        parallel_efficiency: 0u32,
    }
}

/// The chunk size for a workload: items per four tasks per processor,
/// scaled up by half with an effective cache (hit ratio above 0.8) and
/// down by a fifth otherwise, clamped to `[1, 1000]`.
pub open spec fn spec_chunk_size(total: int, cpu: int, hit_ratio: int) -> int {
    let base0 = total / (cpu * 4);
    let base = if base0 < 1 {
        1int
    } else {
        base0
    };
    let adjusted = if hit_ratio > 8000 {
        base * 3 / 2
    } else {
        base * 4 / 5
    };
    if adjusted < 1 {
        1int
    } else if adjusted > 1000 {
        1000int
    } else {
        adjusted
    }
}

/// Bounded-parallel processor over revision histories. The concurrency
/// limit bounds how many bulk operations the runtime at the boundary may
/// admit at once; processing itself runs on a work-stealing pool.
#[derive(Debug)]
pub struct ParallelCommitProcessor {
    concurrency_limit: usize,
    metrics: ProcessorMetrics,
}

/// Relies on rayon's parallel chunked iteration (`par_chunks`, `map`,
/// `collect`): applies `f` to every commit on the work-stealing pool in
/// chunks of `chunk`, collecting the results in the original order; any
/// failed element fails the whole batch with one of the raised errors.
#[verifier::external_body]
fn par_map_commits<R: Send, F: Fn(&CommitNode) -> Result<R, GdkError> + Send + Sync>(
    commits: &Vec<CommitNode>,
    chunk: usize,
    f: F,
) -> (out: Result<Vec<R>, GdkError>)
    requires
        chunk >= 1,
        forall|i: int| 0 <= i < commits@.len() ==> call_requires(f, (&commits@[i],)),
    ensures
        out matches Ok(v) ==> v@.len() == commits@.len() && (forall|i: int|
            0 <= i < commits@.len() ==> call_ensures(f, (&commits@[i],), Ok(#[trigger] v@[i]))),
        out matches Err(e) ==> exists|i: int|
            0 <= i < commits@.len() && call_ensures(f, (&commits@[i],), Err(e)),
{
    let nested: Result<Vec<Vec<R>>, GdkError> = commits
        .par_chunks(chunk)
        .map(|c| c.iter().map(&f).collect())
        .collect();
    nested.map(|vs| vs.into_iter().flatten().collect())
}

impl ParallelCommitProcessor {
    /// The admission bound for concurrent bulk operations.
    pub closed spec fn concurrency_limit_view(&self) -> int {
        self.concurrency_limit as int
    }

    /// The current counters.
    pub closed spec fn metrics_view(&self) -> ProcessorMetrics {
        self.metrics
    }

    /// A processor with zeroed counters and an admission bound of twice
    /// the processor count, clamped to `[4, 32]`.
    pub fn new() -> (p: ParallelCommitProcessor)
        ensures
            4 <= p.concurrency_limit_view() <= 32,
            p.metrics_view() == spec_zero_metrics(),
    {
        let cpu = platform::cpu_count();
        let limit = if cpu >= 16 {
            32
        } else if cpu * 2 < 4 {
            4
        } else {
            cpu * 2
        };
        ParallelCommitProcessor {
            concurrency_limit: limit,
            metrics: ProcessorMetrics {
                commits_processed: 0,
                avg_commit_time_us: 0,
                cache_hit_ratio: 0,
                memory_stats: MemoryStats {
                    peak_memory_bytes: 0,
                    current_memory_bytes: 0,
                    cache_entries: 0,
                    avg_commit_memory: 0,
                },
                parallel_efficiency: 0,
            },
        }
    }

    /// The chunk size for given workload characteristics (see
    /// [`spec_chunk_size`]).
    pub fn chunk_size_for(total: usize, cpu: usize, hit_ratio: u32) -> (c: usize)
        requires
            cpu >= 1,
        ensures
            c == spec_chunk_size(total as int, cpu as int, hit_ratio as int),
            1 <= c <= 1000,
    {
        proof {
            assert(0 <= (cpu as int) * 4 <= 0xffffffffffffffffint * 4) by (nonlinear_arith)
                requires
                    0 <= cpu as int <= 0xffffffffffffffffint,
            ;
        }
        let div = (cpu as u128) * 4;
        let base0 = (total as u128) / div;
        proof {
            vstd::arithmetic::div_mod::lemma_div_pos_is_pos(total as int, (cpu as int) * 4);
            vstd::arithmetic::div_mod::lemma_div_is_ordered(total as int / ((cpu as int) * 4),
                total as int, 1);
        }
        let base = if base0 < 1 {
            1u128
        } else {
            base0
        };
        let adjusted = if hit_ratio > 8000 {
            base * 3 / 2
        } else {
            base * 4 / 5
        };
        if adjusted < 1 {
            1
        } else if adjusted > 1000 {
            1000
        } else {
            adjusted as usize
        }
    }

    /// The chunk size the processor would use now for a workload of the
    /// given size, from the machine's processor count and the recorded
    /// cache hit ratio; always in `[1, 1000]`.
    pub fn calculate_optimal_chunk_size(&self, total_items: usize) -> (c: usize)
        ensures
            1 <= c <= 1000,
    {
        let cpu = platform::cpu_count();
        let cpu = if cpu == 0 {
            1
        } else {
            cpu
        };
        Self::chunk_size_for(total_items, cpu, self.metrics.cache_hit_ratio)
    }

    /// Apply a scoring function to every revision, in parallel chunks,
    /// preserving the input order; if any single revision fails, the
    /// whole batch fails with no partial results. The counters record the
    /// batch afterwards.
    pub fn process_commits_parallel<R: Send, F: Fn(&CommitNode) -> Result<R, GdkError> + Send + Sync>(
        &mut self,
        commits: &Vec<CommitNode>,
        processor_fn: F,
    ) -> (out: GdkResult<Vec<R>>)
        requires
            forall|i: int| 0 <= i < commits@.len() ==> call_requires(processor_fn, (&commits@[i],)),
        ensures
            out matches Ok(v) ==> v@.len() == commits@.len() && (forall|i: int|
                0 <= i < commits@.len() ==> call_ensures(
                    processor_fn,
                    (&commits@[i],),
                    Ok(#[trigger] v@[i]),
                )),
            out matches Err(e) ==> exists|i: int|
                0 <= i < commits@.len() && call_ensures(processor_fn, (&commits@[i],), Err(e)),
            final(self).metrics_view().commits_processed == spec_saturating_add_u64(
                old(self).metrics_view().commits_processed as int,
                commits@.len() as int,
            ),
    {
        let started_us = platform::unix_now_micros();
        let chunk = self.calculate_optimal_chunk_size(commits.len());
        let out = par_map_commits(commits, chunk, processor_fn);
        let ended_us = platform::unix_now_micros();
        let elapsed = if ended_us >= started_us {
            ended_us - started_us
        } else {
            0
        };
        self.update_metrics(commits.len(), elapsed);
        out
    }

    /// Fold one batch into the counters: the processed count saturates,
    /// and the per-commit time keeps an exponential moving average with a
    /// decay of one tenth. An empty batch changes nothing.
    fn update_metrics(&mut self, items_processed: usize, elapsed_us: u64)
        ensures
            final(self).concurrency_limit_view() == old(self).concurrency_limit_view(),
            final(self).metrics_view().commits_processed == spec_saturating_add_u64(
                old(self).metrics_view().commits_processed as int,
                items_processed as int,
            ),
            items_processed == 0 ==> final(self).metrics_view() == old(self).metrics_view(),
            final(self).metrics_view().cache_hit_ratio == old(self).metrics_view().cache_hit_ratio,
            items_processed > 0 ==> final(self).metrics_view().parallel_efficiency <= SCORE_SCALE,
    {
        if items_processed == 0 {
            return ;
        }
        let per_item = elapsed_us / (items_processed as u64);
        let new_avg: u64 = if self.metrics.commits_processed == 0 {
            per_item
        } else {
            (((self.metrics.avg_commit_time_us as u128) * 9 + per_item as u128) / 10) as u64
        };
        let new_count: u64 = if self.metrics.commits_processed
            <= 0xffffffffffffffffu64 - items_processed as u64 {
            self.metrics.commits_processed + items_processed as u64
        } else {
            0xffffffffffffffffu64
        };
        // Parallel efficiency: ideal serial time over actual time and
        // processor count, clamped to one.
        let cpu = platform::cpu_count();
        let cpu = if cpu == 0 {
            1
        } else {
            cpu
        };
        let efficiency: u32 = if elapsed_us == 0 {
            SCORE_SCALE
        } else {
            proof {
                assert(0 <= (new_avg as int) * (items_processed as int) && (new_avg as int) * (
                items_processed as int) < 0x100000000000000000000000000000000int)
                    by (nonlinear_arith)
                    requires
                        0 <= new_avg as int && (new_avg as int) < 0x10000000000000000int,
                        0 <= items_processed as int && (items_processed as int) < 0x10000000000000000int,
                ;
                assert(0 <= (elapsed_us as int) * (cpu as int) && (elapsed_us as int) * (cpu as int)
                    < 0x100000000000000000000000000000000int) by (nonlinear_arith)
                    requires
                        0 <= elapsed_us as int && (elapsed_us as int) < 0x10000000000000000int,
                        0 <= cpu as int && (cpu as int) < 0x10000000000000000int,
                ;
            }
            let theoretical = (new_avg as u128) * (items_processed as u128);
            let actual = (elapsed_us as u128) * (cpu as u128);
            if theoretical >= actual {
                SCORE_SCALE
            } else if theoretical >= 34028236692093846346337460743176821u128 {
                // The exact ratio would overflow the machine word; it is
                // close to one at this magnitude.
                SCORE_SCALE
            } else {
                proof {
                    assert((theoretical as int) * (SCORE_SCALE as int)
                        < 0x100000000000000000000000000000000int) by (nonlinear_arith)
                        requires
                            0 <= theoretical as int,
                            (theoretical as int) < 34028236692093846346337460743176821int,
                    ;
                    vstd::arithmetic::div_mod::lemma_div_is_ordered((theoretical as int) * (
                    SCORE_SCALE as int), (actual as int) * (SCORE_SCALE as int), actual as int);
                    vstd::arithmetic::div_mod::lemma_div_multiples_vanish(SCORE_SCALE as int,
                        actual as int);
                    assert((theoretical as int) * (SCORE_SCALE as int) <= (actual as int) * (
                    SCORE_SCALE as int)) by (nonlinear_arith)
                        requires
                            0 <= theoretical as int <= actual as int,
                    ;
                }
                ((theoretical * (SCORE_SCALE as u128)) / actual) as u32
            }
        };
        self.metrics = ProcessorMetrics {
            commits_processed: new_count,
            avg_commit_time_us: new_avg,
            cache_hit_ratio: self.metrics.cache_hit_ratio,
            memory_stats: self.metrics.memory_stats,
            parallel_efficiency: efficiency,
        };
    }

    /// The current counters.
    pub fn get_metrics(&self) -> (m: ProcessorMetrics)
        ensures
            m == self.metrics_view(),
    {
        self.metrics
    }

    /// Zero the counters (useful between measurement runs).
    pub fn reset(&mut self)
        ensures
            final(self).metrics_view() == spec_zero_metrics(),
            final(self).concurrency_limit_view() == old(self).concurrency_limit_view(),
    {
        self.metrics = ProcessorMetrics {
            commits_processed: 0,
            avg_commit_time_us: 0,
            cache_hit_ratio: 0,
            memory_stats: MemoryStats {
                peak_memory_bytes: 0,
                current_memory_bytes: 0,
                cache_entries: 0,
                avg_commit_memory: 0,
            },
            parallel_efficiency: 0,
        };
    }
}

/// Addition on 64-bit counters that saturates at the maximum.
pub open spec fn spec_saturating_add_u64(a: int, b: int) -> int {
    if a + b > 0xffffffffffffffff {
        0xffffffffffffffff as int
    } else {
        a + b
    }
}

/// Direction of the short-term quality trend.
#[derive(Debug, Clone, Copy, PartialEq, Eq, Structural)]
pub enum TrendDirection {
    /// Fewer than three samples: no trend can be told.
    Insufficient,
    /// The second half of the window averages at least 0.05 above the first.
    Improving,
    /// The halves differ by no more than 0.05 either way.
    Stable,
    /// The second half of the window averages at least 0.05 below the first.
    Degrading,
}

/// One step's output of the streaming analyzer.
#[derive(Debug, Clone, Copy, PartialEq, Eq, Structural)]
pub struct StreamingResult {
    /// Running mean of the health scores, in `[0, SCORE_SCALE]`.
    pub current_avg: u32,
    /// Sample variance of the health scores, in units of the scale.
    pub current_variance: u64,
    pub sample_count: u64,
    /// Whether the sample variance lies strictly below 0.02.
    pub is_stable: bool,
    pub trend_direction: TrendDirection,
}

/// Sum of a window of scores.
pub open spec fn sum_scores(s: Seq<u32>) -> int
    decreases s.len(),
{
    if s.len() == 0 {
        0
    } else {
        sum_scores(s.drop_last()) + s.last()
    }
}

/// The sample variance (denominator one less than the count) of a stream
/// with `n` samples summing to `s` with squares summing to `ss`, in units
/// of the scale; zero below two samples, clamped at zero against
/// inconsistent sums.
pub open spec fn spec_sample_variance(n: int, s: int, ss: int) -> int {
    if n <= 1 {
        0
    } else {
        let num = n * ss - s * s;
        if num <= 0 {
            0
        } else if num / (n * (n - 1) * (SCORE_SCALE as int)) > 0xffffffffffffffff {
            0xffffffffffffffff as int
        } else {
            num / (n * (n - 1) * (SCORE_SCALE as int))
        }
    }
}

/// The trend of a sample window: the second half's mean against the
/// first half's, with a dead band of 0.05 either way.
pub open spec fn spec_stream_trend(s: Seq<u32>) -> TrendDirection {
    if s.len() < 3 {
        TrendDirection::Insufficient
    } else {
        let mid = s.len() as int / 2;
        let n1 = mid;
        let n2 = s.len() - mid;
        let s1 = sum_scores(s.subrange(0, mid));
        let s2 = sum_scores(s.subrange(mid, s.len() as int));
        if s2 * n1 - s1 * n2 > 500 * n1 * n2 {
            TrendDirection::Improving
        } else if s1 * n2 - s2 * n1 > 500 * n1 * n2 {
            TrendDirection::Degrading
        } else {
            TrendDirection::Stable
        }
    }
}

/// Constant-memory analyzer over a revision stream: exact running mean
/// and sample variance from online sums, plus a fixed-capacity sliding
/// window classifying the short-term trend. The intended substitute for
/// the full analyzer on unbounded streams.
#[derive(Debug)]
pub struct StreamingAnalyzer {
    window_size: usize,
    sample_count: u64,
    score_sum: u64,
    score_sum_sq: u128,
    recent_samples: Vec<u32>,
}

impl StreamingAnalyzer {
    /// The number of samples folded in so far.
    pub closed spec fn count_view(&self) -> int {
        self.sample_count as int
    }

    /// The sum of all samples.
    pub closed spec fn sum_view(&self) -> int {
        self.score_sum as int
    }

    /// The sum of the squares of all samples.
    pub closed spec fn sum_sq_view(&self) -> int {
        self.score_sum_sq as int
    }

    /// The sliding window of recent samples, oldest first.
    pub closed spec fn recent_view(&self) -> Seq<u32> {
        self.recent_samples@
    }

    /// The configured window capacity.
    pub closed spec fn window_view(&self) -> int {
        self.window_size as int
    }

    /// Sums within machine bounds, every sample within the scale, the
    /// window within its capacity.
    pub closed spec fn wf(&self) -> bool {
        &&& self.window_size <= 100000
        &&& self.sample_count <= 0x10000000000u64
        &&& self.score_sum <= (self.sample_count as int) * (SCORE_SCALE as int)
        &&& self.score_sum_sq <= (self.sample_count as int) * 100000000
        &&& self.recent_samples@.len() <= self.window_size
        &&& forall|i: int|
            0 <= i < self.recent_samples@.len() ==> (#[trigger] self.recent_samples@[i])
                <= SCORE_SCALE
    }

    /// A fresh analyzer with the given sliding-window capacity.
    pub fn new(window_size: usize) -> (a: StreamingAnalyzer)
        requires
            window_size <= 100000,
        ensures
            a.wf(),
            a.count_view() == 0,
            a.sum_view() == 0,
            a.sum_sq_view() == 0,
            a.recent_view().len() == 0,
            a.window_view() == window_size,
    {
        StreamingAnalyzer {
            window_size,
            sample_count: 0,
            score_sum: 0,
            score_sum_sq: 0,
            recent_samples: Vec::new(),
        }
    }

    /// Fold one revision's health score into the running statistics and
    /// the sliding window, and report the mean, the sample variance, the
    /// stability verdict and the short-term trend. Constant memory per
    /// call. Never fails.
    pub fn process_commit_streaming(&mut self, commit: &CommitNode) -> (r: GdkResult<
        StreamingResult,
    >)
        requires
            old(self).wf(),
            old(self).count_view() < 0x10000000000,
            commit.health_score <= SCORE_SCALE,
        ensures
            final(self).wf(),
            final(self).window_view() == old(self).window_view(),
            final(self).count_view() == old(self).count_view() + 1,
            final(self).sum_view() == old(self).sum_view() + commit.health_score,
            final(self).sum_sq_view() == old(self).sum_sq_view() + (commit.health_score as int) * (
            commit.health_score as int),
            ({
                let pushed = old(self).recent_view().push(commit.health_score);
                final(self).recent_view() == if pushed.len() <= old(self).window_view() {
                    pushed
                } else {
                    pushed.subrange(1, pushed.len() as int)
                }
            }),
            r is Ok,
            r matches Ok(res) ==> {
                &&& res.sample_count == final(self).count_view()
                &&& res.current_avg == final(self).sum_view() / final(self).count_view()
                &&& res.current_variance == spec_sample_variance(
                    final(self).count_view(),
                    final(self).sum_view(),
                    final(self).sum_sq_view(),
                )
                &&& res.is_stable == (res.current_variance < 200)
                &&& res.trend_direction == spec_stream_trend(final(self).recent_view())
            },
    {
        let h = commit.health_score;
        proof {
            assert(0 <= (h as int) * (h as int) <= 100000000int) by (nonlinear_arith)
                requires
                    0 <= h as int <= 10000int,
            ;
            let c0 = old(self).sample_count as int;
            assert((c0 + 1) * (SCORE_SCALE as int) == c0 * (SCORE_SCALE as int) + SCORE_SCALE)
                by (nonlinear_arith);
            assert((c0 + 1) * 100000000int == c0 * 100000000int + 100000000int)
                by (nonlinear_arith);
        }
        self.sample_count = self.sample_count + 1;
        self.score_sum = self.score_sum + h as u64;
        self.score_sum_sq = self.score_sum_sq + (h as u128) * (h as u128);
        self.recent_samples.push(h);
        if self.recent_samples.len() > self.window_size {
            self.recent_samples.remove(0);
            proof {
                assert(self.recent_samples@ =~= old(self).recent_samples@.push(h).subrange(
                    1,
                    old(self).recent_samples@.push(h).len() as int,
                ));
            }
        }
        let n = self.sample_count;
        let avg = (self.score_sum / n) as u32;
        proof {
            vstd::arithmetic::div_mod::lemma_div_is_ordered(self.score_sum as int, (n as int) * (
            SCORE_SCALE as int), n as int);
            vstd::arithmetic::div_mod::lemma_div_multiples_vanish(SCORE_SCALE as int, n as int);
        }
        let variance: u64 = if n <= 1 {
            0
        } else {
            proof {
                assert(0 <= (n as int) * (self.score_sum_sq as int)
                    < 0x100000000000000000000000000000000int) by (nonlinear_arith)
                    requires
                        0 <= n as int <= 0x10000000000int,
                        0 <= self.score_sum_sq as int <= 0x10000000000int * 100000000int,
                ;
                assert(0 <= (self.score_sum as int) * (self.score_sum as int)
                    < 0x100000000000000000000000000000000int) by (nonlinear_arith)
                    requires
                        0 <= self.score_sum as int <= 0x10000000000int * 10000int,
                ;
                assert(0 < (n as int) * ((n as int) - 1) * (SCORE_SCALE as int)
                    < 0x100000000000000000000000000000000int) by (nonlinear_arith)
                    requires
                        2 <= n as int <= 0x10000000000int,
                ;
            }
            let num_a = (n as u128) * self.score_sum_sq;
            let num_b = (self.score_sum as u128) * (self.score_sum as u128);
            if num_a <= num_b {
                0
            } else {
                let den = (n as u128) * ((n - 1) as u128) * (SCORE_SCALE as u128);
                let q = (num_a - num_b) / den;
                proof {
                    assert((n as int) * ((n as int) - 1) * (SCORE_SCALE as int) == (n as u128 as int)
                        * (((n - 1) as u128) as int) * (SCORE_SCALE as int));
                }
                if q > 0xffffffffffffffffu128 {
                    0xffffffffffffffffu64
                } else {
                    q as u64
                }
            }
        };
        let trend = self.calculate_trend();
        Ok(
            StreamingResult {
                current_avg: avg,
                current_variance: variance,
                sample_count: n,
                is_stable: variance < 200,
                trend_direction: trend,
            },
        )
    }

    /// Classify the short-term trend of the sliding window (see
    /// [`spec_stream_trend`]).
    fn calculate_trend(&self) -> (t: TrendDirection)
        requires
            self.wf(),
        ensures
            t == spec_stream_trend(self.recent_view()),
    {
        let len = self.recent_samples.len();
        if len < 3 {
            return TrendDirection::Insufficient;
        }
        let mid = len / 2;
        let mut s1: u64 = 0;
        let mut i: usize = 0;
        while i < mid
            invariant
                0 <= i <= mid,
                mid == self.recent_samples@.len() as int / 2,
                mid < len,
                len == self.recent_samples@.len(),
                self.wf(),
                s1 == sum_scores(self.recent_samples@.subrange(0, i as int)),
                s1 <= (i as int) * (SCORE_SCALE as int),
            decreases mid - i,
        {
            proof {
                assert(self.recent_samples@.subrange(0, i + 1).drop_last()
                    =~= self.recent_samples@.subrange(0, i as int));
                assert(self.recent_samples@.subrange(0, i + 1).last()
                    == self.recent_samples@[i as int]);
                assert(self.recent_samples@[i as int] <= SCORE_SCALE);
            }
            s1 = s1 + self.recent_samples[i] as u64;
            i = i + 1;
        }
        let mut s2: u64 = 0;
        let mut j: usize = mid;
        while j < len
            invariant
                mid <= j <= len,
                mid == self.recent_samples@.len() as int / 2,
                len == self.recent_samples@.len(),
                self.wf(),
                s2 == sum_scores(self.recent_samples@.subrange(mid as int, j as int)),
                s2 <= (j - mid) * (SCORE_SCALE as int),
            decreases len - j,
        {
            proof {
                assert(self.recent_samples@.subrange(mid as int, j + 1).drop_last()
                    =~= self.recent_samples@.subrange(mid as int, j as int));
                assert(self.recent_samples@.subrange(mid as int, j + 1).last()
                    == self.recent_samples@[j as int]);
                assert(self.recent_samples@[j as int] <= SCORE_SCALE);
            }
            s2 = s2 + self.recent_samples[j] as u64;
            j = j + 1;
        }
        let n1 = mid as u64;
        let n2 = (len - mid) as u64;
        proof {
            assert(self.recent_samples@.subrange(0, mid as int)
                == self.recent_samples@.subrange(0, mid as int));
            assert(self.recent_samples@.subrange(mid as int, len as int)
                == self.recent_samples@.subrange(mid as int, len as int));
            assert(0 <= (s2 as int) * (n1 as int) <= 1000000000int * 100000int)
                by (nonlinear_arith)
                requires
                    0 <= s2 as int <= 1000000000int,
                    0 <= n1 as int <= 100000int,
            ;
            assert(0 <= (s1 as int) * (n2 as int) <= 1000000000int * 100000int)
                by (nonlinear_arith)
                requires
                    0 <= s1 as int <= 1000000000int,
                    0 <= n2 as int <= 100000int,
            ;
            assert(0 <= 500int * (n1 as int) * (n2 as int) <= 500int * 100000int * 100000int)
                by (nonlinear_arith)
                requires
                    0 <= n1 as int <= 100000int,
                    0 <= n2 as int <= 100000int,
            ;
        }
        let up: i128 = (s2 as i128) * (n1 as i128) - (s1 as i128) * (n2 as i128);
        let down: i128 = (s1 as i128) * (n2 as i128) - (s2 as i128) * (n1 as i128);
        let band: i128 = 500i128 * (n1 as i128) * (n2 as i128);
        if up > band {
            TrendDirection::Improving
        } else if down > band {
            TrendDirection::Degrading
        } else {
            TrendDirection::Stable
        }
    }
}


} // verus!
