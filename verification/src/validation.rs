//! The per-connection validation cache behind the merged tool set and the
//! merged resource set.
//!
//! A cache knows, for each registered connection, whether its list was
//! fetched, and holds the identifiers that the connections expose, each with
//! the connection it came from. Identifiers of connections that revalidate on
//! every round are remembered and evicted when the next refresh cycle begins.

use vstd::hash_map::StringHashMap;
use vstd::prelude::*;
use vstd::string::*;

verus! {

/// Policy and state of one registered connection, for one category.
#[derive(Clone, Copy, Debug, PartialEq, Eq, Structural)]
pub struct ConnectionState {
    /// The connection takes no part in this category.
    pub skip: bool,
    /// The connection's list is fetched anew on every round.
    pub revalidate: bool,
    /// The connection's list was fetched and is trusted.
    pub validated: bool,
    /// The connection's list was fetched at least once, in whatever round.
    pub seen: bool,
}

impl ConnectionState {
    /// The state is one that a cache gets into: only a connection whose
    /// list was fetched is validated, and a skipped one never is.
    pub open spec fn wf(self) -> bool {
        &&& self.validated ==> self.seen
        &&& self.skip ==> !self.seen
    }
}

/// What recording a fetched list did.
#[derive(Clone, Copy, Debug, PartialEq, Eq, Structural)]
pub enum FetchRecord {
    /// The connection needed no fetch; nothing changed.
    Ignored,
    /// The list was merged, and it is the first that the connection gave.
    FirstValidation,
    /// The list was merged, and the connection had given a list before.
    Refresh,
}

pub struct ValidationCache {
    connections: Vec<ConnectionState>,
    pending: Vec<String>,
    entries: StringHashMap<usize>,
}

/// The mathematical content of a cache.
pub struct CacheView {
    pub connections: Seq<ConnectionState>,
    /// Identifiers to evict when the next cycle begins.
    pub pending: Set<Seq<char>>,
    /// The merged set: each exposed identifier with the index of its connection.
    pub entries: Map<Seq<char>, usize>,
}

/// The identifiers that a list of strings holds.
pub open spec fn id_set(ids: Seq<String>) -> Set<Seq<char>> {
    Set::new(|id: Seq<char>| exists|k: int| 0 <= k < ids.len() && #[trigger] ids[k]@ == id)
}

/// The identifiers of a list with one more string are those of the list and
/// that string's.
pub proof fn lemma_id_set_push(ids: Seq<String>, s: String)
    ensures
        id_set(ids.push(s)) == id_set(ids).insert(s@),
{
    let longer = ids.push(s);
    assert forall|id: Seq<char>| id_set(longer).contains(id) == id_set(ids).insert(s@).contains(
        id,
    ) by {
        if id_set(ids).contains(id) {
            let w = choose|w: int| 0 <= w < ids.len() && #[trigger] ids[w]@ == id;
            assert(longer[w]@ == id);
        }
        if id == s@ {
            assert(longer[ids.len() as int]@ == id);
        }
        if id_set(longer).contains(id) {
            let w = choose|w: int| 0 <= w < longer.len() && #[trigger] longer[w]@ == id;
            if w < ids.len() {
                assert(ids[w]@ == id);
            }
        }
    }
    assert(id_set(longer) =~= id_set(ids).insert(s@));
}

/// The identifiers of the first `k + 1` strings are those of the first `k`
/// and the next one's.
pub proof fn lemma_id_set_take(ids: Seq<String>, k: int)
    requires
        0 <= k < ids.len(),
    ensures
        id_set(ids.take(k + 1)) == id_set(ids.take(k)).insert(ids[k]@),
{
    assert(ids.take(k + 1) =~= ids.take(k).push(ids[k]));
    lemma_id_set_push(ids.take(k), ids[k]);
}

impl CacheView {
    pub open spec fn empty() -> CacheView {
        CacheView { connections: Seq::empty(), pending: Set::empty(), entries: Map::empty() }
    }

    /// The merged set exposes `id`.
    pub open spec fn exposes(self, id: Seq<char>) -> bool {
        self.entries.dom().contains(id)
    }

    /// Every exposed identifier comes from a registered connection that is
    /// not skipped, and is pending eviction where that connection revalidates.
    pub open spec fn entries_wf(self) -> bool {
        forall|id: Seq<char>| #[trigger]
            self.entries.dom().contains(id) ==> {
                &&& (self.entries[id] as int) < self.connections.len()
                &&& !self.connections[self.entries[id] as int].skip
                &&& self.connections[self.entries[id] as int].revalidate ==> self.pending.contains(
                    id,
                )
            }
    }

    /// Every connection is in a state that a cache gets into, and so is the
    /// merged set.
    pub open spec fn wf(self) -> bool {
        &&& forall|c: int| 0 <= c < self.connections.len() ==> (#[trigger] self.connections[c]).wf()
        &&& self.entries_wf()
    }

    pub open spec fn register(self, skip: bool, revalidate: bool) -> CacheView {
        CacheView {
            connections: self.connections.push(
                ConnectionState { skip, revalidate, validated: false, seen: false },
            ),
            ..self
        }
    }

    /// The state after the start of a refresh cycle: what was pending is
    /// evicted, and the connections that revalidate and are not skipped
    /// count as not validated. A skipped connection stays as it is.
    pub open spec fn begin(self) -> CacheView {
        CacheView {
            connections: Seq::new(
                self.connections.len(),
                |i: int|
                    if self.connections[i].revalidate && !self.connections[i].skip {
                        ConnectionState { validated: false, ..self.connections[i] }
                    } else {
                        self.connections[i]
                    },
            ),
            pending: Set::empty(),
            entries: self.entries.remove_keys(self.pending),
        }
    }

    /// Connection `i` must be fetched in this cycle: it is not skipped, and
    /// it is either not validated yet or revalidates on every round.
    pub open spec fn needs_fetch(self, i: int) -> bool {
        &&& 0 <= i < self.connections.len()
        &&& !self.connections[i].skip
        &&& (!self.connections[i].validated || self.connections[i].revalidate)
    }

    /// The state after the list `ids` of connection `i` was fetched.
    pub open spec fn record(self, i: usize, ids: Set<Seq<char>>) -> CacheView {
        if self.needs_fetch(i as int) {
            CacheView {
                connections: self.connections.update(
                    i as int,
                    ConnectionState { validated: true, seen: true, ..self.connections[i as int] },
                ),
                pending: if self.connections[i as int].revalidate {
                    self.pending + ids
                } else {
                    self.pending
                },
                entries: Map::new(
                    |id: Seq<char>| self.entries.dom().contains(id) || ids.contains(id),
                    |id: Seq<char>|
                        if ids.contains(id) {
                            i
                        } else {
                            self.entries[id]
                        },
                ),
            }
        } else {
            self
        }
    }

    /// The state after one refresh cycle in which the lists `fetches` came
    /// back, each with the index of its connection, in this order.
    pub open spec fn cycle(self, fetches: Seq<(usize, Set<Seq<char>>)>) -> CacheView
        decreases fetches.len(),
    {
        if fetches.len() == 0 {
            self.begin()
        } else {
            self.cycle(fetches.drop_last()).record(fetches.last().0, fetches.last().1)
        }
    }
}

/// Registering a connection keeps a cache well formed.
pub proof fn lemma_register_wf(v: CacheView, skip: bool, revalidate: bool)
    requires
        v.wf(),
    ensures
        v.register(skip, revalidate).wf(),
{
}

/// Beginning a cycle keeps a cache well formed.
pub proof fn lemma_begin_wf(v: CacheView)
    requires
        v.wf(),
    ensures
        v.begin().wf(),
{
    let b = v.begin();
    assert forall|id: Seq<char>| #[trigger] b.entries.dom().contains(id) implies {
        &&& (b.entries[id] as int) < b.connections.len()
        &&& !b.connections[b.entries[id] as int].skip
        &&& b.connections[b.entries[id] as int].revalidate ==> b.pending.contains(id)
    } by {
        assert(v.entries.dom().contains(id));
        assert(!v.pending.contains(id));
    }
}

/// Recording a fetched list keeps a cache well formed.
pub proof fn lemma_record_wf(v: CacheView, i: usize, ids: Set<Seq<char>>)
    requires
        v.wf(),
    ensures
        v.record(i, ids).wf(),
{
    let r = v.record(i, ids);
    if v.needs_fetch(i as int) {
        assert forall|id: Seq<char>| #[trigger] r.entries.dom().contains(id) implies {
            &&& (r.entries[id] as int) < r.connections.len()
            &&& !r.connections[r.entries[id] as int].skip
            &&& r.connections[r.entries[id] as int].revalidate ==> r.pending.contains(id)
        } by {
            if !ids.contains(id) {
                assert(v.entries.dom().contains(id));
            }
        }
    }
}

/// A whole refresh cycle keeps a cache well formed.
pub proof fn lemma_cycle_wf(v: CacheView, fetches: Seq<(usize, Set<Seq<char>>)>)
    requires
        v.wf(),
    ensures
        v.cycle(fetches).wf(),
    decreases fetches.len(),
{
    if fetches.len() == 0 {
        lemma_begin_wf(v);
    } else {
        lemma_cycle_wf(v, fetches.drop_last());
        lemma_record_wf(v.cycle(fetches.drop_last()), fetches.last().0, fetches.last().1);
    }
}

/// An identifier that a revalidating connection exposed in one round is not
/// in the merged set of the next round unless one of that round's fetches
/// brought it again.
pub proof fn law_stale_identifier_is_evicted(
    v: CacheView,
    fetches: Seq<(usize, Set<Seq<char>>)>,
    id: Seq<char>,
)
    requires
        v.wf(),
        v.exposes(id),
        v.connections[v.entries[id] as int].revalidate,
        forall|k: int| 0 <= k < fetches.len() ==> !(#[trigger] fetches[k]).1.contains(id),
    ensures
        !v.cycle(fetches).exposes(id),
    decreases fetches.len(),
{
    if fetches.len() == 0 {
        assert(v.pending.contains(id));
    } else {
        let rest = fetches.drop_last();
        assert forall|k: int| 0 <= k < rest.len() implies !(#[trigger] rest[k]).1.contains(id) by {
            assert(rest[k] == fetches[k]);
        }
        law_stale_identifier_is_evicted(v, rest, id);
        assert(!fetches[fetches.len() - 1].1.contains(id));
    }
}

/// Nothing that the merged set exposes comes from a skipped connection,
/// whatever cycles the cache went through.
pub proof fn law_skipped_connection_exposes_nothing(
    v: CacheView,
    fetches: Seq<(usize, Set<Seq<char>>)>,
    id: Seq<char>,
)
    requires
        v.wf(),
        v.cycle(fetches).exposes(id),
    ensures
        !v.cycle(fetches).connections[v.cycle(fetches).entries[id] as int].skip,
{
    lemma_cycle_wf(v, fetches);
}

impl CacheView {
    /// The state after the lists `fetches` were recorded in this order.
    pub open spec fn records(self, fetches: Seq<(usize, Set<Seq<char>>)>) -> CacheView
        decreases fetches.len(),
    {
        if fetches.len() == 0 {
            self
        } else {
            self.records(fetches.drop_last()).record(fetches.last().0, fetches.last().1)
        }
    }

    /// The two caches hold the same connections with the same policies.
    pub open spec fn same_policies(self, other: CacheView) -> bool {
        &&& self.connections.len() == other.connections.len()
        &&& forall|c: int|
            0 <= c < self.connections.len() ==> (#[trigger] self.connections[c]).skip
                == other.connections[c].skip && self.connections[c].revalidate
                == other.connections[c].revalidate
    }

    /// A list of connection `c` is taken whenever it comes: the connection
    /// is registered, not skipped, and revalidates.
    pub open spec fn always_takes(self, c: usize) -> bool {
        &&& (c as int) < self.connections.len()
        &&& !self.connections[c as int].skip
        &&& self.connections[c as int].revalidate
    }
}

/// A cycle is its beginning followed by its records.
pub proof fn lemma_cycle_is_begin_then_records(v: CacheView, fetches: Seq<(usize, Set<Seq<char>>)>)
    ensures
        v.cycle(fetches) == v.begin().records(fetches),
    decreases fetches.len(),
{
    if fetches.len() > 0 {
        lemma_cycle_is_begin_then_records(v, fetches.drop_last());
    }
}

/// Records change no policy, withdraw no validation, and remove nothing
/// from the merged set or from what is pending.
pub proof fn lemma_records_keep(s: CacheView, fetches: Seq<(usize, Set<Seq<char>>)>)
    ensures
        s.records(fetches).same_policies(s),
        forall|c: int|
            0 <= c < s.connections.len() && (#[trigger] s.connections[c]).validated
                ==> s.records(fetches).connections[c].validated,
        forall|id: Seq<char>| s.exposes(id) ==> #[trigger] s.records(fetches).exposes(id),
        forall|id: Seq<char>|
            s.pending.contains(id) ==> #[trigger] s.records(fetches).pending.contains(id),
    decreases fetches.len(),
{
    if fetches.len() > 0 {
        lemma_records_keep(s, fetches.drop_last());
        let before = s.records(fetches.drop_last());
        let after = s.records(fetches);
        assert(after == before.record(fetches.last().0, fetches.last().1));
        assert forall|c: int| 0 <= c < s.connections.len() implies (#[trigger] after.connections[c]).skip
            == s.connections[c].skip && after.connections[c].revalidate
            == s.connections[c].revalidate by {
            assert(before.connections[c].skip == s.connections[c].skip);
        }
        assert forall|c: int|
            0 <= c < s.connections.len() && (#[trigger] s.connections[c]).validated implies after.connections[c].validated by {
            assert(before.connections[c].validated);
        }
        assert forall|id: Seq<char>| s.exposes(id) implies #[trigger] after.exposes(id) by {
            assert(before.exposes(id));
        }
        assert forall|id: Seq<char>| s.pending.contains(id) implies #[trigger] after.pending.contains(
            id,
        ) by {
            assert(before.pending.contains(id));
        }
    }
}

/// Whatever a connection that is not skipped is recorded with, it is
/// validated afterwards; and what a connection that always takes its lists
/// is recorded with is exposed and pending afterwards.
pub proof fn lemma_record_takes_effect(
    s: CacheView,
    fetches: Seq<(usize, Set<Seq<char>>)>,
    k: int,
    id: Seq<char>,
)
    requires
        0 <= k < fetches.len(),
        (fetches[k].0 as int) < s.connections.len(),
        !s.connections[fetches[k].0 as int].skip,
    ensures
        s.records(fetches).connections[fetches[k].0 as int].validated,
        s.always_takes(fetches[k].0) && fetches[k].1.contains(id) ==> s.records(fetches).exposes(
            id,
        ) && s.records(fetches).pending.contains(id),
    decreases fetches.len(),
{
    let earlier = fetches.drop_last();
    let before = s.records(earlier);
    let c = fetches[k].0;
    lemma_records_keep(s, earlier);
    assert(before.connections[c as int].skip == s.connections[c as int].skip);
    assert(before.connections[c as int].revalidate == s.connections[c as int].revalidate);
    if k == fetches.len() - 1 {
        assert(fetches.last() == fetches[k]);
    } else {
        assert(earlier[k] == fetches[k]);
        lemma_record_takes_effect(s, earlier, k, id);
        let last = fetches.last();
        let after = before.record(last.0, last.1);
        assert(after.connections[c as int].validated);
        if s.always_takes(c) && fetches[k].1.contains(id) {
            assert(before.exposes(id) && before.pending.contains(id));
            assert(after.exposes(id));
            assert(after.pending.contains(id));
        }
    }
}

/// What is exposed after records was exposed before or came with a list
/// that its connection needed; what is pending after records was pending
/// before or came with a list of a connection that always takes its lists.
pub proof fn lemma_records_origin(
    s: CacheView,
    fetches: Seq<(usize, Set<Seq<char>>)>,
    id: Seq<char>,
)
    ensures
        s.records(fetches).exposes(id) ==> s.exposes(id) || exists|k: int|
            0 <= k < fetches.len() && (#[trigger] fetches[k]).1.contains(id) && (fetches[k].0 as int)
                < s.connections.len() && !s.connections[fetches[k].0 as int].skip && (
            s.connections[fetches[k].0 as int].revalidate
                || !s.connections[fetches[k].0 as int].validated),
        s.records(fetches).pending.contains(id) ==> s.pending.contains(id) || exists|k: int|
            0 <= k < fetches.len() && (#[trigger] fetches[k]).1.contains(id) && s.always_takes(
                fetches[k].0,
            ),
    decreases fetches.len(),
{
    if fetches.len() > 0 {
        let earlier = fetches.drop_last();
        let before = s.records(earlier);
        let last = fetches.last();
        let n = fetches.len() - 1;
        lemma_records_origin(s, earlier, id);
        lemma_records_keep(s, earlier);
        assert(fetches[n] == last);
        let c = last.0 as int;
        if s.records(fetches).exposes(id) && !s.exposes(id) {
            if before.exposes(id) {
                let k = choose|k: int|
                    0 <= k < earlier.len() && (#[trigger] earlier[k]).1.contains(id) && (
                    earlier[k].0 as int) < s.connections.len()
                        && !s.connections[earlier[k].0 as int].skip && (
                    s.connections[earlier[k].0 as int].revalidate
                        || !s.connections[earlier[k].0 as int].validated);
                assert(fetches[k] == earlier[k]);
            } else {
                assert(before.needs_fetch(c) && last.1.contains(id));
                assert(before.connections[c].skip == s.connections[c].skip);
                assert(before.connections[c].revalidate == s.connections[c].revalidate);
                if !s.connections[c].revalidate {
                    assert(!before.connections[c].validated);
                    assert(!s.connections[c].validated);
                }
            }
        }
        if s.records(fetches).pending.contains(id) && !s.pending.contains(id) {
            if before.pending.contains(id) {
                let k = choose|k: int|
                    0 <= k < earlier.len() && (#[trigger] earlier[k]).1.contains(id)
                        && s.always_takes(earlier[k].0);
                assert(fetches[k] == earlier[k]);
            } else {
                assert(before.needs_fetch(c) && last.1.contains(id));
                assert(before.connections[c].skip == s.connections[c].skip);
                assert(before.connections[c].revalidate == s.connections[c].revalidate);
                assert(s.always_takes(last.0));
            }
        }
    }
}

/// A refresh is idempotent: a second cycle in which the providers return
/// the same lists exposes exactly what the first one exposed.
pub proof fn law_refresh_is_idempotent(
    v: CacheView,
    fetches: Seq<(usize, Set<Seq<char>>)>,
    id: Seq<char>,
)
    ensures
        v.cycle(fetches).cycle(fetches).exposes(id) == v.cycle(fetches).exposes(id),
{
    let first = v.cycle(fetches);
    let second = first.cycle(fetches);
    lemma_cycle_is_begin_then_records(v, fetches);
    lemma_cycle_is_begin_then_records(first, fetches);
    lemma_records_keep(v.begin(), fetches);
    lemma_records_keep(first.begin(), fetches);
    assert(first.same_policies(v.begin()));
    assert(first.begin().same_policies(first));
    if second.exposes(id) && !first.exposes(id) {
        lemma_records_origin(first.begin(), fetches, id);
        assert(!first.begin().exposes(id));
        let k = choose|k: int|
            0 <= k < fetches.len() && (#[trigger] fetches[k]).1.contains(id) && (fetches[k].0 as int)
                < first.begin().connections.len()
                && !first.begin().connections[fetches[k].0 as int].skip && (
            first.begin().connections[fetches[k].0 as int].revalidate
                || !first.begin().connections[fetches[k].0 as int].validated);
        let c = fetches[k].0 as int;
        assert(first.begin().connections[c].skip == first.connections[c].skip);
        assert(first.connections[c].skip == v.begin().connections[c].skip);
        assert(first.connections[c].revalidate == v.begin().connections[c].revalidate);
        lemma_record_takes_effect(v.begin(), fetches, k, id);
        assert(first.connections[c].validated);
        if !first.connections[c].revalidate {
            assert(first.begin().connections[c].validated);
        }
        assert(v.begin().always_takes(fetches[k].0));
        assert(false);
    }
    if first.exposes(id) && !second.exposes(id) {
        if first.pending.contains(id) {
            lemma_records_origin(v.begin(), fetches, id);
            assert(!v.begin().pending.contains(id));
            let k = choose|k: int|
                0 <= k < fetches.len() && (#[trigger] fetches[k]).1.contains(id)
                    && v.begin().always_takes(fetches[k].0);
            let c = fetches[k].0 as int;
            assert(first.connections[c].skip == v.begin().connections[c].skip);
            assert(first.begin().connections[c].skip == first.connections[c].skip);
            assert(first.connections[c].revalidate == v.begin().connections[c].revalidate);
            assert(first.begin().connections[c].revalidate == first.connections[c].revalidate);
            assert(first.begin().always_takes(fetches[k].0));
            lemma_record_takes_effect(first.begin(), fetches, k, id);
        } else {
            assert(first.begin().exposes(id));
        }
        assert(false);
    }
}

/// A skipped connection is never fetched, and a list recorded for it changes
/// nothing.
pub proof fn law_skipped_connection_is_inert(v: CacheView, i: usize, ids: Set<Seq<char>>)
    requires
        0 <= i < v.connections.len(),
        v.connections[i as int].skip,
    ensures
        !v.needs_fetch(i as int),
        v.record(i, ids) == v,
{
}

/// A refresh cycle leaves a skipped connection as it is, whatever lists
/// come back and whatever its other flags hold.
pub proof fn law_cycle_leaves_skipped_connection(
    v: CacheView,
    fetches: Seq<(usize, Set<Seq<char>>)>,
    c: int,
)
    requires
        0 <= c < v.connections.len(),
        v.connections[c].skip,
    ensures
        v.cycle(fetches).connections.len() == v.connections.len(),
        v.cycle(fetches).connections[c] == v.connections[c],
    decreases fetches.len(),
{
    if fetches.len() > 0 {
        law_cycle_leaves_skipped_connection(v, fetches.drop_last(), c);
    }
}

/// A discovery is remembered: a connection that gave a list once counts as
/// seen after every later cycle, so that no later list of it is a first
/// validation.
pub proof fn law_discovery_is_remembered(
    v: CacheView,
    fetches: Seq<(usize, Set<Seq<char>>)>,
    c: int,
)
    requires
        0 <= c < v.connections.len(),
        v.connections[c].seen,
    ensures
        v.cycle(fetches).connections.len() == v.connections.len(),
        v.cycle(fetches).connections[c].seen,
    decreases fetches.len(),
{
    if fetches.len() > 0 {
        law_discovery_is_remembered(v, fetches.drop_last(), c);
    }
}

/// Beginning a cycle a second time, with nothing recorded in between,
/// changes nothing.
pub proof fn law_begin_is_idempotent(v: CacheView)
    ensures
        v.begin().begin() == v.begin(),
{
    let once = v.begin();
    let twice = once.begin();
    assert(twice.connections =~= once.connections);
    assert(twice.entries =~= once.entries);
}

impl CacheView {
    /// Nothing is pending and no connection needs a fetch: every connection
    /// is skipped, or validated without revalidating.
    pub open spec fn settled(self) -> bool {
        &&& self.pending == Set::<Seq<char>>::empty()
        &&& forall|c: int| 0 <= c < self.connections.len() ==> !self.needs_fetch(c)
    }
}

/// A refresh cycle changes nothing in a settled cache, whatever lists come
/// back.
pub proof fn law_settled_cache_is_stable(v: CacheView, fetches: Seq<(usize, Set<Seq<char>>)>)
    requires
        v.settled(),
    ensures
        v.cycle(fetches) == v,
    decreases fetches.len(),
{
    if fetches.len() == 0 {
        assert forall|c: int| 0 <= c < v.connections.len() implies v.begin().connections[c]
            == v.connections[c] by {
            assert(!v.needs_fetch(c));
        }
        assert(v.begin().connections =~= v.connections);
        assert(v.begin().entries =~= v.entries);
    } else {
        law_settled_cache_is_stable(v, fetches.drop_last());
        assert(!v.needs_fetch(fetches.last().0 as int));
    }
}

impl View for ValidationCache {
    type V = CacheView;

    closed spec fn view(&self) -> CacheView {
        CacheView {
            connections: self.connections@,
            pending: id_set(self.pending@),
            entries: self.entries@,
        }
    }
}

impl ValidationCache {
    /// The cache is well formed.
    pub open spec fn wf(&self) -> bool {
        self@.wf()
    }

    /// A cache without connections.
    pub fn new() -> (cache: ValidationCache)
        ensures
            cache@ == CacheView::empty(),
            cache.wf(),
    {
        let cache = ValidationCache {
            connections: Vec::new(),
            pending: Vec::new(),
            entries: StringHashMap::new(),
        };
        proof {
            assert(id_set(cache.pending@) =~= Set::empty());
        }
        cache
    }

    /// Registers a connection with its policy and returns its index.
    pub fn register(&mut self, skip: bool, revalidate: bool) -> (index: usize)
        requires
            old(self).wf(),
        ensures
            final(self)@ == old(self)@.register(skip, revalidate),
            final(self).wf(),
            index == old(self)@.connections.len(),
    {
        let index = self.connections.len();
        self.connections.push(ConnectionState { skip, revalidate, validated: false, seen: false });
        proof {
            lemma_register_wf(old(self)@, skip, revalidate);
        }
        index
    }

    /// Number of registered connections.
    pub fn connection_count(&self) -> (n: usize)
        ensures
            n == self@.connections.len(),
    {
        self.connections.len()
    }

    /// Policy and state of connection `i`, if it is registered.
    pub fn connection(&self, i: usize) -> (state: Option<ConnectionState>)
        ensures
            state == if i < self@.connections.len() {
                Some(self@.connections[i as int])
            } else {
                None::<ConnectionState>
            },
    {
        if i < self.connections.len() {
            Some(self.connections[i])
        } else {
            None
        }
    }

    /// Whether the merged set exposes `id`.
    pub fn exposes(&self, id: &str) -> (found: bool)
        ensures
            found == self@.exposes(id@),
    {
        self.entries.contains_key(id)
    }

    /// The connection that the exposed identifier `id` comes from.
    pub fn source(&self, id: &str) -> (connection: Option<usize>)
        ensures
            connection == if self@.exposes(id@) {
                Some(self@.entries[id@])
            } else {
                None::<usize>
            },
    {
        match self.entries.get(id) {
            Some(c) => Some(*c),
            None => None,
        }
    }

    /// Number of identifiers in the merged set.
    pub fn len(&self) -> (n: usize)
        ensures
            n == self@.entries.len(),
    {
        broadcast use vstd::hash_map::group_hash_map_axioms;

        self.entries.len()
    }

    /// Begins a refresh cycle: evicts every identifier recorded for eviction
    /// and clears the validated flag of the connections that revalidate and
    /// are not skipped.
    /// Returns the identifiers that were pending.
    pub fn begin_cycle(&mut self) -> (evicted: Vec<String>)
        requires
            old(self).wf(),
        ensures
            final(self)@ == old(self)@.begin(),
            final(self).wf(),
            id_set(evicted@) == old(self)@.pending,
    {
        let ghost before = self@;
        let mut k: usize = 0;
        while k < self.pending.len()
            invariant
                k <= self.pending.len(),
                self.pending == old(self).pending,
                self.connections == old(self).connections,
                self.entries@ == old(self).entries@.remove_keys(
                    id_set(self.pending@.take(k as int)),
                ),
            decreases self.pending.len() - k,
        {
            proof {
                lemma_id_set_take(self.pending@, k as int);
                assert(old(self).entries@.remove_keys(
                    id_set(self.pending@.take(k as int)),
                ).remove(self.pending@[k as int]@) =~= old(self).entries@.remove_keys(
                    id_set(self.pending@.take(k + 1)),
                ));
            }
            self.entries.remove(self.pending[k].as_str());
            k += 1;
        }
        proof {
            assert(self.pending@.take(self.pending@.len() as int) =~= self.pending@);
        }
        let mut c: usize = 0;
        while c < self.connections.len()
            invariant
                c <= self.connections.len(),
                before == old(self)@,
                self.connections.len() == old(self).connections.len(),
                self.pending == old(self).pending,
                self.entries@ == before.begin().entries,
                forall|i: int|
                    0 <= i < c ==> self.connections@[i] == before.begin().connections[i],
                forall|i: int|
                    c <= i < self.connections.len() ==> self.connections@[i]
                        == before.connections[i],
            decreases self.connections.len() - c,
        {
            let state = self.connections[c];
            if state.revalidate && !state.skip {
                self.connections.set(c, ConnectionState { validated: false, ..state });
            }
            c += 1;
        }
        let mut evicted: Vec<String> = Vec::new();
        std::mem::swap(&mut self.pending, &mut evicted);
        proof {
            assert(id_set(self.pending@) =~= Set::empty());
            assert(self@.connections =~= before.begin().connections);
            lemma_begin_wf(before);
        }
        evicted
    }

    /// Whether connection `i` must be fetched in this cycle.
    pub fn needs_fetch(&self, i: usize) -> (needed: bool)
        ensures
            needed == self@.needs_fetch(i as int),
    {
        if i < self.connections.len() {
            let state = self.connections[i];
            !state.skip && (!state.validated || state.revalidate)
        } else {
            false
        }
    }

    /// Records the list that connection `i` returned: marks the connection
    /// validated, merges the identifiers into the set, and remembers them for
    /// eviction where the connection revalidates. Where the connection needs
    /// no fetch, nothing changes. The outcome tells the first list of a
    /// connection from every later one, in whatever round it comes.
    pub fn record_fetch(&mut self, i: usize, ids: &Vec<String>) -> (outcome: FetchRecord)
        requires
            old(self).wf(),
        ensures
            final(self)@ == old(self)@.record(i, id_set(ids@)),
            final(self).wf(),
            outcome == if !old(self)@.needs_fetch(i as int) {
                FetchRecord::Ignored
            } else if old(self)@.connections[i as int].seen {
                FetchRecord::Refresh
            } else {
                FetchRecord::FirstValidation
            },
    {
        let ghost before = self@;
        if !self.needs_fetch(i) {
            return FetchRecord::Ignored;
        }
        let state = self.connections[i];
        let mut k: usize = 0;
        while k < ids.len()
            invariant
                k <= ids.len(),
                i < self.connections.len(),
                before == old(self)@,
                self.connections == old(self).connections,
                state == self.connections@[i as int],
                self.entries@ =~= Map::new(
                    |id: Seq<char>|
                        before.entries.dom().contains(id) || id_set(ids@.take(k as int)).contains(
                            id,
                        ),
                    |id: Seq<char>|
                        if id_set(ids@.take(k as int)).contains(id) {
                            i
                        } else {
                            before.entries[id]
                        },
                ),
                id_set(self.pending@) =~= if state.revalidate {
                    before.pending + id_set(ids@.take(k as int))
                } else {
                    before.pending
                },
            decreases ids.len() - k,
        {
            proof {
                lemma_id_set_take(ids@, k as int);
            }
            self.entries.insert(ids[k].clone(), i);
            if state.revalidate {
                let copy = ids[k].clone();
                proof {
                    lemma_id_set_push(self.pending@, copy);
                }
                self.pending.push(copy);
            }
            k += 1;
        }
        proof {
            assert(ids@.take(ids@.len() as int) =~= ids@);
        }
        self.connections.set(i, ConnectionState { validated: true, seen: true, ..state });
        proof {
            assert(self@.entries =~= before.record(i, id_set(ids@)).entries);
            assert(self@.pending =~= before.record(i, id_set(ids@)).pending);
            assert(self@.connections =~= before.record(i, id_set(ids@)).connections);
            lemma_record_wf(before, i, id_set(ids@));
        }
        if state.seen {
            FetchRecord::Refresh
        } else {
            FetchRecord::FirstValidation
        }
    }
}

} // verus!
