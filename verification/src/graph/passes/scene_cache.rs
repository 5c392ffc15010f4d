//! Per-scene state kept by the environment features, evicted after a number
//! of frames without use.
use vstd::prelude::*;

verus! {

/// Frames a scene's state survives without being used.
pub const SCENE_CACHE_TTL: u64 = 120;

/// A scene's state together with the frame it was last used in.
pub struct SceneEntry<T> {
    pub scene_id: u32,
    pub last_used_frame: u64,
    pub state: T,
}

/// Whether state last used in `last_used_frame` is kept at `current_frame`:
/// `current_frame.saturating_sub(last_used_frame) <= SCENE_CACHE_TTL`.
pub open spec fn is_fresh(current_frame: u64, last_used_frame: u64) -> bool {
    current_frame - last_used_frame <= SCENE_CACHE_TTL
}

/// No scene occurs twice.
pub open spec fn ids_distinct<T>(s: Seq<SceneEntry<T>>) -> bool {
    forall|i: int, j: int|
        0 <= i < s.len() && 0 <= j < s.len() && i != j ==> #[trigger] s[i].scene_id
            != #[trigger] s[j].scene_id
}

pub open spec fn has_scene<T>(s: Seq<SceneEntry<T>>, id: u32) -> bool {
    exists|i: int| 0 <= i < s.len() && #[trigger] s[i].scene_id == id
}

pub open spec fn scene_index<T>(s: Seq<SceneEntry<T>>, id: u32) -> int {
    choose|i: int| 0 <= i < s.len() && #[trigger] s[i].scene_id == id
}

/// What survives eviction at `current_frame`: the scenes whose state is fresh.
pub open spec fn fresh_part<T>(m: Map<u32, (u64, T)>, current_frame: u64) -> Map<u32, (u64, T)> {
    Map::new(|id: u32| m.contains_key(id) && is_fresh(current_frame, m[id].0), |id: u32| m[id])
}

/// The entries as a map from scene id to (last used frame, state).
pub open spec fn entries_map<T>(s: Seq<SceneEntry<T>>) -> Map<u32, (u64, T)> {
    Map::new(
        |id: u32| has_scene(s, id),
        |id: u32| (s[scene_index(s, id)].last_used_frame, s[scene_index(s, id)].state),
    )
}

/// The entry at position `i` is what the map holds for its scene.
pub proof fn lemma_entries_map_at<T>(s: Seq<SceneEntry<T>>, i: int)
    requires
        ids_distinct(s),
        0 <= i < s.len(),
    ensures
        entries_map(s).contains_key(s[i].scene_id),
        entries_map(s)[s[i].scene_id] == (s[i].last_used_frame, s[i].state),
{
    let id = s[i].scene_id;
    assert(has_scene(s, id));
    let j = scene_index(s, id);
    assert(s[j].scene_id == id);
}

/// Writing an entry over one of the same scene updates that scene only.
pub proof fn lemma_entries_map_update<T>(s: Seq<SceneEntry<T>>, i: int, e: SceneEntry<T>)
    requires
        ids_distinct(s),
        0 <= i < s.len(),
        e.scene_id == s[i].scene_id,
    ensures
        ids_distinct(s.update(i, e)),
        entries_map(s.update(i, e)) == entries_map(s).insert(
            e.scene_id,
            (e.last_used_frame, e.state),
        ),
{
    let s1 = s.update(i, e);
    assert forall|a: int, b: int|
        0 <= a < s1.len() && 0 <= b < s1.len() && a != b implies #[trigger] s1[a].scene_id
            != #[trigger] s1[b].scene_id by {
        assert(s1[a].scene_id == s[a].scene_id);
        assert(s1[b].scene_id == s[b].scene_id);
    }
    let m0 = entries_map(s);
    let m1 = entries_map(s1);
    let m = m0.insert(e.scene_id, (e.last_used_frame, e.state));
    lemma_entries_map_at(s1, i);
    assert forall|id: u32| #[trigger] m1.contains_key(id) == m.contains_key(id) by {
        if m1.contains_key(id) {
            let j = scene_index(s1, id);
            assert(s[j].scene_id == id);
        }
        if m0.contains_key(id) {
            let j = scene_index(s, id);
            assert(s1[j].scene_id == id);
        }
    }
    assert forall|id: u32| m1.contains_key(id) && id != e.scene_id implies #[trigger] m1[id]
        == m0[id] by {
        let j = scene_index(s1, id);
        assert(s[j] == s1[j]);
        lemma_entries_map_at(s, j);
        lemma_entries_map_at(s1, j);
    }
    assert(m1 =~= m);
}

/// Appending an entry of a new scene adds that scene.
pub proof fn lemma_entries_map_push<T>(s: Seq<SceneEntry<T>>, e: SceneEntry<T>)
    requires
        ids_distinct(s),
        !entries_map(s).contains_key(e.scene_id),
    ensures
        ids_distinct(s.push(e)),
        entries_map(s.push(e)) == entries_map(s).insert(e.scene_id, (e.last_used_frame, e.state)),
{
    let s1 = s.push(e);
    let n = s.len() as int;
    assert forall|a: int, b: int|
        0 <= a < s1.len() && 0 <= b < s1.len() && a != b implies #[trigger] s1[a].scene_id
            != #[trigger] s1[b].scene_id by {
        if a == n {
            assert(s[b].scene_id == s1[b].scene_id);
            assert(!has_scene(s, e.scene_id));
        } else if b == n {
            assert(s[a].scene_id == s1[a].scene_id);
            assert(!has_scene(s, e.scene_id));
        } else {
            assert(s[a] == s1[a] && s[b] == s1[b]);
        }
    }
    let m0 = entries_map(s);
    let m1 = entries_map(s1);
    let m = m0.insert(e.scene_id, (e.last_used_frame, e.state));
    lemma_entries_map_at(s1, n);
    assert forall|id: u32| #[trigger] m1.contains_key(id) == m.contains_key(id) by {
        if m1.contains_key(id) && id != e.scene_id {
            let j = scene_index(s1, id);
            assert(s[j].scene_id == id);
        }
        if m0.contains_key(id) {
            let j = scene_index(s, id);
            assert(s1[j].scene_id == id);
        }
    }
    assert forall|id: u32| m1.contains_key(id) && id != e.scene_id implies #[trigger] m1[id]
        == m0[id] by {
        let j = scene_index(s1, id);
        assert(s[j] == s1[j]);
        lemma_entries_map_at(s, j);
        lemma_entries_map_at(s1, j);
    }
    assert(m1 =~= m);
}

/// Removing the entry at `k` removes its scene and nothing else.
pub proof fn lemma_entries_map_remove<T>(s: Seq<SceneEntry<T>>, k: int)
    requires
        ids_distinct(s),
        0 <= k < s.len(),
    ensures
        ids_distinct(s.remove(k)),
        entries_map(s.remove(k)) == entries_map(s).remove(s[k].scene_id),
{
    let s1 = s.remove(k);
    let id0 = s[k].scene_id;
    assert forall|a: int| 0 <= a < s1.len() implies #[trigger] s1[a] == s[
        if a < k {
            a
        } else {
            a + 1
        }
    ] by {}
    assert forall|a: int, b: int|
        0 <= a < s1.len() && 0 <= b < s1.len() && a != b implies #[trigger] s1[a].scene_id
            != #[trigger] s1[b].scene_id by {
        assert(s1[a] == s[if a < k { a } else { a + 1 }]);
        assert(s1[b] == s[if b < k { b } else { b + 1 }]);
    }
    let m0 = entries_map(s);
    let m1 = entries_map(s1);
    assert forall|id: u32| #[trigger] m1.contains_key(id) == m0.remove(id0).contains_key(id) by {
        if m1.contains_key(id) {
            let j = scene_index(s1, id);
            let jj = if j < k { j } else { j + 1 };
            assert(s1[j] == s[jj]);
            assert(s[jj].scene_id == id);
            assert(jj != k);
        }
        if m0.contains_key(id) && id != id0 {
            let j = scene_index(s, id);
            assert(j != k);
            let jj = if j < k { j } else { j - 1 };
            assert(s1[jj] == s[j]);
            assert(s1[jj].scene_id == id);
        }
    }
    assert forall|id: u32| m1.contains_key(id) implies #[trigger] m1[id] == m0[id] by {
        let j = scene_index(s1, id);
        let jj = if j < k { j } else { j + 1 };
        assert(s1[j] == s[jj]);
        lemma_entries_map_at(s, jj);
        lemma_entries_map_at(s1, j);
    }
    assert(m1 =~= m0.remove(id0));
}

/// Per-scene states keyed by scene id.
pub struct SceneStateCache<T> {
    entries: Vec<SceneEntry<T>>,
}

impl<T> SceneStateCache<T> {
    pub closed spec fn view(&self) -> Map<u32, (u64, T)> {
        entries_map(self.entries@)
    }

    pub closed spec fn wf(&self) -> bool {
        ids_distinct(self.entries@)
    }

    /// An empty cache.
    pub fn new() -> (r: Self)
        ensures
            r.wf(),
            r.view() == Map::<u32, (u64, T)>::empty(),
    {
        let r = SceneStateCache { entries: Vec::new() };
        assert(r.view() =~= Map::<u32, (u64, T)>::empty());
        r
    }

    /// Number of scenes with state.
    pub fn len(&self) -> (r: usize)
        requires
            self.wf(),
        ensures
            r == self.view().len(),
    {
        proof { self.lemma_dom_len(); }
        self.entries.len()
    }

    proof fn lemma_dom_len(&self)
        requires
            self.wf(),
        ensures
            self.view().dom().finite(),
            self.view().len() == self.entries@.len(),
    {
        let s = self.entries@;
        let ids = Seq::new(s.len(), |i: int| s[i].scene_id);
        assert(ids.no_duplicates());
        assert(self.view().dom() =~= ids.to_set()) by {
            assert forall|id: u32| self.view().dom().contains(id) implies ids.to_set().contains(id) by {
                let i = scene_index(s, id);
                assert(ids[i] == id);
            }
            assert forall|id: u32| ids.to_set().contains(id) implies self.view().dom().contains(id) by {
                let i = choose|i: int| 0 <= i < ids.len() && ids[i] == id;
                assert(s[i].scene_id == id);
            }
        }
        ids.unique_seq_to_set();
    }

    /// Position of `scene_id`'s entry, if it has one.
    fn find(&self, scene_id: u32) -> (r: Option<usize>)
        requires
            self.wf(),
        ensures
            match r {
                Some(i) => i < self.entries@.len() && self.entries@[i as int].scene_id == scene_id,
                None => !self.view().contains_key(scene_id),
            },
    {
        let mut i: usize = 0;
        while i < self.entries.len()
            invariant
                i <= self.entries@.len(),
                forall|j: int| 0 <= j < i ==> #[trigger] self.entries@[j].scene_id != scene_id,
            decreases self.entries@.len() - i,
        {
            if self.entries[i].scene_id == scene_id {
                return Some(i);
            }
            i = i + 1;
        }
        None
    }

    /// Whether `scene_id` has state.
    pub fn contains(&self, scene_id: u32) -> (r: bool)
        requires
            self.wf(),
        ensures
            r == self.view().contains_key(scene_id),
    {
        match self.find(scene_id) {
            Some(i) => {
                proof { lemma_entries_map_at(self.entries@, i as int); }
                true
            },
            None => false,
        }
    }

    /// The state of `scene_id`, if it has one.
    pub fn get(&self, scene_id: u32) -> (r: Option<&T>)
        requires
            self.wf(),
        ensures
            r == (if self.view().contains_key(scene_id) {
                Some(&self.view()[scene_id].1)
            } else {
                None
            }),
    {
        match self.find(scene_id) {
            Some(i) => {
                proof { lemma_entries_map_at(self.entries@, i as int); }
                Some(&self.entries[i].state)
            },
            None => None,
        }
    }

    /// The frame `scene_id`'s state was last used in, if it has state.
    pub fn last_used_frame(&self, scene_id: u32) -> (r: Option<u64>)
        requires
            self.wf(),
        ensures
            r == (if self.view().contains_key(scene_id) {
                Some(self.view()[scene_id].0)
            } else {
                None
            }),
    {
        match self.find(scene_id) {
            Some(i) => {
                proof { lemma_entries_map_at(self.entries@, i as int); }
                Some(self.entries[i].last_used_frame)
            },
            None => None,
        }
    }

    /// Stores `state` for `scene_id`, used in `frame`, replacing any state it had.
    pub fn insert(&mut self, scene_id: u32, frame: u64, state: T)
        requires
            old(self).wf(),
        ensures
            final(self).wf(),
            final(self).view() == old(self).view().insert(scene_id, (frame, state)),
    {
        let entry = SceneEntry { scene_id, last_used_frame: frame, state };
        match self.find(scene_id) {
            Some(i) => {
                let ghost s0 = self.entries@;
                let _ = self.entries.remove(i);
                self.entries.insert(i, entry);
                proof {
                    assert(self.entries@ =~= s0.update(i as int, entry));
                    lemma_entries_map_update(s0, i as int, entry);
                }
            },
            None => {
                let ghost s0 = self.entries@;
                self.entries.push(entry);
                proof { lemma_entries_map_push(s0, entry); }
            },
        }
    }

    /// Replaces the state of `scene_id`, keeping its last-used frame; a
    /// scene without state is left out.
    pub fn set_state(&mut self, scene_id: u32, state: T)
        requires
            old(self).wf(),
        ensures
            final(self).wf(),
            final(self).view() == (if old(self).view().contains_key(scene_id) {
                old(self).view().insert(scene_id, (old(self).view()[scene_id].0, state))
            } else {
                old(self).view()
            }),
    {
        match self.find(scene_id) {
            Some(i) => {
                let ghost s0 = self.entries@;
                proof { lemma_entries_map_at(s0, i as int); }
                let e = self.entries.remove(i);
                let entry = SceneEntry { scene_id, last_used_frame: e.last_used_frame, state };
                self.entries.insert(i, entry);
                proof {
                    assert(self.entries@ =~= s0.update(i as int, entry));
                    lemma_entries_map_update(s0, i as int, entry);
                }
            },
            None => {},
        }
    }

    /// Marks `scene_id`'s state as used in `frame`; a scene without state is
    /// left out.
    pub fn touch(&mut self, scene_id: u32, frame: u64)
        requires
            old(self).wf(),
        ensures
            final(self).wf(),
            final(self).view() == (if old(self).view().contains_key(scene_id) {
                old(self).view().insert(scene_id, (frame, old(self).view()[scene_id].1))
            } else {
                old(self).view()
            }),
    {
        match self.find(scene_id) {
            Some(i) => {
                let ghost s0 = self.entries@;
                proof { lemma_entries_map_at(s0, i as int); }
                let e = self.entries.remove(i);
                let entry = SceneEntry { scene_id, last_used_frame: frame, state: e.state };
                self.entries.insert(i, entry);
                proof {
                    assert(self.entries@ =~= s0.update(i as int, entry));
                    lemma_entries_map_update(s0, i as int, entry);
                }
            },
            None => {},
        }
    }

    /// Removes `scene_id`'s state, if it has one.
    pub fn remove(&mut self, scene_id: u32)
        requires
            old(self).wf(),
        ensures
            final(self).wf(),
            final(self).view() == old(self).view().remove(scene_id),
    {
        match self.find(scene_id) {
            Some(i) => {
                let ghost s0 = self.entries@;
                let _ = self.entries.remove(i);
                proof { lemma_entries_map_remove(s0, i as int); }
            },
            None => {
                assert(self.view() =~= old(self).view().remove(scene_id));
            },
        }
    }
    /// Evicts the state of every scene not used within the last
    /// `SCENE_CACHE_TTL` frames before `current_frame`.
    pub fn prune(&mut self, current_frame: u64)
        requires
            old(self).wf(),
        ensures
            final(self).wf(),
            final(self).view() == fresh_part(old(self).view(), current_frame),
    {
        let ghost s0 = self.entries@;
        let mut i: usize = 0;
        let ghost mut k: int = 0;
        proof { lemma_prune_start(s0, current_frame); }
        while i < self.entries.len()
            invariant
                ids_distinct(self.entries@),
                ids_distinct(s0),
                i <= self.entries@.len(),
                prune_progress(self.entries@, i as int, s0, k, current_frame),
            decreases self.entries@.len() - i,
        {
            let last = self.entries[i].last_used_frame;
            if current_frame.saturating_sub(last) <= SCENE_CACHE_TTL {
                proof {
                    lemma_prune_keep(self.entries@, i as int, s0, k, current_frame);
                    k = k + 1;
                }
                i = i + 1;
            } else {
                let ghost before = self.entries@;
                proof {
                    lemma_prune_drop(before, i as int, s0, k, current_frame);
                    lemma_entries_map_remove(before, i as int);
                    k = k + 1;
                }
                let _ = self.entries.remove(i);
            }
        }
        proof { lemma_prune_end(self.entries@, s0, k, current_frame); }
    }
}

/// Progress of eviction: the first `i` entries of `s1` are the fresh ones
/// among the first `k` of `s0`, and the rest of `s1` is the rest of `s0`.
#[verifier::opaque]
spec fn prune_progress<T>(s1: Seq<SceneEntry<T>>, i: int, s0: Seq<SceneEntry<T>>, k: int, cur: u64) -> bool {
    &&& 0 <= i <= s1.len()
    &&& 0 <= k <= s0.len()
    &&& s1.len() - i == s0.len() - k
    &&& forall|a: int| i <= a < s1.len() ==> #[trigger] s1[a] == s0[a - i + k]
    &&& forall|a: int|
        0 <= a < i ==> is_fresh(cur, #[trigger] s1[a].last_used_frame) && came_from(s0, k, s1[a])
    &&& forall|b: int|
        0 <= b < k && is_fresh(cur, #[trigger] s0[b].last_used_frame) ==> came_from(s1, i, s0[b])
}

/// `e` is one of the first `n` entries of `s`.
spec fn came_from<T>(s: Seq<SceneEntry<T>>, n: int, e: SceneEntry<T>) -> bool {
    exists|b: int| 0 <= b < n && s[b] == e
}

proof fn lemma_prune_start<T>(s0: Seq<SceneEntry<T>>, cur: u64)
    ensures
        prune_progress(s0, 0, s0, 0, cur),
{
    reveal(prune_progress);
}

proof fn lemma_prune_keep<T>(s1: Seq<SceneEntry<T>>, i: int, s0: Seq<SceneEntry<T>>, k: int, cur: u64)
    requires
        prune_progress(s1, i, s0, k, cur),
        i < s1.len(),
        is_fresh(cur, s1[i].last_used_frame),
    ensures
        prune_progress(s1, i + 1, s0, k + 1, cur),
{
    reveal(prune_progress);
    assert(s1[i] == s0[k]);
    assert forall|b: int|
        0 <= b < k + 1 && is_fresh(cur, #[trigger] s0[b].last_used_frame) implies came_from(s1, i + 1, s0[b]) by {
        if b == k {
            assert(s1[i] == s0[b]);
        } else {
            assert(came_from(s1, i, s0[b]));
            let a = choose|a: int| 0 <= a < i && s1[a] == s0[b];
            assert(s1[a] == s0[b]);
        }
    }
    assert forall|a: int| 0 <= a < i + 1 implies is_fresh(cur, #[trigger] s1[a].last_used_frame)
        && came_from(s0, k + 1, s1[a]) by {
        if a == i {
            assert(s0[k] == s1[a]);
        } else {
            assert(0 <= a < i);
            assert(is_fresh(cur, s1[a].last_used_frame));
            assert(came_from(s0, k, s1[a]));
            let b = choose|b: int| 0 <= b < k && s0[b] == s1[a];
            assert(s0[b] == s1[a]);
        }
    }
}

proof fn lemma_prune_drop<T>(s1: Seq<SceneEntry<T>>, i: int, s0: Seq<SceneEntry<T>>, k: int, cur: u64)
    requires
        prune_progress(s1, i, s0, k, cur),
        i < s1.len(),
        !is_fresh(cur, s1[i].last_used_frame),
    ensures
        prune_progress(s1.remove(i), i, s0, k + 1, cur),
{
    reveal(prune_progress);
    let after = s1.remove(i);
    assert(s1[i] == s0[k]);
    assert forall|a: int| i <= a < after.len() implies #[trigger] after[a] == s0[a - i + k + 1] by {
        assert(after[a] == s1[a + 1]);
        assert(s1[a + 1] == s0[a + 1 - i + k]);
    }
    assert forall|a: int| 0 <= a < i implies is_fresh(cur, #[trigger] after[a].last_used_frame)
        && came_from(s0, k + 1, after[a]) by {
        assert(after[a] == s1[a]);
        assert(is_fresh(cur, s1[a].last_used_frame) && came_from(s0, k, s1[a]));
        let b = choose|b: int| 0 <= b < k && s0[b] == s1[a];
        assert(s0[b] == after[a]);
    }
    assert forall|b: int|
        0 <= b < k + 1 && is_fresh(cur, #[trigger] s0[b].last_used_frame) implies came_from(after, i, s0[b]) by {
        if b < k {
            assert(came_from(s1, i, s0[b]));
            let a = choose|a: int| 0 <= a < i && s1[a] == s0[b];
            assert(after[a] == s1[a]);
            assert(after[a] == s0[b]);
        } else {
            assert(s0[b] == s1[i]);
        }
    }
}

proof fn lemma_prune_end<T>(s1: Seq<SceneEntry<T>>, s0: Seq<SceneEntry<T>>, k: int, cur: u64)
    requires
        prune_progress(s1, s1.len() as int, s0, k, cur),
        ids_distinct(s0),
        ids_distinct(s1),
    ensures
        entries_map(s1) == fresh_part(entries_map(s0), cur),
{
    reveal(prune_progress);
    assert(k == s0.len());
    let m0 = entries_map(s0);
    let m1 = entries_map(s1);
    let m = fresh_part(m0, cur);
    assert forall|id: u32| #[trigger] m1.contains_key(id) == m.contains_key(id) by {
        if m1.contains_key(id) {
            assert(has_scene(s1, id));
            let a = scene_index(s1, id);
            assert(0 <= a < s1.len());
            assert(is_fresh(cur, s1[a].last_used_frame));
            assert(came_from(s0, k, s1[a]));
            let b = choose|b: int| 0 <= b < k && s0[b] == s1[a];
            lemma_entries_map_at(s0, b);
        }
        if m.contains_key(id) {
            let b = scene_index(s0, id);
            lemma_entries_map_at(s0, b);
            assert(is_fresh(cur, s0[b].last_used_frame));
            assert(came_from(s1, s1.len() as int, s0[b]));
            let a = choose|a: int| 0 <= a < s1.len() && s1[a] == s0[b];
            assert(s1[a].scene_id == id);
        }
    }
    assert forall|id: u32| m1.contains_key(id) implies #[trigger] m1[id] == m[id] by {
        assert(has_scene(s1, id));
        let a = scene_index(s1, id);
        assert(0 <= a < s1.len());
        assert(is_fresh(cur, s1[a].last_used_frame));
        assert(came_from(s0, k, s1[a]));
        let b = choose|b: int| 0 <= b < k && s0[b] == s1[a];
        lemma_entries_map_at(s0, b);
        lemma_entries_map_at(s1, a);
    }
    assert(m1 =~= m);
}

} // verus!
