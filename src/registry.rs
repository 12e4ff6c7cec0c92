use vstd::prelude::*;
use crate::text::same_text;

verus! {

/// A timer shared by every overlay that shows the same splits file.
pub struct SharedTimer<T> {
    /// The live timer itself.
    pub timer: T,
    /// The splits file that the timer was loaded from.
    pub path: String,
    /// Whether the run may be written back to `path`: false when the file
    /// could not be parsed and a default run stands in for it.
    pub can_save_splits: bool,
    /// Whether the splits are saved after each successful reset.
    pub auto_save: bool,
}

impl<T> SharedTimer<T> {
    /// Where a requested save writes: the splits file, or nowhere when the
    /// run stands in for a file that could not be parsed.
    pub fn save_path(&self) -> (r: Option<&str>)
        ensures
            r is Some <==> self.can_save_splits,
            r matches Some(p) ==> p@ == self.path@,
    {
        if self.can_save_splits {
            Some(self.path.as_str())
        } else {
            None
        }
    }

    /// Where the save that follows a reset writes: only after a reset that
    /// succeeded, with saving after resets turned on, and a run that can be
    /// saved.
    pub fn save_path_after_reset(&self, reset_succeeded: bool) -> (r: Option<&str>)
        ensures
            r is Some <==> reset_succeeded && self.auto_save && self.can_save_splits,
            r matches Some(p) ==> p@ == self.path@,
    {
        if reset_succeeded && self.auto_save {
            self.save_path()
        } else {
            None
        }
    }
}

/// A live shared timer together with the number of its holders.
pub struct RegistryEntry<T> {
    pub holders: u64,
    pub shared: SharedTimer<T>,
}

/// Names one shared timer of a registry.  Ids are never handed out twice, so
/// a handle of a timer that has been freed never reaches a later one.
#[derive(Clone, Copy, Debug, PartialEq, Eq, Structural)]
pub struct TimerHandle {
    pub id: u64,
}

/// What a registry holds: its live timers by id, and the id that the next
/// new timer receives.
pub ghost struct RegistryModel<T> {
    pub live: Map<u64, RegistryEntry<T>>,
    pub next_id: nat,
}

struct Slot<T> {
    id: u64,
    entry: RegistryEntry<T>,
}

/// The process-wide registry of shared timers, keyed by splits file path.
///
/// Each timer is counted by its holders; one whose count has dropped to zero
/// is dead, is no longer reachable, and its slot is pruned by the next lookup.
pub struct TimerRegistry<T> {
    slots: Vec<Slot<T>>,
    next_id: u64,
}

/// At most one live timer per path, every id below the next one, and every
/// live timer held at least once.
pub open spec fn model_wf<T>(m: RegistryModel<T>) -> bool {
    &&& forall|a: u64, b: u64|
        m.live.contains_key(a) && m.live.contains_key(b) && a != b
            ==> m.live[a].shared.path@ != m.live[b].shared.path@
    &&& forall|id: u64| m.live.contains_key(id) ==> id < m.next_id && m.live[id].holders > 0
}

/// Whether some live timer was loaded from `path`.
pub open spec fn has_live_path<T>(m: RegistryModel<T>, path: Seq<char>) -> bool {
    exists|id: u64| m.live.contains_key(id) && m.live[id].shared.path@ == path
}

/// The id of the live timer of `path`, if there is one.
pub open spec fn live_id<T>(m: RegistryModel<T>, path: Seq<char>) -> Option<u64> {
    if has_live_path(m, path) {
        Some(choose|id: u64| m.live.contains_key(id) && m.live[id].shared.path@ == path)
    } else {
        None
    }
}

/// `post` is `pre` with one more holder of the live timer of `path`, which `h` names.
pub open spec fn reused<T>(pre: RegistryModel<T>, post: RegistryModel<T>, path: Seq<char>, h: TimerHandle) -> bool {
    &&& live_id(pre, path) == Some(h.id)
    &&& pre.live[h.id].holders < u64::MAX
    &&& post.next_id == pre.next_id
    &&& post.live == pre.live.insert(
        h.id,
        RegistryEntry { holders: (pre.live[h.id].holders + 1) as u64, shared: pre.live[h.id].shared },
    )
}

/// `post` is `pre` with a new timer for `path`, held once, named by a fresh
/// `h`, whose state is what the loader gave: `timer` and `can_save`.
pub open spec fn created<T>(
    pre: RegistryModel<T>,
    post: RegistryModel<T>,
    path: Seq<char>,
    h: TimerHandle,
    timer: T,
    can_save: bool,
) -> bool {
    &&& live_id(pre, path) is None
    &&& h.id == pre.next_id
    &&& post.next_id == pre.next_id + 1
    &&& post.live == pre.live.insert(h.id, post.live[h.id])
    &&& post.live[h.id].holders == 1
    &&& post.live[h.id].shared.timer == timer
    &&& post.live[h.id].shared.path@ == path
    &&& post.live[h.id].shared.can_save_splits == can_save
    &&& !post.live[h.id].shared.auto_save
}

/// One get-or-create for `path` took `pre` to `post` and returned `h`.
pub open spec fn acquire_step<T>(pre: RegistryModel<T>, post: RegistryModel<T>, path: Seq<char>, h: TimerHandle) -> bool {
    &&& has_live_path(pre, path) ==> reused(pre, post, path, h)
    &&& !has_live_path(pre, path) ==> exists|t: T, c: bool| created(pre, post, path, h, t, c)
}

/// `post` is `pre` with one holder fewer of the timer that `h` names; the
/// timer leaves when its last holder does.
pub open spec fn released<T>(pre: RegistryModel<T>, post: RegistryModel<T>, h: TimerHandle) -> bool {
    &&& post.next_id == pre.next_id
    &&& if !pre.live.contains_key(h.id) {
        post.live == pre.live
    } else if pre.live[h.id].holders > 1 {
        post.live == pre.live.insert(
            h.id,
            RegistryEntry { holders: (pre.live[h.id].holders - 1) as u64, shared: pre.live[h.id].shared },
        )
    } else {
        post.live == pre.live.remove(h.id)
    }
}

/// After a get-or-create for `path`, the registry is still well formed and
/// its live timer for `path` is the one that the returned handle names.
pub proof fn lemma_acquire_names_path<T>(pre: RegistryModel<T>, post: RegistryModel<T>, path: Seq<char>, h: TimerHandle)
    requires
        model_wf(pre),
        acquire_step(pre, post, path, h),
    ensures
        model_wf(post),
        post.live.contains_key(h.id),
        post.live[h.id].shared.path@ == path,
        has_live_path(post, path),
        live_id(post, path) == Some(h.id),
{
    if has_live_path(pre, path) {
        let c = choose|id: u64| pre.live.contains_key(id) && pre.live[id].shared.path@ == path;
        assert(c == h.id);
        assert forall|a: u64, b: u64|
            post.live.contains_key(a) && post.live.contains_key(b) && a != b
                implies post.live[a].shared.path@ != post.live[b].shared.path@ by {
            assert(pre.live.contains_key(a) && pre.live.contains_key(b));
        }
        assert forall|id: u64| post.live.contains_key(id) implies id < post.next_id && post.live[id].holders > 0 by {
            assert(pre.live.contains_key(id));
        }
    } else {
        let t = choose|t: T, c: bool| created(pre, post, path, h, t, c);
        assert forall|a: u64, b: u64|
            post.live.contains_key(a) && post.live.contains_key(b) && a != b
                implies post.live[a].shared.path@ != post.live[b].shared.path@ by {
            if a != h.id && b != h.id {
                assert(pre.live.contains_key(a) && pre.live.contains_key(b));
            } else if a == h.id {
                assert(pre.live.contains_key(b));
            } else {
                assert(pre.live.contains_key(a));
            }
        }
        assert forall|id: u64| post.live.contains_key(id) implies id < post.next_id && post.live[id].holders > 0 by {
            if id != h.id {
                assert(pre.live.contains_key(id));
            }
        }
    }
    assert(post.live.contains_key(h.id) && post.live[h.id].shared.path@ == path);
    let c = choose|id: u64| post.live.contains_key(id) && post.live[id].shared.path@ == path;
    assert(c == h.id);
}

/// Two get-or-create calls for one path, made while the first handle is
/// still held, return the same handle, which names one and the same timer.
pub proof fn lemma_held_path_shares_timer<T>(
    s0: RegistryModel<T>,
    s1: RegistryModel<T>,
    s2: RegistryModel<T>,
    path: Seq<char>,
    h1: TimerHandle,
    h2: TimerHandle,
)
    requires
        model_wf(s0),
        acquire_step(s0, s1, path, h1),
        acquire_step(s1, s2, path, h2),
    ensures
        h1 == h2,
        s2.live[h2.id].shared == s1.live[h1.id].shared,
        s2.live[h2.id].holders == s1.live[h1.id].holders + 1,
{
    lemma_acquire_names_path(s0, s1, path, h1);
    assert(reused(s1, s2, path, h2));
}

/// Once the only holder of the timer for a path releases it, the next
/// get-or-create for that path finds no live timer and loads a new one,
/// under a handle that differs from the old one.
pub proof fn lemma_last_release_reloads<T>(
    s0: RegistryModel<T>,
    s1: RegistryModel<T>,
    s2: RegistryModel<T>,
    s3: RegistryModel<T>,
    path: Seq<char>,
    h1: TimerHandle,
    h3: TimerHandle,
)
    requires
        model_wf(s0),
        acquire_step(s0, s1, path, h1),
        s1.live[h1.id].holders == 1,
        released(s1, s2, h1),
        acquire_step(s2, s3, path, h3),
    ensures
        !has_live_path(s2, path),
        h3.id != h1.id,
        exists|t: T, c: bool| created(s2, s3, path, h3, t, c),
{
    lemma_acquire_names_path(s0, s1, path, h1);
    assert(s2.live == s1.live.remove(h1.id));
    if has_live_path(s2, path) {
        let c = choose|id: u64| s2.live.contains_key(id) && s2.live[id].shared.path@ == path;
        assert(s1.live.contains_key(c) && c != h1.id);
    }
}

/// Get-or-create calls for two different paths return handles of two
/// different timers.
pub proof fn lemma_distinct_paths_distinct_timers<T>(
    s0: RegistryModel<T>,
    s1: RegistryModel<T>,
    s2: RegistryModel<T>,
    p: Seq<char>,
    q: Seq<char>,
    h1: TimerHandle,
    h2: TimerHandle,
)
    requires
        model_wf(s0),
        acquire_step(s0, s1, p, h1),
        acquire_step(s1, s2, q, h2),
        p != q,
    ensures
        h1 != h2,
        s2.live.contains_key(h1.id),
        s2.live.contains_key(h2.id),
        s2.live[h1.id].shared.path@ == p,
        s2.live[h2.id].shared.path@ == q,
{
    lemma_acquire_names_path(s0, s1, p, h1);
    lemma_acquire_names_path(s1, s2, q, h2);
    if has_live_path(s1, q) {
        let c = choose|id: u64| s1.live.contains_key(id) && s1.live[id].shared.path@ == q;
        assert(c != h1.id);
    }
}


spec fn live_of<T>(s: Seq<Slot<T>>) -> Map<u64, RegistryEntry<T>>
    decreases s.len(),
{
    if s.len() == 0 {
        Map::empty()
    } else {
        let m = live_of(s.drop_last());
        if s.last().entry.holders > 0 {
            m.insert(s.last().id, s.last().entry)
        } else {
            m
        }
    }
}

spec fn ids_distinct<T>(s: Seq<Slot<T>>) -> bool {
    forall|i: int, j: int| 0 <= i < s.len() && 0 <= j < s.len() && i != j ==> s[i].id != s[j].id
}

proof fn lemma_live_of_dom<T>(s: Seq<Slot<T>>, id: u64)
    ensures
        live_of(s).contains_key(id) ==> exists|i: int| 0 <= i < s.len() && s[i].id == id && s[i].entry.holders > 0,
    decreases s.len(),
{
    if s.len() > 0 {
        lemma_live_of_dom(s.drop_last(), id);
        if live_of(s).contains_key(id) && id != s.last().id {
            let i = choose|i: int| 0 <= i < s.len() - 1 && s.drop_last()[i].id == id && s.drop_last()[i].entry.holders > 0;
            assert(s[i] == s.drop_last()[i]);
        }
    }
}

proof fn lemma_live_of_slot<T>(s: Seq<Slot<T>>, i: int)
    requires
        ids_distinct(s),
        0 <= i < s.len(),
    ensures
        s[i].entry.holders > 0 ==> live_of(s).contains_key(s[i].id) && live_of(s)[s[i].id] == s[i].entry,
        s[i].entry.holders == 0 ==> !live_of(s).contains_key(s[i].id),
    decreases s.len(),
{
    let t = s.drop_last();
    if i < s.len() - 1 {
        assert(ids_distinct(t));
        lemma_live_of_slot(t, i);
        assert(t[i] == s[i]);
    } else {
        if s[i].entry.holders == 0 {
            lemma_live_of_dom(t, s[i].id);
            if live_of(t).contains_key(s[i].id) {
                let j = choose|j: int| 0 <= j < t.len() && t[j].id == s[i].id && t[j].entry.holders > 0;
                assert(s[j] == t[j]);
            }
        }
    }
}

proof fn lemma_live_of_update<T>(s: Seq<Slot<T>>, i: int, x: Slot<T>)
    requires
        ids_distinct(s),
        0 <= i < s.len(),
        x.id == s[i].id,
    ensures
        x.entry.holders > 0 ==> live_of(s.update(i, x)) == live_of(s).insert(x.id, x.entry),
        x.entry.holders == 0 ==> live_of(s.update(i, x)) == live_of(s).remove(x.id),
    decreases s.len(),
{
    let u = s.update(i, x);
    let t = s.drop_last();
    if i < s.len() - 1 {
        assert(ids_distinct(t));
        lemma_live_of_update(t, i, x);
        assert(u.drop_last() =~= t.update(i, x));
        assert(u.last() == s.last());
        if x.entry.holders > 0 {
            assert(live_of(u) =~= live_of(s).insert(x.id, x.entry));
        } else {
            assert(live_of(u) =~= live_of(s).remove(x.id));
        }
    } else {
        assert(u.drop_last() =~= t);
        lemma_live_of_dom(t, x.id);
        if live_of(t).contains_key(x.id) {
            let j = choose|j: int| 0 <= j < t.len() && t[j].id == x.id && t[j].entry.holders > 0;
            assert(s[j] == t[j]);
        }
        if x.entry.holders > 0 {
            assert(live_of(u) =~= live_of(s).insert(x.id, x.entry));
        } else {
            assert(live_of(u) =~= live_of(s).remove(x.id));
        }
    }
}

proof fn lemma_live_of_no_path<T>(s: Seq<Slot<T>>, path: Seq<char>)
    requires
        forall|k: int| 0 <= k < s.len() ==> s[k].entry.shared.path@ != path,
    ensures
        forall|id: u64| live_of(s).contains_key(id) ==> live_of(s)[id].shared.path@ != path,
    decreases s.len(),
{
    if s.len() > 0 {
        let t = s.drop_last();
        assert forall|k: int| 0 <= k < t.len() implies t[k].entry.shared.path@ != path by {
            assert(t[k] == s[k]);
        }
        lemma_live_of_no_path(t, path);
        assert(s.last() == s[s.len() - 1]);
        assert(s.last().entry.shared.path@ != path);
        assert forall|id: u64| live_of(s).contains_key(id) implies live_of(s)[id].shared.path@ != path by {
            if !(s.last().entry.holders > 0 && id == s.last().id) {
                assert(live_of(t).contains_key(id));
            }
        }
    }
}

impl<T> View for TimerRegistry<T> {
    type V = RegistryModel<T>;

    /// The live timers of this registry.
    closed spec fn view(&self) -> RegistryModel<T> {
        RegistryModel { live: live_of(self.slots@), next_id: self.next_id as nat }
    }
}

/// No live timer has as many holders as a counter can hold.
pub open spec fn holders_below_max<T>(m: RegistryModel<T>) -> bool {
    forall|id: u64| m.live.contains_key(id) ==> m.live[id].holders < u64::MAX
}

impl<T> TimerRegistry<T> {
    /// The registry's internal invariant.
    pub closed spec fn wf(&self) -> bool {
        &&& ids_distinct(self.slots@)
        &&& forall|i: int| 0 <= i < self.slots@.len() ==> self.slots@[i].id < self.next_id
        &&& model_wf(self@)
    }

    /// A well-formed registry's live timers are well formed as a model:
    /// one per path, each held, each id below the next one.
    pub proof fn lemma_model_wf(&self)
        requires
            self.wf(),
        ensures
            model_wf(self@),
    {
    }

    /// Room for one more timer: the id counter has not run out.
    pub open spec fn has_room(&self) -> bool {
        self@.next_id < u64::MAX
    }

    /// An empty registry.
    pub fn new() -> (r: TimerRegistry<T>)
        ensures
            r.wf(),
            r@.live.len() == 0,
            r@.live =~= Map::empty(),
            r@.next_id == 0,
    {
        let r = TimerRegistry { slots: Vec::new(), next_id: 0 };
        assert(live_of(r.slots@) =~= Map::empty());
        r
    }

    /// Whether a timer can be taken up: the id counter has room and no
    /// timer has as many holders as its counter can hold.
    pub fn can_take_more(&self) -> (r: bool)
        requires
            self.wf(),
        ensures
            r == (self.has_room() && holders_below_max(self@)),
    {
        if self.next_id == u64::MAX {
            return false;
        }
        let mut i: usize = 0;
        while i < self.slots.len()
            invariant
                self.wf(),
                i <= self.slots@.len(),
                forall|k: int| 0 <= k < i ==> self.slots@[k].entry.holders < u64::MAX,
            decreases self.slots@.len() - i,
        {
            if self.slots[i].entry.holders == u64::MAX {
                proof {
                    lemma_live_of_slot(self.slots@, i as int);
                    let id = self.slots@[i as int].id;
                    assert(self@.live.contains_key(id) && self@.live[id].holders == u64::MAX);
                }
                return false;
            }
            i = i + 1;
        }
        proof {
            assert forall|id: u64| self@.live.contains_key(id) implies self@.live[id].holders < u64::MAX by {
                lemma_live_of_dom(self.slots@, id);
                let k = choose|k: int| 0 <= k < self.slots@.len() && self.slots@[k].id == id
                    && self.slots@[k].entry.holders > 0;
                lemma_live_of_slot(self.slots@, k);
            }
        }
        true
    }

    /// Drops the slots of timers that have no holder left.
    fn prune(&mut self)
        requires
            old(self).wf(),
        ensures
            final(self).wf(),
            final(self)@ == old(self)@,
            forall|i: int| 0 <= i < final(self).slots@.len() ==> final(self).slots@[i].entry.holders > 0,
    {
        let mut old_slots = Vec::new();
        std::mem::swap(&mut old_slots, &mut self.slots);
        let ghost s = old_slots@;
        let ghost n = s.len();
        let mut kept: Vec<Slot<T>> = Vec::new();
        let mut rest = old_slots;
        while rest.len() > 0
            invariant
                n == s.len(),
                ids_distinct(s),
                forall|i: int| 0 <= i < n ==> s[i].id < self.next_id,
                rest@.len() <= n,
                rest@ == s.subrange(n - rest@.len(), n as int),
                live_of(kept@) == live_of(s.subrange(0, n - rest@.len())),
                ids_distinct(kept@),
                forall|i: int| 0 <= i < kept@.len() ==> kept@[i].entry.holders > 0,
                forall|i: int| 0 <= i < kept@.len() ==> kept@[i].id < self.next_id,
                forall|i: int| 0 <= i < kept@.len() ==>
                    exists|j: int| 0 <= j < n - rest@.len() && s[j].id == #[trigger] kept@[i].id,
            decreases rest@.len(),
        {
            let ghost before = kept@;
            let ghost done = n - rest@.len();
            let slot = rest.remove(0);
            assert(slot == s[done]);
            assert(s.subrange(0, done + 1).drop_last() =~= s.subrange(0, done));
            assert(rest@ =~= s.subrange(n - rest@.len(), n as int));
            if slot.entry.holders > 0 {
                kept.push(slot);
                assert(kept@.drop_last() =~= before);
                assert forall|i: int| 0 <= i < before.len() implies kept@[i].id != slot.id by {
                    let j = choose|j: int| 0 <= j < done && s[j].id == before[i].id;
                    assert(kept@[i] == before[i]);
                }
                assert forall|i: int| 0 <= i < kept@.len() implies
                    exists|j: int| 0 <= j < n - rest@.len() && s[j].id == #[trigger] kept@[i].id by {
                    if i < before.len() {
                        assert(kept@[i] == before[i]);
                        let j = choose|j: int| 0 <= j < done && s[j].id == before[i].id;
                        assert(0 <= j < n - rest@.len() && s[j].id == kept@[i].id);
                    } else {
                        assert(s[done].id == kept@[i].id);
                    }
                }
            } else {
                assert forall|i: int| 0 <= i < kept@.len() implies
                    exists|j: int| 0 <= j < n - rest@.len() && s[j].id == #[trigger] kept@[i].id by {
                    let j = choose|j: int| 0 <= j < done && s[j].id == kept@[i].id;
                    assert(0 <= j < n - rest@.len() && s[j].id == kept@[i].id);
                }
            }
        }
        self.slots = kept;
        proof {
            assert(s.subrange(0, n as int) =~= s);
        }
    }

    /// The slot of the live timer with id `id`, if there is one.
    fn find_live(&self, id: u64) -> (r: Option<usize>)
        requires
            self.wf(),
        ensures
            r is None <==> !self@.live.contains_key(id),
            r matches Some(i) ==> i < self.slots@.len() && self.slots@[i as int].id == id
                && self.slots@[i as int].entry.holders > 0,
    {
        let mut i: usize = 0;
        while i < self.slots.len()
            invariant
                self.wf(),
                i <= self.slots@.len(),
                forall|k: int| 0 <= k < i ==> !(self.slots@[k].id == id && self.slots@[k].entry.holders > 0),
            decreases self.slots@.len() - i,
        {
            if self.slots[i].id == id && self.slots[i].entry.holders > 0 {
                proof { lemma_live_of_slot(self.slots@, i as int); }
                return Some(i);
            }
            i = i + 1;
        }
        proof { lemma_live_of_dom(self.slots@, id); }
        None
    }

    /// Sets the holder count of the live timer in slot `i`.
    fn set_holders(&mut self, i: usize, holders: u64)
        requires
            old(self).wf(),
            i < old(self).slots@.len(),
            old(self).slots@[i as int].entry.holders > 0,
        ensures
            final(self).wf(),
            final(self).slots@.len() == old(self).slots@.len(),
            final(self)@.next_id == old(self)@.next_id,
            holders > 0 ==> final(self)@.live == old(self)@.live.insert(
                old(self).slots@[i as int].id,
                RegistryEntry { holders, shared: old(self).slots@[i as int].entry.shared },
            ),
            holders == 0 ==> final(self)@.live == old(self)@.live.remove(old(self).slots@[i as int].id),
    {
        let ghost s = self.slots@;
        proof { lemma_live_of_slot(s, i as int); }
        self.slots[i].entry.holders = holders;
        proof {
            let x = self.slots@[i as int];
            assert(self.slots@ == s.update(i as int, x));
            lemma_live_of_update(s, i as int, x);
            assert(x.entry == RegistryEntry { holders, shared: s[i as int].entry.shared });
            let m = self@;
            assert forall|a: u64, b: u64|
                m.live.contains_key(a) && m.live.contains_key(b) && a != b
                    implies m.live[a].shared.path@ != m.live[b].shared.path@ by {
                assert(old(self)@.live.contains_key(a) && old(self)@.live.contains_key(b));
            }
            assert forall|id: u64| m.live.contains_key(id) implies id < m.next_id && m.live[id].holders > 0 by {
                assert(old(self)@.live.contains_key(id));
            }
        }
    }

    /// The shared timer for `path`: the live one if some overlay holds it,
    /// else a new one whose state `loader` gives from the path.  Dead slots
    /// are pruned first; the new or reused timer gains one holder.
    pub fn get_or_create<F>(&mut self, path: &str, loader: F) -> (r: TimerHandle)
        where
            F: FnOnce(&str) -> (T, bool),
        requires
            old(self).wf(),
            old(self).has_room(),
            holders_below_max(old(self)@),
            loader.requires((path,)),
        ensures
            final(self).wf(),
            model_wf(final(self)@),
            acquire_step(old(self)@, final(self)@, path@, r),
            live_id(final(self)@, path@) == Some(r.id),
            final(self)@.live.contains_key(r.id),
            final(self)@.live[r.id].shared.path@ == path@,
            has_live_path(old(self)@, path@) ==> reused(old(self)@, final(self)@, path@, r),
            !has_live_path(old(self)@, path@) ==> exists|t: T, c: bool|
                loader.ensures((path,), (t, c)) && created(old(self)@, final(self)@, path@, r, t, c),
    {
        self.prune();
        let mut i: usize = 0;
        while i < self.slots.len()
            invariant
                self.wf(),
                self@ == old(self)@,
                holders_below_max(old(self)@),
                old(self).has_room(),
                i <= self.slots@.len(),
                forall|k: int| 0 <= k < self.slots@.len() ==> self.slots@[k].entry.holders > 0,
                forall|k: int| 0 <= k < i ==> self.slots@[k].entry.shared.path@ != path@,
            decreases self.slots@.len() - i,
        {
            if same_text(self.slots[i].entry.shared.path.as_str(), path) {
                let id = self.slots[i].id;
                let ghost pre = self@;
                proof {
                    lemma_live_of_slot(self.slots@, i as int);
                    assert(pre.live.contains_key(id) && pre.live[id].shared.path@ == path@);
                    let c = choose|c: u64| pre.live.contains_key(c) && pre.live[c].shared.path@ == path@;
                    assert(c == id);
                }
                let holders = self.slots[i].entry.holders + 1;
                self.set_holders(i, holders);
                let r = TimerHandle { id };
                proof {
                    assert(reused(old(self)@, self@, path@, r));
                    lemma_acquire_names_path(old(self)@, self@, path@, r);
                }
                return r;
            }
            i = i + 1;
        }
        proof {
            lemma_live_of_no_path(self.slots@, path@);
        }
        let (timer, can_save) = loader(path);
        let id = self.next_id;
        let ghost s = self.slots@;
        let ghost pre = self@;
        proof {
            assert forall|k: int| 0 <= k < s.len() implies s[k].id != id by {}
            lemma_live_of_dom(s, id);
        }
        let slot = Slot {
            id,
            entry: RegistryEntry {
                holders: 1,
                shared: SharedTimer { timer, path: path.to_owned(), can_save_splits: can_save, auto_save: false },
            },
        };
        self.slots.push(slot);
        self.next_id = id + 1;
        let r = TimerHandle { id };
        proof {
            assert(self.slots@.drop_last() =~= s);
            assert(self@.live == pre.live.insert(id, self.slots@.last().entry));
            assert(self@.live =~= pre.live.insert(id, self@.live[id]));
            assert forall|a: int, b: int| 0 <= a < self.slots@.len() && 0 <= b < self.slots@.len() && a != b
                implies self.slots@[a].id != self.slots@[b].id by {
                if a < s.len() { assert(self.slots@[a] == s[a]); }
                if b < s.len() { assert(self.slots@[b] == s[b]); }
            }
            assert forall|k: int| 0 <= k < self.slots@.len() implies self.slots@[k].id < self.next_id by {
                if k < s.len() { assert(self.slots@[k] == s[k]); }
            }
            let m = self@;
            assert forall|a: u64, b: u64|
                m.live.contains_key(a) && m.live.contains_key(b) && a != b
                    implies m.live[a].shared.path@ != m.live[b].shared.path@ by {
                if a != id && b != id {
                    assert(pre.live.contains_key(a) && pre.live.contains_key(b));
                } else if a == id {
                    assert(pre.live.contains_key(b));
                } else {
                    assert(pre.live.contains_key(a));
                }
            }
            assert forall|x: u64| m.live.contains_key(x) implies x < m.next_id && m.live[x].holders > 0 by {
                if x != id {
                    assert(pre.live.contains_key(x));
                }
            }
            assert(created(old(self)@, self@, path@, r, timer, can_save));
            lemma_acquire_names_path(old(self)@, self@, path@, r);
        }
        r
    }

    /// Adds a holder to the live timer that `h` names, as when one more
    /// overlay takes it up; false, and nothing changes, when it is not live.
    pub fn retain(&mut self, h: TimerHandle) -> (r: bool)
        requires
            old(self).wf(),
            holders_below_max(old(self)@),
        ensures
            final(self).wf(),
            model_wf(final(self)@),
            r == old(self)@.live.contains_key(h.id),
            final(self)@.next_id == old(self)@.next_id,
            r ==> final(self)@.live == old(self)@.live.insert(
                h.id,
                RegistryEntry { holders: (old(self)@.live[h.id].holders + 1) as u64, shared: old(self)@.live[h.id].shared },
            ),
            !r ==> final(self)@ == old(self)@,
    {
        match self.find_live(h.id) {
            Some(i) => {
                proof { lemma_live_of_slot(self.slots@, i as int); }
                let holders = self.slots[i].entry.holders + 1;
                self.set_holders(i, holders);
                true
            },
            None => false,
        }
    }

    /// Drops one holder of the timer that `h` names.  When the last holder
    /// goes, the timer is dead: no lookup reaches it again, and the next
    /// `get_or_create` for its path loads a new one.
    pub fn release(&mut self, h: TimerHandle)
        requires
            old(self).wf(),
        ensures
            final(self).wf(),
            model_wf(final(self)@),
            released(old(self)@, final(self)@, h),
    {
        match self.find_live(h.id) {
            Some(i) => {
                proof { lemma_live_of_slot(self.slots@, i as int); }
                let holders = self.slots[i].entry.holders - 1;
                self.set_holders(i, holders);
            },
            None => {},
        }
    }

    /// The shared timer that `h` names, while it is live.
    pub fn get(&self, h: TimerHandle) -> (r: Option<&SharedTimer<T>>)
        requires
            self.wf(),
        ensures
            r is Some <==> self@.live.contains_key(h.id),
            r matches Some(t) ==> *t == self@.live[h.id].shared,
    {
        match self.find_live(h.id) {
            Some(i) => {
                proof { lemma_live_of_slot(self.slots@, i as int); }
                Some(&self.slots[i].entry.shared)
            },
            None => None,
        }
    }

    /// Turns saving after each reset on or off for the live timer that `h`
    /// names; false, and nothing changes, when it is not live.
    pub fn set_auto_save(&mut self, h: TimerHandle, on: bool) -> (r: bool)
        requires
            old(self).wf(),
        ensures
            final(self).wf(),
            model_wf(final(self)@),
            r == old(self)@.live.contains_key(h.id),
            final(self)@.next_id == old(self)@.next_id,
            final(self)@.live.dom() == old(self)@.live.dom(),
            forall|id: u64| #[trigger] final(self)@.live.contains_key(id) && id != h.id
                ==> final(self)@.live[id] == old(self)@.live[id],
            r ==> final(self)@.live[h.id].holders == old(self)@.live[h.id].holders
                && final(self)@.live[h.id].shared.timer == old(self)@.live[h.id].shared.timer
                && final(self)@.live[h.id].shared.path == old(self)@.live[h.id].shared.path
                && final(self)@.live[h.id].shared.can_save_splits == old(self)@.live[h.id].shared.can_save_splits
                && final(self)@.live[h.id].shared.auto_save == on,
    {
        match self.find_live(h.id) {
            Some(i) => {
                let ghost s = self.slots@;
                proof { lemma_live_of_slot(s, i as int); }
                self.slots[i].entry.shared.auto_save = on;
                proof {
                    let x = self.slots@[i as int];
                    assert(self.slots@ == s.update(i as int, x));
                    lemma_live_of_update(s, i as int, x);
                    assert(self@.live == old(self)@.live.insert(h.id, x.entry));
                    let m = self@;
                    assert forall|a: u64, b: u64|
                        m.live.contains_key(a) && m.live.contains_key(b) && a != b
                            implies m.live[a].shared.path@ != m.live[b].shared.path@ by {
                        assert(old(self)@.live.contains_key(a) && old(self)@.live.contains_key(b));
                    }
                    assert forall|id: u64| m.live.contains_key(id) implies id < m.next_id && m.live[id].holders > 0 by {
                        assert(old(self)@.live.contains_key(id));
                    }
                    assert(m.live.dom() =~= old(self)@.live.dom());
                }
                true
            },
            None => false,
        }
    }
}

} // verus!
