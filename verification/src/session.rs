use vstd::prelude::*;
use vstd::hash_map::StringHashMap;
use crate::models::{IdentityView, OidcIdentity};
use crate::time::Timestamp;

verus! {

/// The registry of active sessions: each session handle leads to the
/// identity that the session belongs to.
pub struct SessionStore {
    sessions: StringHashMap<OidcIdentity>,
    handles: Vec<String>,
    last_cleanup: Timestamp,
}

/// What a sweep of the registry found: how many sessions it removed, and
/// the sessions that are left where they are to be stored durably.
pub struct Sweep {
    pub removed: usize,
    pub snapshot: Option<Vec<(String, OidcIdentity)>>,
}

/// The handles of a list, as plain strings.
pub open spec fn handle_keys(handles: Seq<String>) -> Seq<Seq<char>> {
    Seq::new(handles.len(), |i: int| handles[i]@)
}

/// The mapping that a list of sessions stands for: each handle leads to
/// the identity of its last entry.
pub open spec fn snapshot_map(entries: Seq<(String, OidcIdentity)>) -> Map<Seq<char>, IdentityView>
    decreases entries.len(),
{
    if entries.len() == 0 {
        Map::empty()
    } else {
        snapshot_map(entries.drop_last()).insert(entries.last().0@, entries.last().1@)
    }
}

/// The sessions of `sessions` that have not ended at the instant `now`.
pub open spec fn unexpired(sessions: Map<Seq<char>, IdentityView>, now: Timestamp) -> Map<
    Seq<char>,
    IdentityView,
> {
    Map::new(
        |k: Seq<char>| sessions.contains_key(k) && !sessions[k].expired_at(now),
        |k: Seq<char>| sessions[k],
    )
}

/// Whether `key` is among the first `upto` of `keys`, with an identity in
/// `sessions` that has not ended at the instant `now`.
spec fn survivor(
    keys: Seq<Seq<char>>,
    sessions: Map<Seq<char>, OidcIdentity>,
    now: Timestamp,
    upto: int,
    key: Seq<char>,
) -> bool {
    exists|j: int| 0 <= j < upto && #[trigger] keys[j] == key && !sessions[key]@.expired_at(now)
}

/// The registry after the sessions of `added` were filed one after the
/// other.
pub open spec fn after_adding(
    sessions: Map<Seq<char>, IdentityView>,
    added: Seq<(Seq<char>, IdentityView)>,
) -> Map<Seq<char>, IdentityView>
    decreases added.len(),
{
    if added.len() == 0 {
        sessions
    } else {
        after_adding(sessions, added.drop_last()).insert(added.last().0, added.last().1)
    }
}

/// Sessions that are filed under handles of their own are each found again
/// with the identity they were filed with, in whatever order they came.
pub proof fn lemma_adds_keep_apart(
    sessions: Map<Seq<char>, IdentityView>,
    added: Seq<(Seq<char>, IdentityView)>,
)
    requires
        forall|i: int, j: int| 0 <= i < j < added.len() ==> added[i].0 != added[j].0,
    ensures
        forall|i: int|
            0 <= i < added.len() ==> after_adding(sessions, added).contains_key(
                (#[trigger] added[i]).0,
            ) && after_adding(sessions, added)[added[i].0] == added[i].1,
    decreases added.len(),
{
    if added.len() > 0 {
        let earlier = added.drop_last();
        assert forall|i: int, j: int| 0 <= i < j < earlier.len() implies earlier[i].0
            != earlier[j].0 by {
            assert(earlier[i] == added[i] && earlier[j] == added[j]);
        }
        lemma_adds_keep_apart(sessions, earlier);
        assert forall|i: int| 0 <= i < added.len() implies after_adding(
            sessions,
            added,
        ).contains_key((#[trigger] added[i]).0) && after_adding(sessions, added)[added[i].0]
            == added[i].1 by {
            if i < added.len() - 1 {
                assert(earlier[i] == added[i]);
                assert(added[i].0 != added[added.len() - 1].0);
            }
        }
    }
}

/// A session under a handle that none of the added sessions bears stays as
/// it was.
pub proof fn lemma_adds_leave_others(
    sessions: Map<Seq<char>, IdentityView>,
    added: Seq<(Seq<char>, IdentityView)>,
    handle: Seq<char>,
)
    requires
        forall|i: int| 0 <= i < added.len() ==> (#[trigger] added[i]).0 != handle,
    ensures
        after_adding(sessions, added).contains_key(handle) <==> sessions.contains_key(handle),
        sessions.contains_key(handle) ==> after_adding(sessions, added)[handle] == sessions[handle],
    decreases added.len(),
{
    if added.len() > 0 {
        let earlier = added.drop_last();
        assert(added[added.len() - 1].0 != handle);
        assert forall|i: int| 0 <= i < earlier.len() implies (#[trigger] earlier[i]).0
            != handle by {
            assert(earlier[i] == added[i]);
        }
        lemma_adds_leave_others(sessions, earlier, handle);
    }
}

/// A list of distinct handles has as many members as the set of them.
proof fn lemma_handle_count(keys: Seq<Seq<char>>)
    requires
        keys.no_duplicates(),
    ensures
        keys.to_set().finite(),
        keys.to_set().len() == keys.len(),
{
    vstd::seq_lib::seq_to_set_is_finite(keys);
    keys.unique_seq_to_set();
}

impl SessionStore {
    /// The list of handles names each session once, and nothing else.
    pub closed spec fn well_formed(&self) -> bool {
        &&& handle_keys(self.handles@).no_duplicates()
        &&& handle_keys(self.handles@).to_set() =~= self.sessions@.dom()
    }

    /// The registry as a mapping from handle to identity.
    pub closed spec fn view(&self) -> Map<Seq<char>, IdentityView> {
        Map::new(|k: Seq<char>| self.sessions@.contains_key(k), |k: Seq<char>| self.sessions@[k]@)
    }

    /// The instant of the last sweep, or of the registry's creation.
    pub closed spec fn swept_at(&self) -> Timestamp {
        self.last_cleanup
    }

    /// A registry holds finitely many sessions.
    pub proof fn lemma_finite(&self)
        requires
            self.well_formed(),
        ensures
            self@.dom().finite(),
    {
        self.lemma_count();
    }

    /// A registry holds as many sessions as its list has handles.
    proof fn lemma_count(&self)
        requires
            self.well_formed(),
        ensures
            self@.dom().finite(),
            self@.len() == self.handles@.len(),
    {
        lemma_handle_count(handle_keys(self.handles@));
        assert(self@.dom() =~= self.sessions@.dom());
    }

    /// An empty registry, as of the instant `now`.
    pub fn new_at(now: Timestamp) -> (store: Self)
        ensures
            store.well_formed(),
            store@ == Map::<Seq<char>, IdentityView>::empty(),
            store.swept_at() == now,
    {
        let store = SessionStore {
            sessions: StringHashMap::new(),
            handles: Vec::new(),
            last_cleanup: now,
        };
        assert(handle_keys(store.handles@).to_set() =~= store.sessions@.dom());
        assert(store@ =~= Map::<Seq<char>, IdentityView>::empty());
        store
    }

    /// An empty registry, as of the present instant.
    pub fn new() -> (store: Self)
        ensures
            store.well_formed(),
            store@ == Map::<Seq<char>, IdentityView>::empty(),
            store.swept_at().is_clock_reading(),
    {
        SessionStore::new_at(Timestamp::now())
    }

    /// The instant of the last sweep, or of the registry's creation.
    pub fn last_cleanup(&self) -> (t: Timestamp)
        ensures
            t == self.swept_at(),
    {
        self.last_cleanup
    }

    /// The number of sessions.
    pub fn len(&self) -> (n: usize)
        requires
            self.well_formed(),
        ensures
            n == self@.len(),
    {
        proof {
            self.lemma_count();
        }
        self.handles.len()
    }

    /// Files `identity` under `session_id`, in place of what was there.
    pub fn add_session(&mut self, session_id: String, identity: OidcIdentity)
        requires
            old(self).well_formed(),
        ensures
            final(self).well_formed(),
            final(self)@ == old(self)@.insert(session_id@, identity@),
            final(self).swept_at() == old(self).swept_at(),
    {
        let ghost before = handle_keys(self.handles@);
        if !self.sessions.contains_key(session_id.as_str()) {
            self.handles.push(session_id.clone());
            proof {
                let after = handle_keys(self.handles@);
                assert(after =~= before.push(session_id@));
                assert(!before.to_set().contains(session_id@));
                assert(after.no_duplicates()) by {
                    assert forall|i: int, j: int|
                        0 <= i < after.len() && 0 <= j < after.len() && i != j implies after[i]
                        != after[j] by {
                        if i < before.len() {
                            assert(before.to_set().contains(before[i]));
                        }
                        if j < before.len() {
                            assert(before.to_set().contains(before[j]));
                        }
                    }
                }
                assert(after.to_set() =~= before.to_set().insert(session_id@)) by {
                    assert forall|k: Seq<char>| after.to_set().contains(k) implies before.to_set().insert(
                        session_id@,
                    ).contains(k) by {
                        let i = choose|i: int| 0 <= i < after.len() && after[i] == k;
                        if i < before.len() {
                            assert(before[i] == k);
                        }
                    }
                    assert forall|k: Seq<char>|
                        before.to_set().insert(session_id@).contains(k) implies after.to_set().contains(
                        k,
                    ) by {
                        if k == session_id@ {
                            assert(after[before.len() as int] == k);
                        } else {
                            let i = choose|i: int| 0 <= i < before.len() && before[i] == k;
                            assert(after[i] == k);
                        }
                    }
                }
            }
        } else {
            proof {
                assert(before.to_set().insert(session_id@) =~= before.to_set());
            }
        }
        self.sessions.insert(session_id, identity);
        assert(final(self)@ =~= old(self)@.insert(session_id@, identity@));
    }

    /// Removes every session whose identity has ended at the instant `now`,
    /// and returns how many there were.
    pub fn cleanup_expired(&mut self, now: Timestamp) -> (removed: usize)
        requires
            old(self).well_formed(),
        ensures
            final(self).well_formed(),
            final(self)@ == unexpired(old(self)@, now),
            removed == old(self)@.len() - final(self)@.len(),
            final(self).swept_at() == now,
    {
        proof {
            self.lemma_count();
        }
        let ghost before = self.sessions@;
        let mut handles: Vec<String> = Vec::new();
        core::mem::swap(&mut handles, &mut self.handles);
        let ghost keys = handle_keys(handles@);
        let mut kept: Vec<String> = Vec::new();
        let mut i: usize = 0;
        while i < handles.len()
            invariant
                i <= handles.len(),
                keys == handle_keys(handles@),
                keys.no_duplicates(),
                keys.to_set() =~= before.dom(),
                kept.len() <= i,
                handle_keys(kept@).no_duplicates(),
                forall|k: Seq<char>| #[trigger]
                    self.sessions@.contains_key(k) ==> before.contains_key(k) && self.sessions@[k]
                        == before[k],
                forall|j: int|
                    0 <= j < i ==> (self.sessions@.contains_key(#[trigger] keys[j])
                        <==> !before[keys[j]]@.expired_at(now)),
                forall|j: int| i <= j < keys.len() ==> self.sessions@.contains_key(#[trigger] keys[j]),
                forall|m: int|
                    0 <= m < kept.len() ==> survivor(
                        keys,
                        before,
                        now,
                        i as int,
                        #[trigger] handle_keys(kept@)[m],
                    ),
                forall|j: int|
                    0 <= j < i && !before[#[trigger] keys[j]]@.expired_at(now) ==> handle_keys(
                        kept@,
                    ).contains(keys[j]),
            decreases handles.len() - i,
        {
            let handle = &handles[i];
            assert(handle@ == keys[i as int]);
            assert(keys.to_set().contains(keys[i as int]));
            let ghost kept_before = handle_keys(kept@);
            let ghost held = self.sessions@;
            let expired = match self.sessions.get(handle.as_str()) {
                Some(identity) => identity.is_expired(&now),
                None => false,
            };
            if expired {
                self.sessions.remove(handle.as_str());
                proof {
                    assert forall|m: int| 0 <= m < kept_before.len() implies survivor(
                        keys,
                        before,
                        now,
                        i + 1,
                        #[trigger] kept_before[m],
                    ) by {
                        assert(survivor(keys, before, now, i as int, kept_before[m]));
                    }
                    assert forall|j: int| i < j < keys.len() implies self.sessions@.contains_key(
                        #[trigger] keys[j],
                    ) by {
                        assert(held.contains_key(keys[j]));
                    }
                    assert forall|j: int| 0 <= j < i implies (self.sessions@.contains_key(
                        #[trigger] keys[j],
                    ) <==> !before[keys[j]]@.expired_at(now)) by {
                        assert(held.contains_key(keys[j]) <==> !before[keys[j]]@.expired_at(now));
                    }
                }
            } else {
                kept.push(handle.clone());
                proof {
                    let kept_after = handle_keys(kept@);
                    assert(kept_after =~= kept_before.push(keys[i as int]));
                    assert forall|a: int, b: int|
                        0 <= a < kept_after.len() && 0 <= b < kept_after.len() && a
                            != b implies kept_after[a] != kept_after[b] by {
                        if a < kept_before.len() {
                            assert(survivor(keys, before, now, i as int, kept_before[a]));
                        }
                        if b < kept_before.len() {
                            assert(survivor(keys, before, now, i as int, kept_before[b]));
                        }
                    }
                    assert forall|m: int| 0 <= m < kept_after.len() implies survivor(
                        keys,
                        before,
                        now,
                        i + 1,
                        #[trigger] kept_after[m],
                    ) by {
                        if m < kept_before.len() {
                            assert(survivor(keys, before, now, i as int, kept_before[m]));
                        } else {
                            assert(keys[i as int] == kept_after[m]);
                        }
                    }
                    assert forall|j: int|
                        0 <= j < i + 1 && !before[#[trigger] keys[j]]@.expired_at(
                            now,
                        ) implies kept_after.contains(keys[j]) by {
                        if j < i {
                            let m = choose|m: int|
                                0 <= m < kept_before.len() && kept_before[m] == keys[j];
                            assert(kept_after[m] == keys[j]);
                        } else {
                            assert(kept_after[kept_before.len() as int] == keys[j]);
                        }
                    }
                }
            }
            i = i + 1;
        }
        let removed = handles.len() - kept.len();
        self.handles = kept;
        self.last_cleanup = now;
        proof {
            let kept_keys = handle_keys(self.handles@);
            assert(kept_keys.to_set() =~= self.sessions@.dom()) by {
                assert forall|k: Seq<char>| self.sessions@.contains_key(k) implies kept_keys.to_set().contains(
                    k,
                ) by {
                    assert(keys.to_set().contains(k));
                    let j = choose|j: int| 0 <= j < keys.len() && keys[j] == k;
                    assert(kept_keys.contains(keys[j]));
                }
                assert forall|k: Seq<char>| kept_keys.to_set().contains(k) implies self.sessions@.contains_key(
                    k,
                ) by {
                    let m = choose|m: int| 0 <= m < kept_keys.len() && kept_keys[m] == k;
                    assert(survivor(keys, before, now, keys.len() as int, kept_keys[m]));
                    let j = choose|j: int|
                        0 <= j < keys.len() && #[trigger] keys[j] == k && !before[k]@.expired_at(
                            now,
                        );
                    assert(self.sessions@.contains_key(keys[j]));
                }
            }
            assert(final(self)@ =~= unexpired(old(self)@, now)) by {
                assert forall|k: Seq<char>|
                    before.contains_key(k) && !before[k]@.expired_at(
                        now,
                    ) implies self.sessions@.contains_key(k) by {
                    assert(keys.to_set().contains(k));
                    let j = choose|j: int| 0 <= j < keys.len() && keys[j] == k;
                    assert(self.sessions@.contains_key(keys[j]));
                }
                assert forall|k: Seq<char>| self.sessions@.contains_key(k) implies !before[k]@.expired_at(
                    now,
                ) by {
                    assert(keys.to_set().contains(k));
                    let j = choose|j: int| 0 <= j < keys.len() && keys[j] == k;
                    assert(self.sessions@.contains_key(keys[j]));
                }
            }
            self.lemma_count();
        }
        removed
    }

    /// Sweeps the registry at the instant `now`. Where sessions were
    /// removed and a durable store is there, the sessions that are left
    /// are handed out to be stored.
    pub fn sweep(&mut self, now: Timestamp, durable: bool) -> (found: Sweep)
        requires
            old(self).well_formed(),
        ensures
            final(self).well_formed(),
            final(self)@ == unexpired(old(self)@, now),
            found.removed == old(self)@.len() - final(self)@.len(),
            final(self).swept_at() == now,
            found.snapshot is Some <==> found.removed > 0 && durable,
            found.snapshot matches Some(entries) ==> snapshot_map(entries@) == final(self)@,
    {
        let removed = self.cleanup_expired(now);
        let snapshot = if removed > 0 && durable {
            Some(self.get_all_sessions())
        } else {
            None
        };
        Sweep { removed, snapshot }
    }

    /// Every session of the registry, each handle once.
    pub fn get_all_sessions(&self) -> (entries: Vec<(String, OidcIdentity)>)
        requires
            self.well_formed(),
        ensures
            snapshot_map(entries@) == self@,
            entries@.len() == self@.len(),
    {
        proof {
            self.lemma_count();
        }
        let ghost keys = handle_keys(self.handles@);
        let mut entries: Vec<(String, OidcIdentity)> = Vec::new();
        let mut i: usize = 0;
        while i < self.handles.len()
            invariant
                i <= self.handles.len(),
                entries.len() == i,
                keys == handle_keys(self.handles@),
                keys.to_set() =~= self.sessions@.dom(),
                snapshot_map(entries@).dom() =~= keys.take(i as int).to_set(),
                forall|k: Seq<char>| #[trigger]
                    snapshot_map(entries@).contains_key(k) ==> snapshot_map(entries@)[k]
                        == self.sessions@[k]@,
            decreases self.handles.len() - i,
        {
            let handle = &self.handles[i];
            assert(handle@ == keys[i as int]);
            assert(keys.to_set().contains(keys[i as int]));
            let ghost listed = entries@;
            match self.sessions.get(handle.as_str()) {
                Some(identity) => {
                    entries.push((handle.clone(), identity.clone()));
                },
                None => {},
            }
            proof {
                assert(entries@.drop_last() =~= listed);
                assert(keys.take(i + 1) =~= keys.take(i as int).push(keys[i as int]));
                assert(keys.take(i + 1).to_set() =~= keys.take(i as int).to_set().insert(
                    keys[i as int],
                )) by {
                    let shorter = keys.take(i as int);
                    let longer = keys.take(i + 1);
                    assert forall|k: Seq<char>| longer.to_set().contains(k) implies shorter.to_set().insert(
                        keys[i as int],
                    ).contains(k) by {
                        let j = choose|j: int| 0 <= j < longer.len() && longer[j] == k;
                        if j < i {
                            assert(shorter[j] == k);
                        }
                    }
                    assert forall|k: Seq<char>|
                        shorter.to_set().insert(keys[i as int]).contains(
                            k,
                        ) implies longer.to_set().contains(k) by {
                        if k == keys[i as int] {
                            assert(longer[i as int] == k);
                        } else {
                            let j = choose|j: int| 0 <= j < shorter.len() && shorter[j] == k;
                            assert(longer[j] == k);
                        }
                    }
                }
            }
            i = i + 1;
        }
        proof {
            assert(keys.take(i as int) =~= keys);
            assert(snapshot_map(entries@) =~= self@);
        }
        entries
    }

    /// Replaces the sessions of the registry by those of `sessions`; where
    /// a handle occurs more than once there, its last entry counts.
    pub fn load_sessions_at(&mut self, sessions: Vec<(String, OidcIdentity)>, now: Timestamp)
        ensures
            final(self).well_formed(),
            final(self)@ == snapshot_map(sessions@),
            final(self).swept_at() == now,
    {
        let ghost full = snapshot_map(sessions@);
        let mut store = SessionStore::new_at(now);
        let mut rest = sessions;
        while rest.len() > 0
            invariant
                store.well_formed(),
                store.swept_at() == now,
                forall|k: Seq<char>|
                    full.contains_key(k) <==> store@.contains_key(k) || snapshot_map(
                        rest@,
                    ).contains_key(k),
                forall|k: Seq<char>| #[trigger]
                    store@.contains_key(k) ==> full.contains_key(k) && full[k] == store@[k],
                forall|k: Seq<char>|
                    snapshot_map(rest@).contains_key(k) && !store@.contains_key(k) ==> #[trigger] full[k]
                        == snapshot_map(rest@)[k],
            decreases rest.len(),
        {
            let ghost listed = rest@;
            let entry = rest.pop();
            assert(rest@ =~= listed.drop_last());
            match entry {
                Some((handle, identity)) => {
                    assert(snapshot_map(listed) == snapshot_map(rest@).insert(handle@, identity@));
                    if store.get_session(handle.as_str()).is_none() {
                        store.add_session(handle, identity);
                    }
                },
                None => {},
            }
        }
        *self = store;
        assert(final(self)@ =~= full);
    }

    /// Replaces the sessions of the registry by those of `sessions`, as of
    /// the present instant.
    pub fn load_sessions(&mut self, sessions: Vec<(String, OidcIdentity)>)
        ensures
            final(self).well_formed(),
            final(self)@ == snapshot_map(sessions@),
            final(self).swept_at().is_clock_reading(),
    {
        self.load_sessions_at(sessions, Timestamp::now());
    }

    /// The identity filed under `session_id`, if there is one.
    pub fn get_session(&self, session_id: &str) -> (found: Option<&OidcIdentity>)
        ensures
            match found {
                Some(identity) => self@.contains_key(session_id@) && identity@
                    == self@[session_id@],
                None => !self@.contains_key(session_id@),
            },
    {
        self.sessions.get(session_id)
    }
}

} // verus!
