//! The correlation store: one-time entries from a `state` token to the PKCE
//! verifier of the authorization request that issued it.
//!
//! An entry is written once and read once. Reading removes it, and an entry
//! whose time to live has passed reads exactly like one that was never there.

use vstd::prelude::*;
use crate::outside::text_eq;
use crate::text::text_of;

verus! {

/// One pending authorization request, keyed by `state`.
#[derive(Debug, Clone, PartialEq, Eq)]
pub struct CorrelationEntry {
    pub state: String,
    pub pkce_verifier: String,
    pub created_at: i64,
    pub ttl: u32,
}

/// What the store keeps under a `state`.
pub struct EntryView {
    pub pkce_verifier: Seq<char>,
    pub created_at: i64,
    pub ttl: u32,
}

impl View for CorrelationEntry {
    type V = EntryView;

    open spec fn view(&self) -> EntryView {
        EntryView {
            pkce_verifier: self.pkce_verifier@,
            created_at: self.created_at,
            ttl: self.ttl,
        }
    }
}

/// Why the store refused to record an entry.
#[derive(Debug, Clone, Copy, PartialEq, Eq, Structural)]
pub enum StoreError {
    /// A live entry already stands under that `state`; entries are never updated.
    Occupied,
    /// The store holds as many live entries as it was made for.
    Full,
}

/// An entry is live strictly before `created_at + ttl`.
pub open spec fn live(entry: EntryView, now: i64) -> bool {
    now < entry.created_at + entry.ttl
}

/// The entries of `m` that are live at `now`.
pub open spec fn live_part(m: Map<Seq<char>, EntryView>, now: i64) -> Map<Seq<char>, EntryView> {
    Map::new(|k: Seq<char>| m.dom().contains(k) && live(m[k], now), |k: Seq<char>| m[k])
}

/// What a read of `state` at `now` finds: the verifier of a live entry, or nothing.
pub open spec fn lookup(m: Map<Seq<char>, EntryView>, state: Seq<char>, now: i64) -> Option<
    Seq<char>,
> {
    if m.dom().contains(state) && live(m[state], now) {
        Some(m[state].pkce_verifier)
    } else {
        None
    }
}

/// Whether a write of `state` at `now` is accepted by a store that holds `m`.
pub open spec fn put_outcome(m: Map<Seq<char>, EntryView>, capacity: nat, state: Seq<char>, now: i64)
    -> Result<(), StoreError> {
    let kept = live_part(m, now);
    if kept.dom().contains(state) {
        Err(StoreError::Occupied)
    } else if kept.dom().len() >= capacity {
        Err(StoreError::Full)
    } else {
        Ok(())
    }
}

/// What a store that held `m` holds after a write of `state` at `now`.
pub open spec fn put_result(
    m: Map<Seq<char>, EntryView>,
    capacity: nat,
    state: Seq<char>,
    pkce_verifier: Seq<char>,
    now: i64,
    ttl: u32,
) -> Map<Seq<char>, EntryView> {
    let kept = live_part(m, now);
    if put_outcome(m, capacity, state, now) is Ok {
        kept.insert(state, EntryView { pkce_verifier, created_at: now, ttl })
    } else {
        kept
    }
}

spec fn distinct_states(s: Seq<CorrelationEntry>) -> bool {
    forall|i: int, j: int| 0 <= i < j < s.len() ==> s[i].state@ != s[j].state@
}

spec fn holds_state(s: Seq<CorrelationEntry>, k: Seq<char>) -> bool {
    exists|i: int| 0 <= i < s.len() && #[trigger] s[i].state@ == k
}

spec fn index_of_state(s: Seq<CorrelationEntry>, k: Seq<char>) -> int {
    choose|i: int| 0 <= i < s.len() && #[trigger] s[i].state@ == k
}

spec fn entries_map(s: Seq<CorrelationEntry>) -> Map<Seq<char>, EntryView> {
    Map::new(|k: Seq<char>| holds_state(s, k), |k: Seq<char>| s[index_of_state(s, k)]@)
}

proof fn lemma_entry_at(s: Seq<CorrelationEntry>, i: int)
    requires
        distinct_states(s),
        0 <= i < s.len(),
    ensures
        entries_map(s).dom().contains(s[i].state@),
        entries_map(s)[s[i].state@] == s[i]@,
        index_of_state(s, s[i].state@) == i,
{
    let k = s[i].state@;
    assert(holds_state(s, k));
    let j = index_of_state(s, k);
    assert(0 <= j < s.len() && s[j].state@ == k);
    if j < i {
        assert(s[j].state@ != s[i].state@);
    } else if i < j {
        assert(s[i].state@ != s[j].state@);
    }
}

proof fn lemma_push(s: Seq<CorrelationEntry>, e: CorrelationEntry)
    requires
        distinct_states(s),
        !holds_state(s, e.state@),
    ensures
        distinct_states(s.push(e)),
        entries_map(s.push(e)) == entries_map(s).insert(e.state@, e@),
{
    let t = s.push(e);
    assert forall|i: int, j: int| 0 <= i < j < t.len() implies t[i].state@ != t[j].state@ by {
        if j == s.len() {
            assert(t[i] == s[i]);
            if s[i].state@ == e.state@ {
                assert(holds_state(s, e.state@));
            }
        } else {
            assert(t[i] == s[i] && t[j] == s[j]);
        }
    }
    let a = entries_map(t);
    let b = entries_map(s).insert(e.state@, e@);
    assert forall|k: Seq<char>| a.dom().contains(k) <==> b.dom().contains(k) by {
        if holds_state(t, k) {
            let i = index_of_state(t, k);
            if i < s.len() {
                assert(s[i].state@ == k);
            }
        }
        if holds_state(s, k) {
            let i = index_of_state(s, k);
            assert(t[i].state@ == k);
        }
        if k == e.state@ {
            assert(t[s.len() as int].state@ == k);
        }
    }
    assert forall|k: Seq<char>| a.dom().contains(k) implies a[k] == b[k] by {
        let i = index_of_state(t, k);
        lemma_entry_at(t, i);
        if i < s.len() {
            assert(t[i] == s[i]);
            lemma_entry_at(s, i);
        }
    }
    assert(a =~= b);
}

proof fn lemma_remove(s: Seq<CorrelationEntry>, i: int)
    requires
        distinct_states(s),
        0 <= i < s.len(),
    ensures
        distinct_states(s.remove(i)),
        entries_map(s.remove(i)) == entries_map(s).remove(s[i].state@),
{
    let t = s.remove(i);
    assert forall|a: int, b: int| 0 <= a < b < t.len() implies t[a].state@ != t[b].state@ by {
        let a0 = if a < i { a } else { a + 1 };
        let b0 = if b < i { b } else { b + 1 };
        assert(t[a] == s[a0] && t[b] == s[b0]);
    }
    let x = entries_map(t);
    let y = entries_map(s).remove(s[i].state@);
    assert forall|k: Seq<char>| x.dom().contains(k) <==> y.dom().contains(k) by {
        if holds_state(t, k) {
            let a = index_of_state(t, k);
            let a0 = if a < i { a } else { a + 1 };
            assert(t[a] == s[a0]);
            assert(s[a0].state@ == k);
            if k == s[i].state@ {
                lemma_entry_at(s, a0);
                lemma_entry_at(s, i);
            }
        }
        if holds_state(s, k) && k != s[i].state@ {
            let a0 = index_of_state(s, k);
            let a = if a0 < i { a0 } else { a0 - 1 };
            assert(t[a] == s[a0]);
            assert(t[a].state@ == k);
        }
    }
    assert forall|k: Seq<char>| x.dom().contains(k) implies x[k] == y[k] by {
        let a = index_of_state(t, k);
        let a0 = if a < i { a } else { a + 1 };
        assert(t[a] == s[a0]);
        lemma_entry_at(t, a);
        lemma_entry_at(s, a0);
    }
    assert(x =~= y);
}

proof fn lemma_count(s: Seq<CorrelationEntry>)
    requires
        distinct_states(s),
    ensures
        entries_map(s).dom().finite(),
        entries_map(s).dom().len() == s.len(),
    decreases s.len(),
{
    if s.len() == 0 {
        assert(entries_map(s).dom() =~= Set::<Seq<char>>::empty());
    } else {
        let t = s.drop_last();
        let e = s.last();
        assert(s == t.push(e));
        assert forall|i: int, j: int| 0 <= i < j < t.len() implies t[i].state@ != t[j].state@ by {
            assert(t[i] == s[i] && t[j] == s[j]);
        }
        if holds_state(t, e.state@) {
            let i = index_of_state(t, e.state@);
            assert(t[i] == s[i]);
            assert(s[i].state@ != s[s.len() - 1].state@);
        }
        lemma_count(t);
        lemma_push(t, e);
        assert(entries_map(s).dom() =~= entries_map(t).dom().insert(e.state@));
    }
}

proof fn lemma_increasing_bound(origin: Seq<int>, bound: int)
    requires
        0 <= bound,
        forall|j: int| 0 <= j < origin.len() ==> 0 <= #[trigger] origin[j] < bound,
        forall|j: int, k: int| 0 <= j < k < origin.len() ==> origin[j] < origin[k],
    ensures
        origin.len() <= bound,
    decreases origin.len(),
{
    if origin.len() > 0 {
        let rest = origin.drop_last();
        assert(0 <= origin[origin.len() - 1] < bound);
        assert forall|j: int| 0 <= j < rest.len() implies 0 <= #[trigger] rest[j] < origin.last() by {
            assert(rest[j] == origin[j]);
            assert(origin[j] < origin[origin.len() - 1]);
        }
        assert forall|j: int, k: int| 0 <= j < k < rest.len() implies rest[j] < rest[k] by {
            assert(rest[j] == origin[j] && rest[k] == origin[k]);
        }
        lemma_increasing_bound(rest, origin.last());
    }
}

fn is_live(entry: &CorrelationEntry, now: i64) -> (yes: bool)
    ensures
        yes == live(entry@, now),
{
    (now as i128) < (entry.created_at as i128) + (entry.ttl as i128)
}

/// An in-memory correlation store for at most `capacity` pending requests.
pub struct CorrelationStore {
    entries: Vec<CorrelationEntry>,
    capacity: usize,
}

impl View for CorrelationStore {
    type V = Map<Seq<char>, EntryView>;

    closed spec fn view(&self) -> Map<Seq<char>, EntryView> {
        entries_map(self.entries@)
    }
}

impl CorrelationStore {
    #[verifier::type_invariant]
    spec fn well_formed(self) -> bool {
        &&& distinct_states(self.entries@)
        &&& self.entries@.len() <= self.capacity
    }

    /// The number of entries the store was made for.
    pub closed spec fn spec_capacity(&self) -> nat {
        self.capacity as nat
    }

    /// An empty store for at most `capacity` entries.
    pub fn new(capacity: usize) -> (store: CorrelationStore)
        ensures
            store@ == Map::<Seq<char>, EntryView>::empty(),
            store.spec_capacity() == capacity,
    {
        let store = CorrelationStore { entries: Vec::new(), capacity };
        assert(store@ =~= Map::<Seq<char>, EntryView>::empty());
        store
    }

    /// The number of entries the store was made for.
    pub fn capacity(&self) -> (capacity: usize)
        ensures
            capacity == self.spec_capacity(),
    {
        self.capacity
    }

    /// The number of entries held, expired ones that were not yet dropped included.
    pub fn len(&self) -> (n: usize)
        ensures
            self@.dom().finite(),
            n == self@.dom().len(),
            n <= self.spec_capacity(),
    {
        proof {
            use_type_invariant(self);
            lemma_count(self.entries@);
        }
        self.entries.len()
    }

    fn position(&self, state: &str) -> (found: Option<usize>)
        ensures
            match found {
                Some(i) => i < self.entries@.len() && self.entries@[i as int].state@ == state@,
                None => !holds_state(self.entries@, state@),
            },
    {
        let mut i: usize = 0;
        while i < self.entries.len()
            invariant
                i <= self.entries@.len(),
                forall|j: int| 0 <= j < i ==> self.entries@[j].state@ != state@,
            decreases self.entries@.len() - i,
        {
            if text_eq(self.entries[i].state.as_str(), state) {
                return Some(i);
            }
            i += 1;
        }
        None
    }

    /// Whether a read of `state` at `now` would find an entry.
    pub fn contains(&self, state: &str, now: i64) -> (found: bool)
        ensures
            found == (lookup(self@, state@, now) is Some),
    {
        proof {
            use_type_invariant(self);
        }
        match self.position(state) {
            Some(i) => {
                proof {
                    lemma_entry_at(self.entries@, i as int);
                }
                is_live(&self.entries[i], now)
            },
            None => false,
        }
    }

    /// Drops every entry that is no longer live at `now`.
    pub fn purge(&mut self, now: i64)
        ensures
            final(self)@ == live_part(old(self)@, now),
            final(self).spec_capacity() == old(self).spec_capacity(),
    {
        proof {
            use_type_invariant(&*self);
        }
        let mut kept: Vec<CorrelationEntry> = Vec::new();
        let ghost mut origin: Seq<int> = Seq::empty();
        let mut i: usize = 0;
        while i < self.entries.len()
            invariant
                i <= self.entries@.len(),
                distinct_states(self.entries@),
                origin.len() == kept@.len(),
                forall|j: int|
                    0 <= j < origin.len() ==> 0 <= #[trigger] origin[j] < i && kept@[j].state@
                        == self.entries@[origin[j]].state@ && kept@[j]@
                        == self.entries@[origin[j]]@ && live(self.entries@[origin[j]]@, now),
                forall|j: int, k: int| 0 <= j < k < origin.len() ==> origin[j] < origin[k],
                forall|a: int|
                    0 <= a < i && live(#[trigger] self.entries@[a]@, now) ==> exists|j: int|
                        0 <= j < origin.len() && origin[j] == a,
            decreases self.entries@.len() - i,
        {
            if is_live(&self.entries[i], now) {
                let entry = &self.entries[i];
                let copy = CorrelationEntry {
                    state: entry.state.clone(),
                    pkce_verifier: entry.pkce_verifier.clone(),
                    created_at: entry.created_at,
                    ttl: entry.ttl,
                };
                kept.push(copy);
                proof {
                    let ghost before = origin;
                    origin = origin.push(i as int);
                    assert forall|a: int|
                        0 <= a < i + 1 && live(
                            #[trigger] self.entries@[a]@,
                            now,
                        ) implies exists|j: int| 0 <= j < origin.len() && origin[j] == a by {
                        if a < i {
                            let j = choose|j: int| 0 <= j < before.len() && before[j] == a;
                            assert(origin[j] == a);
                        } else {
                            assert(origin[before.len() as int] == a);
                        }
                    }
                }
            }
            i += 1;
        }
        proof {
            let old_s = self.entries@;
            let new_s = kept@;
            assert forall|j: int, k: int| 0 <= j < k < new_s.len() implies new_s[j].state@
                != new_s[k].state@ by {
                assert(origin[j] < origin[k]);
            }
            let x = entries_map(new_s);
            let y = live_part(entries_map(old_s), now);
            assert forall|k: Seq<char>| x.dom().contains(k) <==> y.dom().contains(k) by {
                if holds_state(new_s, k) {
                    let j = index_of_state(new_s, k);
                    lemma_entry_at(old_s, origin[j]);
                }
                if holds_state(old_s, k) && live(entries_map(old_s)[k], now) {
                    let a = index_of_state(old_s, k);
                    lemma_entry_at(old_s, a);
                    let j = choose|j: int| 0 <= j < origin.len() && origin[j] == a;
                    assert(new_s[j].state@ == k);
                }
            }
            assert forall|k: Seq<char>| x.dom().contains(k) implies x[k] == y[k] by {
                let j = index_of_state(new_s, k);
                lemma_entry_at(new_s, j);
                lemma_entry_at(old_s, origin[j]);
            }
            assert(x =~= y);
            assert(new_s.len() <= old_s.len()) by {
                lemma_increasing_bound(origin, old_s.len() as int);
            }
        }
        self.entries = kept;
    }

    /// Records `state -> pkce_verifier`, live from `now` for `ttl` seconds.
    ///
    /// Entries that have expired by `now` are dropped first, whatever the
    /// outcome. The write is refused, and nothing else changes, when a live
    /// entry stands under `state` or the store is full.
    pub fn put(&mut self, state: String, pkce_verifier: String, now: i64, ttl: u32) -> (done:
        Result<(), StoreError>)
        ensures
            final(self).spec_capacity() == old(self).spec_capacity(),
            live_part(old(self)@, now).dom().finite(),
            done == put_outcome(old(self)@, old(self).spec_capacity(), state@, now),
            final(self)@ == put_result(
                old(self)@,
                old(self).spec_capacity(),
                state@,
                pkce_verifier@,
                now,
                ttl,
            ),
    {
        self.purge(now);
        proof {
            use_type_invariant(&*self);
            lemma_count(self.entries@);
        }
        match self.position(state.as_str()) {
            Some(i) => {
                proof {
                    lemma_entry_at(self.entries@, i as int);
                }
                Err(StoreError::Occupied)
            },
            None => {
                if self.entries.len() >= self.capacity {
                    Err(StoreError::Full)
                } else {
                    let entry = CorrelationEntry { state, pkce_verifier, created_at: now, ttl };
                    proof {
                        lemma_push(self.entries@, entry);
                    }
                    let mut entries: Vec<CorrelationEntry> = Vec::new();
                    core::mem::swap(&mut self.entries, &mut entries);
                    entries.push(entry);
                    self.entries = entries;
                    Ok(())
                }
            },
        }
    }

    /// Reads and removes the entry under `state`.
    ///
    /// The verifier comes back only from an entry that is live at `now`; in
    /// every case nothing stands under `state` afterwards, and no other entry
    /// is touched.
    pub fn take_once(&mut self, state: &str, now: i64) -> (taken: Option<String>)
        ensures
            text_of(taken) == lookup(old(self)@, state@, now),
            final(self)@ == old(self)@.remove(state@),
            final(self).spec_capacity() == old(self).spec_capacity(),
    {
        proof {
            use_type_invariant(&*self);
        }
        match self.position(state) {
            Some(i) => {
                proof {
                    lemma_entry_at(self.entries@, i as int);
                    lemma_remove(self.entries@, i as int);
                }
                let mut entries: Vec<CorrelationEntry> = Vec::new();
                core::mem::swap(&mut self.entries, &mut entries);
                let entry = entries.remove(i);
                self.entries = entries;
                if is_live(&entry, now) {
                    Some(entry.pkce_verifier)
                } else {
                    None
                }
            },
            None => {
                assert(self@.remove(state@) =~= self@);
                None
            },
        }
    }
}

/// A state is good for one read: once it was read, at whatever time and with
/// whatever result, every later read of it finds nothing.
pub proof fn law_take_once_consumes(
    entries: Map<Seq<char>, EntryView>,
    state: Seq<char>,
    later: i64,
)
    ensures
        lookup(entries.remove(state), state, later) is None,
{
}

/// A read touches no entry but the one it asks for.
pub proof fn law_take_once_spares_others(
    entries: Map<Seq<char>, EntryView>,
    state: Seq<char>,
    other: Seq<char>,
    now: i64,
)
    requires
        other != state,
    ensures
        lookup(entries.remove(state), other, now) == lookup(entries, other, now),
{
}

/// An entry that the store accepted is read back with its verifier until its
/// time to live has passed, and reads as nothing from then on.
pub proof fn law_put_then_read(
    entries: Map<Seq<char>, EntryView>,
    capacity: nat,
    state: Seq<char>,
    pkce_verifier: Seq<char>,
    now: i64,
    ttl: u32,
    at: i64,
)
    requires
        put_outcome(entries, capacity, state, now) is Ok,
    ensures
        lookup(put_result(entries, capacity, state, pkce_verifier, now, ttl), state, at) == (if at
            < now + ttl {
            Some(pkce_verifier)
        } else {
            None
        }),
{
}

/// An expired entry reads exactly like one that was deleted.
pub proof fn law_expired_reads_as_deleted(
    entries: Map<Seq<char>, EntryView>,
    state: Seq<char>,
    now: i64,
)
    requires
        entries.dom().contains(state),
        !live(entries[state], now),
    ensures
        lookup(entries, state, now) == lookup(entries.remove(state), state, now),
{
}

/// Dropping the expired entries changes no read at that time or later.
pub proof fn law_purge_keeps_reads(
    entries: Map<Seq<char>, EntryView>,
    state: Seq<char>,
    now: i64,
    at: i64,
)
    requires
        now <= at,
    ensures
        lookup(live_part(entries, now), state, at) == lookup(entries, state, at),
{
}

} // verus!
