//! The sessions established by key exchange, looked up by session id.
use vstd::prelude::*;
use vstd::slice::slice_to_vec;

verus! {

/// What the server keeps of one session. The keys are held as bytes: the
/// client's and the server's public keys in uncompressed SEC1 form, the
/// server's secret key as its 32-byte scalar.
#[derive(Debug)]
pub struct SessionInfo {
    pub session_id: String,
    pub client_public_key: Vec<u8>,
    pub server_secret_key: Vec<u8>,
    pub server_public_key: Vec<u8>,
    pub shared_secret: Vec<u8>,
    pub aes_key: [u8; 32],
}

/// The contents of a `SessionInfo`.
pub struct SessionRecord {
    pub session_id: Seq<char>,
    pub client_public_key: Seq<u8>,
    pub server_secret_key: Seq<u8>,
    pub server_public_key: Seq<u8>,
    pub shared_secret: Seq<u8>,
    pub aes_key: Seq<u8>,
}

impl View for SessionInfo {
    type V = SessionRecord;

    open spec fn view(&self) -> SessionRecord {
        SessionRecord {
            session_id: self.session_id@,
            client_public_key: self.client_public_key@,
            server_secret_key: self.server_secret_key@,
            server_public_key: self.server_public_key@,
            shared_secret: self.shared_secret@,
            aes_key: self.aes_key@,
        }
    }
}

impl SessionInfo {
    /// A copy of this session.
    pub fn duplicate(&self) -> (res: SessionInfo)
        ensures
            res@ == self@,
    {
        SessionInfo {
            session_id: self.session_id.clone(),
            client_public_key: slice_to_vec(self.client_public_key.as_slice()),
            server_secret_key: slice_to_vec(self.server_secret_key.as_slice()),
            server_public_key: slice_to_vec(self.server_public_key.as_slice()),
            shared_secret: slice_to_vec(self.shared_secret.as_slice()),
            aes_key: self.aes_key,
        }
    }
}

/// The session store: pairs of a session id and its session, each id at most once.
#[derive(Debug)]
pub struct SessionStore {
    entries: Vec<(String, SessionInfo)>,
}

/// The ids held by `entries`, in order.
pub open spec fn key_at(entries: Seq<(String, SessionInfo)>, i: int) -> Seq<char> {
    entries[i].0@
}

/// `entries` holds `key` at position `i`.
pub open spec fn holds_key_at(entries: Seq<(String, SessionInfo)>, key: Seq<char>, i: int) -> bool {
    0 <= i < entries.len() && key_at(entries, i) == key
}

/// No id occurs twice in `entries`.
pub open spec fn unique_keys(entries: Seq<(String, SessionInfo)>) -> bool {
    forall|i: int, j: int|
        0 <= i < j < entries.len() ==> #[trigger] key_at(entries, i) != #[trigger] key_at(
            entries,
            j,
        )
}

/// The position of `key` in `entries` (meaningful when it occurs).
pub open spec fn position_of_key(entries: Seq<(String, SessionInfo)>, key: Seq<char>) -> int {
    choose|i: int| holds_key_at(entries, key, i)
}

/// The sessions of `entries` as a map from session id to session.
pub open spec fn sessions_of(entries: Seq<(String, SessionInfo)>) -> Map<Seq<char>, SessionRecord> {
    Map::new(
        |key: Seq<char>| exists|i: int| holds_key_at(entries, key, i),
        |key: Seq<char>| entries[position_of_key(entries, key)].1@,
    )
}

impl View for SessionStore {
    type V = Map<Seq<char>, SessionRecord>;

    closed spec fn view(&self) -> Map<Seq<char>, SessionRecord> {
        sessions_of(self.entries@)
    }
}

impl SessionStore {
    /// Each session id occurs once.
    #[verifier::type_invariant]
    spec fn wf(self) -> bool {
        unique_keys(self.entries@)
    }
}

proof fn lemma_position_unique(entries: Seq<(String, SessionInfo)>, key: Seq<char>, i: int)
    requires
        unique_keys(entries),
        holds_key_at(entries, key, i),
    ensures
        position_of_key(entries, key) == i,
{
    let p = position_of_key(entries, key);
    assert(holds_key_at(entries, key, p));
    if p < i {
        assert(key_at(entries, p) != key_at(entries, i));
    } else if i < p {
        assert(key_at(entries, i) != key_at(entries, p));
    }
}

/// A session read back after it was stored is the session stored, and
/// storing it leaves the other sessions as they were.
pub proof fn law_read_after_add(
    sessions: Map<Seq<char>, SessionRecord>,
    session_id: Seq<char>,
    info: SessionRecord,
    other: Seq<char>,
)
    ensures
        sessions.insert(session_id, info).contains_key(session_id),
        sessions.insert(session_id, info)[session_id] == info,
        other != session_id ==> (sessions.insert(session_id, info).contains_key(other)
            == sessions.contains_key(other) && (sessions.contains_key(other) ==> sessions.insert(
            session_id,
            info,
        )[other] == sessions[other])),
{
}

/// A session that was popped is not found any more, and popping it leaves
/// the other sessions as they were.
pub proof fn law_pop_forgets(
    sessions: Map<Seq<char>, SessionRecord>,
    session_id: Seq<char>,
    other: Seq<char>,
)
    ensures
        !sessions.remove(session_id).contains_key(session_id),
        other != session_id ==> (sessions.remove(session_id).contains_key(other)
            == sessions.contains_key(other) && (sessions.contains_key(other) ==> sessions.remove(
            session_id,
        )[other] == sessions[other])),
{
}

/// One change to the sessions: `add_session` under an id, or `pop_session` of an id.
pub enum StoreStep {
    Add(Seq<char>, SessionRecord),
    Pop(Seq<char>),
}

/// The sessions after one step, as `add_session` and `pop_session` state it.
pub open spec fn apply_step(sessions: Map<Seq<char>, SessionRecord>, step: StoreStep) -> Map<
    Seq<char>,
    SessionRecord,
> {
    match step {
        StoreStep::Add(id, info) => sessions.insert(id, info),
        StoreStep::Pop(id) => sessions.remove(id),
    }
}

/// The sessions after the steps, taken in order.
pub open spec fn apply_steps(sessions: Map<Seq<char>, SessionRecord>, steps: Seq<StoreStep>) -> Map<
    Seq<char>,
    SessionRecord,
>
    decreases steps.len(),
{
    if steps.len() == 0 {
        sessions
    } else {
        apply_step(apply_steps(sessions, steps.drop_last()), steps.last())
    }
}

/// The step stores or forgets under `id`.
pub open spec fn step_touches(step: StoreStep, id: Seq<char>) -> bool {
    match step {
        StoreStep::Add(k, _) => k == id,
        StoreStep::Pop(k) => k == id,
    }
}

/// A stored session stays readable, unchanged, through any sequence of
/// stores and pops under other ids.
pub proof fn law_session_survives_other_steps(
    sessions: Map<Seq<char>, SessionRecord>,
    session_id: Seq<char>,
    info: SessionRecord,
    steps: Seq<StoreStep>,
)
    requires
        forall|i: int| 0 <= i < steps.len() ==> !step_touches(#[trigger] steps[i], session_id),
    ensures
        apply_steps(sessions.insert(session_id, info), steps).contains_key(session_id),
        apply_steps(sessions.insert(session_id, info), steps)[session_id] == info,
    decreases steps.len(),
{
    if steps.len() > 0 {
        let rest = steps.drop_last();
        assert forall|i: int| 0 <= i < rest.len() implies !step_touches(
            #[trigger] rest[i],
            session_id,
        ) by {
            assert(rest[i] == steps[i]);
        }
        law_session_survives_other_steps(sessions, session_id, info, rest);
        assert(!step_touches(steps[steps.len() - 1], session_id));
    }
}

/// An empty store.
pub fn new_store() -> (res: SessionStore)
    ensures
        res@ == Map::<Seq<char>, SessionRecord>::empty(),
{
    let res = SessionStore { entries: Vec::new() };
    assert(res@ =~= Map::<Seq<char>, SessionRecord>::empty());
    res
}

/// The ids held by `entries`, in order.
pub open spec fn keys_of(entries: Seq<(String, SessionInfo)>) -> Seq<Seq<char>> {
    Seq::new(entries.len(), |i: int| key_at(entries, i))
}

proof fn lemma_ids_are_keys(entries: Seq<(String, SessionInfo)>)
    requires
        unique_keys(entries),
    ensures
        sessions_of(entries).dom() == keys_of(entries).to_set(),
        sessions_of(entries).dom().finite(),
        sessions_of(entries).dom().len() == entries.len(),
{
    let ks = keys_of(entries);
    assert forall|k: Seq<char>| #[trigger] sessions_of(entries).dom().contains(k) == ks.to_set().contains(
        k,
    ) by {
        if sessions_of(entries).dom().contains(k) {
            let p = choose|p: int| holds_key_at(entries, k, p);
            assert(ks[p] == k);
        }
        if ks.to_set().contains(k) {
            let p = choose|p: int| 0 <= p < ks.len() && ks[p] == k;
            assert(holds_key_at(entries, k, p));
        }
    }
    assert(sessions_of(entries).dom() =~= ks.to_set());
    assert(ks.no_duplicates()) by {
        assert forall|i: int, j: int| 0 <= i < ks.len() && 0 <= j < ks.len() && i != j implies ks[i]
            != ks[j] by {
            if i < j {
                assert(key_at(entries, i) != key_at(entries, j));
            } else {
                assert(key_at(entries, j) != key_at(entries, i));
            }
        }
    }
    ks.unique_seq_to_set();
    vstd::seq_lib::seq_to_set_is_finite(ks);
}

/// The number of sessions stored.
pub fn session_count(store: &SessionStore) -> (res: usize)
    ensures
        store@.dom().finite(),
        res == store@.len(),
{
    proof {
        use_type_invariant(store);
        lemma_ids_are_keys(store.entries@);
    }
    store.entries.len()
}

/// Position of `session_id` in the store, if it is there.
fn find_session(store: &SessionStore, session_id: &str) -> (res: Option<usize>)
    ensures
        match res {
            Some(i) => holds_key_at(store.entries@, session_id@, i as int),
            None => !store@.contains_key(session_id@),
        },
{
    let key = session_id.to_owned();
    let mut i: usize = 0;
    while i < store.entries.len()
        invariant
            key@ == session_id@,
            i <= store.entries@.len(),
            forall|j: int| 0 <= j < i ==> #[trigger] key_at(store.entries@, j) != session_id@,
        decreases store.entries@.len() - i,
    {
        if store.entries[i].0 == key {
            return Some(i);
        }
        i = i + 1;
    }
    None
}

/// Putting `key` with `value` at `pos` in `old`, over the entry that holds
/// `key` or after the last entry when none does, gives `new`: its ids stay
/// unique and it maps `key` to `value`, every other id as before.
proof fn lemma_put_entry(
    old: Seq<(String, SessionInfo)>,
    new: Seq<(String, SessionInfo)>,
    key: Seq<char>,
    value: SessionRecord,
    pos: int,
)
    requires
        unique_keys(old),
        0 <= pos <= old.len(),
        pos < old.len() ==> holds_key_at(old, key, pos) && new.len() == old.len(),
        pos == old.len() ==> !sessions_of(old).contains_key(key) && new.len() == old.len() + 1,
        key_at(new, pos) == key,
        new[pos].1@ == value,
        forall|j: int| 0 <= j < old.len() && j != pos ==> #[trigger] new[j] == old[j],
    ensures
        unique_keys(new),
        sessions_of(new) == sessions_of(old).insert(key, value),
{
    assert forall|a: int, b: int| 0 <= a < b < new.len() implies #[trigger] key_at(new, a)
        != #[trigger] key_at(new, b) by {
        if a != pos {
            assert(new[a] == old[a]);
            assert(key_at(new, a) == key_at(old, a));
        }
        if b != pos {
            assert(new[b] == old[b]);
            assert(key_at(new, b) == key_at(old, b));
        }
        if a == pos {
            assert(key_at(old, a) != key_at(old, b));
        } else if b == pos {
            if pos < old.len() {
                assert(key_at(old, a) != key_at(old, b));
            } else if key_at(old, a) == key {
                assert(holds_key_at(old, key, a));
                assert(sessions_of(old).contains_key(key));
            }
        } else {
            assert(key_at(old, a) != key_at(old, b));
        }
    }
    let target = sessions_of(old).insert(key, value);
    assert forall|k: Seq<char>| #[trigger] sessions_of(new).contains_key(k) == target.contains_key(
        k,
    ) by {
        if target.contains_key(k) {
            if k != key {
                let p = choose|p: int| holds_key_at(old, k, p);
                assert(new[p] == old[p]);
                assert(holds_key_at(new, k, p));
            } else {
                assert(holds_key_at(new, k, pos));
            }
        }
        if sessions_of(new).contains_key(k) {
            let p = choose|p: int| holds_key_at(new, k, p);
            if p != pos {
                assert(new[p] == old[p]);
                assert(holds_key_at(old, k, p));
            }
        }
    }
    assert forall|k: Seq<char>| #[trigger] sessions_of(new).contains_key(k) implies sessions_of(
        new,
    )[k] == target[k] by {
        let p = choose|p: int| holds_key_at(new, k, p);
        lemma_position_unique(new, k, p);
        if p != pos {
            assert(new[p] == old[p]);
            assert(holds_key_at(old, k, p));
            lemma_position_unique(old, k, p);
        }
    }
    assert(sessions_of(new) =~= target);
}

/// Stores `info` under `session_id`, replacing what was stored there.
pub fn add_session(store: &mut SessionStore, session_id: &str, info: SessionInfo)
    ensures
        final(store)@ == old(store)@.insert(session_id@, info@),
{
    proof {
        use_type_invariant(&*store);
    }
    let ghost value = info@;
    let found = find_session(store, session_id);
    let mut entries = Vec::new();
    std::mem::swap(&mut entries, &mut store.entries);
    let ghost old_entries = entries@;
    match found {
        Some(i) => {
            entries.set(i, (session_id.to_owned(), info));
            proof {
                lemma_put_entry(old_entries, entries@, session_id@, value, i as int);
            }
        },
        None => {
            entries.push((session_id.to_owned(), info));
            proof {
                lemma_put_entry(
                    old_entries,
                    entries@,
                    session_id@,
                    value,
                    old_entries.len() as int,
                );
            }
        },
    }
    store.entries = entries;
}

/// Removing the entry at `pos` of `old` gives `new`: its ids stay unique and
/// it maps every id but the removed one as before.
proof fn lemma_remove_entry(old: Seq<(String, SessionInfo)>, new: Seq<(String, SessionInfo)>, pos: int)
    requires
        unique_keys(old),
        0 <= pos < old.len(),
        new == old.remove(pos),
    ensures
        unique_keys(new),
        sessions_of(new) == sessions_of(old).remove(key_at(old, pos)),
{
    let key = key_at(old, pos);
    assert forall|a: int, b: int| 0 <= a < b < new.len() implies #[trigger] key_at(new, a)
        != #[trigger] key_at(new, b) by {
        let a0 = if a < pos { a } else { a + 1 };
        let b0 = if b < pos { b } else { b + 1 };
        assert(key_at(new, a) == key_at(old, a0));
        assert(key_at(new, b) == key_at(old, b0));
    }
    let target = sessions_of(old).remove(key);
    assert forall|k: Seq<char>| #[trigger] sessions_of(new).contains_key(k) == target.contains_key(
        k,
    ) by {
        if target.contains_key(k) {
            let p = choose|p: int| holds_key_at(old, k, p);
            assert(p != pos);
            let q = if p < pos { p } else { p - 1 };
            assert(holds_key_at(new, k, q));
        }
        if sessions_of(new).contains_key(k) {
            let p = choose|p: int| holds_key_at(new, k, p);
            let p0 = if p < pos { p } else { p + 1 };
            assert(holds_key_at(old, k, p0));
            assert(key_at(old, p0) != key_at(old, pos));
        }
    }
    assert forall|k: Seq<char>| #[trigger] sessions_of(new).contains_key(k) implies sessions_of(
        new,
    )[k] == target[k] by {
        let p = choose|p: int| holds_key_at(new, k, p);
        lemma_position_unique(new, k, p);
        let p0 = if p < pos { p } else { p + 1 };
        assert(holds_key_at(old, k, p0));
        lemma_position_unique(old, k, p0);
    }
    assert(sessions_of(new) =~= target);
}

/// Forgets the session stored under `session_id`, if any.
pub fn pop_session(store: &mut SessionStore, session_id: &str)
    ensures
        final(store)@ == old(store)@.remove(session_id@),
{
    proof {
        use_type_invariant(&*store);
    }
    match find_session(store, session_id) {
        Some(i) => {
            let mut entries = Vec::new();
            std::mem::swap(&mut entries, &mut store.entries);
            let ghost old_entries = entries@;
            entries.remove(i);
            proof {
                lemma_remove_entry(old_entries, entries@, i as int);
            }
            store.entries = entries;
        },
        None => {
            assert(store@ =~= store@.remove(session_id@));
        },
    }
}

/// The session stored under `session_id`, if any.
pub fn check_session(store: &SessionStore, session_id: &str) -> (res: Option<SessionInfo>)
    ensures
        match res {
            Some(info) => store@.contains_key(session_id@) && info@ == store@[session_id@],
            None => !store@.contains_key(session_id@),
        },
{
    proof {
        use_type_invariant(store);
    }
    match find_session(store, session_id) {
        Some(i) => {
            proof {
                lemma_position_unique(store.entries@, session_id@, i as int);
            }
            Some(store.entries[i].1.duplicate())
        },
        None => None,
    }
}

} // verus!
