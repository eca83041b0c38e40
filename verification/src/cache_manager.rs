//! The blacklist of revoked tokens and the decisions of the task that
//! forgets each token once it has expired.
//!
//! The state that the server keeps behind a lock is a `TokenBlacklist`. The
//! task that waits for expirations is driven from outside: it asks
//! `next_watch` which token to wait for, sleeps for `watch_delay` seconds, and
//! reports the expiry with `finish_watch`. `revoke_token` says whether such a
//! task has to be started (and the running one stopped).
use vstd::prelude::*;

verus! {

/// A revoked token: its id (`jti`) and the time (in seconds) at which it expires.
#[derive(Debug)]
pub struct TokenId {
    pub jti: String,
    pub expiration: i64,
}

impl View for TokenId {
    type V = (Seq<char>, i64);

    open spec fn view(&self) -> (Seq<char>, i64) {
        (self.jti@, self.expiration)
    }
}

impl TokenId {
    /// A copy of this token id.
    pub fn duplicate(&self) -> (res: TokenId)
        ensures
            res@ == self@,
    {
        TokenId { jti: self.jti.clone(), expiration: self.expiration }
    }
}

/// The blacklist, the token the watcher waits for, whether the watcher keeps
/// looping, and whether a watcher task has been started.
#[derive(Debug)]
pub struct TokenBlacklist {
    pub tokens: Vec<TokenId>,
    pub current_tokenid: Option<TokenId>,
    pub should_loop: bool,
    pub has_thread: bool,
}

/// The entries of a blacklist, in order.
pub open spec fn entries(tokens: Seq<TokenId>) -> Seq<(Seq<char>, i64)> {
    tokens.map_values(|t: TokenId| t@)
}

/// The entries of the blacklist held by `cache`.
pub open spec fn blacklist(cache: TokenBlacklist) -> Seq<(Seq<char>, i64)> {
    entries(cache.tokens@)
}

/// The view of an optional token id.
pub open spec fn view_token(t: Option<TokenId>) -> Option<(Seq<char>, i64)> {
    match t {
        Some(t) => Some(t@),
        None => None,
    }
}

/// Some entry of `s` has the id `jti`.
pub open spec fn has_jti(s: Seq<(Seq<char>, i64)>, jti: Seq<char>) -> bool {
    exists|i: int| 0 <= i < s.len() && #[trigger] s[i].0 == jti
}

/// `k` is the first position of `s` whose id is `jti`.
pub open spec fn is_first_jti(s: Seq<(Seq<char>, i64)>, jti: Seq<char>, k: int) -> bool {
    &&& 0 <= k < s.len()
    &&& s[k].0 == jti
    &&& forall|j: int| 0 <= j < k ==> #[trigger] s[j].0 != jti
}

/// The first position of `s` whose id is `jti`, or -1.
pub open spec fn first_jti_index(s: Seq<(Seq<char>, i64)>, jti: Seq<char>) -> int {
    if has_jti(s, jti) {
        choose|k: int| is_first_jti(s, jti, k)
    } else {
        -1
    }
}

/// `s` without its first entry whose id is `jti` (unchanged when there is none).
pub open spec fn without_jti(s: Seq<(Seq<char>, i64)>, jti: Seq<char>) -> Seq<(Seq<char>, i64)> {
    if has_jti(s, jti) {
        s.remove(first_jti_index(s, jti))
    } else {
        s
    }
}

/// `k` is the first position of `s` holding the smallest expiration.
pub open spec fn is_first_earliest(s: Seq<(Seq<char>, i64)>, k: int) -> bool {
    &&& 0 <= k < s.len()
    &&& forall|j: int| 0 <= j < s.len() ==> s[k].1 <= #[trigger] s[j].1
    &&& forall|j: int| 0 <= j < k ==> #[trigger] s[j].1 > s[k].1
}

/// The first position of `s` holding the smallest expiration.
pub open spec fn earliest_index(s: Seq<(Seq<char>, i64)>) -> int {
    choose|k: int| is_first_earliest(s, k)
}

/// No two entries of `s` share an id.
pub open spec fn unique_jtis(s: Seq<(Seq<char>, i64)>) -> bool {
    forall|i: int, j: int| 0 <= i < j < s.len() ==> #[trigger] s[i].0 != #[trigger] s[j].0
}

/// What holds of the blacklist between the steps of the protocol: ids are
/// unique, a token is being waited for only once a watcher was started, and a
/// started watcher that keeps looping always finds a token to wait for.
pub open spec fn watch_ready(cache: TokenBlacklist) -> bool {
    &&& unique_jtis(blacklist(cache))
    &&& (cache.current_tokenid is Some ==> cache.has_thread)
    &&& (cache.has_thread && cache.should_loop ==> cache.tokens@.len() > 0)
}

/// The running watcher can go on: it waits for a token, and that token is
/// the one being revoked or expires no later than it.
pub open spec fn keeps_watcher(current: Option<TokenId>, jti: Seq<char>, expiration: i64) -> bool {
    match current {
        Some(cur) => !(cur.jti@ != jti && cur.expiration > expiration),
        None => false,
    }
}

/// What the caller of `revoke_token` has to do next.
#[derive(Debug)]
pub enum RevokeAction {
    /// The running watcher already waits for a token that expires no later: nothing to start.
    Keep,
    /// Start a new watcher; stop the one that runs first when `abort_running` holds.
    Spawn { abort_running: bool },
}

/// The first position holding `jti` is the one `first_jti_index` names.
pub proof fn lemma_first_jti_unique(s: Seq<(Seq<char>, i64)>, jti: Seq<char>, k: int)
    requires
        is_first_jti(s, jti, k),
    ensures
        has_jti(s, jti),
        first_jti_index(s, jti) == k,
{
    assert(s[k].0 == jti);
    let c = choose|c: int| is_first_jti(s, jti, c);
    assert(is_first_jti(s, jti, c));
    if c < k {
        assert(s[c].0 != jti);
    } else if k < c {
        assert(s[k].0 != jti);
    }
}

proof fn lemma_first_earliest_unique(s: Seq<(Seq<char>, i64)>, k: int)
    requires
        is_first_earliest(s, k),
    ensures
        earliest_index(s) == k,
{
    let c = choose|c: int| is_first_earliest(s, c);
    assert(is_first_earliest(s, c));
    if c < k {
        assert(s[c].1 > s[k].1);
        assert(s[k].1 <= s[c].1);
    } else if k < c {
        assert(s[k].1 > s[c].1);
        assert(s[c].1 <= s[k].1);
    }
}

proof fn lemma_entries_push(tokens: Seq<TokenId>, t: TokenId)
    ensures
        entries(tokens.push(t)) == entries(tokens).push(t@),
{
    assert(entries(tokens.push(t)) =~= entries(tokens).push(t@));
}

proof fn lemma_entries_remove(tokens: Seq<TokenId>, k: int)
    requires
        0 <= k < tokens.len(),
    ensures
        entries(tokens.remove(k)) == entries(tokens).remove(k),
{
    assert(entries(tokens.remove(k)) =~= entries(tokens).remove(k));
}

/// Removing an entry keeps the ids unique.
proof fn lemma_unique_remove(s: Seq<(Seq<char>, i64)>, k: int)
    requires
        unique_jtis(s),
        0 <= k < s.len(),
    ensures
        unique_jtis(s.remove(k)),
{
    let r = s.remove(k);
    assert forall|i: int, j: int| 0 <= i < j < r.len() implies #[trigger] r[i].0 != #[trigger] r[j].0 by {
        let i0 = if i < k { i } else { i + 1 };
        let j0 = if j < k { j } else { j + 1 };
        assert(r[i] == s[i0]);
        assert(r[j] == s[j0]);
        assert(s[i0].0 != s[j0].0);
    }
}

/// When the ids are unique, removing the entry of `jti` leaves no entry with that id.
proof fn lemma_unique_without(s: Seq<(Seq<char>, i64)>, jti: Seq<char>)
    requires
        unique_jtis(s),
    ensures
        !has_jti(without_jti(s, jti), jti),
        unique_jtis(without_jti(s, jti)),
{
    if has_jti(s, jti) {
        let w = choose|i: int| 0 <= i < s.len() && #[trigger] s[i].0 == jti;
        lemma_exists_first_jti(s, jti, w);
        let k = choose|k: int| is_first_jti(s, jti, k);
        lemma_unique_remove(s, k);
        let r = s.remove(k);
        assert forall|i: int| 0 <= i < r.len() implies #[trigger] r[i].0 != jti by {
            let i0 = if i < k { i } else { i + 1 };
            assert(r[i] == s[i0]);
            assert(s[i0].0 != s[k].0);
        }
    }
}

/// If some position holds `jti`, a first such position exists.
proof fn lemma_exists_first_jti(s: Seq<(Seq<char>, i64)>, jti: Seq<char>, w: int)
    requires
        0 <= w < s.len(),
        s[w].0 == jti,
    ensures
        exists|m: int| is_first_jti(s, jti, m),
    decreases w,
{
    if exists|j: int| 0 <= j < w && #[trigger] s[j].0 == jti {
        let j = choose|j: int| 0 <= j < w && #[trigger] s[j].0 == jti;
        lemma_exists_first_jti(s, jti, j);
    } else {
        assert(is_first_jti(s, jti, w));
    }
}

/// Revoking an id that is not blacklisted and then forgetting it restores
/// the blacklist: `pop_from_blacklist` undoes `push_blacklist`.
pub proof fn law_pop_undoes_push(s: Seq<(Seq<char>, i64)>, jti: Seq<char>, expiration: i64)
    requires
        !has_jti(s, jti),
    ensures
        without_jti(s.push((jti, expiration)), jti) == s,
{
    let t = s.push((jti, expiration));
    let n = s.len() as int;
    assert(t[n].0 == jti);
    assert forall|j: int| 0 <= j < n implies #[trigger] t[j].0 != jti by {
        assert(t[j] == s[j]);
        if s[j].0 == jti {
            assert(has_jti(s, jti));
        }
    }
    assert(is_first_jti(t, jti, n));
    lemma_first_jti_unique(t, jti, n);
    assert(t.remove(n) =~= s);
}

/// While the ids are unique, an id that has been forgotten is no longer
/// blacklisted, and the ids stay unique.
pub proof fn law_forgotten_id_is_gone(s: Seq<(Seq<char>, i64)>, jti: Seq<char>)
    requires
        unique_jtis(s),
    ensures
        !has_jti(without_jti(s, jti), jti),
        unique_jtis(without_jti(s, jti)),
{
    lemma_unique_without(s, jti);
}

/// The blacklist that revoking `jti` leaves: `s` itself when the id is
/// already there, `s` with `(jti, expiration)` appended otherwise.
pub open spec fn after_revoke(s: Seq<(Seq<char>, i64)>, jti: Seq<char>, expiration: i64) -> Seq<
    (Seq<char>, i64),
> {
    if has_jti(s, jti) {
        s
    } else {
        s.push((jti, expiration))
    }
}

/// Revoking an id keeps the ids of the blacklist unique, and the id is then
/// blacklisted.
pub proof fn law_revoke_keeps_ids_unique(s: Seq<(Seq<char>, i64)>, jti: Seq<char>, expiration: i64)
    requires
        unique_jtis(s),
    ensures
        unique_jtis(after_revoke(s, jti, expiration)),
        has_jti(after_revoke(s, jti, expiration), jti),
{
    let t = after_revoke(s, jti, expiration);
    if !has_jti(s, jti) {
        assert(t[t.len() - 1].0 == jti);
        assert forall|i: int, j: int| 0 <= i < j < t.len() implies #[trigger] t[i].0
            != #[trigger] t[j].0 by {
            assert(t[i] == s[i]);
            if j == t.len() - 1 {
                if s[i].0 == jti {
                    assert(has_jti(s, jti));
                }
            } else {
                assert(t[j] == s[j]);
            }
        }
    }
}

/// Forgetting one id leaves every other blacklisted id blacklisted.
pub proof fn law_other_ids_stay(s: Seq<(Seq<char>, i64)>, jti: Seq<char>, other: Seq<char>)
    requires
        other != jti,
        has_jti(s, other),
    ensures
        has_jti(without_jti(s, jti), other),
{
    if has_jti(s, jti) {
        let w0 = choose|i: int| 0 <= i < s.len() && #[trigger] s[i].0 == jti;
        lemma_exists_first_jti(s, jti, w0);
        let k = choose|k: int| is_first_jti(s, jti, k);
        let w = choose|i: int| 0 <= i < s.len() && #[trigger] s[i].0 == other;
        let r = s.remove(k);
        assert(w != k);
        let i = if w < k { w } else { w - 1 };
        assert(r[i] == s[w]);
        assert(r[i].0 == other);
    }
}

/// A blacklist with nothing revoked, no watcher started and the loop flag set.
pub fn new_blacklist() -> (res: TokenBlacklist)
    ensures
        blacklist(res) == Seq::<(Seq<char>, i64)>::empty(),
        res.current_tokenid is None,
        res.should_loop,
        !res.has_thread,
        watch_ready(res),
{
    let res = TokenBlacklist {
        tokens: Vec::new(),
        current_tokenid: None,
        should_loop: true,
        has_thread: false,
    };
    assert(blacklist(res) =~= Seq::<(Seq<char>, i64)>::empty());
    res
}

/// Appends `(jti, expiration)` to the blacklist.
pub fn push_blacklist(cache: &mut TokenBlacklist, jti: &str, expiration: i64)
    ensures
        blacklist(*final(cache)) == blacklist(*old(cache)).push((jti@, expiration)),
        final(cache).current_tokenid == old(cache).current_tokenid,
        final(cache).should_loop == old(cache).should_loop,
        final(cache).has_thread == old(cache).has_thread,
{
    let t = TokenId { jti: jti.to_owned(), expiration };
    proof {
        lemma_entries_push(cache.tokens@, t);
    }
    cache.tokens.push(t);
}

/// Position of the first entry whose id is `jti`, if any.
fn position_of(tokens: &Vec<TokenId>, jti: &str) -> (res: Option<usize>)
    ensures
        match res {
            Some(k) => is_first_jti(entries(tokens@), jti@, k as int),
            None => !has_jti(entries(tokens@), jti@),
        },
{
    let key = jti.to_owned();
    let ghost s = entries(tokens@);
    let mut i: usize = 0;
    while i < tokens.len()
        invariant
            s == entries(tokens@),
            key@ == jti@,
            i <= tokens.len(),
            forall|j: int| 0 <= j < i ==> #[trigger] s[j].0 != jti@,
        decreases tokens.len() - i,
    {
        if tokens[i].jti == key {
            assert(s[i as int].0 == jti@);
            return Some(i);
        }
        assert(s[i as int].0 != jti@);
        i = i + 1;
    }
    assert(!has_jti(s, jti@)) by {
        if has_jti(s, jti@) {
            let w = choose|w: int| 0 <= w < s.len() && #[trigger] s[w].0 == jti@;
            assert(s[w].0 != jti@);
        }
    }
    None
}

/// Removes the first entry whose id is `jti` (nothing when there is none).
pub fn pop_from_blacklist(cache: &mut TokenBlacklist, jti: &str)
    ensures
        blacklist(*final(cache)) == without_jti(blacklist(*old(cache)), jti@),
        final(cache).current_tokenid == old(cache).current_tokenid,
        final(cache).should_loop == old(cache).should_loop,
        final(cache).has_thread == old(cache).has_thread,
{
    match position_of(&cache.tokens, jti) {
        Some(k) => {
            proof {
                lemma_first_jti_unique(blacklist(*cache), jti@, k as int);
                lemma_entries_remove(cache.tokens@, k as int);
            }
            cache.tokens.remove(k);
        },
        None => {},
    }
}

/// Whether some entry of the blacklist has the id `jti`.
pub fn is_in_blacklist(cache: &TokenBlacklist, jti: &str) -> (res: bool)
    ensures
        res == has_jti(blacklist(*cache), jti@),
{
    position_of(&cache.tokens, jti).is_some()
}

/// Whether the blacklist is in the state that the watcher's steps need
/// (`watch_ready`): ids unique, a token waited for only once a watcher was
/// started, and a looping watcher with a token to wait for.
pub fn is_watch_ready(cache: &TokenBlacklist) -> (res: bool)
    ensures
        res == watch_ready(*cache),
{
    let ghost s = blacklist(*cache);
    let mut i: usize = 0;
    while i < cache.tokens.len()
        invariant
            s == entries(cache.tokens@),
            i <= cache.tokens.len(),
            forall|a: int, b: int|
                0 <= a < b < i ==> #[trigger] s[a].0 != #[trigger] s[b].0,
        decreases cache.tokens.len() - i,
    {
        let jti = cache.tokens[i].jti.as_str();
        assert(s[i as int].0 == jti@);
        match position_of(&cache.tokens, jti) {
            Some(k) => {
                if k != i {
                    assert(!unique_jtis(s)) by {
                        assert(s[k as int].0 == s[i as int].0);
                    }
                    return false;
                }
            },
            None => {
                assert(has_jti(s, jti@));
            },
        }
        assert forall|a: int, b: int| 0 <= a < b < i + 1 implies #[trigger] s[a].0
            != #[trigger] s[b].0 by {
            if b == i {
                assert(is_first_jti(s, jti@, i as int));
            }
        }
        i = i + 1;
    }
    (cache.current_tokenid.is_none() || cache.has_thread) && !(cache.has_thread
        && cache.should_loop && cache.tokens.len() == 0)
}

/// Records `token_id` as the token the watcher waits for.
pub fn set_current_tokeind(cache: &mut TokenBlacklist, token_id: TokenId)
    ensures
        final(cache).current_tokenid == Some(token_id),
        final(cache).tokens == old(cache).tokens,
        final(cache).should_loop == old(cache).should_loop,
        final(cache).has_thread == old(cache).has_thread,
{
    cache.current_tokenid = Some(token_id);
}

/// Forgets the token the watcher waited for.
pub fn unset_current(cache: &mut TokenBlacklist)
    ensures
        final(cache).current_tokenid is None,
        final(cache).tokens == old(cache).tokens,
        final(cache).should_loop == old(cache).should_loop,
        final(cache).has_thread == old(cache).has_thread,
{
    cache.current_tokenid = None;
}

/// The first entry with the smallest expiration (the order of `Iterator::min_by`).
pub fn get_next_tokenid(cache: &TokenBlacklist) -> (res: TokenId)
    requires
        cache.tokens@.len() > 0,
    ensures
        is_first_earliest(blacklist(*cache), earliest_index(blacklist(*cache))),
        res@ == blacklist(*cache)[earliest_index(blacklist(*cache))],
{
    let ghost s = blacklist(*cache);
    let mut best: usize = 0;
    let mut i: usize = 1;
    while i < cache.tokens.len()
        invariant
            s == blacklist(*cache),
            s.len() == cache.tokens@.len(),
            1 <= i <= s.len(),
            best < i,
            forall|j: int| 0 <= j < i ==> s[best as int].1 <= #[trigger] s[j].1,
            forall|j: int| 0 <= j < best ==> #[trigger] s[j].1 > s[best as int].1,
        decreases s.len() - i,
    {
        if cache.tokens[i].expiration < cache.tokens[best].expiration {
            best = i;
        }
        i = i + 1;
    }
    proof {
        lemma_first_earliest_unique(s, best as int);
    }
    cache.tokens[best].duplicate()
}

/// The token the watcher waits for, if any.
pub fn get_current_tokenid(cache: &TokenBlacklist) -> (res: Option<TokenId>)
    ensures
        view_token(res) == view_token(cache.current_tokenid),
{
    match &cache.current_tokenid {
        Some(t) => Some(t.duplicate()),
        None => None,
    }
}

/// Whether nothing is blacklisted.
pub fn blacklist_is_empty(cache: &TokenBlacklist) -> (res: bool)
    ensures
        res == (blacklist(*cache).len() == 0),
{
    cache.tokens.len() == 0
}

/// Sets whether the watcher keeps looping.
pub fn toggle_loop(cache: &mut TokenBlacklist, is_on: bool)
    ensures
        final(cache).should_loop == is_on,
        final(cache).tokens == old(cache).tokens,
        final(cache).current_tokenid == old(cache).current_tokenid,
        final(cache).has_thread == old(cache).has_thread,
{
    cache.should_loop = is_on;
}

/// Whether a watcher task has been started.
pub fn is_active_thread(cache: &TokenBlacklist) -> (res: bool)
    ensures
        res == cache.has_thread,
{
    cache.has_thread
}

/// Records that a watcher task has been started.
pub fn set_current_thread(cache: &mut TokenBlacklist)
    ensures
        final(cache).has_thread,
        final(cache).tokens == old(cache).tokens,
        final(cache).current_tokenid == old(cache).current_tokenid,
        final(cache).should_loop == old(cache).should_loop,
{
    cache.has_thread = true;
}

/// Revokes the token `jti` that expires at `expiration`: blacklists it unless
/// it already is, and decides whether a new watcher has to be started.
pub fn revoke_token(cache: &mut TokenBlacklist, jti: &str, expiration: i64) -> (action: RevokeAction)
    requires
        old(cache).current_tokenid is Some ==> old(cache).has_thread,
    ensures
        blacklist(*final(cache)) == after_revoke(blacklist(*old(cache)), jti@, expiration),
        unique_jtis(blacklist(*old(cache))) ==> unique_jtis(blacklist(*final(cache))),
        has_jti(blacklist(*final(cache)), jti@),
        final(cache).should_loop == (blacklist(*old(cache)).len() == 0 || old(cache).should_loop),
        final(cache).current_tokenid == old(cache).current_tokenid,
        keeps_watcher(old(cache).current_tokenid, jti@, expiration) ==> {
            &&& action == RevokeAction::Keep
            &&& final(cache).has_thread == old(cache).has_thread
        },
        !keeps_watcher(old(cache).current_tokenid, jti@, expiration) ==> {
            &&& action == (RevokeAction::Spawn { abort_running: old(cache).has_thread })
            &&& final(cache).has_thread
        },
        watch_ready(*old(cache)) ==> watch_ready(*final(cache)),
{
    if blacklist_is_empty(cache) {
        toggle_loop(cache, true);
    }
    let ghost s0 = blacklist(*cache);
    if !is_in_blacklist(cache, jti) {
        push_blacklist(cache, jti, expiration);
    }
    proof {
        let s1 = blacklist(*cache);
        if !has_jti(s0, jti@) {
            assert(s1[s1.len() - 1].0 == jti@);
        }
        if unique_jtis(s0) {
            law_revoke_keeps_ids_unique(s0, jti@, expiration);
        }
    }
    let running = is_active_thread(cache);
    match get_current_tokenid(cache) {
        Some(current) => {
            let same = current.jti.as_str().to_owned() == jti.to_owned();
            if !same && current.expiration > expiration {
                // the running watcher waits for a later token: it is stopped below
            } else {
                return RevokeAction::Keep;
            }
        },
        None => {},
    }
    set_current_thread(cache);
    RevokeAction::Spawn { abort_running: running }
}

/// The watcher's next step: `None` when it stops looping, otherwise the
/// earliest-expiring token, which becomes the one it waits for.
pub fn next_watch(cache: &mut TokenBlacklist) -> (res: Option<TokenId>)
    requires
        watch_ready(*old(cache)),
        old(cache).has_thread,
    ensures
        match res {
            None => !old(cache).should_loop && *final(cache) == *old(cache),
            Some(next) => {
                &&& old(cache).should_loop
                &&& next@ == blacklist(*old(cache))[earliest_index(blacklist(*old(cache)))]
                &&& is_first_earliest(blacklist(*old(cache)), earliest_index(blacklist(*old(cache))))
                &&& view_token(final(cache).current_tokenid) == Some(next@)
                &&& final(cache).tokens == old(cache).tokens
                &&& final(cache).should_loop == old(cache).should_loop
                &&& final(cache).has_thread == old(cache).has_thread
            },
        },
        watch_ready(*final(cache)),
{
    if !cache.should_loop {
        return None;
    }
    let next = get_next_tokenid(cache);
    let current = next.duplicate();
    set_current_tokeind(cache, current);
    Some(next)
}

/// The watcher's step once the token `jti` has expired: it leaves the
/// blacklist, and when nothing is left the watcher stops.
pub fn finish_watch(cache: &mut TokenBlacklist, jti: &str)
    requires
        watch_ready(*old(cache)),
    ensures
        blacklist(*final(cache)) == without_jti(blacklist(*old(cache)), jti@),
        !has_jti(blacklist(*final(cache)), jti@),
        final(cache).has_thread == old(cache).has_thread,
        forall|other: Seq<char>|
            other != jti@ && has_jti(blacklist(*old(cache)), other) ==> #[trigger] has_jti(
                blacklist(*final(cache)),
                other,
            ),
        blacklist(*final(cache)).len() == 0 ==> {
            &&& final(cache).current_tokenid is None
            &&& !final(cache).should_loop
        },
        blacklist(*final(cache)).len() > 0 ==> {
            &&& final(cache).current_tokenid == old(cache).current_tokenid
            &&& final(cache).should_loop == old(cache).should_loop
        },
        watch_ready(*final(cache)),
{
    proof {
        lemma_unique_without(blacklist(*cache), jti@);
        assert forall|other: Seq<char>|
            other != jti@ && has_jti(blacklist(*cache), other) implies #[trigger] has_jti(
                without_jti(blacklist(*cache), jti@),
                other,
            ) by {
            law_other_ids_stay(blacklist(*cache), jti@, other);
        }
    }
    pop_from_blacklist(cache, jti);
    if blacklist_is_empty(cache) {
        unset_current(cache);
        toggle_loop(cache, false);
    }
}

/// How long the watcher sleeps before the token that expires at `expiration`
/// has expired, seen at time `now`: `None` when it already has.
pub fn watch_delay(expiration: i64, now: i64) -> (res: Option<i64>)
    requires
        i64::MIN <= expiration - now <= i64::MAX,
    ensures
        res == (if expiration - now > 0 {
            Some((expiration - now) as i64)
        } else {
            None::<i64>
        }),
{
    let waiting_time = expiration - now;
    if waiting_time > 0 {
        Some(waiting_time)
    } else {
        None
    }
}

} // verus!
