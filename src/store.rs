//! The state store: pending linking attempts and established user links,
//! with the uniqueness rules that the tables enforce.
use vstd::prelude::*;
use vstd::string::*;

use crate::error::ApiError;

verus! {

/// How long a pending linking attempt stays usable, in seconds.
pub const STATE_TTL_SECS: i64 = 600;

/// A timestamp (seconds since the epoch) late enough that an expiry
/// computed from it would not fit in an `i64` is not accepted.
pub open spec fn valid_time(now: i64) -> bool {
    now <= i64::MAX - STATE_TTL_SECS
}

/// A pending linking attempt: a single-use token bound to a Telegram user.
#[derive(Debug)]
pub struct OAuthState {
    pub id: u64,
    pub state_token: String,
    pub telegram_id: i64,
    pub created_at: i64,
    pub updated_at: i64,
    pub expires_at: i64,
}

/// The durable pairing of one Discord identity with one Telegram identity.
#[derive(Clone, Copy, Debug)]
pub struct UserLink {
    pub id: u64,
    pub discord_id: i64,
    pub telegram_id: i64,
    pub created_at: i64,
    pub updated_at: i64,
    pub added_to_group_at: Option<i64>,
    pub last_subscription_check: Option<i64>,
}

/// The two identities of a link that is about to be created.
#[derive(Clone, Copy, Debug)]
pub struct UserLinkPayload {
    pub discord_id: i64,
    pub telegram_id: i64,
}

impl UserLinkPayload {
    pub fn new(discord_id: i64, telegram_id: i64) -> (r: Self)
        ensures
            r.discord_id == discord_id,
            r.telegram_id == telegram_id,
    {
        Self { discord_id, telegram_id }
    }
}

/// Pending states and user links, with the next free row identifier.
pub struct LinkStore {
    states: Vec<OAuthState>,
    links: Vec<UserLink>,
    next_id: u64,
}

/// A state is usable for `token` at time `now` when it carries that token
/// and has not yet expired.
pub open spec fn is_live(s: OAuthState, token: Seq<char>, now: i64) -> bool {
    s.state_token@ == token && s.expires_at > now
}

pub open spec fn has_live_state(states: Seq<OAuthState>, token: Seq<char>, now: i64) -> bool {
    exists|i: int| 0 <= i < states.len() && is_live(#[trigger] states[i], token, now)
}

pub open spec fn has_token(states: Seq<OAuthState>, token: Seq<char>) -> bool {
    exists|i: int| 0 <= i < states.len() && (#[trigger] states[i]).state_token@ == token
}

pub open spec fn links_discord(links: Seq<UserLink>, discord_id: i64) -> bool {
    exists|i: int| 0 <= i < links.len() && (#[trigger] links[i]).discord_id == discord_id
}

pub open spec fn links_telegram(links: Seq<UserLink>, telegram_id: i64) -> bool {
    exists|i: int| 0 <= i < links.len() && (#[trigger] links[i]).telegram_id == telegram_id
}

pub open spec fn tokens_unique(states: Seq<OAuthState>) -> bool {
    forall|i: int, j: int|
        0 <= i < states.len() && 0 <= j < states.len() && i != j ==> (#[trigger] states[i]).state_token@
            != (#[trigger] states[j]).state_token@
}

pub open spec fn links_unique(links: Seq<UserLink>) -> bool {
    forall|i: int, j: int|
        0 <= i < links.len() && 0 <= j < links.len() && i != j ==> {
            &&& (#[trigger] links[i]).discord_id != (#[trigger] links[j]).discord_id
            &&& links[i].telegram_id != links[j].telegram_id
            &&& links[i].id != links[j].id
        }
}

/// The state row that `OAuthState::create` inserts.
pub open spec fn new_state(id: u64, token: String, telegram_id: i64, now: i64) -> OAuthState {
    OAuthState {
        id,
        state_token: token,
        telegram_id,
        created_at: now,
        updated_at: now,
        expires_at: (now + STATE_TTL_SECS) as i64,
    }
}

/// The link row that `UserLink::create_link` inserts.
pub open spec fn new_link(id: u64, payload: UserLinkPayload, now: i64) -> UserLink {
    UserLink {
        id,
        discord_id: payload.discord_id,
        telegram_id: payload.telegram_id,
        created_at: now,
        updated_at: now,
        added_to_group_at: None,
        last_subscription_check: None,
    }
}

pub open spec fn mark_added(l: UserLink, id: u64, now: i64) -> UserLink {
    if l.id == id {
        UserLink { added_to_group_at: Some(now), ..l }
    } else {
        l
    }
}

/// What `OAuthState::create` does: it refuses a token that is already
/// pending and a store whose identifiers are used up, and otherwise appends
/// a fresh state.
pub open spec fn state_created(
    old: LinkStore,
    new: LinkStore,
    telegram_id: i64,
    token: String,
    now: i64,
    r: Result<OAuthState, ApiError>,
) -> bool {
    &&& new.links() == old.links()
    &&& if has_token(old.states(), token@) || old.next_id() == u64::MAX {
        &&& r matches Err(ApiError::StorageError { .. })
        &&& new.states() == old.states()
        &&& new.next_id() == old.next_id()
    } else {
        let s = new_state(old.next_id(), token, telegram_id, now);
        &&& r == Ok::<OAuthState, ApiError>(s)
        &&& new.states() == old.states().push(s)
        &&& new.next_id() == old.next_id() + 1
    }
}

/// What `OAuthState::get_and_delete` does: the live state for the token,
/// if there is one, is removed and handed back; otherwise nothing changes.
pub open spec fn state_taken(
    old: LinkStore,
    new: LinkStore,
    token: Seq<char>,
    now: i64,
    r: Option<OAuthState>,
) -> bool {
    &&& new.links() == old.links()
    &&& new.next_id() == old.next_id()
    &&& if has_live_state(old.states(), token, now) {
        exists|i: int|
            0 <= i < old.states().len() && is_live(old.states()[i], token, now) && r == Some(
                old.states()[i],
            ) && new.states() == old.states().remove(i)
    } else {
        &&& r is None
        &&& new.states() == old.states()
    }
}

/// What `UserLink::create_link` does: a link that would repeat a Discord or
/// Telegram identity is a conflict; otherwise a fresh link is appended.
pub open spec fn link_created(
    old: LinkStore,
    new: LinkStore,
    payload: UserLinkPayload,
    now: i64,
    r: Result<UserLink, ApiError>,
) -> bool {
    &&& new.states() == old.states()
    &&& if links_discord(old.links(), payload.discord_id) || links_telegram(
        old.links(),
        payload.telegram_id,
    ) {
        &&& r == Err::<UserLink, ApiError>(ApiError::Conflict)
        &&& new.links() == old.links()
        &&& new.next_id() == old.next_id()
    } else if old.next_id() == u64::MAX {
        &&& r matches Err(ApiError::StorageError { .. })
        &&& new.links() == old.links()
        &&& new.next_id() == old.next_id()
    } else {
        let l = new_link(old.next_id(), payload, now);
        &&& r == Ok::<UserLink, ApiError>(l)
        &&& new.links() == old.links().push(l)
        &&& new.next_id() == old.next_id() + 1
    }
}

/// What `UserLink::delete_by_discord_id` does: the link of that Discord
/// identity, if any, is removed; nothing else changes.
pub open spec fn link_deleted(old: LinkStore, new: LinkStore, discord_id: i64) -> bool {
    &&& new.states() == old.states()
    &&& new.next_id() == old.next_id()
    &&& if links_discord(old.links(), discord_id) {
        exists|i: int|
            0 <= i < old.links().len() && old.links()[i].discord_id == discord_id
                && new.links() == old.links().remove(i)
    } else {
        new.links() == old.links()
    }
}

fn storage_error(message: &str) -> (r: ApiError)
    ensures
        r matches ApiError::StorageError { .. },
{
    ApiError::StorageError { message: String::from_str(message) }
}

impl LinkStore {
    pub closed spec fn states(&self) -> Seq<OAuthState> {
        self.states@
    }

    pub closed spec fn links(&self) -> Seq<UserLink> {
        self.links@
    }

    pub closed spec fn next_id(&self) -> u64 {
        self.next_id
    }

    /// Tokens are unique among pending states; Discord ids, Telegram ids and
    /// row ids are unique among links; every row id is below `next_id`.
    pub open spec fn wf(&self) -> bool {
        &&& tokens_unique(self.states())
        &&& links_unique(self.links())
        &&& forall|i: int|
            0 <= i < self.states().len() ==> (#[trigger] self.states()[i]).id < self.next_id()
        &&& forall|i: int|
            0 <= i < self.links().len() ==> (#[trigger] self.links()[i]).id < self.next_id()
    }

    pub fn new() -> (r: Self)
        ensures
            r.wf(),
            r.states() == Seq::<OAuthState>::empty(),
            r.links() == Seq::<UserLink>::empty(),
    {
        LinkStore { states: Vec::new(), links: Vec::new(), next_id: 0 }
    }

    pub fn pending_count(&self) -> (r: usize)
        ensures
            r == self.states().len(),
    {
        self.states.len()
    }

    pub fn link_count(&self) -> (r: usize)
        ensures
            r == self.links().len(),
    {
        self.links.len()
    }
}

impl OAuthState {
    /// Records a pending linking attempt for `telegram_id` under `token`,
    /// expiring `STATE_TTL_SECS` after `now`.
    pub fn create(store: &mut LinkStore, telegram_id: i64, token: String, now: i64) -> (r: Result<
        OAuthState,
        ApiError,
    >)
        requires
            old(store).wf(),
            valid_time(now),
        ensures
            final(store).wf(),
            state_created(*old(store), *final(store), telegram_id, token, now, r),
    {
        let mut i: usize = 0;
        while i < store.states.len()
            invariant
                0 <= i <= store.states@.len(),
                store.states@ == old(store).states@,
                store.links@ == old(store).links@,
                store.next_id == old(store).next_id,
                old(store).wf(),
                forall|k: int| 0 <= k < i ==> (#[trigger] store.states@[k]).state_token@ != token@,
            decreases store.states@.len() - i,
        {
            if store.states[i].state_token == token {
                return Err(storage_error("state token already exists"));
            }
            i = i + 1;
        }
        if store.next_id == u64::MAX {
            return Err(storage_error("identifier space exhausted"));
        }
        let state = OAuthState {
            id: store.next_id,
            state_token: token.clone(),
            telegram_id,
            created_at: now,
            updated_at: now,
            expires_at: now + STATE_TTL_SECS,
        };
        let row = OAuthState {
            id: store.next_id,
            state_token: token,
            telegram_id,
            created_at: now,
            updated_at: now,
            expires_at: now + STATE_TTL_SECS,
        };
        store.states.push(row);
        store.next_id = store.next_id + 1;
        Ok(state)
    }

    /// Drops every pending state that expired before `now`, keeping the
    /// others in order, and tells how many were dropped.
    pub fn cleanup_expired(store: &mut LinkStore, now: i64) -> (r: usize)
        requires
            old(store).wf(),
        ensures
            final(store).wf(),
            final(store).links() == old(store).links(),
            final(store).next_id() == old(store).next_id(),
            final(store).states() == old(store).states().filter(
                |s: OAuthState| s.expires_at >= now,
            ),
            r == old(store).states().len() - final(store).states().len(),
    {
        let ghost keep = |s: OAuthState| s.expires_at >= now;
        let ghost before = store.states@;
        let mut kept: Vec<OAuthState> = Vec::new();
        let mut dropped: usize = 0;
        let total = store.states.len();
        while store.states.len() > 0
            invariant
                keep == (|s: OAuthState| s.expires_at >= now),
                before.len() == total,
                store.links@ == old(store).links@,
                store.next_id == old(store).next_id,
                old(store).wf(),
                before == old(store).states@,
                store.states@.len() <= before.len(),
                store.states@ == before.subrange(
                    before.len() - store.states@.len(),
                    before.len() as int,
                ),
                kept@ == before.subrange(0, before.len() - store.states@.len()).filter(keep),
                dropped + kept@.len() == before.len() - store.states@.len(),
                forall|k: int|
                    0 <= k < kept@.len() ==> exists|j: int|
                        0 <= j < before.len() - store.states@.len() && before[j]
                            == #[trigger] kept@[k],
                tokens_unique(kept@),
            decreases store.states@.len(),
        {
            let ghost done = before.len() - store.states@.len();
            let s = store.states.remove(0);
            assert(s == before[done]);
            assert(store.states@ =~= before.subrange(done + 1, before.len() as int));
            let ghost prefix = before.subrange(0, done + 1);
            assert(prefix.drop_last() =~= before.subrange(0, done));
            assert(prefix.last() == s);
            reveal(Seq::filter);
            assert(prefix.filter(keep) == if keep(prefix.last()) {
                prefix.drop_last().filter(keep).push(prefix.last())
            } else {
                prefix.drop_last().filter(keep)
            });
            if s.expires_at >= now {
                proof {
                    assert forall|k: int| 0 <= k < kept@.len() implies (#[trigger] kept@[k]).state_token@
                        != s.state_token@ by {
                        let j = choose|j: int| 0 <= j < done && before[j] == kept@[k];
                        assert(before[j].state_token@ != before[done].state_token@);
                    }
                }
                let ghost old_kept = kept@;
                kept.push(s);
                proof {
                    assert forall|a: int, b: int|
                        0 <= a < kept@.len() && 0 <= b < kept@.len() && a != b implies (
                        #[trigger] kept@[a]).state_token@ != (#[trigger] kept@[b]).state_token@ by {
                        if a < old_kept.len() && b < old_kept.len() {
                            assert(kept@[a] == old_kept[a] && kept@[b] == old_kept[b]);
                        } else if a < old_kept.len() {
                            assert(kept@[a] == old_kept[a]);
                        } else if b < old_kept.len() {
                            assert(kept@[b] == old_kept[b]);
                        }
                    }
                    assert forall|k: int| 0 <= k < kept@.len() implies exists|j: int|
                        0 <= j < done + 1 && before[j] == #[trigger] kept@[k] by {
                        if k < old_kept.len() {
                            assert(kept@[k] == old_kept[k]);
                            let j = choose|j: int| 0 <= j < done && before[j] == old_kept[k];
                            assert(0 <= j < done + 1 && before[j] == kept@[k]);
                        } else {
                            assert(before[done] == kept@[k]);
                        }
                    }
                }
            } else {
                assert(dropped < before.len());
                dropped = dropped + 1;
            }
        }
        assert(before.subrange(0, before.len() as int) =~= before);
        proof {
            assert forall|k: int| 0 <= k < kept@.len() implies (#[trigger] kept@[k]).id
                < store.next_id by {
                let j = choose|j: int| 0 <= j < before.len() && before[j] == kept@[k];
                assert(before[j].id < store.next_id);
            }
        }
        store.states = kept;
        dropped
    }

    /// Consumes the live state for `token`: it is removed and returned, so a
    /// token is usable at most once and only before its expiry.
    pub fn get_and_delete(store: &mut LinkStore, token: &String, now: i64) -> (r: Option<
        OAuthState,
    >)
        requires
            old(store).wf(),
        ensures
            final(store).wf(),
            state_taken(*old(store), *final(store), token@, now, r),
    {
        let mut i: usize = 0;
        while i < store.states.len()
            invariant
                0 <= i <= store.states@.len(),
                store.states@ == old(store).states@,
                store.links@ == old(store).links@,
                store.next_id == old(store).next_id,
                old(store).wf(),
                forall|k: int| 0 <= k < i ==> !is_live(#[trigger] store.states@[k], token@, now),
            decreases store.states@.len() - i,
        {
            if store.states[i].state_token == *token && store.states[i].expires_at > now {
                let ghost before = store.states@;
                let s = store.states.remove(i);
                assert(store.states@ == before.remove(i as int));
                assert(tokens_unique(store.states@)) by {
                    assert forall|a: int, b: int|
                        0 <= a < store.states@.len() && 0 <= b < store.states@.len() && a
                            != b implies (#[trigger] store.states@[a]).state_token@
                        != (#[trigger] store.states@[b]).state_token@ by {
                        let oa = if a < i { a } else { a + 1 };
                        let ob = if b < i { b } else { b + 1 };
                        assert(store.states@[a] == before[oa]);
                        assert(store.states@[b] == before[ob]);
                    }
                }
                assert forall|k: int| 0 <= k < store.states@.len() implies (
                #[trigger] store.states@[k]).id < store.next_id by {
                    let ok = if k < i { k } else { k + 1 };
                    assert(store.states@[k] == before[ok]);
                }
                return Some(s);
            }
            i = i + 1;
        }
        None
    }
}

impl UserLink {
    /// Inserts the link of `payload`, refusing one that would repeat either
    /// identity.
    pub fn create_link(store: &mut LinkStore, payload: UserLinkPayload, now: i64) -> (r: Result<
        UserLink,
        ApiError,
    >)
        requires
            old(store).wf(),
        ensures
            final(store).wf(),
            link_created(*old(store), *final(store), payload, now, r),
    {
        let mut i: usize = 0;
        while i < store.links.len()
            invariant
                0 <= i <= store.links@.len(),
                store.states@ == old(store).states@,
                store.links@ == old(store).links@,
                store.next_id == old(store).next_id,
                old(store).wf(),
                forall|k: int|
                    0 <= k < i ==> (#[trigger] store.links@[k]).discord_id != payload.discord_id
                        && store.links@[k].telegram_id != payload.telegram_id,
            decreases store.links@.len() - i,
        {
            if store.links[i].discord_id == payload.discord_id || store.links[i].telegram_id
                == payload.telegram_id {
                return Err(ApiError::Conflict);
            }
            i = i + 1;
        }
        if store.next_id == u64::MAX {
            return Err(storage_error("identifier space exhausted"));
        }
        let link = UserLink {
            id: store.next_id,
            discord_id: payload.discord_id,
            telegram_id: payload.telegram_id,
            created_at: now,
            updated_at: now,
            added_to_group_at: None,
            last_subscription_check: None,
        };
        store.links.push(link);
        store.next_id = store.next_id + 1;
        Ok(link)
    }

    /// The link of a Discord identity, if there is one.
    pub fn find_by_discord_id(store: &LinkStore, discord_id: i64) -> (r: Option<UserLink>)
        requires
            store.wf(),
        ensures
            r is Some <==> links_discord(store.links(), discord_id),
            r matches Some(l) ==> store.links().contains(l) && l.discord_id == discord_id,
    {
        let mut i: usize = 0;
        while i < store.links.len()
            invariant
                0 <= i <= store.links@.len(),
                forall|k: int| 0 <= k < i ==> (#[trigger] store.links@[k]).discord_id != discord_id,
            decreases store.links@.len() - i,
        {
            if store.links[i].discord_id == discord_id {
                return Some(store.links[i]);
            }
            i = i + 1;
        }
        None
    }

    /// The link of a Telegram identity, if there is one.
    pub fn find_by_telegram_id(store: &LinkStore, telegram_id: i64) -> (r: Option<UserLink>)
        requires
            store.wf(),
        ensures
            r is Some <==> links_telegram(store.links(), telegram_id),
            r matches Some(l) ==> store.links().contains(l) && l.telegram_id == telegram_id,
    {
        let mut i: usize = 0;
        while i < store.links.len()
            invariant
                0 <= i <= store.links@.len(),
                forall|k: int|
                    0 <= k < i ==> (#[trigger] store.links@[k]).telegram_id != telegram_id,
            decreases store.links@.len() - i,
        {
            if store.links[i].telegram_id == telegram_id {
                return Some(store.links[i]);
            }
            i = i + 1;
        }
        None
    }

    /// Stamps the link with row id `id` as added to the group at `now`.
    pub fn mark_added_to_group(store: &mut LinkStore, id: u64, now: i64)
        requires
            old(store).wf(),
        ensures
            final(store).wf(),
            final(store).states() == old(store).states(),
            final(store).next_id() == old(store).next_id(),
            final(store).links() == old(store).links().map_values(
                |l: UserLink| mark_added(l, id, now),
            ),
    {
        let ghost before = store.links@;
        let mut i: usize = 0;
        while i < store.links.len()
            invariant
                0 <= i <= store.links@.len(),
                store.links@.len() == before.len(),
                store.states@ == old(store).states@,
                store.next_id == old(store).next_id,
                before == old(store).links@,
                forall|k: int|
                    0 <= k < before.len() ==> #[trigger] store.links@[k] == (if k < i {
                        mark_added(before[k], id, now)
                    } else {
                        before[k]
                    }),
            decreases store.links@.len() - i,
        {
            if store.links[i].id == id {
                let mut l = store.links[i];
                l.added_to_group_at = Some(now);
                store.links.set(i, l);
            }
            i = i + 1;
        }
        assert(store.links@ =~= before.map_values(|l: UserLink| mark_added(l, id, now)));
    }

    /// Every link, in insertion order.
    pub fn get_all_users(store: &LinkStore) -> (r: Vec<UserLink>)
        ensures
            r@ == store.links(),
    {
        let mut out: Vec<UserLink> = Vec::new();
        let mut i: usize = 0;
        while i < store.links.len()
            invariant
                0 <= i <= store.links@.len(),
                out@ == store.links@.subrange(0, i as int),
            decreases store.links@.len() - i,
        {
            out.push(store.links[i]);
            i = i + 1;
            assert(out@ =~= store.links@.subrange(0, i as int));
        }
        assert(out@ =~= store.links@);
        out
    }

    /// Removes the link of a Discord identity, if there is one.
    pub fn delete_by_discord_id(store: &mut LinkStore, discord_id: i64)
        requires
            old(store).wf(),
        ensures
            final(store).wf(),
            link_deleted(*old(store), *final(store), discord_id),
    {
        let mut i: usize = 0;
        while i < store.links.len()
            invariant
                0 <= i <= store.links@.len(),
                store.links@ == old(store).links@,
                store.states@ == old(store).states@,
                store.next_id == old(store).next_id,
                old(store).wf(),
                forall|k: int| 0 <= k < i ==> (#[trigger] store.links@[k]).discord_id != discord_id,
            decreases store.links@.len() - i,
        {
            if store.links[i].discord_id == discord_id {
                let ghost before = store.links@;
                store.links.remove(i);
                assert(links_unique(store.links@)) by {
                    assert forall|a: int, b: int|
                        0 <= a < store.links@.len() && 0 <= b < store.links@.len() && a
                            != b implies (#[trigger] store.links@[a]).discord_id
                        != (#[trigger] store.links@[b]).discord_id && store.links@[a].telegram_id
                        != store.links@[b].telegram_id && store.links@[a].id
                        != store.links@[b].id by {
                        let oa = if a < i { a } else { a + 1 };
                        let ob = if b < i { b } else { b + 1 };
                        assert(store.links@[a] == before[oa]);
                        assert(store.links@[b] == before[ob]);
                    }
                }
                assert forall|k: int| 0 <= k < store.links@.len() implies (
                #[trigger] store.links@[k]).id < store.next_id by {
                    let ok = if k < i { k } else { k + 1 };
                    assert(store.links@[k] == before[ok]);
                }
                return;
            }
            i = i + 1;
        }
    }
}

} // verus!

verus! {

/// Two stores hold the same rows and the same next identifier.
pub open spec fn same_store(a: LinkStore, b: LinkStore) -> bool {
    &&& a.states() == b.states()
    &&& a.links() == b.links()
    &&& a.next_id() == b.next_id()
}

} // verus!

verus! {

/// After deleting by Discord id, a link remains exactly when it was there
/// and belongs to another Discord identity.
pub proof fn lemma_deleted_links(old: LinkStore, new: LinkStore, discord_id: i64)
    requires
        old.wf(),
        link_deleted(old, new, discord_id),
    ensures
        forall|l: UserLink|
            #[trigger] new.links().contains(l) <==> old.links().contains(l) && l.discord_id
                != discord_id,
{
    if links_discord(old.links(), discord_id) {
        let i = choose|i: int|
            0 <= i < old.links().len() && old.links()[i].discord_id == discord_id
                && new.links() == old.links().remove(i);
        assert forall|l: UserLink| #[trigger]
            new.links().contains(l) <==> old.links().contains(l) && l.discord_id
                != discord_id by {
            if new.links().contains(l) {
                let k = choose|k: int| 0 <= k < new.links().len() && new.links()[k] == l;
                let ok = if k < i { k } else { k + 1 };
                assert(old.links()[ok] == l);
                assert(ok != i);
            }
            if old.links().contains(l) && l.discord_id != discord_id {
                let k = choose|k: int| 0 <= k < old.links().len() && old.links()[k] == l;
                assert(k != i);
                let nk = if k < i { k } else { k - 1 };
                assert(new.links()[nk] == l);
            }
        }
    }
}

} // verus!
