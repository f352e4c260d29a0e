//! The role verifier: a cycle that audits every linked user against the
//! roles they currently hold in a guild, and revokes the access of those
//! who no longer qualify.
//!
//! Fetching a member's roles from Discord is left to the caller, who hands
//! in one result per user: `Some(roles)`, or `None` when the fetch failed.
use vstd::prelude::*;
use vstd::string::*;

use crate::env::Env;
use crate::error::ApiError;
use crate::messages::{CronAction, Outbox, TelegramAction};
use crate::store::{lemma_deleted_links, link_deleted, same_store, LinkStore, UserLink};

verus! {

pub const DEFAULT_API_DELAY_MS: u64 = 250;

pub const DEFAULT_SCHEDULE_INTERVAL_SECS: u64 = 86400;

/// Pacing of the verification job.
#[derive(Debug)]
pub struct RoleVerificationConfig {
    /// Delay between Discord calls, in milliseconds, to respect rate limits.
    pub api_delay_ms: u64,
    /// How often the job runs on its own, in seconds.
    pub schedule_interval_secs: u64,
}

impl Default for RoleVerificationConfig {
    fn default() -> (r: Self)
        ensures
            r.api_delay_ms == DEFAULT_API_DELAY_MS,
            r.schedule_interval_secs == DEFAULT_SCHEDULE_INTERVAL_SECS,
    {
        RoleVerificationConfig {
            api_delay_ms: DEFAULT_API_DELAY_MS,
            schedule_interval_secs: DEFAULT_SCHEDULE_INTERVAL_SECS,
        }
    }
}

/// Counters of one cycle.
#[derive(Clone, Copy, Debug, PartialEq, Eq, Structural)]
pub struct VerificationStats {
    pub users_checked: u64,
    pub users_removed: u64,
    pub users_failed: u64,
}

impl VerificationStats {
    pub fn new() -> (r: Self)
        ensures
            r == (VerificationStats { users_checked: 0, users_removed: 0, users_failed: 0 }),
    {
        VerificationStats { users_checked: 0, users_removed: 0, users_failed: 0 }
    }

    pub fn add_assign(&mut self, other: Self)
        requires
            old(self).users_checked + other.users_checked <= u64::MAX,
            old(self).users_removed + other.users_removed <= u64::MAX,
            old(self).users_failed + other.users_failed <= u64::MAX,
        ensures
            final(self).users_checked == old(self).users_checked + other.users_checked,
            final(self).users_removed == old(self).users_removed + other.users_removed,
            final(self).users_failed == old(self).users_failed + other.users_failed,
    {
        self.users_checked = self.users_checked + other.users_checked;
        self.users_removed = self.users_removed + other.users_removed;
        self.users_failed = self.users_failed + other.users_failed;
    }
}

/// A member qualifies when one of their roles is an allowed role.
pub open spec fn qualifies(roles: Seq<u64>, allowed: Seq<u64>) -> bool {
    exists|i: int| 0 <= i < roles.len() && allowed.contains(#[trigger] roles[i])
}

/// The roles of user `i` were fetched and none of them is allowed.
pub open spec fn unqualified(fetched: Seq<Option<Vec<u64>>>, allowed: Seq<u64>, i: int) -> bool {
    fetched[i] is Some && !qualifies(fetched[i]->Some_0@, allowed)
}

/// How many of the first `n` users do not qualify.
pub open spec fn count_unqualified(fetched: Seq<Option<Vec<u64>>>, allowed: Seq<u64>, n: int) -> nat
    decreases n,
{
    if n <= 0 {
        0
    } else {
        count_unqualified(fetched, allowed, n - 1) + if unqualified(fetched, allowed, n - 1) {
            1nat
        } else {
            0nat
        }
    }
}

/// How many of the first `n` fetches failed.
pub open spec fn count_fetch_failures(fetched: Seq<Option<Vec<u64>>>, n: int) -> nat
    decreases n,
{
    if n <= 0 {
        0
    } else {
        count_fetch_failures(fetched, n - 1) + if fetched[n - 1] is None {
            1nat
        } else {
            0nat
        }
    }
}

/// The removals that the first `n` users call for, in order.
pub open spec fn removal_actions(
    users: Seq<UserLink>,
    fetched: Seq<Option<Vec<u64>>>,
    allowed: Seq<u64>,
    group_id: i64,
    n: int,
) -> Seq<TelegramAction>
    decreases n,
{
    if n <= 0 {
        Seq::empty()
    } else {
        let prev = removal_actions(users, fetched, allowed, group_id, n - 1);
        if unqualified(fetched, allowed, n - 1) {
            prev.push(TelegramAction::RemoveUser { id: users[n - 1].telegram_id, group_id })
        } else {
            prev
        }
    }
}

/// One of the first `n` users, with Discord id `discord_id`, does not qualify.
pub open spec fn removed_upto(
    users: Seq<UserLink>,
    fetched: Seq<Option<Vec<u64>>>,
    allowed: Seq<u64>,
    n: int,
    discord_id: i64,
) -> bool {
    exists|k: int|
        0 <= k < n && unqualified(fetched, allowed, k) && (#[trigger] users[k]).discord_id
            == discord_id
}

/// What checking one user does. A failed fetch is counted and changes
/// nothing else; a qualifying user is left alone; for one who does not
/// qualify the removal is queued first, and only once it is queued is the
/// link deleted. When the queue has no consumer the user is counted as a
/// failure and the link is kept for the next cycle.
pub open spec fn user_checked(
    old: LinkStore,
    new: LinkStore,
    old_removals: Outbox<TelegramAction>,
    new_removals: Outbox<TelegramAction>,
    old_stats: VerificationStats,
    new_stats: VerificationStats,
    allowed: Seq<u64>,
    user: UserLink,
    fetched: Option<Vec<u64>>,
    group_id: i64,
) -> bool {
    let removing = fetched is Some && !qualifies(fetched->Some_0@, allowed);
    &&& new_removals.is_open() == old_removals.is_open()
    &&& new_stats.users_checked == old_stats.users_checked + 1
    &&& if removing && old_removals.is_open() {
        &&& new_removals.items() == old_removals.items().push(
            TelegramAction::RemoveUser { id: user.telegram_id, group_id },
        )
        &&& link_deleted(old, new, user.discord_id)
        &&& new_stats.users_removed == old_stats.users_removed + 1
        &&& new_stats.users_failed == old_stats.users_failed
    } else {
        &&& new_removals.items() == old_removals.items()
        &&& same_store(old, new)
        &&& new_stats.users_removed == old_stats.users_removed
        &&& new_stats.users_failed == old_stats.users_failed + if fetched is None || removing {
            1int
        } else {
            0int
        }
    }
}

fn contains_role(roles: &Vec<u64>, role: u64) -> (r: bool)
    ensures
        r == roles@.contains(role),
{
    let mut i: usize = 0;
    while i < roles.len()
        invariant
            0 <= i <= roles@.len(),
            forall|k: int| 0 <= k < i ==> roles@[k] != role,
        decreases roles@.len() - i,
    {
        if roles[i] == role {
            assert(roles@[i as int] == role);
            return true;
        }
        i = i + 1;
    }
    false
}

/// Whether a member holding `user_roles` keeps access: one allowed role is
/// enough.
pub fn has_allowed_roles(user_roles: &Vec<u64>, allowed_roles: &Vec<u64>) -> (r: bool)
    ensures
        r == qualifies(user_roles@, allowed_roles@),
{
    let mut i: usize = 0;
    while i < user_roles.len()
        invariant
            0 <= i <= user_roles@.len(),
            forall|k: int| 0 <= k < i ==> !allowed_roles@.contains(#[trigger] user_roles@[k]),
        decreases user_roles@.len() - i,
    {
        if contains_role(allowed_roles, user_roles[i]) {
            return true;
        }
        i = i + 1;
    }
    false
}

/// Checks one user against the roles fetched for them.
pub fn check_user_roles(
    store: &mut LinkStore,
    removals: &mut Outbox<TelegramAction>,
    stats: &mut VerificationStats,
    allowed_roles: &Vec<u64>,
    user: &UserLink,
    fetched: &Option<Vec<u64>>,
    group_id: i64,
)
    requires
        old(store).wf(),
        old(stats).users_checked < u64::MAX,
        old(stats).users_removed < u64::MAX,
        old(stats).users_failed < u64::MAX,
    ensures
        final(store).wf(),
        user_checked(
            *old(store),
            *final(store),
            *old(removals),
            *final(removals),
            *old(stats),
            *final(stats),
            allowed_roles@,
            *user,
            *fetched,
            group_id,
        ),
{
    stats.users_checked = stats.users_checked + 1;
    match fetched {
        None => {
            stats.users_failed = stats.users_failed + 1;
        },
        Some(roles) => {
            if has_allowed_roles(roles, allowed_roles) {
                return ;
            }
            // The removal is queued before the link is deleted: after a
            // crash in between, the user is at worst removed again.

            let action = TelegramAction::RemoveUser { id: user.telegram_id, group_id };
            if removals.send(action).is_err() {
                stats.users_failed = stats.users_failed + 1;
                return ;
            }
            UserLink::delete_by_discord_id(store, user.discord_id);
            stats.users_removed = stats.users_removed + 1;
        },
    }
}

/// What a pass over `users` does, given one fetch result per user.
pub open spec fn users_verified(
    old: LinkStore,
    new: LinkStore,
    old_removals: Outbox<TelegramAction>,
    new_removals: Outbox<TelegramAction>,
    allowed: Seq<u64>,
    users: Seq<UserLink>,
    fetched: Seq<Option<Vec<u64>>>,
    group_id: i64,
    stats: VerificationStats,
) -> bool {
    let n = users.len() as int;
    let open = old_removals.is_open();
    &&& new_removals.is_open() == open
    &&& new.states() == old.states()
    &&& new.next_id() == old.next_id()
    &&& stats.users_checked == n
    &&& forall|l: UserLink| #[trigger]
        new.links().contains(l) <==> old.links().contains(l) && !(open && removed_upto(
            users,
            fetched,
            allowed,
            n,
            l.discord_id,
        ))
    &&& if open {
        &&& new_removals.items() == old_removals.items() + removal_actions(
            users,
            fetched,
            allowed,
            group_id,
            n,
        )
        &&& stats.users_removed == count_unqualified(fetched, allowed, n)
        &&& stats.users_failed == count_fetch_failures(fetched, n)
    } else {
        &&& new_removals.items() == old_removals.items()
        &&& stats.users_removed == 0
        &&& stats.users_failed == count_fetch_failures(fetched, n) + count_unqualified(
            fetched,
            allowed,
            n,
        )
    }
}

proof fn lemma_counts_bounded(fetched: Seq<Option<Vec<u64>>>, allowed: Seq<u64>, n: int)
    requires
        0 <= n,
    ensures
        count_unqualified(fetched, allowed, n) + count_fetch_failures(fetched, n) <= n,
    decreases n,
{
    if n > 0 {
        lemma_counts_bounded(fetched, allowed, n - 1);
    }
}

/// Checks every user in turn; one user's failure never stops the others.
pub fn verify_users_in_guild(
    store: &mut LinkStore,
    removals: &mut Outbox<TelegramAction>,
    allowed_roles: &Vec<u64>,
    users: &Vec<UserLink>,
    fetched: &Vec<Option<Vec<u64>>>,
    group_id: i64,
) -> (stats: VerificationStats)
    requires
        old(store).wf(),
        users@.len() == fetched@.len(),
    ensures
        final(store).wf(),
        users_verified(
            *old(store),
            *final(store),
            *old(removals),
            *final(removals),
            allowed_roles@,
            users@,
            fetched@,
            group_id,
            stats,
        ),
{
    let ghost open = removals.is_open();
    let mut stats = VerificationStats::new();
    let mut i: usize = 0;
    while i < users.len()
        invariant
            0 <= i <= users@.len(),
            users@.len() == fetched@.len(),
            store.wf(),
            open == old(removals).is_open(),
            removals.is_open() == open,
            store.states() == old(store).states(),
            store.next_id() == old(store).next_id(),
            stats.users_checked == i,
            forall|l: UserLink| #[trigger]
                store.links().contains(l) <==> old(store).links().contains(l) && !(open
                    && removed_upto(users@, fetched@, allowed_roles@, i as int, l.discord_id)),
            open ==> removals.items() == old(removals).items() + removal_actions(
                users@,
                fetched@,
                allowed_roles@,
                group_id,
                i as int,
            ),
            open ==> stats.users_removed == count_unqualified(fetched@, allowed_roles@, i as int),
            open ==> stats.users_failed == count_fetch_failures(fetched@, i as int),
            !open ==> removals.items() == old(removals).items(),
            !open ==> stats.users_removed == 0,
            !open ==> stats.users_failed == count_fetch_failures(fetched@, i as int)
                + count_unqualified(fetched@, allowed_roles@, i as int),
        decreases users@.len() - i,
    {
        proof {
            lemma_counts_bounded(fetched@, allowed_roles@, i as int);
        }
        let ghost before = *store;
        let ghost removals_before = *removals;
        check_user_roles(
            store,
            removals,
            &mut stats,
            allowed_roles,
            &users[i],
            &fetched[i],
            group_id,
        );
        proof {
            let ii = i as int;
            let d = users@[ii].discord_id;
            let removing = unqualified(fetched@, allowed_roles@, ii);
            assert(removing == (fetched@[ii] is Some && !qualifies(
                fetched@[ii]->Some_0@,
                allowed_roles@,
            )));
            assert forall|dd: i64|
                removed_upto(users@, fetched@, allowed_roles@, ii + 1, dd) <==> removed_upto(
                    users@,
                    fetched@,
                    allowed_roles@,
                    ii,
                    dd,
                ) || (removing && d == dd) by {
                if removed_upto(users@, fetched@, allowed_roles@, ii + 1, dd) {
                    let k = choose|k: int|
                        0 <= k < ii + 1 && unqualified(fetched@, allowed_roles@, k) && (
                        #[trigger] users@[k]).discord_id == dd;
                    if k < ii {
                        assert(removed_upto(users@, fetched@, allowed_roles@, ii, dd));
                    }
                }
                if removed_upto(users@, fetched@, allowed_roles@, ii, dd) {
                    let k = choose|k: int|
                        0 <= k < ii && unqualified(fetched@, allowed_roles@, k) && (
                        #[trigger] users@[k]).discord_id == dd;
                    assert(0 <= k < ii + 1);
                }
                if removing && d == dd {
                    assert(users@[ii].discord_id == dd);
                }
            }
            if removing && open {
                lemma_deleted_links(before, *store, d);
                assert(removal_actions(users@, fetched@, allowed_roles@, group_id, ii + 1)
                    == removal_actions(users@, fetched@, allowed_roles@, group_id, ii).push(
                    TelegramAction::RemoveUser { id: users@[ii].telegram_id, group_id },
                ));
                assert(removals.items() =~= old(removals).items() + removal_actions(
                    users@,
                    fetched@,
                    allowed_roles@,
                    group_id,
                    ii + 1,
                ));
            }
            if open && !removing {
                assert(removals.items() =~= old(removals).items() + removal_actions(
                    users@,
                    fetched@,
                    allowed_roles@,
                    group_id,
                    ii + 1,
                ));
            }
        }
        i = i + 1;
    }
    stats
}

/// Audits the users of one guild. A guild with no allowed roles is skipped:
/// it cannot be evaluated, and removing everyone would be wrong.
pub fn verify_guild_user_roles(
    store: &mut LinkStore,
    removals: &mut Outbox<TelegramAction>,
    allowed_roles: &Vec<u64>,
    users: &Vec<UserLink>,
    fetched: &Vec<Option<Vec<u64>>>,
    group_id: i64,
) -> (stats: VerificationStats)
    requires
        old(store).wf(),
        users@.len() == fetched@.len(),
    ensures
        final(store).wf(),
        allowed_roles@.len() == 0 ==> {
            &&& stats == (VerificationStats { users_checked: 0, users_removed: 0, users_failed: 0 })
            &&& same_store(*old(store), *final(store))
            &&& *final(removals) == *old(removals)
        },
        allowed_roles@.len() > 0 ==> users_verified(
            *old(store),
            *final(store),
            *old(removals),
            *final(removals),
            allowed_roles@,
            users@,
            fetched@,
            group_id,
            stats,
        ),
{
    if allowed_roles.len() == 0 {
        return VerificationStats::new();
    }
    verify_users_in_guild(store, removals, allowed_roles, users, fetched, group_id)
}


pub open spec fn discord_ids_distinct(users: Seq<UserLink>) -> bool {
    forall|a: int, b: int|
        0 <= a < users.len() && 0 <= b < users.len() && a != b ==> (#[trigger] users[a]).discord_id
            != (#[trigger] users[b]).discord_id
}

pub open spec fn telegram_ids_distinct(users: Seq<UserLink>) -> bool {
    forall|a: int, b: int|
        0 <= a < users.len() && 0 <= b < users.len() && a != b ==> (#[trigger] users[a]).telegram_id
            != (#[trigger] users[b]).telegram_id
}

proof fn lemma_removal_contains(
    users: Seq<UserLink>,
    fetched: Seq<Option<Vec<u64>>>,
    allowed: Seq<u64>,
    group_id: i64,
    n: int,
    telegram_id: i64,
)
    requires
        0 <= n <= users.len(),
    ensures
        removal_actions(users, fetched, allowed, group_id, n).contains(
            TelegramAction::RemoveUser { id: telegram_id, group_id },
        ) <==> exists|k: int|
            0 <= k < n && unqualified(fetched, allowed, k) && (#[trigger] users[k]).telegram_id
                == telegram_id,
    decreases n,
{
    let a = TelegramAction::RemoveUser { id: telegram_id, group_id };
    if n > 0 {
        lemma_removal_contains(users, fetched, allowed, group_id, n - 1, telegram_id);
        let prev = removal_actions(users, fetched, allowed, group_id, n - 1);
        let cur = removal_actions(users, fetched, allowed, group_id, n);
        if unqualified(fetched, allowed, n - 1) {
            let b = TelegramAction::RemoveUser { id: users[n - 1].telegram_id, group_id };
            assert(cur == prev.push(b));
            if cur.contains(a) {
                let j = choose|j: int| 0 <= j < cur.len() && cur[j] == a;
                if j < prev.len() {
                    assert(prev[j] == a);
                } else {
                    assert(users[n - 1].telegram_id == telegram_id);
                }
            }
            if exists|k: int|
                0 <= k < n && unqualified(fetched, allowed, k) && (#[trigger] users[k]).telegram_id
                    == telegram_id {
                let k = choose|k: int|
                    0 <= k < n && unqualified(fetched, allowed, k) && (#[trigger] users[k]).telegram_id
                        == telegram_id;
                if k < n - 1 {
                    let j = choose|j: int| 0 <= j < prev.len() && prev[j] == a;
                    assert(cur[j] == a);
                } else {
                    assert(cur[prev.len() as int] == a);
                }
            }
        } else {
            if exists|k: int|
                0 <= k < n && unqualified(fetched, allowed, k) && (#[trigger] users[k]).telegram_id
                    == telegram_id {
                let k = choose|k: int|
                    0 <= k < n && unqualified(fetched, allowed, k) && (#[trigger] users[k]).telegram_id
                        == telegram_id;
                assert(k < n - 1);
            }
        }
    }
}

proof fn lemma_removal_no_duplicates(
    users: Seq<UserLink>,
    fetched: Seq<Option<Vec<u64>>>,
    allowed: Seq<u64>,
    group_id: i64,
    n: int,
)
    requires
        0 <= n <= users.len(),
        telegram_ids_distinct(users),
    ensures
        removal_actions(users, fetched, allowed, group_id, n).no_duplicates(),
    decreases n,
{
    if n > 0 {
        lemma_removal_no_duplicates(users, fetched, allowed, group_id, n - 1);
        let prev = removal_actions(users, fetched, allowed, group_id, n - 1);
        if unqualified(fetched, allowed, n - 1) {
            let t = users[n - 1].telegram_id;
            let b = TelegramAction::RemoveUser { id: t, group_id };
            lemma_removal_contains(users, fetched, allowed, group_id, n - 1, t);
            if prev.contains(b) {
                let k = choose|k: int|
                    0 <= k < n - 1 && unqualified(fetched, allowed, k) && (#[trigger] users[k]).telegram_id
                        == t;
                assert(users[k].telegram_id != users[n - 1].telegram_id);
            }
            let cur = prev.push(b);
            assert forall|i: int, j: int|
                0 <= i < cur.len() && 0 <= j < cur.len() && i != j implies cur[i] != cur[j] by {
                if i < prev.len() && j < prev.len() {
                    assert(cur[i] == prev[i] && cur[j] == prev[j]);
                } else if i < prev.len() {
                    assert(cur[i] == prev[i]);
                } else if j < prev.len() {
                    assert(cur[j] == prev[j]);
                }
            }
        }
    }
}

proof fn lemma_failure_counted(fetched: Seq<Option<Vec<u64>>>, n: int, i: int)
    requires
        0 <= i < n,
        fetched[i] is None,
    ensures
        count_fetch_failures(fetched, n) >= 1,
    decreases n,
{
    if i < n - 1 {
        lemma_failure_counted(fetched, n - 1, i);
    }
}

proof fn lemma_not_removed(
    users: Seq<UserLink>,
    fetched: Seq<Option<Vec<u64>>>,
    allowed: Seq<u64>,
    i: int,
)
    requires
        0 <= i < users.len(),
        discord_ids_distinct(users),
        !unqualified(fetched, allowed, i),
    ensures
        !removed_upto(users, fetched, allowed, users.len() as int, users[i].discord_id),
{
    if removed_upto(users, fetched, allowed, users.len() as int, users[i].discord_id) {
        let k = choose|k: int|
            0 <= k < users.len() && unqualified(fetched, allowed, k) && (#[trigger] users[k]).discord_id
                == users[i].discord_id;
        assert(k != i);
    }
}

/// A user whose roles meet the allowed set is never removed: the link stays
/// and no removal is queued for them.
pub proof fn lemma_qualified_user_kept(
    old: LinkStore,
    new: LinkStore,
    old_removals: Outbox<TelegramAction>,
    new_removals: Outbox<TelegramAction>,
    allowed: Seq<u64>,
    users: Seq<UserLink>,
    fetched: Seq<Option<Vec<u64>>>,
    group_id: i64,
    stats: VerificationStats,
    i: int,
)
    requires
        users_verified(old, new, old_removals, new_removals, allowed, users, fetched, group_id, stats),
        discord_ids_distinct(users),
        telegram_ids_distinct(users),
        0 <= i < users.len(),
        fetched[i] is Some,
        qualifies(fetched[i]->Some_0@, allowed),
    ensures
        forall|l: UserLink|
            old.links().contains(l) && l.discord_id == users[i].discord_id ==> #[trigger] new.links().contains(l),
        !(new_removals.items().subrange(old_removals.items().len() as int, new_removals.items().len() as int).contains(
            TelegramAction::RemoveUser { id: users[i].telegram_id, group_id },
        )),
{
    let n = users.len() as int;
    lemma_not_removed(users, fetched, allowed, i);
    lemma_removal_contains(users, fetched, allowed, group_id, n, users[i].telegram_id);
    let added = new_removals.items().subrange(old_removals.items().len() as int, new_removals.items().len() as int);
    if old_removals.is_open() {
        assert(added =~= removal_actions(users, fetched, allowed, group_id, n));
        if exists|k: int|
            0 <= k < n && unqualified(fetched, allowed, k) && (#[trigger] users[k]).telegram_id
                == users[i].telegram_id {
            let k = choose|k: int|
                0 <= k < n && unqualified(fetched, allowed, k) && (#[trigger] users[k]).telegram_id
                    == users[i].telegram_id;
            assert(k != i);
        }
    } else {
        assert(added =~= Seq::<TelegramAction>::empty());
    }
}

/// A user holding none of the allowed roles loses the link and has exactly
/// one removal queued in the cycle, provided the action queue still has a
/// consumer.
pub proof fn lemma_unqualified_user_removed_once(
    old: LinkStore,
    new: LinkStore,
    old_removals: Outbox<TelegramAction>,
    new_removals: Outbox<TelegramAction>,
    allowed: Seq<u64>,
    users: Seq<UserLink>,
    fetched: Seq<Option<Vec<u64>>>,
    group_id: i64,
    stats: VerificationStats,
    i: int,
)
    requires
        users_verified(old, new, old_removals, new_removals, allowed, users, fetched, group_id, stats),
        telegram_ids_distinct(users),
        old_removals.is_open(),
        0 <= i < users.len(),
        fetched[i] is Some,
        !qualifies(fetched[i]->Some_0@, allowed),
    ensures
        forall|l: UserLink|
            #[trigger] new.links().contains(l) ==> l.discord_id != users[i].discord_id,
        new_removals.items() == old_removals.items() + removal_actions(
            users,
            fetched,
            allowed,
            group_id,
            users.len() as int,
        ),
        removal_actions(users, fetched, allowed, group_id, users.len() as int).contains(
            TelegramAction::RemoveUser { id: users[i].telegram_id, group_id },
        ),
        removal_actions(users, fetched, allowed, group_id, users.len() as int).no_duplicates(),
{
    let n = users.len() as int;
    assert(unqualified(fetched, allowed, i));
    assert(removed_upto(users, fetched, allowed, n, users[i].discord_id));
    lemma_removal_contains(users, fetched, allowed, group_id, n, users[i].telegram_id);
    lemma_removal_no_duplicates(users, fetched, allowed, group_id, n);
}

/// A failed role fetch for one user is counted, keeps that user's link and
/// queues nothing for them, while every other user is still processed.
pub proof fn lemma_fetch_failure_isolated(
    old: LinkStore,
    new: LinkStore,
    old_removals: Outbox<TelegramAction>,
    new_removals: Outbox<TelegramAction>,
    allowed: Seq<u64>,
    users: Seq<UserLink>,
    fetched: Seq<Option<Vec<u64>>>,
    group_id: i64,
    stats: VerificationStats,
    i: int,
)
    requires
        users_verified(old, new, old_removals, new_removals, allowed, users, fetched, group_id, stats),
        discord_ids_distinct(users),
        telegram_ids_distinct(users),
        0 <= i < users.len(),
        fetched[i] is None,
    ensures
        stats.users_checked == users.len(),
        stats.users_failed >= 1,
        forall|l: UserLink|
            old.links().contains(l) && l.discord_id == users[i].discord_id ==> #[trigger] new.links().contains(l),
        !(new_removals.items().subrange(old_removals.items().len() as int, new_removals.items().len() as int).contains(
            TelegramAction::RemoveUser { id: users[i].telegram_id, group_id },
        )),
        forall|j: int|
            0 <= j < users.len() && old_removals.is_open() && #[trigger] unqualified(
                fetched,
                allowed,
                j,
            ) ==> forall|l: UserLink|
                #[trigger] new.links().contains(l) ==> l.discord_id != users[j].discord_id,
{
    let n = users.len() as int;
    lemma_failure_counted(fetched, n, i);
    lemma_counts_bounded(fetched, allowed, n);
    lemma_not_removed(users, fetched, allowed, i);
    lemma_removal_contains(users, fetched, allowed, group_id, n, users[i].telegram_id);
    let added = new_removals.items().subrange(old_removals.items().len() as int, new_removals.items().len() as int);
    if old_removals.is_open() {
        assert(added =~= removal_actions(users, fetched, allowed, group_id, n));
        if exists|k: int|
            0 <= k < n && unqualified(fetched, allowed, k) && (#[trigger] users[k]).telegram_id
                == users[i].telegram_id {
            let k = choose|k: int|
                0 <= k < n && unqualified(fetched, allowed, k) && (#[trigger] users[k]).telegram_id
                    == users[i].telegram_id;
            assert(k != i);
        }
    } else {
        assert(added =~= Seq::<TelegramAction>::empty());
    }
    assert forall|j: int|
        0 <= j < users.len() && old_removals.is_open() && #[trigger] unqualified(
            fetched,
            allowed,
            j,
        ) implies forall|l: UserLink|
        #[trigger] new.links().contains(l) ==> l.discord_id != users[j].discord_id by {
        assert(removed_upto(users, fetched, allowed, n, users[j].discord_id));
    }
}

#[derive(Debug)]
pub struct CronQuery {
    pub secret: String,
}

#[derive(Debug)]
pub struct CronResponse {
    pub ok: bool,
}

pub open spec fn invalid_cron_secret_text() -> Seq<char> {
    "invalid cron secret"@
}

pub open spec fn cron_not_started_text() -> Seq<char> {
    "failed start cron job manually"@
}

/// Requests an out-of-schedule cycle. The caller must present the shared
/// secret; the request fails when the job runner is gone.
pub fn cron_start(env: &Env, params: &CronQuery, cron: &mut Outbox<CronAction>) -> (r: Result<
    CronResponse,
    ApiError,
>)
    ensures
        final(cron).is_open() == old(cron).is_open(),
        params.secret@ != env.cron_secret@ ==> {
            &&& r matches Err(ApiError::PermissionDenied { .. })
            &&& r->Err_0->PermissionDenied_message@ == invalid_cron_secret_text()
            &&& final(cron).items() == old(cron).items()
        },
        params.secret@ == env.cron_secret@ && old(cron).is_open() ==> {
            &&& r is Ok
            &&& r->Ok_0.ok
            &&& final(cron).items() == old(cron).items().push(CronAction::Execute)
        },
        params.secret@ == env.cron_secret@ && !old(cron).is_open() ==> {
            &&& r matches Err(ApiError::Internal { .. })
            &&& r->Err_0->Internal_message@ == cron_not_started_text()
            &&& final(cron).items() == old(cron).items()
        },
{
    if env.cron_secret != params.secret {
        return Err(
            ApiError::PermissionDenied { message: String::from_str("invalid cron secret") },
        );
    }
    if cron.send(CronAction::Execute).is_err() {
        return Err(
            ApiError::Internal { message: String::from_str("failed start cron job manually") },
        );
    }
    Ok(CronResponse { ok: true })
}

} // verus!
