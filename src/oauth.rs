//! The OAuth linker: starting a linking attempt, and completing it once
//! Discord has confirmed the user's identity.
use vstd::prelude::*;
use vstd::string::*;

use crate::decimal::{decimal_i64, parse_i64};
use crate::discord::{DiscordService, DiscordUser};
use crate::env::Env;
use crate::error::ApiError;
use crate::messages::{Outbox, TelegramAction};
use crate::store::{
    has_live_state, has_token, is_live, links_discord, links_telegram, mark_added, new_link,
    new_state, same_store, state_taken, valid_time, LinkStore, OAuthState, UserLink,
    UserLinkPayload,
};

verus! {

#[derive(Debug)]
pub struct OAuthStartQueryParams {
    pub telegram_id: i64,
}

#[derive(Debug)]
pub struct OAuthCallbackQueryParams {
    pub code: String,
    pub state: String,
}

/// Where to send the user, and the state token that the URL carries.
#[derive(Debug)]
pub struct OAuthRedirect {
    pub url: String,
    pub state_token: String,
}

/// The percent-encoding of a string, as `urlencoding::encode` computes it.
pub uninterp spec fn url_encoded(s: Seq<char>) -> Seq<char>;

/// Relies on `urlencoding::encode`: the encoding depends on the text alone.
#[verifier::external_body]
fn encode_component(s: &str) -> (r: String)
    ensures
        r@ == url_encoded(s@),
{
    urlencoding::encode(s).into_owned()
}

/// Relies on `uuid::Uuid::new_v4` and the hyphenated form that its
/// `to_string` writes: 36 characters drawn from 122 random bits.
#[verifier::external_body]
fn fresh_token() -> (r: String)
    ensures
        r@.len() == 36,
{
    uuid::Uuid::new_v4().to_string()
}

/// Discord's authorization URL for a client, an already encoded redirect
/// URI and a state token.
pub open spec fn oauth_url(client_id: Seq<char>, encoded_redirect: Seq<char>, token: Seq<char>) -> Seq<
    char,
> {
    "https://discord.com/api/oauth2/authorize?client_id="@ + client_id + "&redirect_uri="@
        + encoded_redirect + "&response_type=code&scope=identify&state="@ + token
}

pub open spec fn env_oauth_url(env: Env, token: Seq<char>) -> Seq<char> {
    oauth_url(env.discord_client_id@, url_encoded(env.discord_oauth_redirect@), token)
}

pub open spec fn invalid_telegram_id_text() -> Seq<char> {
    "invalid discord id for oauth flow"@
}

pub open spec fn invalid_discord_id_text() -> Seq<char> {
    "Invalid discord id"@
}

/// Builds the authorization URL from an encoded redirect URI.
pub fn oauth_url_with(client_id: &String, encoded_redirect: &String, token: &String) -> (r: String)
    ensures
        r@ == oauth_url(client_id@, encoded_redirect@, token@),
{
    let mut url = String::from_str("https://discord.com/api/oauth2/authorize?client_id=");
    url.append(client_id.as_str());
    url.append("&redirect_uri=");
    url.append(encoded_redirect.as_str());
    url.append("&response_type=code&scope=identify&state=");
    url.append(token.as_str());
    url
}

/// Discord's authorization URL for this deployment, carrying `token` as
/// its `state` value.
pub fn get_oauth_url(env: &Env, token: &String) -> (r: String)
    ensures
        r@ == env_oauth_url(*env, token@),
{
    let redirect = encode_component(env.discord_oauth_redirect.as_str());
    oauth_url_with(&env.discord_client_id, &redirect, token)
}

/// What starting a linking attempt with a given token does. A Telegram id
/// below 1 is invalid input; an account that is already linked is refused
/// and no state is created; a token that is already pending, or a store
/// out of identifiers, is a storage error; otherwise one pending state is
/// added and the user is sent to Discord with the token.
pub open spec fn start_outcome(
    old: LinkStore,
    new: LinkStore,
    env: Env,
    telegram_id: i64,
    token: String,
    now: i64,
    r: Result<OAuthRedirect, ApiError>,
) -> bool {
    if telegram_id < 1 {
        &&& r matches Err(ApiError::InvalidInput { message })
        &&& r->Err_0->InvalidInput_message@ == invalid_telegram_id_text()
        &&& same_store(old, new)
    } else if links_telegram(old.links(), telegram_id) {
        &&& r == Err::<OAuthRedirect, ApiError>(ApiError::AlreadyLinked)
        &&& same_store(old, new)
    } else if has_token(old.states(), token@) || old.next_id() == u64::MAX {
        &&& r matches Err(ApiError::StorageError { .. })
        &&& same_store(old, new)
    } else {
        &&& r is Ok
        &&& r->Ok_0.state_token@ == token@
        &&& r->Ok_0.url@ == env_oauth_url(env, token@)
        &&& new.states() == old.states().push(new_state(old.next_id(), token, telegram_id, now))
        &&& new.links() == old.links()
        &&& new.next_id() == old.next_id() + 1
    }
}

/// Starts a linking attempt under the given state token.
pub fn start_with_token(
    store: &mut LinkStore,
    env: &Env,
    params: &OAuthStartQueryParams,
    token: String,
    now: i64,
) -> (r: Result<OAuthRedirect, ApiError>)
    requires
        old(store).wf(),
        valid_time(now),
    ensures
        final(store).wf(),
        start_outcome(*old(store), *final(store), *env, params.telegram_id, token, now, r),
{
    if params.telegram_id < 1 {
        return Err(ApiError::bad_request(String::from_str("invalid discord id for oauth flow")));
    }
    if UserLink::find_by_telegram_id(store, params.telegram_id).is_some() {
        return Err(ApiError::AlreadyLinked);
    }
    match OAuthState::create(store, params.telegram_id, token, now) {
        Ok(state) => {
            let url = get_oauth_url(env, &state.state_token);
            Ok(OAuthRedirect { url, state_token: state.state_token })
        },
        Err(e) => Err(e),
    }
}

/// Starts a linking attempt under a fresh random token.
pub fn oauth_start(
    store: &mut LinkStore,
    env: &Env,
    params: &OAuthStartQueryParams,
    now: i64,
) -> (r: Result<OAuthRedirect, ApiError>)
    requires
        old(store).wf(),
        valid_time(now),
    ensures
        final(store).wf(),
        exists|token: String|
            token@.len() == 36 && start_outcome(
                *old(store),
                *final(store),
                *env,
                params.telegram_id,
                token,
                now,
                r,
            ),
{
    let token = fresh_token();
    let ghost t = token;
    let r = start_with_token(store, env, params, token, now);
    assert(t@.len() == 36 && start_outcome(
        *old(store),
        *store,
        *env,
        params.telegram_id,
        t,
        now,
        r,
    ));
    r
}

/// Consumes the live pending state of a token.
pub fn get_oauth_state(store: &mut LinkStore, token: &String, now: i64) -> (r: Result<
    OAuthState,
    ApiError,
>)
    requires
        old(store).wf(),
    ensures
        final(store).wf(),
        state_taken(*old(store), *final(store), token@, now, r.ok()),
        r is Err ==> r == Err::<OAuthState, ApiError>(ApiError::InvalidOrExpiredState),
{
    match OAuthState::get_and_delete(store, token, now) {
        Some(state) => Ok(state),
        None => Err(ApiError::InvalidOrExpiredState),
    }
}

/// A Discord account may be linked only when it has no link yet.
pub fn can_link_accounts(store: &LinkStore, discord_id: i64) -> (r: Result<bool, ApiError>)
    requires
        store.wf(),
    ensures
        links_discord(store.links(), discord_id) ==> r == Err::<bool, ApiError>(
            ApiError::Conflict,
        ),
        !links_discord(store.links(), discord_id) ==> r == Ok::<bool, ApiError>(true),
{
    match UserLink::find_by_discord_id(store, discord_id) {
        Some(_) => Err(ApiError::Conflict),
        None => Ok(true),
    }
}

/// Links two identities after checking that the Discord account is free.
pub fn create_user_link(store: &mut LinkStore, discord_id: i64, telegram_id: i64, now: i64) -> (r:
    Result<UserLink, ApiError>)
    requires
        old(store).wf(),
    ensures
        final(store).wf(),
        crate::store::link_created(
            *old(store),
            *final(store),
            UserLinkPayload { discord_id, telegram_id },
            now,
            r,
        ),
{
    if let Err(e) = can_link_accounts(store, discord_id) {
        return Err(e);
    }
    let payload = UserLinkPayload::new(discord_id, telegram_id);
    UserLink::create_link(store, payload, now)
}

/// What completing a link does once Discord has named the user. An id that
/// is not a number is an upstream error; an identity that is linked already
/// is a conflict; a store out of identifiers is a storage error. Otherwise
/// one link is added, one invite is queued (when the queue still has a
/// consumer, in which case the link is stamped as added to the group), and
/// the Discord username is returned.
pub open spec fn link_completed(
    old: LinkStore,
    new: LinkStore,
    old_invites: Outbox<TelegramAction>,
    new_invites: Outbox<TelegramAction>,
    telegram_id: i64,
    user: DiscordUser,
    group_id: i64,
    now: i64,
    r: Result<String, ApiError>,
) -> bool {
    &&& new_invites.is_open() == old_invites.is_open()
    &&& match decimal_i64(user.id@) {
        None => {
            &&& r matches Err(ApiError::UpstreamError { .. })
            &&& r->Err_0->UpstreamError_message@ == invalid_discord_id_text()
            &&& same_store(old, new)
            &&& new_invites.items() == old_invites.items()
        },
        Some(discord_id) => if links_discord(old.links(), discord_id) || links_telegram(
            old.links(),
            telegram_id,
        ) {
            &&& r == Err::<String, ApiError>(ApiError::Conflict)
            &&& same_store(old, new)
            &&& new_invites.items() == old_invites.items()
        } else if old.next_id() == u64::MAX {
            &&& r matches Err(ApiError::StorageError { .. })
            &&& same_store(old, new)
            &&& new_invites.items() == old_invites.items()
        } else {
            let l = new_link(old.next_id(), UserLinkPayload { discord_id, telegram_id }, now);
            &&& r is Ok
            &&& r->Ok_0@ == user.username@
            &&& new.states() == old.states()
            &&& new.next_id() == old.next_id() + 1
            &&& if old_invites.is_open() {
                &&& new_invites.items() == old_invites.items().push(
                    TelegramAction::InviteUser { id: telegram_id, group_id },
                )
                &&& new.links() == old.links().push(mark_added(l, l.id, now))
            } else {
                &&& new_invites.items() == old_invites.items()
                &&& new.links() == old.links().push(l)
            }
        },
    }
}

/// Completes a link for the Telegram user of a consumed state, given the
/// identity that Discord returned.
pub fn complete_link(
    store: &mut LinkStore,
    invites: &mut Outbox<TelegramAction>,
    telegram_id: i64,
    user: &DiscordUser,
    group_id: i64,
    now: i64,
) -> (r: Result<String, ApiError>)
    requires
        old(store).wf(),
    ensures
        final(store).wf(),
        link_completed(
            *old(store),
            *final(store),
            *old(invites),
            *final(invites),
            telegram_id,
            *user,
            group_id,
            now,
            r,
        ),
{
    let discord_id = match parse_i64(user.id.as_str()) {
        Some(id) => id,
        None => {
            return Err(ApiError::discord_api(String::from_str("Invalid discord id")));
        },
    };
    let link = match create_user_link(store, discord_id, telegram_id, now) {
        Ok(link) => link,
        Err(e) => {
            return Err(e);
        },
    };
    let ghost linked = *store;
    let action = TelegramAction::InviteUser { id: telegram_id, group_id };
    if invites.send(action).is_ok() {
        UserLink::mark_added_to_group(store, link.id, now);
        assert(store.links() =~= old(store).links().push(mark_added(link, link.id, now))) by {
            assert forall|k: int| 0 <= k < old(store).links().len() implies mark_added(
                #[trigger] old(store).links()[k],
                link.id,
                now,
            ) == old(store).links()[k] by {
                assert(old(store).links()[k].id < old(store).next_id());
            }
            assert(linked.links() == old(store).links().push(link));
        }
    }
    Ok(user.username.clone())
}

/// What a callback does. A token without a live pending state is refused
/// and nothing changes. Otherwise the state is consumed for good; then
/// either Discord fails (an upstream error, nothing else changes) or the
/// link is completed for the identity that Discord returned.
pub open spec fn callback_outcome(
    old: LinkStore,
    new: LinkStore,
    old_invites: Outbox<TelegramAction>,
    new_invites: Outbox<TelegramAction>,
    token: Seq<char>,
    group_id: i64,
    now: i64,
    r: Result<String, ApiError>,
) -> bool {
    if !has_live_state(old.states(), token, now) {
        &&& r == Err::<String, ApiError>(ApiError::InvalidOrExpiredState)
        &&& same_store(old, new)
        &&& new_invites == old_invites
    } else {
        exists|consumed: LinkStore, state: OAuthState|
            #[trigger] state_taken(old, consumed, token, now, Some(state)) && {
                ||| {
                    &&& r matches Err(ApiError::UpstreamError { .. })
                    &&& same_store(consumed, new)
                    &&& new_invites == old_invites
                }
                ||| exists|user: DiscordUser|
                    #[trigger] link_completed(
                        consumed,
                        new,
                        old_invites,
                        new_invites,
                        state.telegram_id,
                        user,
                        group_id,
                        now,
                        r,
                    )
            }
    }
}

/// Handles Discord's redirect back: consumes the pending state, exchanges
/// the code, fetches the identity and links the two accounts. Returns the
/// Discord username.
pub fn oauth_callback<D: DiscordService>(
    store: &mut LinkStore,
    invites: &mut Outbox<TelegramAction>,
    service: &D,
    env: &Env,
    params: &OAuthCallbackQueryParams,
    group_id: i64,
    now: i64,
) -> (r: Result<String, ApiError>)
    requires
        old(store).wf(),
    ensures
        final(store).wf(),
        callback_outcome(
            *old(store),
            *final(store),
            *old(invites),
            *final(invites),
            params.state@,
            group_id,
            now,
            r,
        ),
{
    let state = match get_oauth_state(store, &params.state, now) {
        Ok(state) => state,
        Err(e) => {
            return Err(e);
        },
    };
    let ghost consumed = *store;
    assert(state_taken(*old(store), consumed, params.state@, now, Some(state)));
    let token = match service.get_access_token(env, &params.code) {
        Ok(token) => token,
        Err(message) => {
            return Err(ApiError::discord_api(message));
        },
    };
    let user = match service.get_user_info(&token.access_token) {
        Ok(user) => user,
        Err(message) => {
            return Err(ApiError::discord_api(message));
        },
    };
    let r = complete_link(store, invites, state.telegram_id, &user, group_id, now);
    assert(link_completed(
        consumed,
        *store,
        *old(invites),
        *invites,
        state.telegram_id,
        user,
        group_id,
        now,
        r,
    ));
    r
}

/// A Telegram account with an active link cannot start another linking
/// attempt: the start is refused and no pending state is created.
pub proof fn lemma_linked_account_cannot_start(
    old: LinkStore,
    new: LinkStore,
    env: Env,
    telegram_id: i64,
    token: String,
    now: i64,
    r: Result<OAuthRedirect, ApiError>,
)
    requires
        start_outcome(old, new, env, telegram_id, token, now, r),
        telegram_id >= 1,
        links_telegram(old.links(), telegram_id),
    ensures
        r == Err::<OAuthRedirect, ApiError>(ApiError::AlreadyLinked),
        new.states() == old.states(),
{
}

/// A successful start hands out a token that no pending state held before,
/// and afterwards exactly one pending state holds it.
pub proof fn lemma_started_token_fresh(
    old: LinkStore,
    new: LinkStore,
    env: Env,
    telegram_id: i64,
    token: String,
    now: i64,
    r: Result<OAuthRedirect, ApiError>,
)
    requires
        start_outcome(old, new, env, telegram_id, token, now, r),
        new.wf(),
        r is Ok,
    ensures
        !has_token(old.states(), token@),
        exists|i: int|
            0 <= i < new.states().len() && (#[trigger] new.states()[i]).state_token@ == token@
                && forall|j: int|
                0 <= j < new.states().len() && j != i ==> (#[trigger] new.states()[j]).state_token@
                    != token@,
{
    let i = old.states().len() as int;
    assert(new.states()[i].state_token@ == token@);
}

proof fn lemma_consumed_token_gone(
    old: LinkStore,
    new: LinkStore,
    old_invites: Outbox<TelegramAction>,
    new_invites: Outbox<TelegramAction>,
    token: Seq<char>,
    group_id: i64,
    now: i64,
    r: Result<String, ApiError>,
)
    requires
        old.wf(),
        callback_outcome(old, new, old_invites, new_invites, token, group_id, now, r),
        has_live_state(old.states(), token, now),
    ensures
        !has_token(new.states(), token),
{
    let (consumed, state) = choose|consumed: LinkStore, state: OAuthState|
        #[trigger] state_taken(old, consumed, token, now, Some(state)) && {
            ||| {
                &&& r matches Err(ApiError::UpstreamError { .. })
                &&& same_store(consumed, new)
                &&& new_invites == old_invites
            }
            ||| exists|user: DiscordUser|
                #[trigger] link_completed(
                    consumed,
                    new,
                    old_invites,
                    new_invites,
                    state.telegram_id,
                    user,
                    group_id,
                    now,
                    r,
                )
        };
    let i = choose|i: int|
        0 <= i < old.states().len() && is_live(old.states()[i], token, now) && Some(state) == Some(
            old.states()[i],
        ) && consumed.states() == old.states().remove(i);
    assert(new.states() == consumed.states());
    if has_token(new.states(), token) {
        let k = choose|k: int|
            0 <= k < new.states().len() && (#[trigger] new.states()[k]).state_token@ == token;
        let ok = if k < i { k } else { k + 1 };
        assert(old.states()[ok] == new.states()[k]);
        assert(old.states()[i].state_token@ == token);
    }
}

/// A state token is good for one callback only: once a callback has
/// consumed it, a second callback with the same token is refused and
/// changes nothing.
pub proof fn lemma_token_single_use(
    s0: LinkStore,
    s1: LinkStore,
    s2: LinkStore,
    q0: Outbox<TelegramAction>,
    q1: Outbox<TelegramAction>,
    q2: Outbox<TelegramAction>,
    token: Seq<char>,
    group_id: i64,
    now1: i64,
    now2: i64,
    r1: Result<String, ApiError>,
    r2: Result<String, ApiError>,
)
    requires
        s0.wf(),
        callback_outcome(s0, s1, q0, q1, token, group_id, now1, r1),
        has_live_state(s0.states(), token, now1),
        callback_outcome(s1, s2, q1, q2, token, group_id, now2, r2),
    ensures
        r2 == Err::<String, ApiError>(ApiError::InvalidOrExpiredState),
        same_store(s1, s2),
        q2 == q1,
{
    lemma_consumed_token_gone(s0, s1, q0, q1, token, group_id, now1, r1);
}

/// A callback whose token has only expired states behind it is refused,
/// even though the state was never consumed.
pub proof fn lemma_expired_token_rejected(
    old: LinkStore,
    new: LinkStore,
    old_invites: Outbox<TelegramAction>,
    new_invites: Outbox<TelegramAction>,
    token: Seq<char>,
    group_id: i64,
    now: i64,
    r: Result<String, ApiError>,
)
    requires
        callback_outcome(old, new, old_invites, new_invites, token, group_id, now, r),
        forall|i: int|
            0 <= i < old.states().len() && (#[trigger] old.states()[i]).state_token@ == token
                ==> old.states()[i].expires_at <= now,
    ensures
        r == Err::<String, ApiError>(ApiError::InvalidOrExpiredState),
        same_store(old, new),
{
}

/// After a successful callback exactly one link pairs the Telegram user of
/// the consumed state with a Discord identity, and exactly one invite for
/// that user was queued, provided the queue has a consumer.
pub proof fn lemma_callback_links_once(
    old: LinkStore,
    new: LinkStore,
    old_invites: Outbox<TelegramAction>,
    new_invites: Outbox<TelegramAction>,
    token: Seq<char>,
    group_id: i64,
    now: i64,
    r: Result<String, ApiError>,
)
    requires
        old.wf(),
        new.wf(),
        callback_outcome(old, new, old_invites, new_invites, token, group_id, now, r),
        r is Ok,
        old_invites.is_open(),
    ensures
        exists|k: int, i: int|
            0 <= k < old.states().len() && is_live(#[trigger] old.states()[k], token, now) && 0 <= i
                < new.links().len() && (#[trigger] new.links()[i]).telegram_id == old.states()[k].telegram_id
                && !links_discord(old.links(), new.links()[i].discord_id) && (forall|j: int|
                0 <= j < new.links().len() && j != i ==> (#[trigger] new.links()[j]).discord_id
                    != new.links()[i].discord_id && new.links()[j].telegram_id
                    != new.links()[i].telegram_id) && new_invites.items() == old_invites.items().push(
                TelegramAction::InviteUser { id: old.states()[k].telegram_id, group_id },
            ),
{
    let (consumed, state) = choose|consumed: LinkStore, state: OAuthState|
        #[trigger] state_taken(old, consumed, token, now, Some(state)) && {
            ||| {
                &&& r matches Err(ApiError::UpstreamError { .. })
                &&& same_store(consumed, new)
                &&& new_invites == old_invites
            }
            ||| exists|user: DiscordUser|
                #[trigger] link_completed(
                    consumed,
                    new,
                    old_invites,
                    new_invites,
                    state.telegram_id,
                    user,
                    group_id,
                    now,
                    r,
                )
        };
    let user = choose|user: DiscordUser|
        #[trigger] link_completed(
            consumed,
            new,
            old_invites,
            new_invites,
            state.telegram_id,
            user,
            group_id,
            now,
            r,
        );
    let k = choose|k: int|
        0 <= k < old.states().len() && is_live(old.states()[k], token, now) && Some(state) == Some(
            old.states()[k],
        ) && consumed.states() == old.states().remove(k);
    let i = consumed.links().len() as int;
    let d = decimal_i64(user.id@)->Some_0;
    assert(new.links()[i].telegram_id == state.telegram_id);
    assert(new.links()[i].discord_id == d);
    assert(consumed.links() == old.links());
}

/// Two callbacks that Discord resolves to the same account, each with its
/// own valid pending state, link that account once: the first succeeds and
/// the second is a conflict.
pub proof fn lemma_racing_callbacks_one_wins(
    s0: LinkStore,
    s1: LinkStore,
    s2: LinkStore,
    q0: Outbox<TelegramAction>,
    q1: Outbox<TelegramAction>,
    q2: Outbox<TelegramAction>,
    telegram_id1: i64,
    telegram_id2: i64,
    user1: DiscordUser,
    user2: DiscordUser,
    group_id: i64,
    now1: i64,
    now2: i64,
    r1: Result<String, ApiError>,
    r2: Result<String, ApiError>,
)
    requires
        s0.wf(),
        link_completed(s0, s1, q0, q1, telegram_id1, user1, group_id, now1, r1),
        link_completed(s1, s2, q1, q2, telegram_id2, user2, group_id, now2, r2),
        decimal_i64(user1.id@) is Some,
        decimal_i64(user2.id@) == decimal_i64(user1.id@),
        !links_discord(s0.links(), decimal_i64(user1.id@)->Some_0),
        !links_telegram(s0.links(), telegram_id1),
        s0.next_id() < u64::MAX,
    ensures
        r1 is Ok,
        r2 == Err::<String, ApiError>(ApiError::Conflict),
        same_store(s1, s2),
{
    let d = decimal_i64(user1.id@)->Some_0;
    let i = s0.links().len() as int;
    assert(s1.links()[i].discord_id == d);
    assert(links_discord(s1.links(), d));
}

} // verus!
