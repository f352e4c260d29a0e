use felbot::discord::{DiscordService, DiscordTokenResponse, DiscordUser};
use felbot::env::Env;
use felbot::error::ApiError;
use felbot::messages::{Outbox, TelegramAction};
use felbot::oauth::{
    complete_link, get_oauth_url, oauth_callback, oauth_start, oauth_url_with, start_with_token,
    OAuthCallbackQueryParams, OAuthStartQueryParams,
};
use felbot::store::{LinkStore, OAuthState, UserLink, UserLinkPayload};

const NOW: i64 = 1_700_000_000;
const GROUP: i64 = -1001;

#[derive(Debug, Clone)]
struct MockDiscordService {
    discord_user: DiscordUser,
    should_fail_token: bool,
    should_fail_user_info: bool,
}

impl MockDiscordService {
    fn new() -> Self {
        Self {
            discord_user: DiscordUser { id: "123".to_string(), username: "test_user".to_string() },
            should_fail_token: false,
            should_fail_user_info: false,
        }
    }

    fn with_user(mut self, id: &str, username: &str) -> Self {
        self.discord_user = DiscordUser { id: id.to_string(), username: username.to_string() };
        self
    }

    fn with_failing_token(mut self) -> Self {
        self.should_fail_token = true;
        self
    }

    fn with_failing_user_info(mut self) -> Self {
        self.should_fail_user_info = true;
        self
    }
}

impl DiscordService for MockDiscordService {
    fn get_access_token(&self, _: &Env, _: &String) -> Result<DiscordTokenResponse, String> {
        if self.should_fail_token {
            Err("Failed to get access token".to_string())
        } else {
            Ok(DiscordTokenResponse { access_token: "sample_access_token".to_string() })
        }
    }

    fn get_user_info(&self, _: &String) -> Result<DiscordUser, String> {
        if self.should_fail_user_info {
            Err("Failed to get user info".to_string())
        } else {
            Ok(self.discord_user.clone())
        }
    }
}

fn test_env() -> Env {
    Env::new(
        "8080".to_string(),
        "postgres://db".to_string(),
        "https://link.example".to_string(),
        "s3cret".to_string(),
        "bot-token".to_string(),
        "client42".to_string(),
        "client-secret".to_string(),
        "https://bot.example/oauth/callback".to_string(),
    )
}

fn callback(
    store: &mut LinkStore,
    invites: &mut Outbox<TelegramAction>,
    service: &MockDiscordService,
    code: &str,
    state: &str,
    now: i64,
) -> Result<String, ApiError> {
    let params = OAuthCallbackQueryParams { code: code.to_string(), state: state.to_string() };
    oauth_callback(store, invites, service, &test_env(), &params, GROUP, now)
}

#[test]
fn test_invalid_telegram_id() {
    let mut store = LinkStore::new();
    let result = oauth_start(&mut store, &Env::empty(), &OAuthStartQueryParams { telegram_id: -1 }, NOW);

    assert!(result.is_err());
    assert!(matches!(result, Err(ApiError::InvalidInput { .. })));
    assert_eq!(result.unwrap_err().to_message(), "Bad request: invalid discord id for oauth flow");
    assert_eq!(store.pending_count(), 0);
}

#[test]
fn test_successful_redirect() {
    let mut store = LinkStore::new();
    let result =
        oauth_start(&mut store, &Env::empty(), &OAuthStartQueryParams { telegram_id: 123 }, NOW)
            .unwrap();
    assert!(result.url.ends_with(&format!("&state={}", result.state_token)));
    assert_eq!(store.pending_count(), 1);
}

#[test]
fn test_already_linked_account() {
    let mut store = LinkStore::new();
    let payload = UserLinkPayload::new(123, 456);
    UserLink::create_link(&mut store, payload, NOW).unwrap();

    let result = oauth_start(&mut store, &Env::empty(), &OAuthStartQueryParams { telegram_id: 456 }, NOW);
    assert!(result.is_err());
    assert!(matches!(result, Err(ApiError::AlreadyLinked)));
    assert_eq!(store.pending_count(), 0);
}

#[test]
fn test_successful_callback() {
    let mut store = LinkStore::new();
    let mut invites = Outbox::new();
    let token = "test_token".to_string();
    OAuthState::create(&mut store, 123, token.clone(), NOW).unwrap();

    let result = callback(&mut store, &mut invites, &MockDiscordService::new(), "test_code", &token, NOW);

    assert!(result.is_ok());
    let html = result.unwrap();
    assert!(html.contains("test_user"));
}

#[test]
fn test_invalid_state() {
    let mut store = LinkStore::new();
    let mut invites = Outbox::new();

    let result = callback(&mut store, &mut invites, &MockDiscordService::new(), "test_code", "invalid_token", NOW);

    assert!(result.is_err());
    assert!(matches!(result, Err(ApiError::InvalidOrExpiredState)));
}

#[test]
fn test_discord_token_failure() {
    let mut store = LinkStore::new();
    let mut invites = Outbox::new();
    let token = "test_token".to_string();
    OAuthState::create(&mut store, 123, token.clone(), NOW).unwrap();

    let service = MockDiscordService::new().with_failing_token();
    let result = callback(&mut store, &mut invites, &service, "test_code", &token, NOW);

    assert!(result.is_err());
    assert!(matches!(result, Err(ApiError::UpstreamError { .. })));
    assert_eq!(store.pending_count(), 0);
    assert_eq!(store.link_count(), 0);
}

#[test]
fn test_user_info_failure() {
    let mut store = LinkStore::new();
    let mut invites = Outbox::new();
    let token = "test_token".to_string();
    OAuthState::create(&mut store, 123, token.clone(), NOW).unwrap();

    let service = MockDiscordService::new().with_failing_user_info();
    let result = callback(&mut store, &mut invites, &service, "test_code", &token, NOW);

    assert!(result.is_err());
    assert!(matches!(result, Err(ApiError::UpstreamError { .. })));
    assert_eq!(invites.len(), 0);
}

#[test]
fn link_flow_scenario_for_telegram_42() {
    let mut store = LinkStore::new();
    let mut invites = Outbox::new();
    let env = test_env();

    let redirect = oauth_start(&mut store, &env, &OAuthStartQueryParams { telegram_id: 42 }, NOW).unwrap();
    let token = redirect.state_token.clone();
    assert_eq!(token.len(), 36);
    assert_eq!(redirect.url, get_oauth_url(&env, &token));

    let alice = MockDiscordService::new().with_user("123", "alice");
    let page = callback(&mut store, &mut invites, &alice, "c1", &token, NOW + 10).unwrap();
    assert!(page.contains("alice"));
    let link = UserLink::find_by_discord_id(&store, 123).unwrap();
    assert_eq!(link.telegram_id, 42);
    assert_eq!(link.added_to_group_at, Some(NOW + 10));
    assert_eq!(store.link_count(), 1);
    assert_eq!(invites.take_all(), vec![TelegramAction::InviteUser { id: 42, group_id: GROUP }]);

    let again = callback(&mut store, &mut invites, &alice, "c1", &token, NOW + 20);
    assert!(matches!(again, Err(ApiError::InvalidOrExpiredState)));
    assert_eq!(invites.len(), 0);

    let restart = oauth_start(&mut store, &env, &OAuthStartQueryParams { telegram_id: 42 }, NOW + 30);
    assert!(matches!(restart, Err(ApiError::AlreadyLinked)));
    assert_eq!(store.pending_count(), 0);
}

#[test]
fn expired_token_is_refused_even_if_never_used() {
    let mut store = LinkStore::new();
    let mut invites = Outbox::new();
    let env = test_env();
    let token = "T".to_string();
    start_with_token(&mut store, &env, &OAuthStartQueryParams { telegram_id: 7 }, token.clone(), NOW).unwrap();

    let late = NOW + felbot::store::STATE_TTL_SECS;
    let result = callback(&mut store, &mut invites, &MockDiscordService::new(), "c", &token, late);
    assert!(matches!(result, Err(ApiError::InvalidOrExpiredState)));
    assert_eq!(store.pending_count(), 1);
    assert_eq!(store.link_count(), 0);
}

#[test]
fn racing_callbacks_for_one_discord_account() {
    let mut store = LinkStore::new();
    let mut invites = Outbox::new();
    let env = test_env();
    start_with_token(&mut store, &env, &OAuthStartQueryParams { telegram_id: 1 }, "A".to_string(), NOW).unwrap();
    start_with_token(&mut store, &env, &OAuthStartQueryParams { telegram_id: 2 }, "B".to_string(), NOW).unwrap();

    let same = MockDiscordService::new().with_user("555", "bob");
    let first = callback(&mut store, &mut invites, &same, "c", "A", NOW + 1);
    let second = callback(&mut store, &mut invites, &same, "c", "B", NOW + 1);
    assert!(first.is_ok());
    assert!(matches!(second, Err(ApiError::Conflict)));
    assert_eq!(store.link_count(), 1);
    assert_eq!(invites.len(), 1);
}

#[test]
fn two_pending_states_of_one_telegram_user_link_once() {
    let mut store = LinkStore::new();
    let mut invites = Outbox::new();
    let telegram_id = 9;
    let user_a = DiscordUser { id: "1".to_string(), username: "a".to_string() };
    let user_b = DiscordUser { id: "2".to_string(), username: "b".to_string() };
    assert!(complete_link(&mut store, &mut invites, telegram_id, &user_a, GROUP, NOW).is_ok());
    let second = complete_link(&mut store, &mut invites, telegram_id, &user_b, GROUP, NOW);
    assert!(matches!(second, Err(ApiError::Conflict)));
}

#[test]
fn non_numeric_discord_id_is_an_upstream_error() {
    let mut store = LinkStore::new();
    let mut invites = Outbox::new();
    let user = DiscordUser { id: "abc".to_string(), username: "x".to_string() };
    let r = complete_link(&mut store, &mut invites, 1, &user, GROUP, NOW);
    match r {
        Err(e) => {
            assert_eq!(e.status_code(), 502);
            assert_eq!(e.to_message(), "Discord API error: Invalid discord id");
        }
        Ok(_) => panic!("expected an upstream error"),
    }
    assert_eq!(store.link_count(), 0);
}

#[test]
fn closed_invite_queue_keeps_link_unstamped() {
    let mut store = LinkStore::new();
    let mut invites: Outbox<TelegramAction> = Outbox::new();
    invites.close();
    let user = DiscordUser { id: "77".to_string(), username: "z".to_string() };
    let r = complete_link(&mut store, &mut invites, 5, &user, GROUP, NOW);
    assert_eq!(r.unwrap(), "z");
    let link = UserLink::find_by_discord_id(&store, 77).unwrap();
    assert_eq!(link.added_to_group_at, None);
    assert_eq!(invites.len(), 0);
}

#[test]
fn oauth_url_encodes_the_redirect() {
    let env = test_env();
    let token = "tok".to_string();
    let url = get_oauth_url(&env, &token);
    assert_eq!(
        url,
        "https://discord.com/api/oauth2/authorize?client_id=client42&redirect_uri=https%3A%2F%2Fbot.example%2Foauth%2Fcallback&response_type=code&scope=identify&state=tok"
    );
    let plain = oauth_url_with(&"c".to_string(), &"r".to_string(), &"t".to_string());
    assert_eq!(
        plain,
        "https://discord.com/api/oauth2/authorize?client_id=c&redirect_uri=r&response_type=code&scope=identify&state=t"
    );
}

#[test]
fn fresh_tokens_differ() {
    let mut store = LinkStore::new();
    let env = Env::empty();
    let a = oauth_start(&mut store, &env, &OAuthStartQueryParams { telegram_id: 1 }, NOW).unwrap();
    let b = oauth_start(&mut store, &env, &OAuthStartQueryParams { telegram_id: 1 }, NOW).unwrap();
    assert_ne!(a.state_token, b.state_token);
    assert_eq!(a.state_token.matches('-').count(), 4);
    assert_eq!(store.pending_count(), 2);
}

#[test]
fn error_statuses_and_messages() {
    assert_eq!(ApiError::bad_request("x".to_string()).status_code(), 400);
    assert_eq!(ApiError::InvalidOrExpiredState.status_code(), 400);
    assert_eq!(ApiError::AlreadyLinked.status_code(), 400);
    assert_eq!(ApiError::Conflict.status_code(), 400);
    assert_eq!(ApiError::discord_api("x".to_string()).status_code(), 502);
    assert_eq!(ApiError::StorageError { message: "x".to_string() }.status_code(), 500);
    assert_eq!(ApiError::Internal { message: "x".to_string() }.status_code(), 500);
    assert_eq!(ApiError::PermissionDenied { message: "x".to_string() }.status_code(), 400);
    assert_eq!(
        ApiError::StorageError { message: "secret detail".to_string() }.to_message(),
        "Database error occurred"
    );
    assert_eq!(
        ApiError::Conflict.to_message(),
        "Discord account is already linked to a Telegram account"
    );
    assert_eq!(
        ApiError::PermissionDenied { message: "invalid cron secret".to_string() }.to_message(),
        "Forbidden: invalid cron secret"
    );
}
