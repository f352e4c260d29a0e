use felbot::cron::{
    cron_start, has_allowed_roles, verify_guild_user_roles, verify_users_in_guild, CronQuery,
    RoleVerificationConfig, VerificationStats,
};
use felbot::env::Env;
use felbot::error::ApiError;
use felbot::messages::{CronAction, Outbox, TelegramAction};
use felbot::replies::make_invite_message;
use felbot::store::{LinkStore, UserLink, UserLinkPayload};

const NOW: i64 = 1_700_000_000;
const GROUP: i64 = -500;

fn store_with(pairs: &[(i64, i64)]) -> LinkStore {
    let mut store = LinkStore::new();
    for (d, t) in pairs {
        UserLink::create_link(&mut store, UserLinkPayload::new(*d, *t), NOW).unwrap();
    }
    store
}

#[test]
fn verifier_cycle_scenario() {
    // A keeps role 10, B holds only 30, C's fetch fails.
    let mut store = store_with(&[(1, 101), (2, 102), (3, 103)]);
    let mut removals = Outbox::new();
    let allowed = vec![10u64, 20];
    let users = UserLink::get_all_users(&store);
    let fetched = vec![Some(vec![10u64]), Some(vec![30u64]), None];

    let stats = verify_guild_user_roles(&mut store, &mut removals, &allowed, &users, &fetched, GROUP);

    assert_eq!(stats, VerificationStats { users_checked: 3, users_removed: 1, users_failed: 1 });
    assert!(UserLink::find_by_discord_id(&store, 1).is_some());
    assert!(UserLink::find_by_discord_id(&store, 2).is_none());
    assert!(UserLink::find_by_discord_id(&store, 3).is_some());
    assert_eq!(removals.take_all(), vec![TelegramAction::RemoveUser { id: 102, group_id: GROUP }]);
}

#[test]
fn guild_without_allowed_roles_is_skipped() {
    let mut store = store_with(&[(1, 101)]);
    let mut removals = Outbox::new();
    let users = UserLink::get_all_users(&store);
    let fetched = vec![Some(vec![30u64])];
    let stats = verify_guild_user_roles(&mut store, &mut removals, &vec![], &users, &fetched, GROUP);
    assert_eq!(stats, VerificationStats::new());
    assert_eq!(store.link_count(), 1);
    assert_eq!(removals.len(), 0);
}

#[test]
fn closed_queue_keeps_links_and_counts_failures() {
    let mut store = store_with(&[(1, 101), (2, 102)]);
    let mut removals: Outbox<TelegramAction> = Outbox::new();
    removals.close();
    let users = UserLink::get_all_users(&store);
    let fetched = vec![Some(vec![30u64]), Some(vec![]),];
    let stats = verify_users_in_guild(&mut store, &mut removals, &vec![10u64], &users, &fetched, GROUP);
    assert_eq!(stats, VerificationStats { users_checked: 2, users_removed: 0, users_failed: 2 });
    assert_eq!(store.link_count(), 2);
    assert_eq!(removals.len(), 0);
}

#[test]
fn failure_of_one_fetch_does_not_stop_the_rest() {
    let mut store = store_with(&[(1, 101), (2, 102), (3, 103)]);
    let mut removals = Outbox::new();
    let users = UserLink::get_all_users(&store);
    let fetched = vec![None, Some(vec![1u64]), Some(vec![2u64])];
    let stats = verify_users_in_guild(&mut store, &mut removals, &vec![9u64], &users, &fetched, GROUP);
    assert_eq!(stats, VerificationStats { users_checked: 3, users_removed: 2, users_failed: 1 });
    assert_eq!(UserLink::get_all_users(&store).len(), 1);
    assert_eq!(
        removals.take_all(),
        vec![
            TelegramAction::RemoveUser { id: 102, group_id: GROUP },
            TelegramAction::RemoveUser { id: 103, group_id: GROUP },
        ]
    );
}

#[test]
fn role_intersection() {
    assert!(has_allowed_roles(&vec![3, 10], &vec![10, 20]));
    assert!(!has_allowed_roles(&vec![30], &vec![10, 20]));
    assert!(!has_allowed_roles(&vec![], &vec![10]));
    assert!(!has_allowed_roles(&vec![10], &vec![]));
}

#[test]
fn stats_add_up() {
    let mut total = VerificationStats { users_checked: 1, users_removed: 2, users_failed: 3 };
    total.add_assign(VerificationStats { users_checked: 10, users_removed: 20, users_failed: 30 });
    assert_eq!(total, VerificationStats { users_checked: 11, users_removed: 22, users_failed: 33 });
}

#[test]
fn default_config() {
    let config = RoleVerificationConfig::default();
    assert_eq!(config.api_delay_ms, 250);
    assert_eq!(config.schedule_interval_secs, 24 * 60 * 60);
}

fn env_with_secret(secret: &str) -> Env {
    let mut env = Env::empty();
    env.cron_secret = secret.to_string();
    env
}

#[test]
fn manual_trigger_checks_secret() {
    let env = env_with_secret("s3cret");
    let mut cron = Outbox::new();

    let bad = cron_start(&env, &CronQuery { secret: "nope".to_string() }, &mut cron);
    assert!(matches!(bad, Err(ApiError::PermissionDenied { .. })));
    assert_eq!(cron.len(), 0);

    let ok = cron_start(&env, &CronQuery { secret: "s3cret".to_string() }, &mut cron).unwrap();
    assert!(ok.ok);
    assert_eq!(cron.take_all(), vec![CronAction::Execute]);

    cron.close();
    let gone = cron_start(&env, &CronQuery { secret: "s3cret".to_string() }, &mut cron);
    match gone {
        Err(e) => {
            assert_eq!(e.status_code(), 500);
            assert_eq!(e.to_message(), "Internal server error: failed start cron job manually");
        }
        Ok(_) => panic!("expected an internal error"),
    }
}

#[test]
fn outbox_keeps_submission_order() {
    let mut q = Outbox::new();
    q.send(TelegramAction::InviteUser { id: 1, group_id: 2 }).unwrap();
    q.send(TelegramAction::RemoveUser { id: 3, group_id: 2 }).unwrap();
    assert_eq!(
        q.take_all(),
        vec![
            TelegramAction::InviteUser { id: 1, group_id: 2 },
            TelegramAction::RemoveUser { id: 3, group_id: 2 },
        ]
    );
    assert_eq!(q.len(), 0);
    q.close();
    assert!(q.is_closed());
    assert_eq!(q.send(TelegramAction::InviteUser { id: 9, group_id: 9 }), Err(TelegramAction::InviteUser { id: 9, group_id: 9 }));
}

#[test]
fn invite_message_text() {
    let text = make_invite_message("https://t.me/+abc".to_string());
    assert_eq!(
        text,
        "<b>Oioi, falei que era facinho! aqui tá seu link de convite</b>\n\n<a href=\"https://t.me/+abc\">Clique aqui pra entrar no grupo</a>"
    );
}

#[test]
fn empty_env_is_empty() {
    let env = Env::empty();
    assert!(env.port.is_empty());
    assert!(env.discord_client_id.is_empty());
    assert!(env.discord_oauth_redirect.is_empty());
}
