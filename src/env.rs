//! Process-wide configuration, built once at startup and passed by reference.
use vstd::prelude::*;
use vstd::string::*;

verus! {

#[derive(Clone, Debug)]
pub struct Env {
    pub port: String,
    pub database_url: String,
    pub account_link_url: String,
    pub cron_secret: String,
    pub discord_token: String,
    pub discord_client_id: String,
    pub discord_client_secret: String,
    pub discord_oauth_redirect: String,
}

impl Env {
    pub fn new(
        port: String,
        database_url: String,
        account_link_url: String,
        cron_secret: String,
        discord_token: String,
        discord_client_id: String,
        discord_client_secret: String,
        discord_oauth_redirect: String,
    ) -> (r: Self)
        ensures
            r.port == port,
            r.database_url == database_url,
            r.account_link_url == account_link_url,
            r.cron_secret == cron_secret,
            r.discord_token == discord_token,
            r.discord_client_id == discord_client_id,
            r.discord_client_secret == discord_client_secret,
            r.discord_oauth_redirect == discord_oauth_redirect,
    {
        Env {
            port,
            database_url,
            account_link_url,
            cron_secret,
            discord_token,
            discord_client_id,
            discord_client_secret,
            discord_oauth_redirect,
        }
    }

    /// A configuration whose every value is the empty string.
    pub fn empty() -> (r: Self)
        ensures
            r.port@.len() == 0,
            r.database_url@.len() == 0,
            r.account_link_url@.len() == 0,
            r.cron_secret@.len() == 0,
            r.discord_token@.len() == 0,
            r.discord_client_id@.len() == 0,
            r.discord_client_secret@.len() == 0,
            r.discord_oauth_redirect@.len() == 0,
    {
        Env {
            port: String::new(),
            database_url: String::new(),
            account_link_url: String::new(),
            cron_secret: String::new(),
            discord_token: String::new(),
            discord_client_id: String::new(),
            discord_client_secret: String::new(),
            discord_oauth_redirect: String::new(),
        }
    }
}

} // verus!
