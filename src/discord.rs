//! What the linker needs from Discord.
use vstd::prelude::*;

use crate::env::Env;

verus! {

#[derive(Debug)]
pub struct DiscordTokenResponse {
    pub access_token: String,
}

#[derive(Clone, Debug)]
pub struct DiscordUser {
    pub id: String,
    pub username: String,
}

/// Discord's OAuth endpoints. An error carries the reason as text.
pub trait DiscordService {
    /// Exchanges an authorization code for an access token.
    fn get_access_token(&self, env: &Env, code: &String) -> Result<DiscordTokenResponse, String>;

    /// Fetches the identity that an access token belongs to.
    fn get_user_info(&self, token: &String) -> Result<DiscordUser, String>;
}

} // verus!
