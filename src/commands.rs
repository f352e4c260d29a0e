//! Argument checks of the administrative chat commands.
use vstd::prelude::*;
use vstd::string::*;

use crate::cron::{has_allowed_roles, qualifies};
use crate::decimal::{decimal_i64, parse_i64};
use crate::error::Error;

verus! {

pub open spec fn invalid_channel_text() -> Seq<char> {
    "ID do canal inválido"@
}

pub open spec fn invalid_role_text() -> Seq<char> {
    "ID do cargo inválido"@
}

/// Reads a channel id given as text.
pub fn parse_channel_id(id: &str) -> (r: Result<i64, Error>)
    ensures
        decimal_i64(id@) matches Some(v) ==> r == Ok::<i64, Error>(v),
        decimal_i64(id@) is None ==> (r matches Err(Error::InvalidChannel { message })
            && message@ == invalid_channel_text()),
{
    match parse_i64(id) {
        Some(v) => Ok(v),
        None => Err(Error::InvalidChannel { message: String::from_str("ID do canal inválido") }),
    }
}

/// Reads a role id given as text.
pub fn parse_role_id(id: &str) -> (r: Result<i64, Error>)
    ensures
        decimal_i64(id@) matches Some(v) ==> r == Ok::<i64, Error>(v),
        decimal_i64(id@) is None ==> (r matches Err(Error::InvalidRole { message })
            && message@ == invalid_role_text()),
{
    match parse_i64(id) {
        Some(v) => Ok(v),
        None => Err(Error::InvalidRole { message: String::from_str("ID do cargo inválido") }),
    }
}

/// A guild that may use the bot, about to be recorded.
#[derive(Debug)]
pub struct AllowedGuildPayload {
    pub name: String,
    pub guild_id: i64,
}

impl AllowedGuildPayload {
    pub fn new(guild_id: i64, name: String) -> (r: Self)
        ensures
            r.guild_id == guild_id,
            r.name == name,
    {
        Self { name, guild_id }
    }
}

fn contains_id(ids: &Vec<u64>, id: u64) -> (r: bool)
    ensures
        r == ids@.contains(id),
{
    let mut i: usize = 0;
    while i < ids.len()
        invariant
            0 <= i <= ids@.len(),
            forall|k: int| 0 <= k < i ==> ids@[k] != id,
        decreases ids@.len() - i,
    {
        if ids[i] == id {
            assert(ids@[i as int] == id);
            return true;
        }
        i = i + 1;
    }
    false
}

pub open spec fn foreign_guild_text() -> Seq<char> {
    "Esse canal não é um canal de um servidor permitido"@
}

pub open spec fn outside_guild_text() -> Seq<char> {
    "Esse comando não pode ser usado fora de um dos servidores permitidos"@
}

pub open spec fn wrong_guild_text() -> Seq<char> {
    "Esse comando não pode ser usado nesse servidor"@
}

pub open spec fn wrong_channel_text() -> Seq<char> {
    "Esse comando não pode ser usado nesse canal"@
}

pub open spec fn unknown_roles_text() -> Seq<char> {
    "Não consegui verificar seus cargos"@
}

/// A channel or role may be registered only when it belongs to an allowed
/// guild.
pub fn validate_guild(guild_id: u64, allowed_guild_ids: &Vec<u64>) -> (r: Result<(), Error>)
    ensures
        allowed_guild_ids@.contains(guild_id) ==> r is Ok,
        !allowed_guild_ids@.contains(guild_id) ==> (r matches Err(Error::InvalidGuild { message })
            && message@ == foreign_guild_text()),
{
    if !contains_id(allowed_guild_ids, guild_id) {
        return Err(
            Error::InvalidGuild {
                message: String::from_str("Esse canal não é um canal de um servidor permitido"),
            },
        );
    }
    Ok(())
}

/// A command must be issued inside one of the allowed guilds.
pub fn is_on_guild(guild_id: Option<u64>, allowed_guild_ids: &Vec<u64>) -> (r: Result<bool, Error>)
    ensures
        guild_id is None ==> (r matches Err(Error::Permission { message }) && message@
            == outside_guild_text()),
        guild_id matches Some(g) && !allowed_guild_ids@.contains(g) ==> (r matches Err(
            Error::Permission { message },
        ) && message@ == wrong_guild_text()),
        guild_id matches Some(g) && allowed_guild_ids@.contains(g) ==> r == Ok::<bool, Error>(
            true,
        ),
{
    match guild_id {
        None => Err(
            Error::Permission {
                message: String::from_str(
                    "Esse comando não pode ser usado fora de um dos servidores permitidos",
                ),
            },
        ),
        Some(g) => {
            if contains_id(allowed_guild_ids, g) {
                Ok(true)
            } else {
                Err(
                    Error::Permission {
                        message: String::from_str("Esse comando não pode ser usado nesse servidor"),
                    },
                )
            }
        },
    }
}

/// A command must be issued in one of the guild's allowed channels.
pub fn is_on_channel(channel_id: u64, allowed_channel_ids: &Vec<u64>) -> (r: Result<bool, Error>)
    ensures
        allowed_channel_ids@.contains(channel_id) ==> r == Ok::<bool, Error>(true),
        !allowed_channel_ids@.contains(channel_id) ==> (r matches Err(Error::Permission { message })
            && message@ == wrong_channel_text()),
{
    if contains_id(allowed_channel_ids, channel_id) {
        Ok(true)
    } else {
        Err(
            Error::Permission {
                message: String::from_str("Esse comando não pode ser usado nesse canal"),
            },
        )
    }
}

/// A member is an administrator when one of their roles is an admin role.
/// `None` stands for a member whose roles could not be read.
pub fn is_admin(member_roles: Option<&Vec<u64>>, admin_role_ids: &Vec<u64>) -> (r: Result<
    bool,
    Error,
>)
    ensures
        member_roles is None ==> (r matches Err(Error::Permission { message }) && message@
            == unknown_roles_text()),
        member_roles matches Some(roles) ==> r == Ok::<bool, Error>(
            qualifies(roles@, admin_role_ids@),
        ),
{
    match member_roles {
        None => Err(
            Error::Permission { message: String::from_str("Não consegui verificar seus cargos") },
        ),
        Some(roles) => Ok(has_allowed_roles(roles, admin_role_ids)),
    }
}

/// A member is a subscriber when one of their roles is an allowed role.
/// `None` stands for a member whose roles could not be read.
pub fn is_subscriber(member_roles: Option<&Vec<u64>>, allowed_role_ids: &Vec<u64>) -> (r: Result<
    bool,
    Error,
>)
    ensures
        member_roles is None ==> (r matches Err(Error::Permission { message }) && message@
            == unknown_roles_text()),
        member_roles matches Some(roles) ==> r == Ok::<bool, Error>(
            qualifies(roles@, allowed_role_ids@),
        ),
{
    match member_roles {
        None => Err(
            Error::Permission { message: String::from_str("Não consegui verificar seus cargos") },
        ),
        Some(roles) => Ok(has_allowed_roles(roles, allowed_role_ids)),
    }
}

} // verus!
