use felbot::commands::{
    is_admin, is_on_channel, is_on_guild, is_subscriber, parse_channel_id, parse_role_id,
    validate_guild, AllowedGuildPayload,
};
use felbot::error::Error;

#[test]
fn test_parse_channel_id_valid() {
    let result = parse_channel_id("12345");
    assert!(result.is_ok());
    assert_eq!(result.unwrap(), 12345);
}

#[test]
fn test_parse_channel_id_invalid() {
    let result = parse_channel_id("not-a-number");
    assert!(result.is_err());
}

#[test]
fn test_parse_role_id_valid() {
    let result = parse_role_id("12345");
    assert!(result.is_ok());
    assert_eq!(result.unwrap(), 12345);
}

#[test]
fn test_parse_role_id_invalid() {
    let result = parse_role_id("not-a-number");
    assert!(result.is_err());
}

#[test]
fn parse_accepts_sign_and_rejects_overflow_and_spaces() {
    assert_eq!(parse_channel_id("-7").unwrap(), -7);
    assert_eq!(parse_channel_id("+7").unwrap(), 7);
    assert_eq!(parse_role_id("9223372036854775807").unwrap(), i64::MAX);
    assert!(parse_role_id("9223372036854775808").is_err());
    assert!(parse_role_id(" 1").is_err());
    assert!(parse_role_id("").is_err());
    assert!(parse_role_id("-").is_err());
    match parse_channel_id("x") {
        Err(Error::InvalidChannel { message }) => assert_eq!(message, "ID do canal inválido"),
        _ => panic!("expected an invalid channel error"),
    }
    match parse_role_id("x") {
        Err(Error::InvalidRole { message }) => assert_eq!(message, "ID do cargo inválido"),
        _ => panic!("expected an invalid role error"),
    }
}

#[test]
fn guild_and_channel_checks() {
    let guilds = vec![100u64, 200];
    assert!(validate_guild(100, &guilds).is_ok());
    assert!(matches!(validate_guild(300, &guilds), Err(Error::InvalidGuild { .. })));

    assert!(is_on_guild(Some(200), &guilds).unwrap());
    match is_on_guild(None, &guilds) {
        Err(Error::Permission { message }) => {
            assert_eq!(message, "Esse comando não pode ser usado fora de um dos servidores permitidos")
        }
        _ => panic!("expected a permission error"),
    }
    match is_on_guild(Some(1), &guilds) {
        Err(Error::Permission { message }) => {
            assert_eq!(message, "Esse comando não pode ser usado nesse servidor")
        }
        _ => panic!("expected a permission error"),
    }

    let channels = vec![7u64];
    assert!(is_on_channel(7, &channels).unwrap());
    assert!(matches!(is_on_channel(8, &channels), Err(Error::Permission { .. })));
}

#[test]
fn admin_and_subscriber_checks() {
    let admin_roles = vec![1u64, 2];
    let member = vec![5u64, 2];
    let other = vec![5u64];
    assert_eq!(is_admin(Some(&member), &admin_roles).unwrap(), true);
    assert_eq!(is_admin(Some(&other), &admin_roles).unwrap(), false);
    assert!(matches!(is_admin(None, &admin_roles), Err(Error::Permission { .. })));
    assert_eq!(is_subscriber(Some(&other), &vec![5u64]).unwrap(), true);
    assert_eq!(is_subscriber(Some(&vec![]), &vec![5u64]).unwrap(), false);
}

#[test]
fn allowed_guild_payload_keeps_values() {
    let p = AllowedGuildPayload::new(10, "Test Guild".to_string());
    assert_eq!(p.guild_id, 10);
    assert_eq!(p.name, "Test Guild");
}
