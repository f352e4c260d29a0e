use vstd::prelude::*;
use vstd::string::*;

verus! {

/// Errors of the account-linking HTTP surface.
#[derive(Debug)]
pub enum ApiError {
    /// A parameter is missing or out of range.
    InvalidInput { message: String },
    /// The state token is unknown, already used, or past its expiry.
    InvalidOrExpiredState,
    /// The Telegram account already has an active link.
    AlreadyLinked,
    /// The Discord or Telegram account is already linked elsewhere.
    Conflict,
    /// Discord answered with an error or could not be reached.
    UpstreamError { message: String },
    /// The state store refused the operation.
    StorageError { message: String },
    /// The caller is not allowed to perform the operation.
    PermissionDenied { message: String },
    /// The request could not be completed for an internal reason.
    Internal { message: String },
}

pub const STATUS_BAD_REQUEST: u16 = 400;

pub const STATUS_INTERNAL_SERVER_ERROR: u16 = 500;

pub const STATUS_BAD_GATEWAY: u16 = 502;

/// The HTTP status that an error is answered with.
pub open spec fn status_of(e: ApiError) -> u16 {
    match e {
        ApiError::UpstreamError { .. } => STATUS_BAD_GATEWAY,
        ApiError::StorageError { .. } | ApiError::Internal { .. } => STATUS_INTERNAL_SERVER_ERROR,
        _ => STATUS_BAD_REQUEST,
    }
}

/// The text shown to the end user for an error. Storage failures are
/// reported generically so that no internals leak.
pub open spec fn text_of(e: ApiError) -> Seq<char> {
    match e {
        ApiError::InvalidInput { message } => "Bad request: "@ + message@,
        ApiError::InvalidOrExpiredState => "Invalid or expired authorization request"@,
        ApiError::AlreadyLinked => "Telegram account is already linked to a Discord account"@,
        ApiError::Conflict => "Discord account is already linked to a Telegram account"@,
        ApiError::UpstreamError { message } => "Discord API error: "@ + message@,
        ApiError::StorageError { .. } => "Database error occurred"@,
        ApiError::PermissionDenied { message } => "Forbidden: "@ + message@,
        ApiError::Internal { message } => "Internal server error: "@ + message@,
    }
}

impl ApiError {
    pub fn discord_api(message: String) -> (r: Self)
        ensures
            r == (ApiError::UpstreamError { message }),
    {
        ApiError::UpstreamError { message }
    }

    pub fn bad_request(message: String) -> (r: Self)
        ensures
            r == (ApiError::InvalidInput { message }),
    {
        ApiError::InvalidInput { message }
    }

    pub fn status_code(&self) -> (r: u16)
        ensures
            r == status_of(*self),
    {
        match self {
            ApiError::UpstreamError { .. } => STATUS_BAD_GATEWAY,
            ApiError::StorageError { .. } | ApiError::Internal { .. } => STATUS_INTERNAL_SERVER_ERROR,
            _ => STATUS_BAD_REQUEST,
        }
    }

    pub fn to_message(&self) -> (r: String)
        ensures
            r@ == text_of(*self),
    {
        match self {
            ApiError::InvalidInput { message } => String::from_str("Bad request: ").concat(
                message.as_str(),
            ),
            ApiError::InvalidOrExpiredState => String::from_str(
                "Invalid or expired authorization request",
            ),
            ApiError::AlreadyLinked => String::from_str(
                "Telegram account is already linked to a Discord account",
            ),
            ApiError::Conflict => String::from_str(
                "Discord account is already linked to a Telegram account",
            ),
            ApiError::UpstreamError { message } => String::from_str("Discord API error: ").concat(
                message.as_str(),
            ),
            ApiError::StorageError { .. } => String::from_str("Database error occurred"),
            ApiError::PermissionDenied { message } => String::from_str("Forbidden: ").concat(
                message.as_str(),
            ),
            ApiError::Internal { message } => String::from_str("Internal server error: ").concat(
                message.as_str(),
            ),
        }
    }
}

/// Errors of the chat-command surface.
#[derive(Debug)]
pub enum Error {
    Permission { message: String },
    InvalidChannel { message: String },
    InvalidGuild { message: String },
    InvalidRole { message: String },
}

} // verus!
