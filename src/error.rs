use vstd::prelude::*;

verus! {

/// The closed set of error kinds that reach a client.
#[derive(Debug, Clone)]
pub enum AppError {
    NotFound(Option<String>),
    InternalServerError,
    BadRequest(Option<String>),
    Unauthorized,
}

/// Errors of the request path: client input, sessions, tokens, the store
/// and authorization.
#[derive(Debug, Clone)]
pub enum Error {
    NoCodeInDiscordCallbackPath,
    NoStateInDiscordCallbackPath,
    DiscordApiError(String),
    SessionCookieNotFound,
    SessionNotFound,
    InvalidSession(String),
    RedisOperationError(String),
    NotInElite,
    NotInEliteGuild,
    EliteNotFound(String),
    StaffOnly,
    AuthCookieNotFound,
    RefreshCookieNotFound,
    CtxNotinReqExt,
    JwtTokenValidationError,
    JwtTokenGenerationError,
}

/// The client-facing kind of each request-path error. Store and provider
/// failures are internal; every credential and authorization failure has the
/// same unauthorized shape.
pub open spec fn app_error_of(e: Error) -> AppError {
    match e {
        Error::NoCodeInDiscordCallbackPath => AppError::BadRequest(None),
        Error::NoStateInDiscordCallbackPath => AppError::BadRequest(None),
        Error::DiscordApiError(_) => AppError::InternalServerError,
        Error::RedisOperationError(_) => AppError::InternalServerError,
        Error::SessionCookieNotFound => AppError::Unauthorized,
        Error::SessionNotFound => AppError::Unauthorized,
        Error::InvalidSession(_) => AppError::Unauthorized,
        Error::NotInElite => AppError::Unauthorized,
        Error::NotInEliteGuild => AppError::Unauthorized,
        Error::EliteNotFound(msg) => AppError::NotFound(Some(msg)),
        Error::StaffOnly => AppError::Unauthorized,
        Error::AuthCookieNotFound => AppError::Unauthorized,
        Error::RefreshCookieNotFound => AppError::Unauthorized,
        Error::CtxNotinReqExt => AppError::InternalServerError,
        Error::JwtTokenValidationError => AppError::Unauthorized,
        Error::JwtTokenGenerationError => AppError::InternalServerError,
    }
}

impl vstd::std_specs::convert::FromSpecImpl<Error> for AppError {
    open spec fn obeys_from_spec() -> bool {
        true
    }

    open spec fn from_spec(v: Error) -> AppError {
        app_error_of(v)
    }
}

impl From<Error> for AppError {
    fn from(value: Error) -> (r: AppError)
        ensures
            r == app_error_of(value),
    {
        match value {
            Error::NoCodeInDiscordCallbackPath => AppError::BadRequest(None),
            Error::NoStateInDiscordCallbackPath => AppError::BadRequest(None),
            Error::DiscordApiError(_) => AppError::InternalServerError,
            Error::RedisOperationError(_) => AppError::InternalServerError,
            Error::SessionCookieNotFound => AppError::Unauthorized,
            Error::SessionNotFound => AppError::Unauthorized,
            Error::InvalidSession(_) => AppError::Unauthorized,
            Error::NotInElite => AppError::Unauthorized,
            Error::NotInEliteGuild => AppError::Unauthorized,
            Error::EliteNotFound(msg) => AppError::NotFound(Some(msg)),
            Error::StaffOnly => AppError::Unauthorized,
            Error::AuthCookieNotFound => AppError::Unauthorized,
            Error::RefreshCookieNotFound => AppError::Unauthorized,
            Error::CtxNotinReqExt => AppError::InternalServerError,
            Error::JwtTokenValidationError => AppError::Unauthorized,
            Error::JwtTokenGenerationError => AppError::InternalServerError,
        }
    }
}

/// Errors of the data services.
#[derive(Debug, Clone)]
pub enum ServiceError {
    DbConnectionError,
    CreatePreparedStatementError(String),
    NoFieldsToUpdate,
}

impl ServiceError {
    /// The client-facing kind of a service error.
    pub fn into_app_error(self) -> (r: AppError)
        ensures
            match self {
                ServiceError::DbConnectionError => r is InternalServerError,
                ServiceError::CreatePreparedStatementError(_) => r is InternalServerError,
                ServiceError::NoFieldsToUpdate => r matches AppError::BadRequest(Some(m))
                    && m@ == "Provide at least 1 field to update"@,
            },
    {
        match self {
            ServiceError::DbConnectionError => AppError::InternalServerError,
            ServiceError::CreatePreparedStatementError(_) => AppError::InternalServerError,
            ServiceError::NoFieldsToUpdate => AppError::BadRequest(
                Some("Provide at least 1 field to update".to_owned()),
            ),
        }
    }
}

/// Errors of the relational database.
#[derive(Debug, Clone)]
pub enum DbError {
    ConnectionError,
    QueryError(String),
    MigrationError(String),
}

impl DbError {
    /// Every database failure is internal to the client.
    pub fn into_app_error(self) -> (r: AppError)
        ensures
            r is InternalServerError,
    {
        match self {
            DbError::ConnectionError => AppError::InternalServerError,
            DbError::QueryError(_) => AppError::InternalServerError,
            DbError::MigrationError(_) => AppError::InternalServerError,
        }
    }
}

/// Errors of the key-value store connection.
#[derive(Debug, Clone)]
pub enum RedisError {
    ConnectionError,
    OperationError(String),
}

} // verus!
