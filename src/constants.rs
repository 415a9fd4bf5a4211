use vstd::prelude::*;

verus! {

/// Lifetime of a pending login, in seconds.
pub const FIVE_MINUTES: u64 = 60 * 5;

/// Lifetime of an authenticated session, in seconds.
pub const ONE_MONTH: u64 = 60 * 60 * 24 * 30;

/// Safety margin taken off the provider access token's own lifetime, in seconds.
pub const ACCESS_TOKEN_MARGIN: u64 = 5;

/// Number of random bytes behind a session id.
pub const SESSION_ID_BYTES: usize = 512;

pub const CSRF_TOKEN_KEY: &'static str = "csrf_token";
pub const USER_ID_KEY: &'static str = "user_id";
pub const USER_ROLE_KEY: &'static str = "user_role";
pub const DISCORD_ACCESS_TOKEN_KEY: &'static str = "discord_access_token";
pub const DISCORD_REFRESH_TOKEN_KEY: &'static str = "discord_refresh_token";

pub const SESSION_COOKIE_NAME: &'static str = "elite-dashboard-session-id";
pub const SESSION_KEY_PREFIX: &'static str = "session";

pub const ACCESS_TOKEN_COOKIE: &'static str = "elite-dashboard-access-token";
pub const REFRESH_TOKEN_COOKIE: &'static str = "elite-dashboard-refresh-token";

/// The route that renews a session's lifetime when it is requested.
pub const CURRENT_USER_PATH: &'static str = "/elites/@me";

} // verus!
