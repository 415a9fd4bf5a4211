use vstd::prelude::*;

verus! {

/// Settings of the whole service, read from the environment.
#[derive(Clone, Debug)]
pub struct AppConfig {
    pub server: ServerConfig,
    pub database: DatabaseConfig,
    pub discord: DiscordConfig,
    pub redis: RedisConfig,
    pub jwt: JwtConfig,
}

#[derive(Clone, Debug)]
pub struct ServerConfig {
    pub address: String,
    pub port: u16,
}

#[derive(Clone, Debug)]
pub struct DatabaseConfig {
    pub url: String,
    pub max_pool_size: usize,
}

/// The OAuth2 application registered with Discord, and the guild whose
/// members may log in.
#[derive(Clone, Debug)]
pub struct DiscordConfig {
    pub api_version: String,
    pub redirect_url: String,
    pub client_id: String,
    pub client_secret: String,
    pub scopes: String,
    pub bot_token: String,
    pub elite_guild_id: String,
    pub elite_staff_role_id: String,
}

#[derive(Clone, Debug)]
pub struct RedisConfig {
    pub url: String,
}

/// Secrets and lifetimes, in seconds, of the two kinds of identity token.
#[derive(Clone, Debug)]
pub struct JwtConfig {
    pub access_token_secret: String,
    pub refresh_token_secret: String,
    pub access_token_exp: usize,
    pub refresh_token_exp: usize,
    pub secure_cookie: bool,
}

} // verus!
