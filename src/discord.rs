use vstd::prelude::*;
use oauth2::basic::BasicClient;
use oauth2::{AuthUrl, ClientId, CsrfToken, RedirectUrl, Scope};
use crate::config::DiscordConfig;
use crate::error::AppError;
use crate::model::{UserRole, opt_text};

verus! {

/// Where Discord's users authorize an application.
pub const DISCORD_AUTHORIZE_URL: &'static str = "https://discord.com/oauth2/authorize";

/// The base of Discord's versioned REST API.
pub const DISCORD_API_BASE: &'static str = "https://discord.com/api/v";

/// Failures of calls to Discord.
#[derive(Clone, Debug)]
pub enum Error {
    DiscordApiRequestError(String),
}

impl vstd::std_specs::convert::FromSpecImpl<Error> for AppError {
    open spec fn obeys_from_spec() -> bool {
        true
    }

    open spec fn from_spec(v: Error) -> AppError {
        AppError::InternalServerError
    }
}

impl From<Error> for AppError {
    /// A failed call to Discord is internal to the client.
    fn from(value: Error) -> (r: AppError)
        ensures
            r is InternalServerError,
    {
        match value {
            Error::DiscordApiRequestError(_) => AppError::InternalServerError,
        }
    }
}

/// The authorization URL that asks for `scope` with response type `code`
/// for the application `client_id`, returning to `redirect_url` with
/// `state`; `None` where `auth_url` or `redirect_url` is no URL.
pub uninterp spec fn authorize_url_of(
    auth_url: Seq<char>,
    client_id: Seq<char>,
    redirect_url: Seq<char>,
    scope: Seq<char>,
    state: Seq<char>,
) -> Option<Seq<char>>;

/// Relies on oauth2's CsrfToken::new_random: a fresh random state value.
#[verifier::external_body]
fn new_csrf_token() -> (r: String) {
    CsrfToken::new_random().secret().clone()
}

/// Relies on oauth2's Client::authorize_url, with the given state and one
/// added scope, and on AuthUrl::new and RedirectUrl::new to parse the URLs.
#[verifier::external_body]
fn authorize_url(
    auth_url: &String,
    client_id: &String,
    redirect_url: &String,
    scope: &String,
    state: &String,
) -> (r: Option<String>)
    ensures
        opt_text(r) == authorize_url_of(auth_url@, client_id@, redirect_url@, scope@, state@),
{
    let client = BasicClient::new(ClientId::new(client_id.clone()))
        .set_auth_uri(AuthUrl::new(auth_url.clone()).ok()?)
        .set_redirect_uri(RedirectUrl::new(redirect_url.clone()).ok()?);
    let state = CsrfToken::new(state.clone());
    let request = client.authorize_url(|| state).add_scope(Scope::new(scope.clone()));
    Some(request.url().0.to_string())
}

/// `DISCORD_API_BASE`, the API version, a slash, and the path.
pub open spec fn api_url_of(api_version: Seq<char>, path: Seq<char>) -> Seq<char> {
    DISCORD_API_BASE@ + api_version + "/"@ + path
}

fn api_url(api_version: &String, path: &str) -> (r: String)
    ensures
        r@ == api_url_of(api_version@, path@),
{
    let u = DISCORD_API_BASE.to_owned();
    let u = u.concat(api_version.as_str());
    let u = u.concat("/");
    u.concat(path)
}

/// Whether `roles` holds `role`.
pub open spec fn holds_role(roles: Seq<String>, role: Seq<char>) -> bool {
    exists|i: int| 0 <= i < roles.len() && roles[i]@ == role
}

/// Whether `roles` holds `role`, by comparing each in turn.
fn has_role(roles: &Vec<String>, role: &String) -> (r: bool)
    ensures
        r == holds_role(roles@, role@),
{
    let mut i: usize = 0;
    while i < roles.len()
        invariant
            0 <= i <= roles@.len(),
            forall|j: int| 0 <= j < i ==> roles@[j]@ != role@,
        decreases roles@.len() - i,
    {
        if roles[i] == *role {
            return true;
        }
        i = i + 1;
    }
    false
}

fn copy_config(c: &DiscordConfig) -> (r: DiscordConfig)
    ensures
        r == *c,
{
    DiscordConfig {
        api_version: c.api_version.clone(),
        redirect_url: c.redirect_url.clone(),
        client_id: c.client_id.clone(),
        client_secret: c.client_secret.clone(),
        scopes: c.scopes.clone(),
        bot_token: c.bot_token.clone(),
        elite_guild_id: c.elite_guild_id.clone(),
        elite_staff_role_id: c.elite_staff_role_id.clone(),
    }
}

/// The OAuth2 side of login with Discord.
#[derive(Clone, Debug)]
pub struct DiscordAuthService {
    pub discord_config: DiscordConfig,
}

impl DiscordAuthService {
    pub fn new(discord_config: &DiscordConfig) -> (r: Self)
        ensures
            r.discord_config == *discord_config,
    {
        DiscordAuthService { discord_config: copy_config(discord_config) }
    }

    /// A fresh CSRF token and the authorization URL that carries it as its
    /// state. Fails where the configured redirect URL is no URL.
    pub fn init_auth(&self) -> (r: Result<(String, String), Error>)
        ensures
            r matches Ok((url, csrf)) ==> Some(url@) == authorize_url_of(
                DISCORD_AUTHORIZE_URL@,
                self.discord_config.client_id@,
                self.discord_config.redirect_url@,
                self.discord_config.scopes@,
                csrf@,
            ),
            r is Err ==> exists|csrf: Seq<char>|
                authorize_url_of(
                    DISCORD_AUTHORIZE_URL@,
                    self.discord_config.client_id@,
                    self.discord_config.redirect_url@,
                    self.discord_config.scopes@,
                    csrf,
                ) is None,
            r is Err ==> r matches Err(Error::DiscordApiRequestError(_)),
    {
        let csrf = new_csrf_token();
        let r = self.authorize_url_with_state(csrf);
        proof {
            if r is Err {
                assert(authorize_url_of(
                    DISCORD_AUTHORIZE_URL@,
                    self.discord_config.client_id@,
                    self.discord_config.redirect_url@,
                    self.discord_config.scopes@,
                    csrf@,
                ) is None);
            }
        }
        r
    }

    /// The authorization URL that carries `csrf` as its state, with it.
    pub fn authorize_url_with_state(&self, csrf: String) -> (r: Result<(String, String), Error>)
        ensures
            r is Ok <==> authorize_url_of(
                DISCORD_AUTHORIZE_URL@,
                self.discord_config.client_id@,
                self.discord_config.redirect_url@,
                self.discord_config.scopes@,
                csrf@,
            ) is Some,
            r is Err ==> r matches Err(Error::DiscordApiRequestError(_)),
            r matches Ok((url, c)) ==> c@ == csrf@ && Some(url@) == authorize_url_of(
                DISCORD_AUTHORIZE_URL@,
                self.discord_config.client_id@,
                self.discord_config.redirect_url@,
                self.discord_config.scopes@,
                csrf@,
            ),
    {
        let auth_url = DISCORD_AUTHORIZE_URL.to_owned();
        match authorize_url(
            &auth_url,
            &self.discord_config.client_id,
            &self.discord_config.redirect_url,
            &self.discord_config.scopes,
            &csrf,
        ) {
            Some(url) => Ok((url, csrf)),
            None => Err(Error::DiscordApiRequestError("Invalid OAuth URL".to_owned())),
        }
    }

    /// The URL of the token endpoint for the configured API version.
    pub fn token_url(&self) -> (r: String)
        ensures
            r@ == api_url_of(self.discord_config.api_version@, "oauth2/token"@),
    {
        api_url(&self.discord_config.api_version, "oauth2/token")
    }

    /// The URL of an API path for the configured API version.
    pub fn api_url_for(&self, path: &str) -> (r: String)
        ensures
            r@ == api_url_of(self.discord_config.api_version@, path@),
    {
        api_url(&self.discord_config.api_version, path)
    }

    /// Resolves the internal role from the guild membership that Discord
    /// reported: `None` where the user is not in the guild. A staff role
    /// makes staff; any other role makes an elite member; no role at all is
    /// no member.
    pub fn get_role_for_member(&self, roles: &Option<Vec<String>>) -> (r: Result<
        UserRole,
        crate::error::Error,
    >)
        ensures
            roles is None ==> r matches Err(crate::error::Error::NotInEliteGuild),
            roles matches Some(rs) ==> {
                if holds_role(rs@, self.discord_config.elite_staff_role_id@) {
                    r == Ok::<UserRole, crate::error::Error>(UserRole::Staff)
                } else if rs@.len() > 0 {
                    r == Ok::<UserRole, crate::error::Error>(UserRole::Elite)
                } else {
                    r matches Err(crate::error::Error::NotInElite)
                }
            },
    {
        let rs = match roles {
            Some(rs) => rs,
            None => {
                return Err(crate::error::Error::NotInEliteGuild);
            },
        };
        if has_role(rs, &self.discord_config.elite_staff_role_id) {
            return Ok(UserRole::Staff);
        }
        if rs.len() > 0 {
            Ok(UserRole::Elite)
        } else {
            Err(crate::error::Error::NotInElite)
        }
    }
}

/// The bot side of Discord's API: the guild and its members.
#[derive(Clone, Debug)]
pub struct DiscordApiService {
    pub elite_guild_id: String,
    pub api_version: String,
    pub bot_token: String,
}

impl DiscordApiService {
    pub fn new(config: &DiscordConfig) -> (r: Self)
        ensures
            r.elite_guild_id@ == config.elite_guild_id@,
            r.api_version@ == config.api_version@,
            r.bot_token@ == config.bot_token@,
    {
        DiscordApiService {
            elite_guild_id: config.elite_guild_id.clone(),
            api_version: config.api_version.clone(),
            bot_token: config.bot_token.clone(),
        }
    }

    /// The URL of the elite guild.
    pub fn elite_guild_url(&self) -> (r: String)
        ensures
            r@ == api_url_of(self.api_version@, "guilds/"@ + self.elite_guild_id@),
    {
        let path = "guilds/".to_owned().concat(self.elite_guild_id.as_str());
        api_url(&self.api_version, path.as_str())
    }

    /// The URL of one member of the elite guild.
    pub fn elite_guild_member_url(&self, user_id: &str) -> (r: String)
        ensures
            r@ == api_url_of(
                self.api_version@,
                "guilds/"@ + self.elite_guild_id@ + "/members/"@ + user_id@,
            ),
    {
        let path = "guilds/".to_owned().concat(self.elite_guild_id.as_str());
        let path = path.concat("/members/");
        let path = path.concat(user_id);
        api_url(&self.api_version, path.as_str())
    }

    /// The value of the Authorization header of the bot's requests.
    pub fn authorization(&self) -> (r: String)
        ensures
            r@ == "Bot "@ + self.bot_token@,
    {
        "Bot ".to_owned().concat(self.bot_token.as_str())
    }
}

} // verus!
