use vstd::prelude::*;
use crate::constants::{
    ACCESS_TOKEN_COOKIE, CURRENT_USER_PATH, FIVE_MINUTES, ONE_MONTH, REFRESH_TOKEN_COOKIE,
};
use crate::ctx::Ctx;
use crate::discord::{DiscordAuthService, holds_role};
use crate::error::Error;
use crate::jwt::{Claims, JwtService, TokenKind, accepted_claims, token_claims};
use crate::model::{Session, UserRole};
use crate::session::{
    CookieSpec, ProviderTokens, SameSite, SessionFields, SessionService, fields_complete,
    init_commands_view, save_commands_view, session_from_fields, session_key_of,
};
use crate::store::{CommandView, StoreCommand, commands_view};

verus! {

/// A started login: the authorization URL to send the browser to, the
/// session cookie, and the writes that record the pending login.
#[derive(Clone, Debug)]
pub struct LoginStart {
    pub url: String,
    pub cookie: CookieSpec,
    pub commands: Vec<StoreCommand>,
}

/// Starts a login: a CSRF token that rides in the authorization URL's
/// state, a fresh session that holds it for five minutes, and a cookie that
/// carries the session id for as long.
pub fn auth_discord(discord_auth: &DiscordAuthService, session: &SessionService) -> (r: Result<
    LoginStart,
    crate::discord::Error,
>)
    ensures
        r matches Ok(s) ==> exists|csrf: Seq<char>|
            {
                &&& Some(s.url@) == crate::discord::authorize_url_of(
                    crate::discord::DISCORD_AUTHORIZE_URL@,
                    discord_auth.discord_config.client_id@,
                    discord_auth.discord_config.redirect_url@,
                    discord_auth.discord_config.scopes@,
                    csrf,
                )
                &&& commands_view(s.commands@) == init_commands_view(s.cookie.value@, csrf)
            },
        r matches Ok(s) ==> {
            &&& s.cookie.max_age == Some(FIVE_MINUTES)
            &&& s.cookie.name@ == crate::constants::SESSION_COOKIE_NAME@
            &&& s.cookie.path@ == "/"@
            &&& s.cookie.http_only
            &&& s.cookie.same_site == SameSite::Lax
            &&& s.cookie.secure == session.secure_cookie
        },
{
    let (url, csrf) = discord_auth.init_auth()?;
    let (session_id, commands) = session.init_session(&csrf);
    let cookie = session.create_session_cookie(session_id, FIVE_MINUTES);
    Ok(LoginStart { url, cookie, commands })
}

/// The query of the provider's redirect back to the callback.
#[derive(Clone, Debug)]
pub struct DiscordCallbackQueryParams {
    pub code: Option<String>,
    pub state: Option<String>,
    pub error: Option<String>,
    pub error_description: Option<String>,
}

/// How a callback goes on after its query and cookie are read.
#[derive(Clone, Debug)]
pub enum CallbackStart {
    /// The provider reported an error: show the failure page, change nothing.
    ProviderError,
    /// Check `state` against the CSRF token stored for `session_id`, then
    /// exchange `code`.
    Proceed { session_id: String, code: String, state: String },
}

/// The first step of a login callback. A provider-reported error comes
/// first; then the code, the state and the session cookie must be there.
pub fn callback_start(params: DiscordCallbackQueryParams, session_cookie: Option<String>) -> (r:
    Result<CallbackStart, Error>)
    ensures
        (params.error is Some || params.error_description is Some) ==> r matches Ok(
            CallbackStart::ProviderError,
        ),
        (params.error is None && params.error_description is None) ==> {
            if params.code is None {
                r matches Err(Error::NoCodeInDiscordCallbackPath)
            } else if params.state is None {
                r matches Err(Error::NoStateInDiscordCallbackPath)
            } else if session_cookie is None {
                r matches Err(Error::SessionCookieNotFound)
            } else {
                r matches Ok(CallbackStart::Proceed { session_id, code, state }) && session_id
                    == session_cookie->Some_0 && code == params.code->Some_0 && state
                    == params.state->Some_0
            }
        },
{
    if params.error.is_some() || params.error_description.is_some() {
        return Ok(CallbackStart::ProviderError);
    }
    let code = match params.code {
        Some(c) => c,
        None => {
            return Err(Error::NoCodeInDiscordCallbackPath);
        },
    };
    let state = match params.state {
        Some(s) => s,
        None => {
            return Err(Error::NoStateInDiscordCallbackPath);
        },
    };
    let session_id = match session_cookie {
        Some(s) => s,
        None => {
            return Err(Error::SessionCookieNotFound);
        },
    };
    Ok(CallbackStart::Proceed { session_id, code, state })
}

/// The end of a successful login: the writes that promote the session and
/// the cookie that keeps it for a month.
#[derive(Clone, Debug)]
pub struct LoginComplete {
    pub role: UserRole,
    pub commands: Vec<StoreCommand>,
    pub cookie: CookieSpec,
}

/// What finishing a login gives: the role from the guild membership, the
/// writes that promote the session, and the month-long session cookie.
pub open spec fn login_outcome(
    session: SessionService,
    discord_auth: DiscordAuthService,
    session_id: Seq<char>,
    tokens: ProviderTokens,
    user_id: Seq<char>,
    membership: Option<Vec<String>>,
    r: Result<LoginComplete, Error>,
) -> bool {
    let staff = discord_auth.discord_config.elite_staff_role_id@;
    let tokens_complete = tokens.refresh_token is Some && tokens.expires_in is Some;
    &&& (membership is None ==> r matches Err(Error::NotInEliteGuild))
    &&& (membership matches Some(rs) && rs@.len() == 0 ==> r matches Err(Error::NotInElite))
    &&& (membership matches Some(rs) && holds_role(rs@, staff) && tokens_complete ==> (r matches Ok(
        c,
    ) && c.role == UserRole::Staff))
    &&& (membership matches Some(rs) && rs@.len() > 0 && !holds_role(rs@, staff)
        && tokens_complete ==> (r matches Ok(c) && c.role == UserRole::Elite))
    &&& (membership is Some && !tokens_complete ==> r is Err)
    &&& (r matches Ok(c) ==> {
        &&& commands_view(c.commands@) == save_commands_view(
            session_id,
            user_id,
            c.role,
            tokens.access_token@,
            tokens.refresh_token->Some_0@,
            tokens.expires_in->Some_0 as nat,
        )
        &&& c.cookie.value@ == session_id
        &&& c.cookie.max_age == Some(ONE_MONTH)
        &&& c.cookie.name@ == crate::constants::SESSION_COOKIE_NAME@
        &&& c.cookie.path@ == "/"@
        &&& c.cookie.http_only
        &&& c.cookie.same_site == SameSite::Lax
        &&& c.cookie.secure == session.secure_cookie
    })
}

/// Finishes a login once the CSRF check passed, the code was exchanged for
/// `tokens` and the provider named the user `user_id` with guild roles
/// `membership`: resolves the role, then promotes the same session id to
/// the authenticated state for a month.
pub fn complete_login(
    session: &SessionService,
    discord_auth: &DiscordAuthService,
    session_id: &String,
    tokens: &ProviderTokens,
    user_id: &String,
    membership: &Option<Vec<String>>,
) -> (r: Result<LoginComplete, Error>)
    ensures
        login_outcome(*session, *discord_auth, session_id@, *tokens, user_id@, *membership, r),
{
    let role = discord_auth.get_role_for_member(membership)?;
    let commands = session.save_session(session_id, tokens, user_id, &role)?;
    let cookie = session.create_session_cookie(session_id.clone(), ONE_MONTH);
    Ok(LoginComplete { role, commands, cookie })
}

/// Where a login callback stands. Each state names the one outside step
/// that comes next; the steps run strictly in this order.
#[derive(Clone, Debug)]
pub enum CallbackState {
    /// Read the CSRF token stored for the session and compare it to `state`.
    CheckCsrf { session_id: String, code: String, state: String },
    /// Exchange the authorization code for provider tokens.
    ExchangeCode { session_id: String, code: String },
    /// Ask the provider whose tokens these are.
    FetchIdentity { session_id: String, tokens: ProviderTokens },
    /// Ask the provider for the user's guild membership.
    FetchMembership { session_id: String, tokens: ProviderTokens, user_id: String },
    /// Run the writes that promote the session.
    Promote { session_id: String, login: LoginComplete },
    /// Login is done: set the cookie.
    Done { login: LoginComplete },
    /// Login failed; nothing more happens.
    Failed { error: Error },
}

/// The result of the outside step that a state asked for.
#[derive(Debug)]
pub enum CallbackEvent {
    CsrfRead { stored: Result<Option<String>, Error> },
    CodeExchanged { tokens: Result<ProviderTokens, Error> },
    IdentityFetched { user_id: Result<String, Error> },
    MembershipFetched { roles: Result<Option<Vec<String>>, Error> },
    Promoted { written: Result<(), Error> },
}

/// The state that a callback's query and cookie lead to: checking the CSRF
/// token, or failure.
pub fn callback_begin(start: CallbackStart) -> (r: Option<CallbackState>)
    ensures
        start is ProviderError ==> r is None,
        start matches CallbackStart::Proceed { session_id, code, state } ==> r == Some(
            CallbackState::CheckCsrf { session_id, code, state },
        ),
{
    match start {
        CallbackStart::ProviderError => None,
        CallbackStart::Proceed { session_id, code, state } => Some(
            CallbackState::CheckCsrf { session_id, code, state },
        ),
    }
}

/// One step of a login callback: from a state and the result of the step
/// it asked for, to the next state. A failed step ends the login with its
/// error; a CSRF token that is absent or differs ends it as not found. A
/// result that does not belong to the state leaves the state unchanged, as
/// do the final states.
pub fn callback_step(
    session: &SessionService,
    discord_auth: &DiscordAuthService,
    state: CallbackState,
    event: CallbackEvent,
) -> (r: CallbackState)
    ensures
        match (state, event) {
            (
                CallbackState::CheckCsrf { session_id, code, state: csrf },
                CallbackEvent::CsrfRead { stored },
            ) => match stored {
                Err(e) => r == CallbackState::Failed { error: e },
                Ok(Some(t)) => if t@ == csrf@ {
                    r == (CallbackState::ExchangeCode { session_id, code })
                } else {
                    r matches CallbackState::Failed { error: Error::SessionNotFound }
                },
                Ok(None) => r matches CallbackState::Failed { error: Error::SessionNotFound },
            },
            (
                CallbackState::ExchangeCode { session_id, code },
                CallbackEvent::CodeExchanged { tokens },
            ) => match tokens {
                Err(e) => r == CallbackState::Failed { error: e },
                Ok(t) => r == (CallbackState::FetchIdentity { session_id, tokens: t }),
            },
            (
                CallbackState::FetchIdentity { session_id, tokens },
                CallbackEvent::IdentityFetched { user_id },
            ) => match user_id {
                Err(e) => r == CallbackState::Failed { error: e },
                Ok(u) => r == (CallbackState::FetchMembership { session_id, tokens, user_id: u }),
            },
            (
                CallbackState::FetchMembership { session_id, tokens, user_id },
                CallbackEvent::MembershipFetched { roles },
            ) => match roles {
                Err(e) => r == CallbackState::Failed { error: e },
                Ok(m) => {
                    &&& (r is Promote || r is Failed)
                    &&& (r matches CallbackState::Promote { session_id: sid, login } ==> sid
                        == session_id && login_outcome(
                        *session,
                        *discord_auth,
                        session_id@,
                        tokens,
                        user_id@,
                        m,
                        Ok(login),
                    ))
                    &&& (r matches CallbackState::Failed { error } ==> login_outcome(
                        *session,
                        *discord_auth,
                        session_id@,
                        tokens,
                        user_id@,
                        m,
                        Err(error),
                    ))
                },
            },
            (CallbackState::Promote { session_id, login }, CallbackEvent::Promoted { written }) =>
                match written {
                Err(e) => r == CallbackState::Failed { error: e },
                Ok(_) => r == (CallbackState::Done { login }),
            },
            (s, _) => r == s,
        },
{
    match (state, event) {
        (
            CallbackState::CheckCsrf { session_id, code, state: csrf },
            CallbackEvent::CsrfRead { stored },
        ) => match stored {
            Err(e) => CallbackState::Failed { error: e },
            Ok(stored) => match session.validate_init_session(&stored, &csrf) {
                Ok(()) => CallbackState::ExchangeCode { session_id, code },
                Err(e) => CallbackState::Failed { error: e },
            },
        },
        (CallbackState::ExchangeCode { session_id, code }, CallbackEvent::CodeExchanged { tokens }) =>
            match tokens {
            Err(e) => CallbackState::Failed { error: e },
            Ok(t) => CallbackState::FetchIdentity { session_id, tokens: t },
        },
        (
            CallbackState::FetchIdentity { session_id, tokens },
            CallbackEvent::IdentityFetched { user_id },
        ) => match user_id {
            Err(e) => CallbackState::Failed { error: e },
            Ok(u) => CallbackState::FetchMembership { session_id, tokens, user_id: u },
        },
        (
            CallbackState::FetchMembership { session_id, tokens, user_id },
            CallbackEvent::MembershipFetched { roles },
        ) => match roles {
            Err(e) => CallbackState::Failed { error: e },
            Ok(m) => match complete_login(
                session,
                discord_auth,
                &session_id,
                &tokens,
                &user_id,
                &m,
            ) {
                Ok(login) => CallbackState::Promote { session_id, login },
                Err(e) => CallbackState::Failed { error: e },
            },
        },
        (CallbackState::Promote { session_id, login }, CallbackEvent::Promoted { written }) =>
            match written {
            Err(e) => CallbackState::Failed { error: e },
            Ok(_) => CallbackState::Done { login },
        },
        (s, _) => s,
    }
}

/// What the session gate lets through: the session, and where the request
/// renews it, the write and the cookie that do so.
#[derive(Clone, Debug)]
pub struct SessionGate {
    pub session: Session,
    pub renewal: Option<(StoreCommand, CookieSpec)>,
}

/// The session gate of protected routes. The cookie must be there and
/// name a complete session; a request for the current user also renews the
/// session and its cookie for another month.
pub fn mw_session_require(
    session_store: &SessionService,
    session_cookie: Option<String>,
    exists: bool,
    fields: SessionFields,
    path: &str,
) -> (r: Result<SessionGate, Error>)
    ensures
        session_cookie is None ==> r matches Err(Error::SessionCookieNotFound),
        session_cookie is Some ==> (r is Ok <==> exists && fields_complete(fields)),
        session_cookie is Some && !exists ==> r matches Err(Error::SessionNotFound),
        session_cookie is Some && exists && !fields_complete(fields) ==> r matches Err(
            Error::InvalidSession(_),
        ),
        r matches Ok(g) ==> {
            &&& session_from_fields(g.session, fields)
            &&& (g.renewal is Some <==> path@ == CURRENT_USER_PATH@)
            &&& g.renewal matches Some((c, k)) ==> {
                &&& c@ == (CommandView::Expire {
                    key: session_key_of(session_cookie->Some_0@),
                    seconds: ONE_MONTH as nat,
                })
                &&& k.value@ == session_cookie->Some_0@
                &&& k.max_age == Some(ONE_MONTH)
            }
        },
{
    let session_id = match session_cookie {
        Some(s) => s,
        None => {
            return Err(Error::SessionCookieNotFound);
        },
    };
    let session = session_store.validate_session(exists, fields)?;
    let renewal = if path.to_owned() == CURRENT_USER_PATH.to_owned() {
        let command = session_store.refresh_session_ttl(&session_id);
        let cookie = session_store.create_session_cookie(session_id, ONE_MONTH);
        Some((command, cookie))
    } else {
        None
    };
    Ok(SessionGate { session, renewal })
}

/// The staff gate: a pure check of the session already attached.
pub fn mw_staff_only(session: &Session) -> (r: Result<(), Error>)
    ensures
        r is Ok <==> session.user.role == UserRole::Staff,
        r is Err ==> r matches Err(Error::StaffOnly),
{
    if !session.user.is_staff() {
        return Err(Error::StaffOnly);
    }
    Ok(())
}

/// The token gate at second `now`: the access token cookie must be there
/// and hold a valid, unexpired token, whose subject becomes the request's
/// identity.
pub fn mw_ctx_require_at(jwt: &JwtService, access_token: Option<String>, now: u64) -> (r: Result<
    Ctx,
    Error,
>)
    ensures
        access_token is None ==> r matches Err(Error::AuthCookieNotFound),
        access_token matches Some(t) ==> (r is Ok <==> accepted_claims(
            token_claims(t@, jwt.secret(TokenKind::Access)),
            true,
            now as int,
        ) is Some),
        access_token matches Some(t) ==> (r matches Ok(c) ==> accepted_claims(
            token_claims(t@, jwt.secret(TokenKind::Access)),
            true,
            now as int,
        ) matches Some(a) && a.0 == c.user()),
        access_token is Some && r is Err ==> r matches Err(Error::JwtTokenValidationError),
{
    let token = match access_token {
        Some(t) => t,
        None => {
            return Err(Error::AuthCookieNotFound);
        },
    };
    let claims = jwt.validate_token_at(TokenKind::Access, token.as_str(), now)?;
    Ok(Ctx::new(claims.sub.as_str()))
}

/// The token gate by the system clock.
pub fn mw_ctx_require(jwt: &JwtService, access_token: Option<String>) -> (r: Result<Ctx, Error>)
    ensures
        access_token is None ==> r matches Err(Error::AuthCookieNotFound),
        access_token matches Some(t) && token_claims(t@, jwt.secret(TokenKind::Access)) is None
            ==> r matches Err(Error::JwtTokenValidationError),
        access_token matches Some(t) ==> (r matches Ok(c) ==> token_claims(
            t@,
            jwt.secret(TokenKind::Access),
        ) matches Some((Some(sub), _, _)) && sub == c.user()),
{
    let now = crate::jwt::unix_now();
    mw_ctx_require_at(jwt, access_token, now)
}

/// A cookie for a token: HTTP only, same-site only, secure as configured,
/// ending with the browser session.
fn token_cookie(name: &str, value: String, path: &str, secure: bool) -> (r: CookieSpec)
    ensures
        r.name@ == name@,
        r.value == value,
        r.path@ == path@,
        r.secure == secure,
        r.http_only,
        r.same_site == SameSite::Strict,
        r.max_age is None,
{
    CookieSpec {
        name: name.to_owned(),
        value,
        path: path.to_owned(),
        secure,
        http_only: true,
        same_site: SameSite::Strict,
        max_age: None,
    }
}

/// Reissues both token cookies at second `now` from the refresh cookie:
/// the refresh token must be there and signed with the refresh secret
/// (its expiry is not checked); new access and refresh tokens are made for
/// its subject, the refresh cookie scoped to the refresh route.
pub fn auth_refresh_at(jwt: &JwtService, refresh_token: Option<String>, now: u64) -> (r: Result<
    (CookieSpec, CookieSpec),
    Error,
>)
    ensures
        refresh_token is None ==> r matches Err(Error::RefreshCookieNotFound),
        refresh_token matches Some(t) && accepted_claims(
            token_claims(t@, jwt.secret(TokenKind::Refresh)),
            false,
            now as int,
        ) is None ==> r matches Err(Error::JwtTokenValidationError),
        refresh_token matches Some(t) && accepted_claims(
            token_claims(t@, jwt.secret(TokenKind::Refresh)),
            false,
            now as int,
        ) is Some ==> (r is Ok <==> (now + jwt.lifetime(TokenKind::Access) <= usize::MAX && now
            + jwt.lifetime(TokenKind::Refresh) <= usize::MAX)),
        r is Err ==> r matches Err(Error::RefreshCookieNotFound) || r matches Err(
            Error::JwtTokenValidationError,
        ) || r matches Err(Error::JwtTokenGenerationError),
        refresh_token matches Some(t) && accepted_claims(
            token_claims(t@, jwt.secret(TokenKind::Refresh)),
            false,
            now as int,
        ) is Some && r is Err ==> r matches Err(Error::JwtTokenGenerationError),
        r matches Ok((access, refresh)) ==> {
            &&& refresh_token is Some
            &&& accepted_claims(
                token_claims(refresh_token->Some_0@, jwt.secret(TokenKind::Refresh)),
                false,
                now as int,
            ) matches Some(old_claims)
            &&& access.name@ == ACCESS_TOKEN_COOKIE@ && access.path@ == "/"@
            &&& refresh.name@ == REFRESH_TOKEN_COOKIE@ && refresh.path@ == "/auth/refresh"@
            &&& access.http_only && refresh.http_only
            &&& access.same_site == SameSite::Strict && refresh.same_site == SameSite::Strict
            &&& access.secure == jwt.cookie_secure() && refresh.secure == jwt.cookie_secure()
            &&& access.max_age is None && refresh.max_age is None
            &&& token_claims(access.value@, jwt.secret(TokenKind::Access)) matches Some(
                (Some(s), Some(iat), Some(exp)),
            ) && token_claims(refresh.value@, jwt.secret(TokenKind::Refresh)) matches Some(
                (Some(s2), Some(iat2), Some(exp2)),
            ) && s == old_claims.0 && s2 == old_claims.0 && iat == now && exp == iat
                + jwt.lifetime(TokenKind::Access) && iat2 == iat && exp2 == iat + jwt.lifetime(
                TokenKind::Refresh,
            )
        },
{
    let token = match refresh_token {
        Some(t) => t,
        None => {
            return Err(Error::RefreshCookieNotFound);
        },
    };
    let old_claims = jwt.validate_token_at(TokenKind::Refresh, token.as_str(), now)?;
    let mut claims = Claims::new(old_claims.sub.as_str());
    let access = jwt.generate_token_at(TokenKind::Access, &mut claims, now)?;
    let refresh = jwt.generate_token_at(TokenKind::Refresh, &mut claims, now)?;
    let access_cookie = token_cookie(ACCESS_TOKEN_COOKIE, access, "/", jwt.is_secure_cookie());
    let refresh_cookie = token_cookie(
        REFRESH_TOKEN_COOKIE,
        refresh,
        "/auth/refresh",
        jwt.is_secure_cookie(),
    );
    Ok((access_cookie, refresh_cookie))
}

/// The page shown at the end of the callback: it tells the window that
/// opened it that login is done, then closes itself.
pub const CALLBACK_FALLBACK_HTML: &'static str = "
        <html>
            <body>
                <script>
                    window.opener?.postMessage({ type: \"discordAuthComplete\" }, \"*\");
                    window.close();
                    window.history.replaceState({}, document.title, '/auth/discord/callback');
                </script>
                <p>You can close this window.</p>
            </body>
        </html>
    ";

/// The callback page used where no page of its own is deployed.
pub fn generate_fallback_html() -> (r: String)
    ensures
        r@ == CALLBACK_FALLBACK_HTML@,
{
    CALLBACK_FALLBACK_HTML.to_owned()
}

/// A query value that is absent or empty counts as absent.
pub fn empty_string_as_none(value: Option<String>) -> (r: Option<String>)
    ensures
        value matches Some(v) && v@.len() > 0 ==> r == value,
        !(value matches Some(v) && v@.len() > 0) ==> r is None,
{
    match value {
        Some(v) => {
            if v.as_str().unicode_len() == 0 {
                None
            } else {
                Some(v)
            }
        },
        None => None,
    }
}

/// Reissues both token cookies from the refresh cookie, by the system
/// clock.
pub fn auth_refresh(jwt: &JwtService, refresh_token: Option<String>) -> (r: Result<
    (CookieSpec, CookieSpec),
    Error,
>)
    ensures
        refresh_token is None ==> r matches Err(Error::RefreshCookieNotFound),
        refresh_token matches Some(t) && accepted_claims(
            token_claims(t@, jwt.secret(TokenKind::Refresh)),
            false,
            0,
        ) is None ==> r matches Err(Error::JwtTokenValidationError),
        refresh_token matches Some(t) && accepted_claims(
            token_claims(t@, jwt.secret(TokenKind::Refresh)),
            false,
            0,
        ) is Some && r is Err ==> r matches Err(Error::JwtTokenGenerationError),
        r matches Ok((access, refresh)) ==> {
            &&& access.name@ == ACCESS_TOKEN_COOKIE@ && access.path@ == "/"@
            &&& refresh.name@ == REFRESH_TOKEN_COOKIE@ && refresh.path@ == "/auth/refresh"@
            &&& access.http_only && refresh.http_only
            &&& access.same_site == SameSite::Strict && refresh.same_site == SameSite::Strict
            &&& access.secure == jwt.cookie_secure() && refresh.secure == jwt.cookie_secure()
            &&& access.max_age is None && refresh.max_age is None
            &&& accepted_claims(
                token_claims(refresh_token->Some_0@, jwt.secret(TokenKind::Refresh)),
                false,
                0,
            ) matches Some(old_claims)
            &&& token_claims(access.value@, jwt.secret(TokenKind::Access)) matches Some(
                (Some(s), Some(iat), Some(exp)),
            ) && token_claims(refresh.value@, jwt.secret(TokenKind::Refresh)) matches Some(
                (Some(s2), Some(iat2), Some(exp2)),
            ) && s == old_claims.0 && s2 == old_claims.0 && exp == iat + jwt.lifetime(
                TokenKind::Access,
            ) && iat2 == iat && exp2 == iat + jwt.lifetime(TokenKind::Refresh)
        },
{
    let now = crate::jwt::unix_now();
    proof {
        if refresh_token is Some {
            lemma_time_unchecked(
                token_claims(refresh_token->Some_0@, jwt.secret(TokenKind::Refresh)),
                now as int,
            );
        }
    }
    auth_refresh_at(jwt, refresh_token, now)
}

/// Without the expiry check, the time of a check does not matter.
proof fn lemma_time_unchecked(
    decoded: Option<(Option<Seq<char>>, Option<u64>, Option<u64>)>,
    now: int,
)
    ensures
        accepted_claims(decoded, false, now) == accepted_claims(decoded, false, 0),
{
}

} // verus!
