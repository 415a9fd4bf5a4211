use elite_dashboard::config::{DiscordConfig, JwtConfig};
use elite_dashboard::ctx::Ctx;
use elite_dashboard::discord::{self, DiscordApiService, DiscordAuthService};
use elite_dashboard::error::{AppError, Error};
use elite_dashboard::flow::{
    auth_discord, auth_refresh_at, callback_begin, callback_start, callback_step, complete_login,
    mw_ctx_require_at, mw_session_require, mw_staff_only, CallbackEvent, CallbackStart,
    CallbackState, DiscordCallbackQueryParams,
};
use elite_dashboard::jwt::{Claims, JwtService, TokenKind};
use elite_dashboard::model::UserRole;
use elite_dashboard::session::{ProviderTokens, SameSite, SessionConfig, SessionFields, SessionService};
use elite_dashboard::store::StoreCommand;

fn s(v: &str) -> String {
    v.to_string()
}

fn discord_config() -> DiscordConfig {
    DiscordConfig {
        api_version: s("10"),
        redirect_url: s("http://localhost:8080/auth/discord/callback"),
        client_id: s("client123"),
        client_secret: s("secret"),
        scopes: s("identify"),
        bot_token: s("bot-token"),
        elite_guild_id: s("guild1"),
        elite_staff_role_id: s("staff-role"),
    }
}

fn jwt() -> JwtService {
    JwtService::new(&JwtConfig {
        access_token_secret: s("access-secret"),
        refresh_token_secret: s("refresh-secret"),
        access_token_exp: 3600,
        refresh_token_exp: 604800,
        secure_cookie: false,
    })
}

#[test]
fn claims_start_without_times() {
    let c = Claims::new("42");
    assert_eq!(c.sub, "42");
    assert_eq!((c.iat, c.exp), (0, 0));
}

#[test]
fn token_round_trip_keeps_subject() {
    let svc = jwt();
    let mut claims = Claims::new("user-1");
    let token = svc.generate_token_at(TokenKind::Access, &mut claims, 1_000_000).unwrap();
    assert_eq!(claims.iat, 1_000_000);
    assert_eq!(claims.exp, 1_003_600);
    let back = svc.validate_token_at(TokenKind::Access, &token, 1_000_100).unwrap();
    assert_eq!(back.sub, "user-1");
    assert_eq!(back.iat, 1_000_000);
    assert_eq!(back.exp, 1_003_600);
}

#[test]
fn live_token_round_trip_with_clock() {
    let svc = jwt();
    let mut claims = Claims::new("user-2");
    let token = svc.generate_access_token(&mut claims).unwrap();
    assert_eq!(claims.exp - claims.iat, 3600);
    assert_eq!(svc.validate_access_token(&token).unwrap().sub, "user-2");
    let mut claims = Claims::new("user-2");
    let refresh = svc.generate_refresh_token(&mut claims).unwrap();
    assert_eq!(claims.exp - claims.iat, 604800);
    assert_eq!(svc.validate_refresh_token(&refresh).unwrap().sub, "user-2");
    assert!(svc.validate_access_token(&refresh).is_err());
}

#[test]
fn changed_byte_breaks_the_token() {
    let svc = jwt();
    let mut claims = Claims::new("user-1");
    let token = svc.generate_token_at(TokenKind::Access, &mut claims, 1_000_000).unwrap();
    let dot = token.find('.').unwrap();
    let mut bytes = token.into_bytes();
    let i = dot + 3;
    bytes[i] = if bytes[i] == b'A' { b'B' } else { b'A' };
    let changed = String::from_utf8(bytes).unwrap();
    assert!(matches!(
        svc.validate_token_at(TokenKind::Access, &changed, 1_000_100),
        Err(Error::JwtTokenValidationError)
    ));
}

#[test]
fn wrong_secret_is_refused() {
    let svc = jwt();
    let mut claims = Claims::new("user-1");
    let token = svc.generate_token_at(TokenKind::Refresh, &mut claims, 1_000_000).unwrap();
    assert!(svc.validate_token_at(TokenKind::Access, &token, 1_000_000).is_err());
    assert!(svc.validate_token_at(TokenKind::Refresh, "not-a-token", 1_000_000).is_err());
}

#[test]
fn expired_access_fails_refresh_still_valid() {
    let svc = jwt();
    let mut claims = Claims::new("user-1");
    let access = svc.generate_token_at(TokenKind::Access, &mut claims, 1_000).unwrap();
    let mut claims = Claims::new("user-1");
    let refresh = svc.generate_token_at(TokenKind::Refresh, &mut claims, 1_000).unwrap();
    assert!(svc.validate_token_at(TokenKind::Access, &access, 4_600).is_ok());
    assert!(matches!(
        svc.validate_token_at(TokenKind::Access, &access, 4_601),
        Err(Error::JwtTokenValidationError)
    ));
    let later = 1_000 + 604_800 + 10_000;
    assert_eq!(svc.validate_token_at(TokenKind::Refresh, &refresh, later).unwrap().sub, "user-1");
    assert!(svc.validate_access_token(&access).is_err());
    assert_eq!(svc.validate_refresh_token(&refresh).unwrap().sub, "user-1");
}

#[test]
fn token_gate_attaches_subject() {
    let svc = jwt();
    let mut claims = Claims::new("user-9");
    let access = svc.generate_token_at(TokenKind::Access, &mut claims, 5_000).unwrap();
    let ctx: Ctx = mw_ctx_require_at(&svc, Some(access.clone()), 5_001).unwrap();
    assert_eq!(ctx.user_id(), "user-9");
    assert!(matches!(mw_ctx_require_at(&svc, None, 5_001), Err(Error::AuthCookieNotFound)));
    assert!(matches!(
        mw_ctx_require_at(&svc, Some(access), 9_000),
        Err(Error::JwtTokenValidationError)
    ));
    assert_eq!(Ctx::new("u").user_id(), "u");
}

#[test]
fn refresh_reissues_both_cookies() {
    let svc = jwt();
    let mut claims = Claims::new("user-3");
    let refresh = svc.generate_token_at(TokenKind::Refresh, &mut claims, 1_000).unwrap();
    let (access_cookie, refresh_cookie) = auth_refresh_at(&svc, Some(refresh), 2_000_000).unwrap();
    assert_eq!(access_cookie.name, "elite-dashboard-access-token");
    assert_eq!(access_cookie.path, "/");
    assert_eq!(refresh_cookie.name, "elite-dashboard-refresh-token");
    assert_eq!(refresh_cookie.path, "/auth/refresh");
    assert_eq!(access_cookie.same_site, SameSite::Strict);
    assert!(access_cookie.http_only && refresh_cookie.http_only);
    assert!(!access_cookie.secure);
    let c = svc.validate_token_at(TokenKind::Access, &access_cookie.value, 2_000_001).unwrap();
    assert_eq!(c.sub, "user-3");
    assert_eq!(c.iat, 2_000_000);
    let r = svc.validate_token_at(TokenKind::Refresh, &refresh_cookie.value, 2_000_001).unwrap();
    assert_eq!(r.exp, 2_604_800);
    assert!(matches!(auth_refresh_at(&svc, None, 1), Err(Error::RefreshCookieNotFound)));
    assert!(matches!(
        auth_refresh_at(&svc, Some(s("garbage")), 1),
        Err(Error::JwtTokenValidationError)
    ));
}

fn auth() -> DiscordAuthService {
    DiscordAuthService::new(&discord_config())
}

#[test]
fn role_resolution() {
    let a = auth();
    assert_eq!(a.get_role_for_member(&Some(vec![s("x"), s("staff-role")])).unwrap(), UserRole::Staff);
    assert_eq!(a.get_role_for_member(&Some(vec![s("member-role")])).unwrap(), UserRole::Elite);
    assert!(matches!(a.get_role_for_member(&Some(vec![])), Err(Error::NotInElite)));
    assert!(matches!(a.get_role_for_member(&None), Err(Error::NotInEliteGuild)));
}

#[test]
fn authorize_url_carries_state_and_client() {
    let (url, csrf) = auth().authorize_url_with_state(s("T1")).unwrap();
    assert_eq!(csrf, "T1");
    assert!(url.starts_with("https://discord.com/oauth2/authorize?"));
    assert!(url.contains("state=T1"));
    assert!(url.contains("client_id=client123"));
    assert!(url.contains("response_type=code"));
    assert!(url.contains("scope=identify"));
    assert!(url.contains("redirect_uri=http%3A%2F%2Flocalhost%3A8080%2Fauth%2Fdiscord%2Fcallback"));
    let (url2, csrf2) = auth().init_auth().unwrap();
    assert!(!csrf2.is_empty());
    assert!(url2.contains(&format!("state={}", csrf2)));
    let mut bad = discord_config();
    bad.redirect_url = s("not a url");
    assert!(matches!(
        DiscordAuthService::new(&bad).authorize_url_with_state(s("T1")),
        Err(discord::Error::DiscordApiRequestError(_))
    ));
    assert!(matches!(
        AppError::from(discord::Error::DiscordApiRequestError(s("x"))),
        AppError::InternalServerError
    ));
}

#[test]
fn api_urls() {
    let a = auth();
    assert_eq!(a.token_url(), "https://discord.com/api/v10/oauth2/token");
    assert_eq!(a.api_url_for("users/@me"), "https://discord.com/api/v10/users/@me");
    let api = DiscordApiService::new(&discord_config());
    assert_eq!(api.elite_guild_url(), "https://discord.com/api/v10/guilds/guild1");
    assert_eq!(api.elite_guild_member_url("123"), "https://discord.com/api/v10/guilds/guild1/members/123");
    assert_eq!(api.authorization(), "Bot bot-token");
}

fn params(code: Option<&str>, state: Option<&str>, error: Option<&str>) -> DiscordCallbackQueryParams {
    DiscordCallbackQueryParams {
        code: code.map(s),
        state: state.map(s),
        error: error.map(s),
        error_description: None,
    }
}

#[test]
fn callback_query_checks() {
    assert!(matches!(
        callback_start(params(Some("abc"), Some("T1"), Some("access_denied")), Some(s("S1"))),
        Ok(CallbackStart::ProviderError)
    ));
    assert!(matches!(
        callback_start(params(None, Some("T1"), None), Some(s("S1"))),
        Err(Error::NoCodeInDiscordCallbackPath)
    ));
    assert!(matches!(
        callback_start(params(Some("abc"), None, None), Some(s("S1"))),
        Err(Error::NoStateInDiscordCallbackPath)
    ));
    assert!(matches!(
        callback_start(params(Some("abc"), Some("T1"), None), None),
        Err(Error::SessionCookieNotFound)
    ));
    match callback_start(params(Some("abc"), Some("T1"), None), Some(s("S1"))).unwrap() {
        CallbackStart::Proceed { session_id, code, state } => {
            assert_eq!((session_id.as_str(), code.as_str(), state.as_str()), ("S1", "abc", "T1"));
        }
        CallbackStart::ProviderError => panic!("expected to proceed"),
    }
}

/// Applies the writes of a batch to the fields that a later read sees, as
/// the store would within their lifetimes.
fn fields_after(commands: &[StoreCommand]) -> SessionFields {
    let mut f = SessionFields { user_id: None, user_role: None, discord_access_token: None, discord_refresh_token: None };
    for c in commands {
        if let StoreCommand::SetFields { fields, .. } = c {
            for (name, value) in fields {
                match name.as_str() {
                    "user_id" => f.user_id = Some(value.clone()),
                    "user_role" => f.user_role = Some(value.clone()),
                    "discord_access_token" => f.discord_access_token = Some(value.clone()),
                    "discord_refresh_token" => f.discord_refresh_token = Some(value.clone()),
                    _ => {}
                }
            }
        }
    }
    f
}

#[test]
fn login_end_to_end() {
    let store = SessionService::new(&SessionConfig { secure_cookie: true });
    let discord_auth = auth();

    let start = auth_discord(&discord_auth, &store).unwrap();
    let s1 = start.cookie.value.clone();
    assert_eq!(start.cookie.max_age, Some(300));
    let t1 = match &start.commands[0] {
        StoreCommand::SetFields { fields, .. } => fields[0].1.clone(),
        other => panic!("unexpected {:?}", other),
    };
    assert!(start.url.contains(&format!("state={}", t1)));

    let (session_id, code, state) =
        match callback_start(params(Some("abc"), Some(&t1), None), Some(s1.clone())).unwrap() {
            CallbackStart::Proceed { session_id, code, state } => (session_id, code, state),
            CallbackStart::ProviderError => panic!("expected to proceed"),
        };
    assert_eq!(code, "abc");
    store.validate_init_session(&Some(t1.clone()), &state).unwrap();

    let tokens = ProviderTokens { access_token: s("acc"), refresh_token: Some(s("ref")), expires_in: Some(604800) };
    let done = complete_login(&store, &discord_auth, &session_id, &tokens, &s("123"), &Some(vec![s("staff-role")])).unwrap();
    assert_eq!(done.role, UserRole::Staff);
    assert_eq!(done.cookie.value, s1);
    assert_eq!(done.cookie.max_age, Some(2592000));

    let fields = fields_after(&done.commands);
    let gate = mw_session_require(&store, Some(s1.clone()), true, fields.clone(), "/dashboard/elites").unwrap();
    assert_eq!(gate.session.user.id, "123");
    assert!(gate.renewal.is_none());
    assert!(mw_staff_only(&gate.session).is_ok());

    let me = mw_session_require(&store, Some(s1.clone()), true, fields.clone(), "/elites/@me").unwrap();
    let (renew, cookie) = me.renewal.unwrap();
    assert!(matches!(renew, StoreCommand::Expire { seconds: 2592000, .. }));
    assert_eq!(cookie.max_age, Some(2592000));

    assert!(matches!(store.invalidate_session(&s1), StoreCommand::Delete { .. }));
    let gone = mw_session_require(&store, Some(s1), false, fields, "/dashboard/elites");
    assert!(matches!(gone, Err(Error::SessionNotFound)));
    assert!(matches!(AppError::from(gone.err().unwrap()), AppError::Unauthorized));
}

#[test]
fn members_without_staff_role_are_kept_out_of_staff_routes() {
    let store = SessionService::new(&SessionConfig { secure_cookie: true });
    let tokens = ProviderTokens { access_token: s("acc"), refresh_token: Some(s("ref")), expires_in: Some(60) };
    let done = complete_login(&store, &auth(), &s("S2"), &tokens, &s("77"), &Some(vec![s("member")])).unwrap();
    assert_eq!(done.role, UserRole::Elite);
    let gate = mw_session_require(&store, Some(s("S2")), true, fields_after(&done.commands), "/x").unwrap();
    assert!(matches!(mw_staff_only(&gate.session), Err(Error::StaffOnly)));
    assert!(matches!(
        complete_login(&store, &auth(), &s("S2"), &tokens, &s("77"), &None),
        Err(Error::NotInEliteGuild)
    ));
    assert!(matches!(mw_session_require(&store, None, true, fields_after(&done.commands), "/x"), Err(Error::SessionCookieNotFound)));
}

#[test]
fn times_past_the_range_fail_generation() {
    let svc = jwt();
    let mut claims = Claims::new("user-1");
    let r = svc.generate_token_at(TokenKind::Access, &mut claims, u64::MAX - 10);
    assert!(matches!(r, Err(Error::JwtTokenGenerationError)));
    assert!(matches!(AppError::from(Error::JwtTokenGenerationError), AppError::InternalServerError));
    assert!(matches!(AppError::from(Error::JwtTokenValidationError), AppError::Unauthorized));
}

#[test]
fn callback_steps_run_in_order() {
    let store = SessionService::new(&SessionConfig { secure_cookie: true });
    let a = auth();
    let start = callback_start(params(Some("abc"), Some("T1"), None), Some(s("S1"))).unwrap();
    let step = callback_begin(start).unwrap();
    assert!(matches!(step, CallbackState::CheckCsrf { .. }));
    let step = callback_step(&store, &a, step, CallbackEvent::CsrfRead { stored: Ok(Some(s("T1"))) });
    assert!(matches!(step, CallbackState::ExchangeCode { ref code, .. } if code == "abc"));
    let tokens = ProviderTokens { access_token: s("acc"), refresh_token: Some(s("ref")), expires_in: Some(604800) };
    let step = callback_step(&store, &a, step, CallbackEvent::CodeExchanged { tokens: Ok(tokens) });
    assert!(matches!(step, CallbackState::FetchIdentity { .. }));
    let step = callback_step(&store, &a, step, CallbackEvent::IdentityFetched { user_id: Ok(s("123")) });
    assert!(matches!(step, CallbackState::FetchMembership { ref user_id, .. } if user_id == "123"));
    let step = callback_step(&store, &a, step, CallbackEvent::MembershipFetched { roles: Ok(Some(vec![s("staff-role")])) });
    let commands = match &step {
        CallbackState::Promote { session_id, login } => {
            assert_eq!(session_id, "S1");
            assert_eq!(login.role, UserRole::Staff);
            login.commands.clone()
        }
        other => panic!("unexpected {:?}", other),
    };
    assert_eq!(commands.len(), 3);
    let step = callback_step(&store, &a, step, CallbackEvent::Promoted { written: Ok(()) });
    match step {
        CallbackState::Done { login } => {
            assert_eq!(login.cookie.value, "S1");
            assert_eq!(login.cookie.max_age, Some(2592000));
        }
        other => panic!("unexpected {:?}", other),
    }
}

#[test]
fn callback_steps_stop_on_failure() {
    let store = SessionService::new(&SessionConfig { secure_cookie: true });
    let a = auth();
    let begin = || callback_begin(callback_start(params(Some("abc"), Some("T1"), None), Some(s("S1"))).unwrap()).unwrap();
    let wrong = callback_step(&store, &a, begin(), CallbackEvent::CsrfRead { stored: Ok(Some(s("T2"))) });
    assert!(matches!(wrong, CallbackState::Failed { error: Error::SessionNotFound }));
    let expired = callback_step(&store, &a, begin(), CallbackEvent::CsrfRead { stored: Ok(None) });
    assert!(matches!(expired, CallbackState::Failed { error: Error::SessionNotFound }));
    let down = callback_step(&store, &a, begin(), CallbackEvent::CsrfRead { stored: Err(Error::RedisOperationError(s("down"))) });
    assert!(matches!(down, CallbackState::Failed { error: Error::RedisOperationError(_) }));
    let out_of_order = callback_step(&store, &a, begin(), CallbackEvent::IdentityFetched { user_id: Ok(s("1")) });
    assert!(matches!(out_of_order, CallbackState::CheckCsrf { .. }));
    let step = callback_step(&store, &a, begin(), CallbackEvent::CsrfRead { stored: Ok(Some(s("T1"))) });
    let failed = callback_step(&store, &a, step, CallbackEvent::CodeExchanged { tokens: Err(Error::DiscordApiError(s("x"))) });
    assert!(matches!(failed, CallbackState::Failed { error: Error::DiscordApiError(_) }));
    assert!(callback_begin(callback_start(params(None, None, Some("denied")), None).unwrap()).is_none());
    let tokens = ProviderTokens { access_token: s("acc"), refresh_token: Some(s("ref")), expires_in: Some(60) };
    let state = CallbackState::FetchMembership { session_id: s("S1"), tokens, user_id: s("9") };
    let outsider = callback_step(&store, &a, state, CallbackEvent::MembershipFetched { roles: Ok(None) });
    assert!(matches!(outsider, CallbackState::Failed { error: Error::NotInEliteGuild }));
}
