use vstd::prelude::*;
use crate::config::JwtConfig;
use crate::error::Error;
use crate::model::opt_text;

verus! {

/// The compact HS512 token that signs the claims `sub`, `iat` and `exp`
/// with `secret`.
pub uninterp spec fn signed_token(sub: Seq<char>, iat: u64, exp: u64, secret: Seq<char>) -> Seq<
    char,
>;

/// What a token holds when its HS512 signature checks out under `secret`
/// and it carries an expiry: its subject, issue time and expiry, each as
/// far as present and well typed. `None` for any other token.
pub uninterp spec fn token_claims(token: Seq<char>, secret: Seq<char>) -> Option<
    (Option<Seq<char>>, Option<u64>, Option<u64>),
>;

/// Relies on jsonwebtoken::encode with an HS512 header and a key made by
/// EncodingKey::from_secret: it fails only where key family and algorithm
/// differ, which an HMAC key under HS512 never does, and a map of one
/// string and two integers always serializes. The token it returns decodes,
/// under the same secret, to the claims it signed.
#[verifier::external_body]
fn sign_hs512(sub: &String, iat: u64, exp: u64, secret: &String) -> (r: Option<String>)
    ensures
        r is Some,
        r matches Some(t) ==> t@ == signed_token(sub@, iat, exp, secret@) && token_claims(
            t@,
            secret@,
        ) == Some((Some(sub@), Some(iat), Some(exp))),
{
    let mut claims = serde_json::Map::new();
    claims.insert("sub".to_string(), serde_json::Value::from(sub.as_str()));
    claims.insert("iat".to_string(), serde_json::Value::from(iat));
    claims.insert("exp".to_string(), serde_json::Value::from(exp));
    let header = jsonwebtoken::Header::new(jsonwebtoken::Algorithm::HS512);
    jsonwebtoken::encode(&header, &claims, &jsonwebtoken::EncodingKey::from_secret(secret.as_bytes())).ok()
}

/// Relies on jsonwebtoken::decode, for HS512 only, with the expiry check
/// left to the caller: the signature and the presence of `exp` are checked,
/// and the claims come back as they were signed.
#[verifier::external_body]
fn decode_hs512(token: &str, secret: &String) -> (r: Option<
    (Option<String>, Option<u64>, Option<u64>),
>)
    ensures
        r is Some <==> token_claims(token@, secret@) is Some,
        r matches Some(c) ==> token_claims(token@, secret@) == Some((opt_text(c.0), c.1, c.2)),
{
    let mut validation = jsonwebtoken::Validation::new(jsonwebtoken::Algorithm::HS512);
    validation.validate_exp = false;
    let key = jsonwebtoken::DecodingKey::from_secret(secret.as_bytes());
    let c = jsonwebtoken::decode::<serde_json::Map<String, serde_json::Value>>(token, &key, &validation).ok()?.claims;
    let sub = c.get("sub").and_then(serde_json::Value::as_str).map(str::to_string);
    let iat = c.get("iat").and_then(serde_json::Value::as_u64);
    Some((sub, iat, c.get("exp").and_then(serde_json::Value::as_u64)))
}

/// Relies on jsonwebtoken::get_current_timestamp: seconds since the Unix
/// epoch by the system clock.
#[verifier::external_body]
pub(crate) fn unix_now() -> (r: u64) {
    jsonwebtoken::get_current_timestamp()
}

/// The claims of an identity token: its subject and the times, in seconds
/// since the Unix epoch, at which it was issued and expires.
#[derive(Debug)]
pub struct Claims {
    pub sub: String,
    pub iat: usize,
    pub exp: usize,
}

impl Claims {
    /// Claims for `sub`; the times are set when a token is made.
    pub fn new(sub: &str) -> (r: Self)
        ensures
            r.sub@ == sub@,
            r.iat == 0,
            r.exp == 0,
    {
        Claims { sub: sub.to_owned(), iat: 0, exp: 0 }
    }
}

/// The two purposes of a token, each with its own secret and lifetime.
#[derive(Clone, Copy, Debug, PartialEq, Eq, Structural)]
pub enum TokenKind {
    Access,
    Refresh,
}

/// An access token is checked for expiry; a refresh token only for its
/// signature and subject.
pub open spec fn checks_expiry(kind: TokenKind) -> bool {
    kind == TokenKind::Access
}

/// The claims that a check at second `now` accepts from what decoding gave:
/// all three present, the times within `usize`, and, where expiry is
/// checked, `now` not past the expiry.
pub open spec fn accepted_claims(
    decoded: Option<(Option<Seq<char>>, Option<u64>, Option<u64>)>,
    check_exp: bool,
    now: int,
) -> Option<(Seq<char>, u64, u64)> {
    match decoded {
        Some((Some(sub), Some(iat), Some(exp))) => {
            if iat <= usize::MAX && exp <= usize::MAX && (!check_exp || now <= exp) {
                Some((sub, iat, exp))
            } else {
                None
            }
        },
        _ => None,
    }
}

/// Issues and checks the signed access and refresh tokens of the stateless
/// session design.
#[derive(Clone, Debug)]
pub struct JwtService {
    access_token_secret: String,
    refresh_token_secret: String,
    access_token_exp: usize,
    refresh_token_exp: usize,
    pub secure_cookie: bool,
}

impl JwtService {
    pub closed spec fn secret(&self, kind: TokenKind) -> Seq<char> {
        match kind {
            TokenKind::Access => self.access_token_secret@,
            TokenKind::Refresh => self.refresh_token_secret@,
        }
    }

    pub closed spec fn lifetime(&self, kind: TokenKind) -> usize {
        match kind {
            TokenKind::Access => self.access_token_exp,
            TokenKind::Refresh => self.refresh_token_exp,
        }
    }

    pub closed spec fn cookie_secure(&self) -> bool {
        self.secure_cookie
    }

    pub fn is_secure_cookie(&self) -> (r: bool)
        ensures
            r == self.cookie_secure(),
    {
        self.secure_cookie
    }

    pub fn new(config: &JwtConfig) -> (r: Self)
        ensures
            r.secret(TokenKind::Access) == config.access_token_secret@,
            r.secret(TokenKind::Refresh) == config.refresh_token_secret@,
            r.lifetime(TokenKind::Access) == config.access_token_exp,
            r.lifetime(TokenKind::Refresh) == config.refresh_token_exp,
            r.cookie_secure() == config.secure_cookie,
    {
        JwtService {
            access_token_secret: config.access_token_secret.clone(),
            refresh_token_secret: config.refresh_token_secret.clone(),
            access_token_exp: config.access_token_exp,
            refresh_token_exp: config.refresh_token_exp,
            secure_cookie: config.secure_cookie,
        }
    }

    /// Makes a token of `kind` issued at second `now`: sets the claims'
    /// issue time to `now` and their expiry one lifetime later, then signs
    /// them. Fails when those times do not fit, or signing fails.
    pub fn generate_token_at(&self, kind: TokenKind, claims: &mut Claims, now: u64) -> (r: Result<
        String,
        Error,
    >)
        ensures
            final(claims).sub == old(claims).sub,
            r is Ok <==> now + self.lifetime(kind) <= usize::MAX,
            r is Err ==> r matches Err(Error::JwtTokenGenerationError),
            r matches Ok(t) ==> {
                &&& now + self.lifetime(kind) <= usize::MAX
                &&& final(claims).iat == now
                &&& final(claims).exp == now + self.lifetime(kind)
                &&& t@ == signed_token(
                    old(claims).sub@,
                    now,
                    (now + self.lifetime(kind)) as u64,
                    self.secret(kind),
                )
                &&& token_claims(t@, self.secret(kind)) == Some(
                    (Some(old(claims).sub@), Some(now), Some((now + self.lifetime(kind)) as u64)),
                )
            },
    {
        let (secret, lifetime) = match kind {
            TokenKind::Access => (&self.access_token_secret, self.access_token_exp),
            TokenKind::Refresh => (&self.refresh_token_secret, self.refresh_token_exp),
        };
        if now > usize::MAX as u64 || lifetime > usize::MAX - now as usize {
            return Err(Error::JwtTokenGenerationError);
        }
        claims.iat = now as usize;
        claims.exp = now as usize + lifetime;
        match sign_hs512(&claims.sub, claims.iat as u64, claims.exp as u64, secret) {
            Some(t) => Ok(t),
            None => Err(Error::JwtTokenGenerationError),
        }
    }

    /// Checks a token of `kind` at second `now` and returns its claims:
    /// the signature under the kind's secret, and for an access token its
    /// expiry. Every failure is the same validation error.
    pub fn validate_token_at(&self, kind: TokenKind, token: &str, now: u64) -> (r: Result<
        Claims,
        Error,
    >)
        ensures
            r is Ok <==> accepted_claims(
                token_claims(token@, self.secret(kind)),
                checks_expiry(kind),
                now as int,
            ) is Some,
            r matches Ok(c) ==> accepted_claims(
                token_claims(token@, self.secret(kind)),
                checks_expiry(kind),
                now as int,
            ) == Some((c.sub@, c.iat as u64, c.exp as u64)),
            r is Err ==> r matches Err(Error::JwtTokenValidationError),
    {
        let secret = match kind {
            TokenKind::Access => &self.access_token_secret,
            TokenKind::Refresh => &self.refresh_token_secret,
        };
        let decoded = match decode_hs512(token, secret) {
            Some(d) => d,
            None => {
                return Err(Error::JwtTokenValidationError);
            },
        };
        match decoded {
            (Some(sub), Some(iat), Some(exp)) => {
                if iat <= usize::MAX as u64 && exp <= usize::MAX as u64 && (kind
                    == TokenKind::Refresh || now <= exp) {
                    Ok(Claims { sub, iat: iat as usize, exp: exp as usize })
                } else {
                    Err(Error::JwtTokenValidationError)
                }
            },
            _ => Err(Error::JwtTokenValidationError),
        }
    }

    /// Generates an access token with the specified claims.
    pub fn generate_access_token(&self, claims: &mut Claims) -> (r: Result<String, Error>)
        ensures
            final(claims).sub == old(claims).sub,
            r matches Ok(t) ==> final(claims).exp == final(claims).iat + self.lifetime(
                TokenKind::Access,
            ) && token_claims(t@, self.secret(TokenKind::Access)) == Some(
                (Some(old(claims).sub@), Some(final(claims).iat as u64), Some(final(claims).exp as u64)),
            ),
            r is Err ==> r matches Err(Error::JwtTokenGenerationError),
    {
        let now = unix_now();
        self.generate_token_at(TokenKind::Access, claims, now)
    }

    /// Generates a refresh token with the specified claims.
    pub fn generate_refresh_token(&self, claims: &mut Claims) -> (r: Result<String, Error>)
        ensures
            final(claims).sub == old(claims).sub,
            r matches Ok(t) ==> final(claims).exp == final(claims).iat + self.lifetime(
                TokenKind::Refresh,
            ) && token_claims(t@, self.secret(TokenKind::Refresh)) == Some(
                (Some(old(claims).sub@), Some(final(claims).iat as u64), Some(final(claims).exp as u64)),
            ),
            r is Err ==> r matches Err(Error::JwtTokenGenerationError),
    {
        let now = unix_now();
        self.generate_token_at(TokenKind::Refresh, claims, now)
    }

    /// Validates an access token against the clock: signature and expiry.
    pub fn validate_access_token(&self, token: &str) -> (r: Result<Claims, Error>)
        ensures
            r matches Ok(c) ==> token_claims(token@, self.secret(TokenKind::Access)) == Some(
                (Some(c.sub@), Some(c.iat as u64), Some(c.exp as u64)),
            ),
            accepted_claims(token_claims(token@, self.secret(TokenKind::Access)), false, 0) is None
                ==> r is Err,
            r is Err ==> r matches Err(Error::JwtTokenValidationError),
    {
        let now = unix_now();
        self.validate_token_at(TokenKind::Access, token, now)
    }

    /// Validates a refresh token: signature and subject only, whatever the
    /// time.
    pub fn validate_refresh_token(&self, token: &str) -> (r: Result<Claims, Error>)
        ensures
            r is Ok <==> accepted_claims(
                token_claims(token@, self.secret(TokenKind::Refresh)),
                false,
                0,
            ) is Some,
            r matches Ok(c) ==> token_claims(token@, self.secret(TokenKind::Refresh)) == Some(
                (Some(c.sub@), Some(c.iat as u64), Some(c.exp as u64)),
            ),
            r is Err ==> r matches Err(Error::JwtTokenValidationError),
    {
        let now = unix_now();
        self.validate_token_at(TokenKind::Refresh, token, now)
    }
}

/// A token made for some claims gives the same subject and times back when
/// checked under the secret of its kind, expiry included, until it expires.
pub proof fn lemma_token_round_trip(
    svc: JwtService,
    kind: TokenKind,
    sub: Seq<char>,
    issued: u64,
    token: Seq<char>,
    now: int,
)
    requires
        issued + svc.lifetime(kind) <= usize::MAX,
        token_claims(token, svc.secret(kind)) == Some(
            (Some(sub), Some(issued), Some((issued + svc.lifetime(kind)) as u64)),
        ),
        now <= issued + svc.lifetime(kind),
    ensures
        accepted_claims(token_claims(token, svc.secret(kind)), true, now) == Some(
            (sub, issued, (issued + svc.lifetime(kind)) as u64),
        ),
{
}

/// Past their expiry, claims signed as an access token are refused, while
/// the same claims signed as a refresh token are still accepted.
pub proof fn lemma_refresh_outlives_access(
    svc: JwtService,
    sub: Seq<char>,
    issued: u64,
    expires: u64,
    access_token: Seq<char>,
    refresh_token: Seq<char>,
    now: int,
)
    requires
        issued <= usize::MAX,
        expires <= usize::MAX,
        token_claims(access_token, svc.secret(TokenKind::Access)) == Some(
            (Some(sub), Some(issued), Some(expires)),
        ),
        token_claims(refresh_token, svc.secret(TokenKind::Refresh)) == Some(
            (Some(sub), Some(issued), Some(expires)),
        ),
        now > expires,
    ensures
        accepted_claims(
            token_claims(access_token, svc.secret(TokenKind::Access)),
            checks_expiry(TokenKind::Access),
            now,
        ) is None,
        accepted_claims(
            token_claims(refresh_token, svc.secret(TokenKind::Refresh)),
            checks_expiry(TokenKind::Refresh),
            now,
        ) == Some((sub, issued, expires)),
{
}

} // verus!
