use vstd::prelude::*;
use crate::constants::{
    ACCESS_TOKEN_MARGIN, CSRF_TOKEN_KEY, DISCORD_ACCESS_TOKEN_KEY, DISCORD_REFRESH_TOKEN_KEY,
    FIVE_MINUTES, ONE_MONTH, SESSION_COOKIE_NAME, SESSION_ID_BYTES, SESSION_KEY_PREFIX, USER_ID_KEY,
    USER_ROLE_KEY,
};
use crate::model::{
    DiscordTokens, Session, SessionUser, UserRole, opt_text, role_name, role_of_name,
};
use crate::error::Error;
use crate::store::{CommandView, StoreCommand, commands_view};

verus! {

/// The lowercase hexadecimal digit of a value below 16.
pub open spec fn hex_digit(n: int) -> char {
    "0123456789abcdef"@[n]
}

/// Two lowercase hexadecimal digits for each byte, most significant first.
pub open spec fn hex_of(b: Seq<u8>) -> Seq<char>
    decreases b.len(),
{
    if b.len() == 0 {
        Seq::empty()
    } else {
        hex_of(b.drop_last()) + seq![hex_digit((b.last() / 16) as int), hex_digit((b.last() % 16) as int)]
    }
}

pub proof fn lemma_hex_len(b: Seq<u8>)
    ensures
        hex_of(b).len() == 2 * b.len(),
    decreases b.len(),
{
    if b.len() > 0 {
        lemma_hex_len(b.drop_last());
    }
}

/// Relies on hex::encode: two lowercase digits for each byte, in order.
#[verifier::external_body]
fn encode_hex(bytes: &Vec<u8>) -> (r: String)
    ensures
        r@ == hex_of(bytes@),
{
    hex::encode(bytes)
}

/// Relies on rand's thread-local generator (rand::rng, RngCore::fill_bytes)
/// to fill a buffer of `n` bytes with random bytes.
#[verifier::external_body]
fn random_bytes(n: usize) -> (r: Vec<u8>)
    ensures
        r@.len() == n,
{
    let mut bytes = vec![0u8; n];
    rand::RngCore::fill_bytes(&mut rand::rng(), &mut bytes);
    bytes
}

/// Compares two texts at every position they share, without stopping at
/// the first difference.
fn same_text(a: &String, b: &String) -> (r: bool)
    ensures
        r == (a@ == b@),
{
    let n = a.as_str().unicode_len();
    let m = b.as_str().unicode_len();
    let k = if n < m {
        n
    } else {
        m
    };
    let mut same = n == m;
    let mut i: usize = 0;
    while i < k
        invariant
            n == a@.len(),
            m == b@.len(),
            k <= n && k <= m,
            i <= k,
            same == (n == m && forall|j: int| 0 <= j < i ==> a@[j] == b@[j]),
        decreases k - i,
    {
        let ca = a.as_str().get_char(i);
        let cb = b.as_str().get_char(i);
        let equal = ca == cb;
        same = same && equal;
        i = i + 1;
    }
    proof {
        if same {
            assert(a@ =~= b@);
        }
    }
    same
}

/// The store key of a session.
pub open spec fn session_key_of(session_id: Seq<char>) -> Seq<char> {
    SESSION_KEY_PREFIX@ + ":"@ + session_id
}

/// The writes that start a pending login: the CSRF token, under a key that
/// lives five minutes.
pub open spec fn init_commands_view(session_id: Seq<char>, csrf: Seq<char>) -> Seq<CommandView> {
    seq![
        CommandView::SetFields {
            key: session_key_of(session_id),
            fields: seq![(CSRF_TOKEN_KEY@, csrf)],
        },
        CommandView::Expire { key: session_key_of(session_id), seconds: FIVE_MINUTES as nat },
    ]
}

/// The lifetime given to the stored provider access token: its own
/// lifetime less a safety margin, and no less than zero.
pub open spec fn access_token_ttl(expires_in: nat) -> nat {
    if expires_in > ACCESS_TOKEN_MARGIN {
        (expires_in - ACCESS_TOKEN_MARGIN) as nat
    } else {
        0
    }
}

/// The writes that promote a session to the authenticated state: identity,
/// role and provider tokens in one batch, a lifetime for the access token
/// field, and a month for the whole record.
pub open spec fn save_commands_view(
    session_id: Seq<char>,
    user_id: Seq<char>,
    role: UserRole,
    access_token: Seq<char>,
    refresh_token: Seq<char>,
    expires_in: nat,
) -> Seq<CommandView> {
    let key = session_key_of(session_id);
    seq![
        CommandView::SetFields {
            key,
            fields: seq![
                (USER_ID_KEY@, user_id),
                (USER_ROLE_KEY@, role_name(role)),
                (DISCORD_ACCESS_TOKEN_KEY@, access_token),
                (DISCORD_REFRESH_TOKEN_KEY@, refresh_token),
            ],
        },
        CommandView::ExpireField {
            key,
            field: DISCORD_ACCESS_TOKEN_KEY@,
            seconds: access_token_ttl(expires_in),
        },
        CommandView::Expire { key, seconds: ONE_MONTH as nat },
    ]
}

/// What the provider's token endpoint handed back.
#[derive(Clone, Debug)]
pub struct ProviderTokens {
    pub access_token: String,
    pub refresh_token: Option<String>,
    /// Remaining lifetime of the access token, in seconds.
    pub expires_in: Option<u64>,
}

/// The fields of a session record as one read of the store returns them.
#[derive(Clone, Debug)]
pub struct SessionFields {
    pub user_id: Option<String>,
    pub user_role: Option<String>,
    pub discord_access_token: Option<String>,
    pub discord_refresh_token: Option<String>,
}

/// Whether the fields read make a complete authenticated session.
pub open spec fn fields_complete(f: SessionFields) -> bool {
    &&& f.user_id is Some
    &&& f.user_role matches Some(r) && role_of_name(r@) is Some
    &&& f.discord_refresh_token is Some
}

/// Whether `s` is the session that complete fields `f` describe.
pub open spec fn session_from_fields(s: Session, f: SessionFields) -> bool {
    &&& Some(s.user.id@) == opt_text(f.user_id)
    &&& Some(s.user.role) == role_of_name(f.user_role->Some_0@)
    &&& opt_text(s.discord.access_token) == opt_text(f.discord_access_token)
    &&& Some(s.discord.refresh_token@) == opt_text(f.discord_refresh_token)
}

impl Session {
    /// Builds a session from the fields of its record; a missing identity,
    /// role or refresh token, or an unknown role, is an invalid session.
    pub fn from_fields(fields: SessionFields) -> (r: Result<Session, Error>)
        ensures
            r is Ok <==> fields_complete(fields),
            r matches Ok(s) ==> session_from_fields(s, fields),
            r is Err ==> r matches Err(Error::InvalidSession(_)),
    {
        let SessionFields { user_id, user_role, discord_access_token, discord_refresh_token } =
            fields;
        let id = match user_id {
            Some(id) => id,
            None => {
                return Err(Error::InvalidSession("Missing user_id".to_owned()));
            },
        };
        let role_text = match user_role {
            Some(r) => r,
            None => {
                return Err(Error::InvalidSession("Missing user_role".to_owned()));
            },
        };
        let role = match UserRole::parse(&role_text) {
            Some(role) => role,
            None => {
                return Err(Error::InvalidSession("Invalid role".to_owned()));
            },
        };
        let refresh_token = match discord_refresh_token {
            Some(t) => t,
            None => {
                return Err(Error::InvalidSession("Missing refresh_token".to_owned()));
            },
        };
        Ok(Session {
            user: SessionUser { id, role },
            discord: DiscordTokens { access_token: discord_access_token, refresh_token },
        })
    }
}

/// Where a cookie may be sent across sites.
#[derive(Clone, Copy, Debug, PartialEq, Eq, Structural)]
pub enum SameSite {
    Strict,
    Lax,
}

/// A cookie to set on the response; it expires `max_age` seconds after it
/// is issued, or with the browser session where that is `None`.
#[derive(Clone, Debug)]
pub struct CookieSpec {
    pub name: String,
    pub value: String,
    pub path: String,
    pub secure: bool,
    pub http_only: bool,
    pub same_site: SameSite,
    pub max_age: Option<u64>,
}

/// Settings of the session store.
#[derive(Clone, Debug)]
pub struct SessionConfig {
    pub secure_cookie: bool,
}

/// The session store: it plans the writes that the store runs, and decides
/// from what the store returns.
#[derive(Clone, Debug)]
pub struct SessionService {
    pub secure_cookie: bool,
}

impl SessionService {
    pub fn new(session_config: &SessionConfig) -> (r: Self)
        ensures
            r.secure_cookie == session_config.secure_cookie,
    {
        SessionService { secure_cookie: session_config.secure_cookie }
    }

    /// A fresh session id: 512 random bytes in hexadecimal.
    pub fn generate_session_id(&self) -> (r: String)
        ensures
            r@.len() == 2 * SESSION_ID_BYTES,
            exists|b: Seq<u8>| b.len() == SESSION_ID_BYTES && r@ == hex_of(b),
    {
        let bytes = random_bytes(SESSION_ID_BYTES);
        let r = encode_hex(&bytes);
        proof {
            lemma_hex_len(bytes@);
        }
        r
    }

    /// The store key of a session.
    pub fn session_key(session_id: &String) -> (r: String)
        ensures
            r@ == session_key_of(session_id@),
    {
        let k = SESSION_KEY_PREFIX.to_owned();
        let k = k.concat(":");
        k.concat(session_id.as_str())
    }

    /// The writes that start a pending login under `session_id`.
    pub fn init_session_commands(session_id: &String, csrf_token: &String) -> (r: Vec<StoreCommand>)
        ensures
            commands_view(r@) == init_commands_view(session_id@, csrf_token@),
    {
        let key = Self::session_key(session_id);
        let mut fields: Vec<(String, String)> = Vec::new();
        fields.push((CSRF_TOKEN_KEY.to_owned(), csrf_token.clone()));
        let mut r: Vec<StoreCommand> = Vec::new();
        r.push(StoreCommand::SetFields { key: key.clone(), fields });
        r.push(StoreCommand::Expire { key, seconds: FIVE_MINUTES });
        proof {
            assert(r@[0]@ == init_commands_view(session_id@, csrf_token@)[0]) by {
                let v = r@[0]@;
                if let CommandView::SetFields { key: k, fields: f } = v {
                    assert(f =~= seq![(CSRF_TOKEN_KEY@, csrf_token@)]);
                }
            }
            assert(commands_view(r@) =~= init_commands_view(session_id@, csrf_token@));
        }
        r
    }

    /// Starts a pending login: a fresh session id and the writes that bind
    /// `csrf_token` to it for five minutes.
    pub fn init_session(&self, csrf_token: &String) -> (r: (String, Vec<StoreCommand>))
        ensures
            r.0@.len() == 2 * SESSION_ID_BYTES,
            commands_view(r.1@) == init_commands_view(r.0@, csrf_token@),
    {
        let session_id = self.generate_session_id();
        let commands = Self::init_session_commands(&session_id, csrf_token);
        (session_id, commands)
    }

    /// Checks the CSRF token that the store holds for a pending login
    /// against the one the provider echoed. An absent record, an expired one
    /// and a wrong token give the same error.
    pub fn validate_init_session(&self, stored: &Option<String>, csrf_token: &String) -> (r: Result<
        (),
        Error,
    >)
        ensures
            r is Ok <==> (stored matches Some(t) && t@ == csrf_token@),
            r is Err ==> r matches Err(Error::SessionNotFound),
    {
        match stored {
            Some(token) => {
                if same_text(token, csrf_token) {
                    Ok(())
                } else {
                    Err(Error::SessionNotFound)
                }
            },
            None => Err(Error::SessionNotFound),
        }
    }

    /// The writes that promote the session to the authenticated state.
    /// Fails when the provider gave no refresh token or no lifetime for its
    /// access token.
    pub fn save_session(
        &self,
        session_id: &String,
        tokens: &ProviderTokens,
        user_id: &String,
        user_role: &UserRole,
    ) -> (r: Result<Vec<StoreCommand>, Error>)
        ensures
            r is Ok <==> (tokens.refresh_token is Some && tokens.expires_in is Some),
            r is Err ==> r matches Err(Error::DiscordApiError(_)),
            r matches Ok(cs) ==> commands_view(cs@) == save_commands_view(
                session_id@,
                user_id@,
                *user_role,
                tokens.access_token@,
                tokens.refresh_token->Some_0@,
                tokens.expires_in->Some_0 as nat,
            ),
    {
        let refresh_token = match &tokens.refresh_token {
            Some(t) => t.clone(),
            None => {
                return Err(Error::DiscordApiError("Missing refresh token".to_owned()));
            },
        };
        let expires_in = match tokens.expires_in {
            Some(e) => e,
            None => {
                return Err(Error::DiscordApiError("Missing access token lifetime".to_owned()));
            },
        };
        let ttl: u64 = if expires_in > ACCESS_TOKEN_MARGIN {
            expires_in - ACCESS_TOKEN_MARGIN
        } else {
            0
        };
        let key = Self::session_key(session_id);
        let mut fields: Vec<(String, String)> = Vec::new();
        fields.push((USER_ID_KEY.to_owned(), user_id.clone()));
        fields.push((USER_ROLE_KEY.to_owned(), user_role.as_string()));
        fields.push((DISCORD_ACCESS_TOKEN_KEY.to_owned(), tokens.access_token.clone()));
        fields.push((DISCORD_REFRESH_TOKEN_KEY.to_owned(), refresh_token));
        let mut r: Vec<StoreCommand> = Vec::new();
        r.push(StoreCommand::SetFields { key: key.clone(), fields });
        r.push(
            StoreCommand::ExpireField {
                key: key.clone(),
                field: DISCORD_ACCESS_TOKEN_KEY.to_owned(),
                seconds: ttl,
            },
        );
        r.push(StoreCommand::Expire { key, seconds: ONE_MONTH });
        proof {
            let want = save_commands_view(
                session_id@,
                user_id@,
                *user_role,
                tokens.access_token@,
                tokens.refresh_token->Some_0@,
                expires_in as nat,
            );
            assert(r@[0]@ == want[0]) by {
                if let CommandView::SetFields { key: k, fields: f } = r@[0]@ {
                    if let CommandView::SetFields { key: k2, fields: f2 } = want[0] {
                        assert(f =~= f2);
                    }
                }
            }
            assert(commands_view(r@) =~= want);
        }
        Ok(r)
    }

    /// Decides a session lookup from what the store returned: whether the
    /// key exists, and the record's fields.
    pub fn get_session_by_id(&self, exists: bool, fields: SessionFields) -> (r: Result<
        Option<Session>,
        Error,
    >)
        ensures
            !exists ==> r matches Err(Error::SessionNotFound),
            exists && !fields_complete(fields) ==> r matches Err(Error::InvalidSession(_)),
            exists && fields_complete(fields) ==> (r matches Ok(Some(s)) && session_from_fields(
                s,
                fields,
            )),
    {
        if !exists {
            return Err(Error::SessionNotFound);
        }
        match Session::from_fields(fields) {
            Ok(s) => Ok(Some(s)),
            Err(e) => Err(e),
        }
    }

    /// A session that a protected request presents: it must exist and be
    /// complete.
    pub fn validate_session(&self, exists: bool, fields: SessionFields) -> (r: Result<
        Session,
        Error,
    >)
        ensures
            r is Ok <==> exists && fields_complete(fields),
            r matches Ok(s) ==> session_from_fields(s, fields),
            !exists ==> r matches Err(Error::SessionNotFound),
            exists && !fields_complete(fields) ==> r matches Err(Error::InvalidSession(_)),
    {
        match self.get_session_by_id(exists, fields) {
            Ok(Some(s)) => Ok(s),
            Ok(None) => Err(Error::SessionNotFound),
            Err(e) => Err(e),
        }
    }

    /// The write that renews a session for another month, fields unchanged.
    pub fn refresh_session_ttl(&self, session_id: &String) -> (r: StoreCommand)
        ensures
            r@ == (CommandView::Expire {
                key: session_key_of(session_id@),
                seconds: ONE_MONTH as nat,
            }),
    {
        StoreCommand::Expire { key: Self::session_key(session_id), seconds: ONE_MONTH }
    }

    /// The write that ends a session.
    pub fn invalidate_session(&self, session_id: &String) -> (r: StoreCommand)
        ensures
            r@ == (CommandView::Delete { key: session_key_of(session_id@) }),
    {
        StoreCommand::Delete { key: Self::session_key(session_id) }
    }

    /// The session cookie: HTTP only, sent on same-site requests and
    /// top-level navigation, for the whole site, secure as configured.
    pub fn create_session_cookie(&self, session_id: String, expires_in: u64) -> (r: CookieSpec)
        ensures
            r.name@ == SESSION_COOKIE_NAME@,
            r.value@ == session_id@,
            r.path@ == "/"@,
            r.secure == self.secure_cookie,
            r.http_only,
            r.same_site == SameSite::Lax,
            r.max_age == Some(expires_in),
    {
        CookieSpec {
            name: SESSION_COOKIE_NAME.to_owned(),
            value: session_id,
            path: "/".to_owned(),
            secure: self.secure_cookie,
            http_only: true,
            same_site: SameSite::Lax,
            max_age: Some(expires_in),
        }
    }
}

} // verus!
