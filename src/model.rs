use vstd::prelude::*;

verus! {

/// Internal authorization level, derived from guild membership.
#[derive(Clone, Copy, Debug, PartialEq, Eq, Structural)]
pub enum UserRole {
    Staff,
    Elite,
    Bot,
}

/// The text of an optional string.
pub open spec fn opt_text(o: Option<String>) -> Option<Seq<char>> {
    match o {
        Some(s) => Some(s@),
        None => None,
    }
}

/// The name under which a role is stored.
pub open spec fn role_name(role: UserRole) -> Seq<char> {
    match role {
        UserRole::Staff => "staff"@,
        UserRole::Elite => "elite"@,
        UserRole::Bot => "bot"@,
    }
}

/// The role that a stored name stands for.
pub open spec fn role_of_name(s: Seq<char>) -> Option<UserRole> {
    if s == "staff"@ {
        Some(UserRole::Staff)
    } else if s == "elite"@ {
        Some(UserRole::Elite)
    } else if s == "bot"@ {
        Some(UserRole::Bot)
    } else {
        None
    }
}

impl UserRole {
    /// The name under which the role is stored.
    pub fn as_string(&self) -> (r: String)
        ensures
            r@ == role_name(*self),
    {
        match self {
            UserRole::Staff => "staff".to_owned(),
            UserRole::Elite => "elite".to_owned(),
            UserRole::Bot => "bot".to_owned(),
        }
    }

    /// Reads a stored role name; `None` for any other text.
    pub fn parse(s: &String) -> (r: Option<UserRole>)
        ensures
            r == role_of_name(s@),
    {
        if *s == "staff".to_owned() {
            Some(UserRole::Staff)
        } else if *s == "elite".to_owned() {
            Some(UserRole::Elite)
        } else if *s == "bot".to_owned() {
            Some(UserRole::Bot)
        } else {
            None
        }
    }
}

/// Reading a role's stored name gives the role back.
pub proof fn lemma_role_name_round_trip(role: UserRole)
    ensures
        role_of_name(role_name(role)) == Some(role),
{
    reveal_strlit("staff");
    reveal_strlit("elite");
    reveal_strlit("bot");
    assert("staff"@[0] != "elite"@[0]);
    assert("staff"@.len() != "bot"@.len());
    assert("elite"@.len() != "bot"@.len());
}

/// The identity attached to an authenticated session.
#[derive(Clone, Debug)]
pub struct SessionUser {
    pub id: String,
    pub role: UserRole,
}

impl SessionUser {
    pub fn is_staff(&self) -> (r: bool)
        ensures
            r == (self.role == UserRole::Staff),
    {
        self.role == UserRole::Staff
    }
}

/// Provider tokens kept in an authenticated session; the access token is
/// absent once its own lifetime has passed.
#[derive(Clone, Debug)]
pub struct DiscordTokens {
    pub access_token: Option<String>,
    pub refresh_token: String,
}

/// An authenticated session as read back from the store.
#[derive(Clone, Debug)]
pub struct Session {
    pub user: SessionUser,
    pub discord: DiscordTokens,
}

/// Standing of an elite member, stored as lowercase text.
#[derive(Clone, Copy, Debug, PartialEq, Eq, Structural)]
pub enum EliteStatus {
    Staff,
    Veteran,
    Elite,
    Trial,
    NoStatus,
}

/// The text under which a status is stored.
pub open spec fn status_name(status: EliteStatus) -> Seq<char> {
    match status {
        EliteStatus::Staff => "staff"@,
        EliteStatus::Veteran => "veteran"@,
        EliteStatus::Elite => "elite"@,
        EliteStatus::Trial => "trial"@,
        EliteStatus::NoStatus => "none"@,
    }
}

/// The status that stored text stands for.
pub open spec fn status_of_name(s: Seq<char>) -> Option<EliteStatus> {
    if s == "staff"@ {
        Some(EliteStatus::Staff)
    } else if s == "veteran"@ {
        Some(EliteStatus::Veteran)
    } else if s == "elite"@ {
        Some(EliteStatus::Elite)
    } else if s == "trial"@ {
        Some(EliteStatus::Trial)
    } else if s == "none"@ {
        Some(EliteStatus::NoStatus)
    } else {
        None
    }
}

impl EliteStatus {
    /// The text under which the status is stored.
    pub fn as_string(&self) -> (r: String)
        ensures
            r@ == status_name(*self),
    {
        match self {
            EliteStatus::Staff => "staff".to_owned(),
            EliteStatus::Veteran => "veteran".to_owned(),
            EliteStatus::Elite => "elite".to_owned(),
            EliteStatus::Trial => "trial".to_owned(),
            EliteStatus::NoStatus => "none".to_owned(),
        }
    }

    /// Reads stored text; `None` for unknown text.
    pub fn parse(s: &String) -> (r: Option<EliteStatus>)
        ensures
            r == status_of_name(s@),
    {
        if *s == "staff".to_owned() {
            Some(EliteStatus::Staff)
        } else if *s == "veteran".to_owned() {
            Some(EliteStatus::Veteran)
        } else if *s == "elite".to_owned() {
            Some(EliteStatus::Elite)
        } else if *s == "trial".to_owned() {
            Some(EliteStatus::Trial)
        } else if *s == "none".to_owned() {
            Some(EliteStatus::NoStatus)
        } else {
            None
        }
    }
}

/// Reading a status's stored text gives the status back.
pub proof fn lemma_status_name_round_trip(status: EliteStatus)
    ensures
        status_of_name(status_name(status)) == Some(status),
{
    reveal_strlit("staff");
    reveal_strlit("veteran");
    reveal_strlit("elite");
    reveal_strlit("trial");
    reveal_strlit("none");
    assert("staff"@.len() != "veteran"@.len());
    assert("staff"@[0] != "elite"@[0]);
    assert("staff"@[0] != "trial"@[0]);
    assert("staff"@[0] != "none"@[0]);
    assert("veteran"@.len() != "elite"@.len());
    assert("veteran"@.len() != "trial"@.len());
    assert("veteran"@.len() != "none"@.len());
    assert("elite"@[0] != "trial"@[0]);
    assert("elite"@.len() != "none"@.len());
    assert("trial"@.len() != "none"@.len());
}

} // verus!
