use vstd::prelude::*;

verus! {

/// The role an account holds; it is carried in every token issued for it.
#[derive(Clone, Copy, Debug, PartialEq, Eq, Structural)]
pub enum Role {
    Admin,
    User,
}

/// The lower-case name under which a role appears in token claims.
pub open spec fn role_name(role: Role) -> Seq<char> {
    match role {
        Role::Admin => "admin"@,
        Role::User => "user"@,
    }
}

impl Role {
    /// The lower-case name of the role.
    pub fn as_str(&self) -> (r: &'static str)
        ensures
            r@ == role_name(*self),
    {
        match self {
            Role::Admin => "admin",
            Role::User => "user",
        }
    }
}

/// An account record as the store holds it.
///
/// The identifier is the 24-digit lower-case hexadecimal form of the
/// store-assigned identifier; expiration instants are seconds since the epoch.
#[derive(Clone, Debug)]
pub struct User {
    pub id: Option<String>,
    pub username: String,
    pub email: String,
    pub password: String,
    pub role: Role,
    pub access_token: Option<String>,
    pub refresh_token: Option<String>,
    pub access_token_expires_at: Option<i64>,
    pub refresh_token_expires_at: Option<i64>,
}

impl User {
    /// The session fields are either all absent or all present, and then the
    /// access token does not outlive the refresh token.
    pub open spec fn well_formed(&self) -> bool {
        ||| (self.access_token is None && self.refresh_token is None
            && self.access_token_expires_at is None && self.refresh_token_expires_at is None)
        ||| (self.access_token is Some && self.refresh_token is Some
            && self.access_token_expires_at is Some && self.refresh_token_expires_at is Some
            && self.access_token_expires_at->0 <= self.refresh_token_expires_at->0)
    }

    /// The record holds no session.
    pub open spec fn has_no_session(&self) -> bool {
        &&& self.access_token is None
        &&& self.refresh_token is None
        &&& self.access_token_expires_at is None
        &&& self.refresh_token_expires_at is None
    }
}

/// Credentials presented at login.
#[derive(Clone, Debug)]
pub struct UserLogin {
    pub email: String,
    pub password: String,
}

/// A profile change: the new user name.
#[derive(Clone, Debug)]
pub struct UpdateUser {
    pub name: String,
}

/// The reduced form of an account that leaves the directory: no password
/// hash and no tokens.
#[derive(Clone, Debug)]
pub struct UserSummary {
    pub id: Option<String>,
    pub username: String,
    pub role: Role,
}

/// The summary of one account.
pub open spec fn summary_of(u: User) -> (Option<Seq<char>>, Seq<char>, Role) {
    (opt_view(u.id), u.username@, u.role)
}

/// The view of an optional string.
pub open spec fn opt_view(o: Option<String>) -> Option<Seq<char>> {
    match o {
        Some(s) => Some(s@),
        None => None,
    }
}

impl UserSummary {
    pub open spec fn view_tuple(&self) -> (Option<Seq<char>>, Seq<char>, Role) {
        (opt_view(self.id), self.username@, self.role)
    }
}

fn clone_opt_string(o: &Option<String>) -> (r: Option<String>)
    ensures
        opt_view(r) == opt_view(*o),
{
    match o {
        Some(s) => Some(s.clone()),
        None => None,
    }
}

/// The reduced form of one account.
pub fn summarize(u: &User) -> (r: UserSummary)
    ensures
        r.view_tuple() == summary_of(*u),
{
    UserSummary { id: clone_opt_string(&u.id), username: u.username.clone(), role: u.role }
}

/// Lists the given accounts in their reduced form, in the same order.
pub fn get_users(users: &Vec<User>) -> (r: Vec<UserSummary>)
    ensures
        r@.len() == users@.len(),
        forall|i: int| 0 <= i < r@.len() ==> #[trigger] r@[i].view_tuple() == summary_of(users@[i]),
{
    let mut out: Vec<UserSummary> = Vec::new();
    let mut i: usize = 0;
    while i < users.len()
        invariant
            i <= users@.len(),
            out@.len() == i,
            forall|j: int| 0 <= j < i ==> #[trigger] out@[j].view_tuple() == summary_of(users@[j]),
        decreases users@.len() - i,
    {
        out.push(summarize(&users[i]));
        i = i + 1;
    }
    out
}

} // verus!
