use vstd::prelude::*;

verus! {

/// A stored user, credential digest included.
#[derive(Debug, Clone, PartialEq, Eq)]
pub struct User {
    pub id: String,
    pub email: String,
    pub username: String,
    pub password_hash: String,
    pub created_at: i64,
    pub updated_at: i64,
}

/// What a client may see of a user: everything but the digest.
#[derive(Debug, Clone, PartialEq, Eq)]
pub struct UserResponse {
    pub id: String,
    pub email: String,
    pub username: String,
    pub created_at: i64,
    pub updated_at: i64,
}

/// The fields of a registration.
#[derive(Debug, Clone, PartialEq, Eq)]
pub struct CreateUserRequest {
    pub email: String,
    pub username: String,
    pub password: String,
}

/// The fields of a login.
#[derive(Debug, Clone, PartialEq, Eq)]
pub struct LoginRequest {
    pub email: String,
    pub password: String,
}

/// A partial profile update: only the fields present change.
#[derive(Debug, Clone, PartialEq, Eq)]
pub struct UpdateUserRequest {
    pub email: Option<String>,
    pub username: Option<String>,
}

/// A successful login: the token and the public view of the user.
#[derive(Debug, Clone, PartialEq, Eq)]
pub struct LoginResponse {
    pub token: String,
    pub user: UserResponse,
}

/// The public view of a stored user.
pub open spec fn public_view(u: User) -> UserResponse {
    UserResponse { id: u.id, email: u.email, username: u.username, created_at: u.created_at, updated_at: u.updated_at }
}

impl User {
    /// The public view of this user, without the digest.
    pub fn to_response(&self) -> (r: UserResponse)
        ensures
            r@ == public_view(*self)@,
    {
        UserResponse {
            id: self.id.clone(),
            email: self.email.clone(),
            username: self.username.clone(),
            created_at: self.created_at,
            updated_at: self.updated_at,
        }
    }
}

/// The mathematical value of a public user view.
pub struct UserResponseView {
    pub id: Seq<char>,
    pub email: Seq<char>,
    pub username: Seq<char>,
    pub created_at: i64,
    pub updated_at: i64,
}

impl View for UserResponse {
    type V = UserResponseView;

    open spec fn view(&self) -> UserResponseView {
        UserResponseView {
            id: self.id@,
            email: self.email@,
            username: self.username@,
            created_at: self.created_at,
            updated_at: self.updated_at,
        }
    }
}

/// The mathematical value of a stored user.
pub struct UserView {
    pub id: Seq<char>,
    pub email: Seq<char>,
    pub username: Seq<char>,
    pub password_hash: Seq<char>,
    pub created_at: i64,
    pub updated_at: i64,
}

impl View for User {
    type V = UserView;

    open spec fn view(&self) -> UserView {
        UserView {
            id: self.id@,
            email: self.email@,
            username: self.username@,
            password_hash: self.password_hash@,
            created_at: self.created_at,
            updated_at: self.updated_at,
        }
    }
}

/// The user after a partial update at time `now`.
pub open spec fn updated_view(u: UserView, email: Option<Seq<char>>, username: Option<Seq<char>>, now: i64) -> UserView {
    UserView {
        email: match email { Some(e) => e, None => u.email },
        username: match username { Some(n) => n, None => u.username },
        updated_at: now,
        ..u
    }
}

pub open spec fn opt_view(o: Option<String>) -> Option<Seq<char>> {
    match o {
        Some(s) => Some(s@),
        None => None,
    }
}

fn clone_opt(o: &Option<String>) -> (r: Option<String>)
    ensures
        opt_view(r) == opt_view(*o),
{
    match o {
        Some(s) => Some(s.clone()),
        None => None,
    }
}

impl UpdateUserRequest {
    /// Applies the update to `user` at time `now`: the fields present
    /// replace the stored ones, the others stay, and the update time is
    /// always refreshed.
    pub fn apply(&self, user: &User, now: i64) -> (r: User)
        ensures
            r@ == updated_view(user@, opt_view(self.email), opt_view(self.username), now),
    {
        let email = match &self.email {
            Some(e) => e.clone(),
            None => user.email.clone(),
        };
        let username = match &self.username {
            Some(n) => n.clone(),
            None => user.username.clone(),
        };
        let r = User {
            id: user.id.clone(),
            email,
            username,
            password_hash: user.password_hash.clone(),
            created_at: user.created_at,
            updated_at: now,
        };
        assert(r@ == updated_view(user@, opt_view(self.email), opt_view(self.username), now));
        r
    }

    /// A copy of this update.
    pub fn copy(&self) -> (r: UpdateUserRequest)
        ensures
            opt_view(r.email) == opt_view(self.email),
            opt_view(r.username) == opt_view(self.username),
    {
        UpdateUserRequest { email: clone_opt(&self.email), username: clone_opt(&self.username) }
    }
}

/// An update of the email alone leaves the username as it was and sets the
/// update time to the time of the update.
pub proof fn lemma_email_only_update(u: UserView, email: Seq<char>, now: i64)
    ensures
        updated_view(u, Some(email), None, now).username == u.username,
        updated_view(u, Some(email), None, now).email == email,
        updated_view(u, Some(email), None, now).updated_at == now,
        updated_view(u, Some(email), None, now).created_at == u.created_at,
        updated_view(u, Some(email), None, now).id == u.id,
{
}

} // verus!
