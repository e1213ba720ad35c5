use vstd::prelude::*;

verus! {

/// The coarse authorization tier an account holds.
#[derive(Clone, Copy, Debug, PartialEq, Eq, Structural)]
pub enum Role {
    Admin,
    User,
}

/// One account record of the directory. `password` holds the bcrypt digest of
/// the account's password, never the password itself.
#[derive(Debug)]
pub struct User {
    pub id: i32,
    pub email: String,
    pub first_name: String,
    pub last_name: String,
    pub password: String,
    pub role: Role,
}

/// The mathematical shadow of a `User`: every text field as a sequence of
/// characters.
pub struct UserView {
    pub id: i32,
    pub email: Seq<char>,
    pub first_name: Seq<char>,
    pub last_name: Seq<char>,
    pub password: Seq<char>,
    pub role: Role,
}

impl View for User {
    type V = UserView;

    open spec fn view(&self) -> UserView {
        UserView {
            id: self.id,
            email: self.email@,
            first_name: self.first_name@,
            last_name: self.last_name@,
            password: self.password@,
            role: self.role,
        }
    }
}

impl Clone for User {
    fn clone(&self) -> (r: Self)
        ensures
            r@ == self@,
    {
        User {
            id: self.id,
            email: self.email.clone(),
            first_name: self.first_name.clone(),
            last_name: self.last_name.clone(),
            password: self.password.clone(),
            role: self.role,
        }
    }
}

/// An account as it may be shown outside the service: all of `User` except
/// the password digest, which this type cannot even hold.
#[derive(Debug)]
pub struct Profile {
    pub id: i32,
    pub email: String,
    pub first_name: String,
    pub last_name: String,
    pub role: Role,
}

impl User {
    /// The external representation of this account. The digest is left
    /// behind by construction.
    pub fn profile(&self) -> (r: Profile)
        ensures
            r.id == self.id,
            r.email@ == self.email@,
            r.first_name@ == self.first_name@,
            r.last_name@ == self.last_name@,
            r.role == self.role,
    {
        Profile {
            id: self.id,
            email: self.email.clone(),
            first_name: self.first_name.clone(),
            last_name: self.last_name.clone(),
            role: self.role,
        }
    }
}

/// The body of a self-service registration request.
#[derive(Debug)]
pub struct RegisterRequest {
    pub first_name: String,
    pub last_name: String,
    pub email: String,
    pub password: String,
}

/// The password-free acknowledgement of a created account.
#[derive(Debug)]
pub struct RegisterResponse {
    pub id: u32,
    pub first_name: String,
    pub last_name: String,
    pub email: String,
}

/// The body of a login request.
#[derive(Debug)]
pub struct LoginRequest {
    pub email: String,
    pub password: String,
}

/// The body of a profile-edit request. Profile edits are outside this core;
/// the type is part of its public surface.
#[derive(Debug)]
pub struct UpdateProfileRequest {
    pub first_name: Option<String>,
    pub last_name: Option<String>,
    pub email: Option<String>,
}

/// The payload a token protects: who the bearer is, what tier they hold, and
/// the instant (seconds since the epoch) past which the token is dead.
#[derive(Debug)]
pub struct Claims {
    pub sub: String,
    pub role: Role,
    pub exp: u64,
}

/// The mathematical shadow of `Claims`.
pub struct ClaimsView {
    pub sub: Seq<char>,
    pub role: Role,
    pub exp: u64,
}

impl View for Claims {
    type V = ClaimsView;

    open spec fn view(&self) -> ClaimsView {
        ClaimsView { sub: self.sub@, role: self.role, exp: self.exp }
    }
}

impl Clone for Claims {
    fn clone(&self) -> (r: Self)
        ensures
            r@ == self@,
    {
        Claims { sub: self.sub.clone(), role: self.role, exp: self.exp }
    }
}

/// The number under which a role travels inside a token's payload.
pub open spec fn spec_role_number(role: Role) -> u64 {
    match role {
        Role::Admin => 0u64,
        Role::User => 1u64,
    }
}

/// Encodes a role for a token payload.
pub fn role_number(role: Role) -> (r: u64)
    ensures
        r == spec_role_number(role),
{
    match role {
        Role::Admin => 0,
        Role::User => 1,
    }
}

/// What `role_from_number` accepts: exactly the two encodings that
/// `spec_role_number` produces, each back to its role.
pub open spec fn spec_role_from_number(n: u64) -> Option<Role> {
    if n == 0 {
        Some(Role::Admin)
    } else if n == 1 {
        Some(Role::User)
    } else {
        None
    }
}

/// Decodes a role from a token payload.
pub fn role_from_number(n: u64) -> (r: Option<Role>)
    ensures
        r == spec_role_from_number(n),
{
    if n == 0 {
        Some(Role::Admin)
    } else if n == 1 {
        Some(Role::User)
    } else {
        None
    }
}

/// Role encoding round trip: decoding what `role_number` wrote gives the
/// role back, for both roles.
pub proof fn lemma_role_number_round_trip(role: Role)
    ensures
        spec_role_from_number(spec_role_number(role)) == Some(role),
{
}

} // verus!
