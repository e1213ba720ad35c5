use vstd::prelude::*;

use crate::directory::{AppState, Directory, MAX_ACCOUNTS, dir_has_email, dir_wf};
use crate::errors::AuthError;
use crate::hasher::{digest_matches, hash_password, verify_password};
use crate::models::{LoginRequest, RegisterRequest, Role, User, UserView, spec_role_number};
use crate::token::{TOKEN_VALIDITY_SECS, issue_token, jwt_decode_ok, jwt_encoded};

verus! {

use vstd::utf8::encode_utf8;

/// The account carries this email, and the password's bytes verify against
/// the account's stored digest.
pub open spec fn credentials_match(a: UserView, email: Seq<char>, password: Seq<char>) -> bool {
    a.email == email && digest_matches(encode_utf8(password), a.password)
}

/// Some account of the directory accepts this email and password.
pub open spec fn login_allowed(d: Seq<UserView>, email: Seq<char>, password: Seq<char>) -> bool {
    exists|i: int| 0 <= i < d.len() && credentials_match(d[i], email, password)
}

/// Every field of a registration request is present.
pub open spec fn register_input_valid(req: &RegisterRequest) -> bool {
    &&& req.first_name@.len() > 0
    &&& req.last_name@.len() > 0
    &&& req.email@.len() > 0
    &&& req.password@.len() > 0
}

/// Hashes the password and appends a new account for it under the next
/// identifier, refusing a taken email. The uniqueness check and the append
/// happen under one exclusive borrow of the directory. This is also how the
/// initial administrator account is provisioned at startup.
pub fn add_account(
    dir: &mut Directory,
    first_name: String,
    last_name: String,
    email: String,
    password: &String,
    role: Role,
) -> (r: Result<User, AuthError>)
    requires
        dir_wf(old(dir)@),
        old(dir)@.len() < MAX_ACCOUNTS,
    ensures
        dir_wf(final(dir)@),
        r is Ok || r == Err::<User, AuthError>(AuthError::HashingError) <==> !dir_has_email(
            old(dir)@,
            email@,
        ),
        r == Err::<User, AuthError>(AuthError::DuplicateEmail) <==> dir_has_email(
            old(dir)@,
            email@,
        ),
        r matches Ok(u) ==> {
            &&& u@.id == old(dir)@.len() + 1
            &&& u@.email == email@
            &&& u@.first_name == first_name@
            &&& u@.last_name == last_name@
            &&& u@.role == role
            &&& digest_matches(encode_utf8(password@), u@.password)
            &&& final(dir)@ =~= old(dir)@.push(u@)
        },
        r is Err ==> final(dir)@ == old(dir)@,
{
    if dir.find_by_email(&email).is_some() {
        return Err(AuthError::DuplicateEmail);
    }
    let digest = match hash_password(password.as_str()) {
        Ok(d) => d,
        Err(_) => {
            return Err(AuthError::HashingError);
        },
    };
    dir.insert(first_name, last_name, email, digest, role)
}

/// Self-service registration: rejects a request with any empty field, hashes
/// the password, stores the account under role `User`, and issues a token
/// bound to the new account's email and role. Every failure leaves the
/// directory exactly as it was.
pub fn register(state: &mut AppState, req: &RegisterRequest, now: u64) -> (r: Result<
    (String, User),
    AuthError,
>)
    requires
        dir_wf(old(state).users@),
        old(state).users@.len() < MAX_ACCOUNTS,
        now <= u64::MAX - TOKEN_VALIDITY_SECS,
    ensures
        dir_wf(final(state).users@),
        final(state).config == old(state).config,
        r == Err::<(String, User), AuthError>(AuthError::ValidationError) <==> !register_input_valid(
            req,
        ),
        r == Err::<(String, User), AuthError>(AuthError::DuplicateEmail) <==> (register_input_valid(
            req,
        ) && dir_has_email(old(state).users@, req.email@)),
        r is Ok || r == Err::<(String, User), AuthError>(AuthError::HashingError) <==> (
        register_input_valid(req) && !dir_has_email(old(state).users@, req.email@)),
        r matches Ok(p) ==> {
            &&& p.1@.id == old(state).users@.len() + 1
            &&& p.1@.email == req.email@
            &&& p.1@.first_name == req.first_name@
            &&& p.1@.last_name == req.last_name@
            &&& p.1@.role == Role::User
            &&& digest_matches(encode_utf8(req.password@), p.1@.password)
            &&& final(state).users@ =~= old(state).users@.push(p.1@)
            &&& p.0@ == jwt_encoded(
                req.email@,
                spec_role_number(Role::User),
                (now + TOKEN_VALIDITY_SECS) as u64,
                old(state).config.jwt_secret@,
            )
            &&& jwt_decode_ok(
                p.0@,
                old(state).config.jwt_secret@,
                req.email@,
                spec_role_number(Role::User),
                (now + TOKEN_VALIDITY_SECS) as u64,
            )
        },
        r is Err ==> final(state).users@ == old(state).users@,
{
    if req.first_name.as_str().is_empty() || req.last_name.as_str().is_empty()
        || req.email.as_str().is_empty() || req.password.as_str().is_empty() {
        return Err(AuthError::ValidationError);
    }
    let account = match add_account(
        &mut state.users,
        req.first_name.clone(),
        req.last_name.clone(),
        req.email.clone(),
        &req.password,
        Role::User,
    ) {
        Ok(u) => u,
        Err(e) => {
            return Err(e);
        },
    };
    match issue_token(&account.email, Role::User, &state.config.jwt_secret, now) {
        Ok(t) => Ok((t, account)),
        Err(e) => Err(e),
    }
}

/// Login: looks the email up and verifies the password against the stored
/// digest. An unknown email and a wrong password fail identically, so a
/// caller cannot enumerate accounts. On success the token is bound to the
/// stored account's email and role.
pub fn login(state: &AppState, req: &LoginRequest, now: u64) -> (r: Result<
    (String, User),
    AuthError,
>)
    requires
        dir_wf(state.users@),
        now <= u64::MAX - TOKEN_VALIDITY_SECS,
    ensures
        r is Ok <==> login_allowed(state.users@, req.email@, req.password@),
        r matches Err(e) ==> e == AuthError::InvalidCredentials,
        r matches Ok(p) ==> {
            &&& exists|i: int|
                0 <= i < state.users@.len() && state.users@[i] == p.1@ && credentials_match(
                    #[trigger] state.users@[i],
                    req.email@,
                    req.password@,
                )
            &&& p.0@ == jwt_encoded(
                p.1@.email,
                spec_role_number(p.1@.role),
                (now + TOKEN_VALIDITY_SECS) as u64,
                state.config.jwt_secret@,
            )
            &&& jwt_decode_ok(
                p.0@,
                state.config.jwt_secret@,
                p.1@.email,
                spec_role_number(p.1@.role),
                (now + TOKEN_VALIDITY_SECS) as u64,
            )
        },
{
    let i = match state.users.find_by_email(&req.email) {
        Some(i) => i,
        None => {
            assert(!login_allowed(state.users@, req.email@, req.password@));
            return Err(AuthError::InvalidCredentials);
        },
    };
    let account = state.users.account_at(i);
    match verify_password(req.password.as_str(), account.password.as_str()) {
        Ok(true) => {
            let stored = account.clone();
            match issue_token(&stored.email, stored.role, &state.config.jwt_secret, now) {
                Ok(t) => Ok((t, stored)),
                Err(e) => Err(AuthError::InvalidCredentials),
            }
        },
        Ok(false) => {
            assert forall|j: int|
                0 <= j < state.users@.len() implies !credentials_match(
                #[trigger] state.users@[j],
                req.email@,
                req.password@,
            ) by {
                if state.users@[j].email == req.email@ {
                    assert(j == i as int);
                }
            }
            Err(AuthError::InvalidCredentials)
        },
        Err(_) => {
            // The directory invariant makes every stored digest well-formed,
            // so verification cannot fail structurally here.
            assert(crate::hasher::digest_wf(state.users@[i as int].password));
            assert(false);
            Err(AuthError::InvalidCredentials)
        },
    }
}

/// Admin-provisioned registration: only a caller whose verified claims carry
/// the admin role may create another account, which is stored under role
/// `Admin` with explicit name fields. No token is issued for it. Every
/// failure leaves the directory exactly as it was.
pub fn register_admin(state: &mut AppState, claims: &crate::models::Claims, req: &RegisterRequest) -> (r: Result<
    User,
    AuthError,
>)
    requires
        dir_wf(old(state).users@),
        old(state).users@.len() < MAX_ACCOUNTS,
    ensures
        dir_wf(final(state).users@),
        final(state).config == old(state).config,
        r == Err::<User, AuthError>(AuthError::Forbidden) <==> claims@.role != Role::Admin,
        r == Err::<User, AuthError>(AuthError::DuplicateEmail) <==> (claims@.role == Role::Admin
            && dir_has_email(old(state).users@, req.email@)),
        r is Ok || r == Err::<User, AuthError>(AuthError::HashingError) <==> (claims@.role
            == Role::Admin && !dir_has_email(old(state).users@, req.email@)),
        r matches Ok(u) ==> {
            &&& u@.id == old(state).users@.len() + 1
            &&& u@.email == req.email@
            &&& u@.first_name == req.first_name@
            &&& u@.last_name == req.last_name@
            &&& u@.role == Role::Admin
            &&& digest_matches(encode_utf8(req.password@), u@.password)
            &&& final(state).users@ =~= old(state).users@.push(u@)
        },
        r is Err ==> final(state).users@ == old(state).users@,
{
    if !matches!(claims.role, Role::Admin) {
        return Err(AuthError::Forbidden);
    }
    add_account(
        &mut state.users,
        req.first_name.clone(),
        req.last_name.clone(),
        req.email.clone(),
        &req.password,
        Role::Admin,
    )
}

} // verus!
