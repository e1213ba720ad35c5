use vstd::prelude::*;

use crate::directory::{Directory, dir_has_email};
use crate::errors::AuthError;
use crate::models::{Claims, Profile, Role};
use crate::token::{jwt_decode_failed, jwt_decoded, spec_token_accepted, verify_token};

verus! {

use vstd::string::StrSliceExecFns;

/// The header opens with the bearer scheme: `Bearer` and one space.
pub open spec fn bearer_prefix(h: Seq<char>) -> bool {
    h.len() >= 7 && h.subrange(0, 7) == "Bearer "@
}

/// Pulls the bearer credential out of an `Authorization` header value:
/// everything after the scheme prefix, or nothing when the header does not
/// carry a bearer credential at all.
pub fn extract_bearer<'a>(header: &'a str) -> (r: Option<&'a str>)
    ensures
        r is Some <==> bearer_prefix(header@),
        r matches Some(t) ==> t@ == header@.skip(7),
{
    proof {
        reveal_strlit("Bearer ");
    }
    let n = header.unicode_len();
    if n < 7 {
        return None;
    }
    if header.get_char(0) == 'B' && header.get_char(1) == 'e' && header.get_char(2) == 'a'
        && header.get_char(3) == 'r' && header.get_char(4) == 'e' && header.get_char(5) == 'r'
        && header.get_char(6) == ' ' {
        proof {
            assert(header@.subrange(0, 7) =~= "Bearer "@);
            assert(header@.subrange(7, header@.len() as int) =~= header@.skip(7));
        }
        Some(header.substring_char(7, n))
    } else {
        proof {
            assert(!bearer_prefix(header@)) by {
                if header@.subrange(0, 7) == "Bearer "@ {
                    assert(forall|k: int|
                        0 <= k < 7 ==> header@.subrange(0, 7)[k] == #[trigger] header@[k]);
                }
            }
        }
        None
    }
}

/// A bearer credential is present on the request and its token is accepted
/// at instant `now` under `key`.
pub open spec fn spec_request_authorized(
    header: Option<Seq<char>>,
    key: Seq<u8>,
    now: u64,
) -> bool {
    header matches Some(h) && bearer_prefix(h) && spec_token_accepted(h.skip(7), key, now)
}

/// The authorization gate, run before every protected handler: extracts the
/// bearer credential and validates it, handing verified claims to the
/// handler or rejecting the request before it reaches one. Which role the
/// claims carry is for each handler to judge.
pub fn authorize(header: Option<&String>, key: &[u8], now: u64) -> (r: Result<Claims, AuthError>)
    ensures
        r is Ok <==> spec_request_authorized(
            match header {
                Some(h) => Some(h@),
                None => None,
            },
            key@,
            now,
        ),
        r == Err::<Claims, AuthError>(AuthError::MissingToken) <==> !(header matches Some(h)
            && bearer_prefix(h@)),
        header matches Some(h) ==> bearer_prefix(h@) ==> {
            &&& (r matches Ok(c) ==> {
                &&& jwt_decoded(h@.skip(7), key@) matches Ok(p)
                &&& c@.sub == p.0
                &&& Some(c@.role) == crate::models::spec_role_from_number(p.1)
                &&& c@.exp == p.2
                &&& now <= c@.exp
            })
            &&& (r == Err::<Claims, AuthError>(AuthError::TokenInvalid) <==> jwt_decode_failed(
                h@.skip(7),
                key@,
                true,
            ))
            &&& (r == Err::<Claims, AuthError>(AuthError::TokenMalformed) <==> (jwt_decode_failed(
                h@.skip(7),
                key@,
                false,
            ) || (jwt_decoded(h@.skip(7), key@) matches Ok(p)
                && crate::models::spec_role_from_number(p.1) is None)))
            &&& (r == Err::<Claims, AuthError>(AuthError::TokenExpired) <==> (jwt_decoded(
                h@.skip(7),
                key@,
            ) matches Ok(p) && crate::models::spec_role_from_number(p.1) is Some && now > p.2))
        },
{
    let h = match header {
        Some(h) => h,
        None => {
            return Err(AuthError::MissingToken);
        },
    };
    let token = match extract_bearer(h.as_str()) {
        Some(t) => t,
        None => {
            return Err(AuthError::MissingToken);
        },
    };
    let out = verify_token(token, key, now);
    proof {
        // Every decode outcome pins the result to one of the token verdicts,
        // so the missing-credential refusal cannot come out of this path.
        let d = jwt_decoded(token@, key@);
        if d is Err {
            if d->Err_0 {
                assert(out == Err::<Claims, AuthError>(AuthError::TokenInvalid));
            } else {
                assert(out == Err::<Claims, AuthError>(AuthError::TokenMalformed));
            }
        } else {
            let p = d->Ok_0;
            if crate::models::spec_role_from_number(p.1) is None {
                assert(out == Err::<Claims, AuthError>(AuthError::TokenMalformed));
            } else if now > p.2 {
                assert(out == Err::<Claims, AuthError>(AuthError::TokenExpired));
            } else {
                assert(out is Ok);
            }
        }
    }
    out
}

/// The admin dashboard: for a caller whose verified claims carry the admin
/// role, the number of accounts and a password-free snapshot of all of them;
/// for anyone else, a refusal.
pub fn admin_dashboard(claims: &Claims, dir: &Directory) -> (r: Result<
    (usize, Vec<Profile>),
    AuthError,
>)
    ensures
        r is Ok <==> claims@.role == Role::Admin,
        r matches Err(e) ==> e == AuthError::Forbidden,
        r matches Ok(p) ==> {
            &&& p.0 == dir@.len()
            &&& p.1@.len() == dir@.len()
            &&& forall|i: int|
                0 <= i < dir@.len() ==> {
                    &&& (#[trigger] p.1@[i]).id == dir@[i].id
                    &&& p.1@[i].email@ == dir@[i].email
                    &&& p.1@[i].first_name@ == dir@[i].first_name
                    &&& p.1@[i].last_name@ == dir@[i].last_name
                    &&& p.1@[i].role == dir@[i].role
                }
        },
{
    if matches!(claims.role, Role::Admin) {
        Ok((dir.len(), dir.list()))
    } else {
        Err(AuthError::Forbidden)
    }
}

/// The profile endpoint of the plain-user role: an admin's token is refused
/// here, and a bearer whose account has vanished from the directory is told
/// so. On success, the caller's own account, without its digest.
pub fn user_profile(claims: &Claims, dir: &Directory) -> (r: Result<Profile, AuthError>)
    ensures
        r == Err::<Profile, AuthError>(AuthError::Forbidden) <==> claims@.role != Role::User,
        r == Err::<Profile, AuthError>(AuthError::AccountNotFound) <==> (claims@.role == Role::User
            && !dir_has_email(dir@, claims@.sub)),
        r is Ok <==> (claims@.role == Role::User && dir_has_email(dir@, claims@.sub)),
        r matches Ok(p) ==> exists|i: int|
            0 <= i < dir@.len() && {
                &&& (#[trigger] dir@[i]).email == claims@.sub
                &&& p.id == dir@[i].id
                &&& p.email@ == dir@[i].email
                &&& p.first_name@ == dir@[i].first_name
                &&& p.last_name@ == dir@[i].last_name
                &&& p.role == dir@[i].role
            },
{
    if !matches!(claims.role, Role::User) {
        return Err(AuthError::Forbidden);
    }
    match dir.find_by_email(&claims.sub) {
        Some(i) => Ok(dir.account_at(i).profile()),
        None => Err(AuthError::AccountNotFound),
    }
}

} // verus!
