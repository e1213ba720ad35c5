use vstd::prelude::*;

use crate::directory::{dir_has_email, emails_unique};
use crate::flow::{credentials_match, login_allowed};
use crate::hasher::digest_matches;
use crate::models::UserView;

verus! {

use vstd::utf8::encode_utf8;

/// Registration enables login. A successful registration stores an account
/// whose email is the requested one and whose digest verifies the requested
/// password (the `Ok` case of `add_account` and `register` says exactly
/// that), and a directory extended with such an account accepts that email
/// and password: `login` on it succeeds, and its token is bound to the
/// stored account's email and role.
pub proof fn lemma_register_enables_login(
    pre: Seq<UserView>,
    u: UserView,
    email: Seq<char>,
    password: Seq<char>,
)
    requires
        u.email == email,
        digest_matches(encode_utf8(password), u.password),
    ensures
        login_allowed(pre.push(u), email, password),
{
    let post = pre.push(u);
    assert(post[post.len() - 1] == u);
    assert(credentials_match(post[post.len() - 1], email, password));
}

/// Two registrations with one email, serialized by the directory's exclusive
/// access, cannot both succeed. After the first stores its account the email
/// is taken, so the second answers exactly `DuplicateEmail` (the error
/// equivalences of `add_account`, `register` and `register_admin`), and the
/// state the first leaves behind still holds no two accounts with one email:
/// no such state is ever observable.
pub proof fn lemma_duplicate_registration_excluded(
    pre: Seq<UserView>,
    u: UserView,
    email: Seq<char>,
)
    requires
        emails_unique(pre),
        !dir_has_email(pre, email),
        u.email == email,
    ensures
        dir_has_email(pre.push(u), email),
        emails_unique(pre.push(u)),
{
    let post = pre.push(u);
    assert(post[post.len() - 1].email == email);
    assert forall|i: int, j: int|
        0 <= i < post.len() && 0 <= j < post.len() && i != j implies post[i].email
        != post[j].email by {
        if i < pre.len() && j < pre.len() {
        } else if j == pre.len() {
            assert(post[i] == pre[i]);
        } else {
            assert(post[j] == pre[j]);
        }
    }
}

} // verus!
