use vstd::prelude::*;

use crate::errors::AuthError;
use crate::hasher::digest_wf;
use crate::models::{Profile, Role, User, UserView};

verus! {

/// The most accounts a directory may hold: one less than the greatest `i32`,
/// so that the next identifier, one past the count, always fits.
pub const MAX_ACCOUNTS: usize = 0x7fff_fffe;

/// There is an account with this email.
pub open spec fn dir_has_email(d: Seq<UserView>, email: Seq<char>) -> bool {
    exists|i: int| 0 <= i < d.len() && d[i].email == email
}

/// No two accounts share an email.
pub open spec fn emails_unique(d: Seq<UserView>) -> bool {
    forall|i: int, j: int|
        0 <= i < d.len() && 0 <= j < d.len() && i != j ==> d[i].email != d[j].email
}

/// Identifiers are assigned in insertion order, starting at one.
pub open spec fn ids_sequential(d: Seq<UserView>) -> bool {
    forall|i: int| 0 <= i < d.len() ==> d[i].id == i + 1
}

/// Every stored digest is a well-formed bcrypt string, so verification never
/// fails structurally against the directory.
pub open spec fn digests_wf(d: Seq<UserView>) -> bool {
    forall|i: int| 0 <= i < d.len() ==> digest_wf(#[trigger] d[i].password)
}

/// The directory's invariant: unique emails, collision-free sequential
/// identifiers, well-formed digests, and room for the next identifier.
pub open spec fn dir_wf(d: Seq<UserView>) -> bool {
    &&& emails_unique(d)
    &&& ids_sequential(d)
    &&& digests_wf(d)
    &&& d.len() <= MAX_ACCOUNTS
}

/// The shared, mutable collection of account records. All access is through
/// methods that take the whole directory, so a caller that serializes those
/// calls (one exclusive lock per directory) gets the uniqueness check and the
/// insertion as one atomic step.
pub struct Directory {
    accounts: Vec<User>,
}

impl View for Directory {
    type V = Seq<UserView>;

    closed spec fn view(&self) -> Seq<UserView> {
        self.accounts@.map_values(|u: User| u@)
    }
}

impl Directory {
    /// An empty directory.
    pub fn new() -> (r: Directory)
        ensures
            r@ =~= Seq::<UserView>::empty(),
            dir_wf(r@),
    {
        Directory { accounts: Vec::new() }
    }

    /// How many accounts are stored.
    pub fn len(&self) -> (r: usize)
        ensures
            r == self@.len(),
    {
        self.accounts.len()
    }

    /// The account at a position, in insertion order.
    pub fn account_at(&self, i: usize) -> (r: &User)
        requires
            i < self@.len(),
        ensures
            r@ == self@[i as int],
    {
        &self.accounts[i]
    }

    /// Linear lookup of the first (and, under the invariant, only) account
    /// with this email.
    pub fn find_by_email(&self, email: &String) -> (r: Option<usize>)
        ensures
            r matches Some(i) ==> i < self@.len() && self@[i as int].email == email@,
            r is None <==> !dir_has_email(self@, email@),
    {
        let n = self.accounts.len();
        for i in 0..n
            invariant
                n == self@.len(),
                forall|j: int| 0 <= j < i ==> self@[j].email != email@,
        {
            if self.accounts[i].email == *email {
                return Some(i);
            }
        }
        None
    }

    /// Appends a new account under the next identifier, refusing an email
    /// that is already taken. The check and the append happen inside one
    /// exclusive borrow of the directory, so no two concurrent registrations
    /// can both pass the check.
    pub fn insert(
        &mut self,
        first_name: String,
        last_name: String,
        email: String,
        password_hash: String,
        role: Role,
    ) -> (r: Result<User, AuthError>)
        requires
            dir_wf(old(self)@),
            old(self)@.len() < MAX_ACCOUNTS,
            digest_wf(password_hash@),
        ensures
            dir_wf(final(self)@),
            r is Ok <==> !dir_has_email(old(self)@, email@),
            r matches Ok(u) ==> {
                &&& u@.id == old(self)@.len() + 1
                &&& u@.email == email@
                &&& u@.first_name == first_name@
                &&& u@.last_name == last_name@
                &&& u@.password == password_hash@
                &&& u@.role == role
                &&& final(self)@ =~= old(self)@.push(u@)
            },
            r is Err ==> r == Err::<User, AuthError>(AuthError::DuplicateEmail) && final(self)@
                == old(self)@,
    {
        if self.find_by_email(&email).is_some() {
            return Err(AuthError::DuplicateEmail);
        }
        let n = self.accounts.len();
        let account = User {
            id: (n as i32) + 1,
            email,
            first_name,
            last_name,
            password: password_hash,
            role,
        };
        let stored = account.clone();
        self.accounts.push(account);
        assert(self@ =~= old(self)@.push(stored@));
        Ok(stored)
    }

    /// A password-free snapshot of every account, in insertion order.
    pub fn list(&self) -> (r: Vec<Profile>)
        ensures
            r@.len() == self@.len(),
            forall|i: int|
                0 <= i < r@.len() ==> {
                    &&& (#[trigger] r@[i]).id == self@[i].id
                    &&& r@[i].email@ == self@[i].email
                    &&& r@[i].first_name@ == self@[i].first_name
                    &&& r@[i].last_name@ == self@[i].last_name
                    &&& r@[i].role == self@[i].role
                },
    {
        let n = self.accounts.len();
        let mut out: Vec<Profile> = Vec::new();
        for i in 0..n
            invariant
                n == self@.len(),
                out@.len() == i,
                forall|j: int|
                    0 <= j < i ==> {
                        &&& (#[trigger] out@[j]).id == self@[j].id
                        &&& out@[j].email@ == self@[j].email
                        &&& out@[j].first_name@ == self@[j].first_name
                        &&& out@[j].last_name@ == self@[j].last_name
                        &&& out@[j].role == self@[j].role
                    },
        {
            out.push(self.accounts[i].profile());
        }
        out
    }
}

/// The process-wide, read-only configuration: the secret the token signer
/// uses. Loaded once at startup; a failure to obtain it aborts the process
/// before any request is served.
pub struct Config {
    pub jwt_secret: Vec<u8>,
}

/// Everything a request handler needs: the signing configuration and the
/// shared directory. The caller holds it behind one exclusive lock.
pub struct AppState {
    pub config: Config,
    pub users: Directory,
}

} // verus!
