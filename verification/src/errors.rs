use vstd::prelude::*;

verus! {

/// Every failure the authentication and authorization core can report.
///
/// `ValidationError` marks malformed registration input, `InvalidCredentials`
/// a login that failed (deliberately the same for an unknown email and a wrong
/// password), `DuplicateEmail` a registration conflict, `Forbidden` a role
/// mismatch, the four token errors a rejected bearer credential,
/// `AccountNotFound` a profile whose account has vanished, and the last two an
/// infrastructure fault in the hasher or the signer.
#[derive(Clone, Copy, Debug, PartialEq, Eq, Structural)]
pub enum AuthError {
    ValidationError,
    InvalidCredentials,
    DuplicateEmail,
    Forbidden,
    MissingToken,
    TokenMalformed,
    TokenInvalid,
    TokenExpired,
    AccountNotFound,
    HashingError,
    SigningError,
}

impl AuthError {
    /// The HTTP status under which this error is surfaced to a caller.
    pub fn status_code(&self) -> (r: u16)
        ensures
            r == self.spec_status_code(),
    {
        match self {
            AuthError::ValidationError => 400,
            AuthError::InvalidCredentials => 401,
            AuthError::DuplicateEmail => 409,
            AuthError::Forbidden => 403,
            AuthError::MissingToken => 401,
            AuthError::TokenMalformed => 401,
            AuthError::TokenInvalid => 401,
            AuthError::TokenExpired => 401,
            AuthError::AccountNotFound => 404,
            AuthError::HashingError => 500,
            AuthError::SigningError => 500,
        }
    }

    pub open spec fn spec_status_code(&self) -> u16 {
        match self {
            AuthError::ValidationError => 400u16,
            AuthError::InvalidCredentials => 401u16,
            AuthError::DuplicateEmail => 409u16,
            AuthError::Forbidden => 403u16,
            AuthError::MissingToken => 401u16,
            AuthError::TokenMalformed => 401u16,
            AuthError::TokenInvalid => 401u16,
            AuthError::TokenExpired => 401u16,
            AuthError::AccountNotFound => 404u16,
            AuthError::HashingError => 500u16,
            AuthError::SigningError => 500u16,
        }
    }

    /// The text each error carries in the `{error: ...}` envelope. The two
    /// infrastructure faults share one fixed text, so no internal detail can
    /// leak out through it, and the one login failure text covers an unknown
    /// email and a wrong password alike.
    pub open spec fn spec_message(&self) -> Seq<char> {
        match self {
            AuthError::ValidationError => {
                "First name, last name, email, and password are required"@
            },
            AuthError::InvalidCredentials => "Invalid credentials"@,
            AuthError::DuplicateEmail => "Email already registered"@,
            AuthError::Forbidden => "Access denied"@,
            AuthError::MissingToken => "Missing bearer token"@,
            AuthError::TokenMalformed => "Malformed token"@,
            AuthError::TokenInvalid => "Invalid token"@,
            AuthError::TokenExpired => "Token expired"@,
            AuthError::AccountNotFound => "User not found"@,
            AuthError::HashingError => "Internal server error"@,
            AuthError::SigningError => "Internal server error"@,
        }
    }

    /// The message placed in the `{error: ...}` envelope. Infrastructure
    /// faults get a generic message so that no internal detail leaks out.
    pub fn message(&self) -> (r: String)
        ensures
            r@ == self.spec_message(),
    {
        match self {
            AuthError::ValidationError => {
                "First name, last name, email, and password are required".to_owned()
            },
            AuthError::InvalidCredentials => "Invalid credentials".to_owned(),
            AuthError::DuplicateEmail => "Email already registered".to_owned(),
            AuthError::Forbidden => "Access denied".to_owned(),
            AuthError::MissingToken => "Missing bearer token".to_owned(),
            AuthError::TokenMalformed => "Malformed token".to_owned(),
            AuthError::TokenInvalid => "Invalid token".to_owned(),
            AuthError::TokenExpired => "Token expired".to_owned(),
            AuthError::AccountNotFound => "User not found".to_owned(),
            AuthError::HashingError => "Internal server error".to_owned(),
            AuthError::SigningError => "Internal server error".to_owned(),
        }
    }
}

} // verus!
