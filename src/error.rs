use vstd::prelude::*;

verus! {

/// Classified failure of a use case, as seen by the client.
#[derive(Debug, Clone, Copy, PartialEq, Eq, Structural)]
pub enum AuthError {
    /// The supplied session cannot be used.
    InvalidSession,
    /// Register was attempted on a session that is already `Registered`.
    AlreadyRegistered,
    /// The username or email is already held by a user.
    IdentityTaken,
    /// No user has the given username or email.
    UnknownIdentity,
    /// The password does not match the user's.
    BadCredential,
    /// A store or the hasher failed; the client may retry unchanged.
    Transient,
}

pub open spec fn status_of(e: AuthError) -> u16 {
    match e {
        AuthError::InvalidSession => 400,
        AuthError::AlreadyRegistered => 409,
        AuthError::IdentityTaken => 409,
        AuthError::UnknownIdentity => 404,
        AuthError::BadCredential => 401,
        AuthError::Transient => 500,
    }
}

pub open spec fn message_of(e: AuthError) -> Seq<char> {
    match e {
        AuthError::InvalidSession => "Invalid Session, Refresh & Retry\n"@,
        AuthError::AlreadyRegistered => "You are already registered\n"@,
        AuthError::IdentityTaken => "Email already registered\n"@,
        AuthError::UnknownIdentity => "User not registered\n"@,
        AuthError::BadCredential => "Invalid credentials\n"@,
        AuthError::Transient => "Server Error, Refresh & Retry\n"@,
    }
}

impl AuthError {
    /// The HTTP status under which the error is reported.
    pub fn status_code(self) -> (r: u16)
        ensures
            r == status_of(self),
    {
        match self {
            AuthError::InvalidSession => 400,
            AuthError::AlreadyRegistered => 409,
            AuthError::IdentityTaken => 409,
            AuthError::UnknownIdentity => 404,
            AuthError::BadCredential => 401,
            AuthError::Transient => 500,
        }
    }

    /// The response body reported with the error; it never holds driver text.
    pub fn message(self) -> (r: &'static str)
        ensures
            r@ == message_of(self),
    {
        match self {
            AuthError::InvalidSession => "Invalid Session, Refresh & Retry\n",
            AuthError::AlreadyRegistered => "You are already registered\n",
            AuthError::IdentityTaken => "Email already registered\n",
            AuthError::UnknownIdentity => "User not registered\n",
            AuthError::BadCredential => "Invalid credentials\n",
            AuthError::Transient => "Server Error, Refresh & Retry\n",
        }
    }
}

} // verus!
