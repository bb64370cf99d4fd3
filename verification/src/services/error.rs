//! The errors of authentication.
use vstd::prelude::*;

verus! {

/// Why a request is not authenticated.
#[derive(Clone, Copy, Debug, PartialEq, Eq, Structural)]
pub enum Error {
    WrongCredentials,
    JwtToken,
    JwtTokenCreation,
    NoAuthHeader,
    InvalidAuthHeader,
    NoPermission,
}

impl Error {
    /// The message of the error.
    pub open spec fn message_of(self) -> Seq<char> {
        match self {
            Error::WrongCredentials => "Wrong credentials"@,
            Error::JwtToken => "Jwt token not valid"@,
            Error::JwtTokenCreation => "Jwt token creation error"@,
            Error::NoAuthHeader => "No auth header"@,
            Error::InvalidAuthHeader => "Invalid auth header"@,
            Error::NoPermission => "No permission"@,
        }
    }

    /// The message of the error.
    pub fn message(&self) -> (res: &'static str)
        ensures
            res@ == self.message_of(),
    {
        match self {
            Error::WrongCredentials => "Wrong credentials",
            Error::JwtToken => "Jwt token not valid",
            Error::JwtTokenCreation => "Jwt token creation error",
            Error::NoAuthHeader => "No auth header",
            Error::InvalidAuthHeader => "Invalid auth header",
            Error::NoPermission => "No permission",
        }
    }
}

} // verus!
