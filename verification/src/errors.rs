use vstd::prelude::*;

verus! {

/// The error taxonomy of the library. Every fallible operation reports one of
/// these kinds, so callers map each kind to an externally visible status by a
/// variant check rather than by inspecting message text.
#[derive(Clone, Copy, Debug, PartialEq, Eq, Structural)]
pub enum ApiError {
    /// Malformed input: a required field is absent or fails its format check.
    Validation,
    /// A unique constraint (username or email) is already taken.
    Conflict,
    /// Sign-in failed; deliberately does not say whether the username exists.
    InvalidCredentials,
    /// No row matches the given key, including a cross-owner miss.
    NotFound,
    /// Any other internal failure.
    Storage,
    /// Required startup configuration is missing.
    Config,
}

impl ApiError {
    /// The HTTP status that a transport layer reports for this error kind.
    pub fn status_code(&self) -> (code: u16)
        ensures
            code == self.spec_status_code(),
    {
        match self {
            ApiError::Validation => 400,
            ApiError::Conflict => 409,
            ApiError::InvalidCredentials => 401,
            ApiError::NotFound => 404,
            ApiError::Storage => 500,
            ApiError::Config => 500,
        }
    }

    pub open spec fn spec_status_code(self) -> u16 {
        match self {
            ApiError::Validation => 400,
            ApiError::Conflict => 409,
            ApiError::InvalidCredentials => 401,
            ApiError::NotFound => 404,
            ApiError::Storage => 500,
            ApiError::Config => 500,
        }
    }
}

} // verus!
