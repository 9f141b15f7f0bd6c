//! Authentication with a fixed API token.

use vstd::prelude::*;
use vstd::string::*;
use crate::auth::AuthProvider;
use crate::error::AppError;

verus! {

/// The message of the error for an empty token.
pub open spec fn empty_token_message() -> Seq<char> {
    "API token is empty. Set via --token, CLOUDAPPS_API_TOKEN, or config file."@
}

/// A non-empty API token.
pub struct TokenAuth {
    token: String,
}

impl TokenAuth {
    pub closed spec fn value(&self) -> Seq<char> {
        self.token@
    }

    /// Accepts any non-empty token; an empty one is an authentication error.
    pub fn new(token: String) -> (r: Result<Self, AppError>)
        ensures
            r is Ok <==> token@.len() > 0,
            r matches Ok(a) ==> a.value() == token@,
            r matches Err(e) ==> (e matches AppError::Auth(m) && m@ == empty_token_message()),
    {
        if token.as_str().unicode_len() == 0 {
            return Err(
                AppError::Auth(
                    String::from_str(
                        "API token is empty. Set via --token, CLOUDAPPS_API_TOKEN, or config file.",
                    ),
                ),
            );
        }
        Ok(TokenAuth { token })
    }
}

impl AuthProvider for TokenAuth {
    /// The token, always available.
    fn token(&self) -> (r: Result<String, AppError>)
        ensures
            r matches Ok(t) && t@ == self.value(),
    {
        Ok(self.token.clone())
    }
}

} // verus!
