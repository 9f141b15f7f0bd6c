//! Arguments of `credentials`. There is intentionally no `get`: the stored
//! token is never read back out.

use vstd::prelude::*;
use crate::config::credential_store::KEY_API_TOKEN;

verus! {

pub enum CredentialsCommand {
    /// Store a credential in the OS credential store.
    SetValue { field: CredentialField, stdin: bool },
    /// Delete a credential from the OS credential store.
    Delete { field: CredentialField, yes: bool },
    /// Show whether credentials are stored (never the value).
    Status,
    /// Migrate credentials from credentials.toml into the OS credential store.
    Migrate { dry_run: bool },
}

#[derive(Debug, Clone, Copy, PartialEq, Eq, Structural)]
pub enum CredentialField {
    /// Microsoft Defender for Cloud Apps API token.
    ApiToken,
}

impl CredentialField {
    /// The store key of a field.
    pub fn key(self) -> (r: &'static str)
        ensures
            r@ == KEY_API_TOKEN@,
    {
        match self {
            CredentialField::ApiToken => KEY_API_TOKEN,
        }
    }
}

} // verus!
