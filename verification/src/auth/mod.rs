//! Authentication of API requests.

pub mod token;

use vstd::prelude::*;
use crate::error::AppError;

verus! {

/// A source of the API token sent with each request.
pub trait AuthProvider {
    fn token(&self) -> Result<String, AppError>;
}

} // verus!
