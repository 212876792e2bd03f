//! Credentials as the prompt hands them over.

use vstd::prelude::*;

pub mod simple;

verus! {

/// A failure of a credential prompt.
#[derive(Debug, Clone, Copy, PartialEq, Eq, Structural)]
pub enum AskPassError {
    /// The prompt could not be shown or read.
    PromptFailed,
}

/// A user name and the secret typed with it.
#[derive(Debug)]
pub struct UserInfo {
    pub username: String,
    pub password: String,
}

} // verus!
