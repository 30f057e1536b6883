//! Plain data shapes the gateway returns to clients.
//!
//! These are the reply bodies assembled by command handlers and carried
//! through the dispatcher as envelope subjects. They hold plain values
//! only; the domain objects they are built from live with the domain
//! collaborators outside this crate.

use vstd::prelude::*;

verus! {

/// A user account together with its secret tokens, as returned to the
/// client that asked for the logged-in user.
#[derive(Debug, Clone)]
pub struct UserWithSecrets {
    pub id: u64,
    pub name: Option<String>,
    pub login: Option<String>,
    pub email: Option<String>,
    pub picture: String,
    pub locale: Option<String>,
    pub created_at: String,
    pub updated_at: String,
    pub access_token: String,
    pub role: Option<String>,
    pub github_access_token: Option<String>,
    pub github_username: Option<String>,
}

/// The two codes of a device OAuth flow: the code the user types in and
/// the code the device polls with.
#[derive(Debug, Clone)]
pub struct Verification {
    pub user_code: String,
    pub device_code: String,
}

impl Default for Verification {
    /// An empty verification: both codes blank.
    fn default() -> (r: Verification)
        ensures
            r.user_code@ == Seq::<char>::empty(),
            r.device_code@ == Seq::<char>::empty(),
    {
        Verification { user_code: String::new(), device_code: String::new() }
    }
}

/// The client-facing result of moving changes between commits: the
/// commits that were rewritten, each as the pair of its old and new hex
/// id.
#[derive(Debug, Clone)]
pub struct UIMoveChangesResult {
    pub replaced_commits: Vec<(String, String)>,
}

impl UIMoveChangesResult {
    /// Wraps the rewritten-commit pairs as a client-facing result.
    pub fn new(replaced_commits: Vec<(String, String)>) -> (r: UIMoveChangesResult)
        ensures
            r.replaced_commits == replaced_commits,
    {
        UIMoveChangesResult { replaced_commits }
    }
}

} // verus!
