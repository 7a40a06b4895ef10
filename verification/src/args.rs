//! The arguments of a run.

use vstd::prelude::*;

verus! {

/// The port that is used where none is given: the one on which mail access
/// is served over an encrypted connection.
pub const DEFAULT_PORT: u16 = 993;

/// What a run is started with.
#[derive(Clone, Debug)]
pub struct ImapDumpArgs {
    /// The name of the mail server.
    pub host: String,
    /// The TCP port of the mail server.
    pub port: u16,
    /// The identity to log in with.
    pub username: String,
    /// The secret to log in with.
    pub password: String,
    /// A folder's name. The run takes no account of it: every folder of the
    /// account is visited.
    pub folder: String,
}

impl ImapDumpArgs {
    /// A session can be opened with these arguments: the host and both
    /// credentials are not empty, and the port is one that a connection can
    /// be made to.
    pub open spec fn can_open(&self) -> bool {
        &&& self.host@.len() > 0
        &&& self.port > 0
        &&& self.username@.len() > 0
        &&& self.password@.len() > 0
    }

    /// Tells whether a session can be opened with these arguments.
    pub fn is_openable(&self) -> (ok: bool)
        ensures
            ok == self.can_open(),
    {
        !self.host.as_str().is_empty() && self.port > 0 && !self.username.as_str().is_empty()
            && !self.password.as_str().is_empty()
    }
}

} // verus!
