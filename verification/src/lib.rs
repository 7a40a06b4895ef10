//! Fingerprints for the messages of a mail account.
//!
//! The library holds the decisions of a run over an account: which command is
//! sent next, which folders and messages are skipped, and which entry each
//! message leaves in the result. It performs no I/O itself: a caller asks the
//! [`Enumerator`] for the pending [`Action`], performs it against its session
//! and hands back the server's answer as an [`Event`].

pub mod args;
pub mod digest;
pub mod enumerator;
pub mod incident;
pub mod mapping;
pub mod message;
pub mod replay;
pub mod uid_set;

pub use args::{ImapDumpArgs, DEFAULT_PORT};
pub use digest::{fingerprint, Fingerprint};
pub use enumerator::{
    Action, Enumerator, Event, Phase, FETCH_QUERY, LIST_PATTERN, LIST_REFERENCE, SEARCH_CRITERION,
};
pub use incident::{Class, Incident, Severity};
pub use mapping::ResultMapping;
pub use message::{record_message, record_messages, Envelope, FetchedMessage};
pub use replay::{get_message_hashes, FolderReplies};
pub use uid_set::uid_set;
