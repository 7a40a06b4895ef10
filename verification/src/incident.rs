//! What can keep a run from recording a message, how much of the run it
//! costs, and how loudly it is to be reported.

use vstd::prelude::*;

verus! {

/// Something that a run came across and recorded nothing for.
#[derive(Clone, Copy, PartialEq, Eq, Structural, Debug)]
pub enum Incident {
    /// The server rejected the folder listing.
    FolderListFailed,
    /// A folder could not be selected.
    SelectFailed,
    /// The search in a folder failed.
    SearchFailed,
    /// The fetch for a folder failed as a whole.
    FetchFailed,
    /// A folder holds no message.
    EmptyFolder,
    /// A fetched message came without its UID.
    MissingUid,
    /// A fetched message came without an envelope.
    MissingEnvelope,
    /// The envelope of a fetched message has no date.
    MissingDate,
    /// The envelope of a fetched message has no message-id.
    MissingMessageId,
}

/// How far an incident reaches.
#[derive(Clone, Copy, PartialEq, Eq, Structural, Debug)]
pub enum Class {
    /// The run ends without a result.
    Fatal,
    /// The folder at hand is given up, and the run goes on with the next.
    PerFolder,
    /// The message at hand is passed over, and the run goes on with the next.
    PerMessage,
    /// Nothing went wrong: there was nothing to do.
    Benign,
}

/// How loudly an incident is reported.
#[derive(Clone, Copy, PartialEq, Eq, Structural, Debug)]
pub enum Severity {
    Error,
    Warning,
    Info,
}

impl Incident {
    /// The class of an incident.
    pub open spec fn class_of(self) -> Class {
        match self {
            Incident::FolderListFailed => Class::Fatal,
            Incident::SelectFailed => Class::PerFolder,
            Incident::SearchFailed => Class::PerFolder,
            Incident::FetchFailed => Class::PerFolder,
            Incident::EmptyFolder => Class::Benign,
            Incident::MissingUid => Class::PerMessage,
            Incident::MissingEnvelope => Class::PerMessage,
            Incident::MissingDate => Class::PerMessage,
            Incident::MissingMessageId => Class::PerMessage,
        }
    }

    /// Tells the class of an incident.
    pub fn class(self) -> (class: Class)
        ensures
            class == self.class_of(),
    {
        match self {
            Incident::FolderListFailed => Class::Fatal,
            Incident::SelectFailed | Incident::SearchFailed | Incident::FetchFailed => Class::PerFolder,
            Incident::EmptyFolder => Class::Benign,
            Incident::MissingUid
            | Incident::MissingEnvelope
            | Incident::MissingDate
            | Incident::MissingMessageId => Class::PerMessage,
        }
    }

    /// Tells how loudly an incident is reported: by its class.
    pub fn severity(self) -> (severity: Severity)
        ensures
            severity == self.class_of().severity_of(),
    {
        self.class().severity()
    }
}

impl Class {
    /// The severity with which the incidents of a class are reported.
    pub open spec fn severity_of(self) -> Severity {
        match self {
            Class::Fatal => Severity::Error,
            Class::PerFolder => Severity::Error,
            Class::PerMessage => Severity::Warning,
            Class::Benign => Severity::Info,
        }
    }

    /// Tells the severity with which the incidents of a class are reported.
    pub fn severity(self) -> (severity: Severity)
        ensures
            severity == self.severity_of(),
    {
        match self {
            Class::Fatal | Class::PerFolder => Severity::Error,
            Class::PerMessage => Severity::Warning,
            Class::Benign => Severity::Info,
        }
    }
}

} // verus!
