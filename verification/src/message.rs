//! What a fetch returns for one message, and the entry that the message
//! leaves in the result.

use crate::digest::{fingerprint, fingerprint_of};
use crate::incident::Incident;
use crate::mapping::{MessageKey, ResultMapping};
use vstd::prelude::*;

verus! {

/// The part of a message's envelope that goes into its fingerprint. A server
/// may leave out either field.
#[derive(Clone, Debug, PartialEq, Eq)]
pub struct Envelope {
    pub date: Option<Vec<u8>>,
    pub message_id: Option<Vec<u8>>,
}

/// One message of a fetch response. The UID is absent where the server did
/// not report it, the envelope where the response held none.
#[derive(Clone, Debug, PartialEq, Eq)]
pub struct FetchedMessage {
    pub uid: Option<u32>,
    pub envelope: Option<Envelope>,
}

pub struct EnvelopeView {
    pub date: Option<Seq<u8>>,
    pub message_id: Option<Seq<u8>>,
}

pub struct MessageView {
    pub uid: Option<u32>,
    pub envelope: Option<EnvelopeView>,
}

impl View for Envelope {
    type V = EnvelopeView;

    open spec fn view(&self) -> EnvelopeView {
        EnvelopeView {
            date: match self.date {
                Some(bytes) => Some(bytes@),
                None => None,
            },
            message_id: match self.message_id {
                Some(bytes) => Some(bytes@),
                None => None,
            },
        }
    }
}

impl View for FetchedMessage {
    type V = MessageView;

    open spec fn view(&self) -> MessageView {
        MessageView {
            uid: self.uid,
            envelope: match self.envelope {
                Some(envelope) => Some(envelope@),
                None => None,
            },
        }
    }
}

/// The views of the messages of a fetch response, in the order of the
/// response.
pub open spec fn message_views(messages: Seq<FetchedMessage>) -> Seq<MessageView> {
    Seq::new(messages.len(), |i: int| messages[i]@)
}

impl MessageView {
    /// The message has a date in its envelope.
    pub open spec fn has_date(self) -> bool {
        self.envelope is Some && self.envelope->0.date is Some
    }

    /// The message has a message-id in its envelope.
    pub open spec fn has_message_id(self) -> bool {
        self.envelope is Some && self.envelope->0.message_id is Some
    }

    /// The message can be recorded: it has a UID to be found by, and both
    /// fields that its fingerprint is computed from.
    pub open spec fn complete(self) -> bool {
        self.uid is Some && self.has_date() && self.has_message_id()
    }

    /// What keeps the message from being recorded: the first thing that it
    /// lacks of UID, envelope, date and message-id; nothing where it is
    /// complete.
    pub open spec fn incident(self) -> Option<Incident> {
        if self.uid is None {
            Some(Incident::MissingUid)
        } else if self.envelope is None {
            Some(Incident::MissingEnvelope)
        } else if self.envelope->0.date is None {
            Some(Incident::MissingDate)
        } else if self.envelope->0.message_id is None {
            Some(Incident::MissingMessageId)
        } else {
            None
        }
    }

    /// The fingerprint of a complete message.
    pub open spec fn fingerprint(self) -> Seq<u8>
        recommends
            self.complete(),
    {
        fingerprint_of(self.envelope->0.date->0, self.envelope->0.message_id->0)
    }
}

/// The mapping after one message of `folder` has been looked at: a complete
/// message is recorded under the folder's name and its UID, any other message
/// is passed over.
pub open spec fn with_message(
    mapping: Map<MessageKey, Seq<u8>>,
    folder: Seq<char>,
    message: MessageView,
) -> Map<MessageKey, Seq<u8>> {
    if message.complete() {
        mapping.insert((folder, message.uid->0), message.fingerprint())
    } else {
        mapping
    }
}

/// The mapping after the messages of `folder` have been looked at, one after
/// the other.
pub open spec fn with_messages(
    mapping: Map<MessageKey, Seq<u8>>,
    folder: Seq<char>,
    messages: Seq<MessageView>,
) -> Map<MessageKey, Seq<u8>>
    decreases messages.len(),
{
    if messages.len() == 0 {
        mapping
    } else {
        with_message(with_messages(mapping, folder, messages.drop_last()), folder, messages.last())
    }
}

impl FetchedMessage {
    /// Tells what keeps the message from being recorded, if anything does.
    pub fn incident(&self) -> (incident: Option<Incident>)
        ensures
            incident == self@.incident(),
            incident is None <==> self@.complete(),
    {
        if self.uid.is_none() {
            return Some(Incident::MissingUid);
        }
        match &self.envelope {
            None => Some(Incident::MissingEnvelope),
            Some(envelope) => {
                if envelope.date.is_none() {
                    Some(Incident::MissingDate)
                } else if envelope.message_id.is_none() {
                    Some(Incident::MissingMessageId)
                } else {
                    None
                }
            },
        }
    }
}

/// Records one fetched message of `folder`. A message that lacks its UID, its
/// envelope, its date or its message-id leaves the mapping as it was.
pub fn record_message(mapping: &mut ResultMapping, folder: &String, message: &FetchedMessage)
    ensures
        final(mapping)@ == with_message(old(mapping)@, folder@, message@),
{
    if let Some(uid) = message.uid {
        if let Some(envelope) = &message.envelope {
            if let Some(date) = &envelope.date {
                if let Some(message_id) = &envelope.message_id {
                    let digest = fingerprint(date.as_slice(), message_id.as_slice());
                    mapping.insert(folder.clone(), uid, digest);
                }
            }
        }
    }
}

/// Records the messages of a fetch response for `folder`, in the order of the
/// response. A message that cannot be recorded does not keep the others from
/// being recorded.
pub fn record_messages(mapping: &mut ResultMapping, folder: &String, messages: &[FetchedMessage])
    ensures
        final(mapping)@ == with_messages(old(mapping)@, folder@, message_views(messages@)),
{
    let ghost views = message_views(messages@);
    let mut i: usize = 0;
    while i < messages.len()
        invariant
            i <= messages@.len(),
            views == message_views(messages@),
            mapping@ == with_messages(old(mapping)@, folder@, views.take(i as int)),
        decreases messages@.len() - i,
    {
        assert(views.take(i + 1).drop_last() =~= views.take(i as int));
        record_message(mapping, folder, &messages[i]);
        i = i + 1;
    }
    assert(views.take(i as int) =~= views);
}

} // verus!
