use imapdump::{Class, Envelope, Event, FetchedMessage, Incident, Severity};

fn complete() -> FetchedMessage {
    FetchedMessage {
        uid: Some(1),
        envelope: Some(Envelope {
            date: Some(b"Mon, 1 Jan 2024".to_vec()),
            message_id: Some(b"<a@x>".to_vec()),
        }),
    }
}

#[test]
fn failed_listing_is_fatal() {
    assert_eq!(Incident::FolderListFailed.class(), Class::Fatal);
}

#[test]
fn failures_within_a_folder_cost_the_folder() {
    assert_eq!(Incident::SelectFailed.class(), Class::PerFolder);
    assert_eq!(Incident::SearchFailed.class(), Class::PerFolder);
    assert_eq!(Incident::FetchFailed.class(), Class::PerFolder);
}

#[test]
fn lacking_messages_cost_the_message() {
    assert_eq!(Incident::MissingUid.class(), Class::PerMessage);
    assert_eq!(Incident::MissingEnvelope.class(), Class::PerMessage);
    assert_eq!(Incident::MissingDate.class(), Class::PerMessage);
    assert_eq!(Incident::MissingMessageId.class(), Class::PerMessage);
}

#[test]
fn empty_folder_is_benign() {
    assert_eq!(Incident::EmptyFolder.class(), Class::Benign);
}

#[test]
fn severity_goes_by_class() {
    assert_eq!(Class::Fatal.severity(), Severity::Error);
    assert_eq!(Class::PerFolder.severity(), Severity::Error);
    assert_eq!(Class::PerMessage.severity(), Severity::Warning);
    assert_eq!(Class::Benign.severity(), Severity::Info);
}

#[test]
fn incidents_are_reported_with_the_severity_of_their_class() {
    assert_eq!(Incident::FolderListFailed.severity(), Severity::Error);
    assert_eq!(Incident::SelectFailed.severity(), Severity::Error);
    assert_eq!(Incident::SearchFailed.severity(), Severity::Error);
    assert_eq!(Incident::FetchFailed.severity(), Severity::Error);
    assert_eq!(Incident::MissingUid.severity(), Severity::Warning);
    assert_eq!(Incident::MissingEnvelope.severity(), Severity::Warning);
    assert_eq!(Incident::MissingDate.severity(), Severity::Warning);
    assert_eq!(Incident::MissingMessageId.severity(), Severity::Warning);
    assert_eq!(Incident::EmptyFolder.severity(), Severity::Info);
}

#[test]
fn empty_folder_is_no_error() {
    assert_eq!(Event::SearchCompleted(&[]).incident(), Some(Incident::EmptyFolder));
    assert_ne!(Incident::EmptyFolder.severity(), Severity::Error);
}

#[test]
fn failure_events_report_their_incident() {
    assert_eq!(Event::FolderListFailed.incident(), Some(Incident::FolderListFailed));
    assert_eq!(Event::SelectFailed.incident(), Some(Incident::SelectFailed));
    assert_eq!(Event::SearchFailed.incident(), Some(Incident::SearchFailed));
    assert_eq!(Event::FetchFailed.incident(), Some(Incident::FetchFailed));
}

#[test]
fn successful_events_report_no_incident() {
    let names = ["INBOX".to_string()];
    let messages = [FetchedMessage { uid: None, envelope: None }];
    assert_eq!(Event::FoldersListed(&names).incident(), None);
    assert_eq!(Event::FoldersListed(&[]).incident(), None);
    assert_eq!(Event::Selected.incident(), None);
    assert_eq!(Event::SearchCompleted(&[1]).incident(), None);
    assert_eq!(Event::Fetched(&messages).incident(), None);
    assert_eq!(Event::Fetched(&[]).incident(), None);
}

#[test]
fn complete_message_has_no_incident() {
    assert_eq!(complete().incident(), None);
}

#[test]
fn message_tells_the_first_thing_it_lacks() {
    let mut message = complete();
    message.envelope = Some(Envelope { date: Some(b"Mon, 1 Jan 2024".to_vec()), message_id: None });
    assert_eq!(message.incident(), Some(Incident::MissingMessageId));

    message.envelope = Some(Envelope { date: None, message_id: Some(b"<a@x>".to_vec()) });
    assert_eq!(message.incident(), Some(Incident::MissingDate));

    message.envelope = Some(Envelope { date: None, message_id: None });
    assert_eq!(message.incident(), Some(Incident::MissingDate));

    message.envelope = None;
    assert_eq!(message.incident(), Some(Incident::MissingEnvelope));

    message.uid = None;
    assert_eq!(message.incident(), Some(Incident::MissingUid));

    let mut without_uid = complete();
    without_uid.uid = None;
    assert_eq!(without_uid.incident(), Some(Incident::MissingUid));
}
