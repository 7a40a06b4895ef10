use imapdump::{fingerprint, record_message, record_messages, Envelope, FetchedMessage, ResultMapping};

fn message(uid: u32, date: &str, message_id: &str) -> FetchedMessage {
    FetchedMessage {
        uid: Some(uid),
        envelope: Some(Envelope {
            date: Some(date.as_bytes().to_vec()),
            message_id: Some(message_id.as_bytes().to_vec()),
        }),
    }
}

fn inbox() -> String {
    "INBOX".to_string()
}

#[test]
fn complete_message_is_recorded_under_folder_and_uid() {
    let mut mapping = ResultMapping::new();
    record_message(&mut mapping, &inbox(), &message(4, "Mon, 1 Jan 2024", "<a@x>"));
    assert_eq!(mapping.len(), 1);
    assert_eq!(mapping.get(&inbox(), 4), Some(fingerprint(b"Mon, 1 Jan 2024", b"<a@x>")));
}

#[test]
fn message_without_envelope_is_passed_over() {
    let mut mapping = ResultMapping::new();
    record_message(&mut mapping, &inbox(), &FetchedMessage { uid: Some(4), envelope: None });
    assert_eq!(mapping.len(), 0);
}

#[test]
fn message_without_date_is_passed_over() {
    let mut mapping = ResultMapping::new();
    let lacking = FetchedMessage {
        uid: Some(4),
        envelope: Some(Envelope { date: None, message_id: Some(b"<a@x>".to_vec()) }),
    };
    record_message(&mut mapping, &inbox(), &lacking);
    assert_eq!(mapping.len(), 0);
    assert_eq!(mapping.get(&inbox(), 4), None);
}

#[test]
fn message_without_message_id_is_passed_over() {
    let mut mapping = ResultMapping::new();
    let lacking = FetchedMessage {
        uid: Some(4),
        envelope: Some(Envelope { date: Some(b"Mon, 1 Jan 2024".to_vec()), message_id: None }),
    };
    record_message(&mut mapping, &inbox(), &lacking);
    assert_eq!(mapping.len(), 0);
}

#[test]
fn message_without_uid_is_passed_over() {
    let mut mapping = ResultMapping::new();
    let mut lacking = message(4, "Mon, 1 Jan 2024", "<a@x>");
    lacking.uid = None;
    record_message(&mut mapping, &inbox(), &lacking);
    assert_eq!(mapping.len(), 0);
}

#[test]
fn message_with_empty_fields_is_recorded() {
    let mut mapping = ResultMapping::new();
    record_message(&mut mapping, &inbox(), &message(4, "", ""));
    assert_eq!(mapping.get(&inbox(), 4), Some(fingerprint(b"", b"")));
}

#[test]
fn message_without_date_does_not_keep_the_others_from_being_recorded() {
    let first = message(1, "Mon, 1 Jan 2024", "<a@x>");
    let lacking = FetchedMessage {
        uid: Some(2),
        envelope: Some(Envelope { date: None, message_id: Some(b"<b@x>".to_vec()) }),
    };
    let third = message(3, "Wed, 3 Jan 2024", "<c@x>");

    let mut with_it = ResultMapping::new();
    record_messages(&mut with_it, &inbox(), &[first.clone(), lacking, third.clone()]);
    let mut without_it = ResultMapping::new();
    record_messages(&mut without_it, &inbox(), &[first, third]);

    assert_eq!(with_it.len(), 2);
    assert_eq!(with_it.get(&inbox(), 2), None);
    assert_eq!(with_it.get(&inbox(), 1), Some(fingerprint(b"Mon, 1 Jan 2024", b"<a@x>")));
    assert_eq!(with_it.get(&inbox(), 3), Some(fingerprint(b"Wed, 3 Jan 2024", b"<c@x>")));
    assert_eq!(without_it.len(), with_it.len());
    assert_eq!(without_it.get(&inbox(), 1), with_it.get(&inbox(), 1));
    assert_eq!(without_it.get(&inbox(), 3), with_it.get(&inbox(), 3));
}

#[test]
fn later_message_with_the_same_uid_replaces_the_earlier() {
    let mut mapping = ResultMapping::new();
    let earlier = message(1, "Mon, 1 Jan 2024", "<a@x>");
    let later = message(1, "Tue, 2 Jan 2024", "<b@x>");
    record_messages(&mut mapping, &inbox(), &[earlier, later]);
    assert_eq!(mapping.len(), 1);
    assert_eq!(mapping.get(&inbox(), 1), Some(fingerprint(b"Tue, 2 Jan 2024", b"<b@x>")));
}

#[test]
fn recording_no_messages_changes_nothing() {
    let mut mapping = ResultMapping::new();
    mapping.insert(inbox(), 1, [1u8; 32]);
    record_messages(&mut mapping, &inbox(), &[]);
    assert_eq!(mapping.len(), 1);
    assert_eq!(mapping.get(&inbox(), 1), Some([1u8; 32]));
}
