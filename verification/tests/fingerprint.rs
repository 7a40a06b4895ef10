use imapdump::fingerprint;

const SHA256_OF_ABC: [u8; 32] = [
    0xba, 0x78, 0x16, 0xbf, 0x8f, 0x01, 0xcf, 0xea, 0x41, 0x41, 0x40, 0xde, 0x5d, 0xae, 0x22, 0x23,
    0xb0, 0x03, 0x61, 0xa3, 0x96, 0x17, 0x7a, 0x9c, 0xb4, 0x10, 0xff, 0x61, 0xf2, 0x00, 0x15, 0xad,
];

const SHA256_OF_NOTHING: [u8; 32] = [
    0xe3, 0xb0, 0xc4, 0x42, 0x98, 0xfc, 0x1c, 0x14, 0x9a, 0xfb, 0xf4, 0xc8, 0x99, 0x6f, 0xb9, 0x24,
    0x27, 0xae, 0x41, 0xe4, 0x64, 0x9b, 0x93, 0x4c, 0xa4, 0x95, 0x99, 0x1b, 0x78, 0x52, 0xb8, 0x55,
];

const SHA256_OF_FIRST_MESSAGE: [u8; 32] = [
    0x0f, 0x3f, 0x8a, 0xaa, 0x15, 0x80, 0xee, 0x6d, 0xfe, 0x48, 0xd7, 0x0b, 0x5e, 0x3e, 0x10, 0x84,
    0x76, 0x9a, 0xcc, 0x64, 0x52, 0x49, 0x74, 0x9b, 0xf2, 0x2c, 0x3a, 0x3d, 0x73, 0x30, 0x01, 0x67,
];

#[test]
fn fingerprint_is_the_sha256_digest_of_date_then_message_id() {
    assert_eq!(fingerprint(b"a", b"bc"), SHA256_OF_ABC);
    assert_eq!(
        fingerprint(b"Mon, 1 Jan 2024 10:00:00 +0000", b"<one@example.org>"),
        SHA256_OF_FIRST_MESSAGE
    );
}

#[test]
fn fingerprint_of_two_empty_fields_is_the_digest_of_no_bytes() {
    assert_eq!(fingerprint(b"", b""), SHA256_OF_NOTHING);
}

#[test]
fn fingerprint_takes_either_field_alone() {
    assert_eq!(fingerprint(b"abc", b""), SHA256_OF_ABC);
    assert_eq!(fingerprint(b"", b"abc"), SHA256_OF_ABC);
}

#[test]
fn fingerprint_has_32_bytes_and_is_not_its_input() {
    let input = [7u8; 32];
    let digest = fingerprint(&input, b"");
    assert_eq!(digest.len(), 32);
    assert_ne!(digest, input);
}

#[test]
fn fingerprint_is_the_same_when_computed_twice() {
    let date = b"Tue, 2 Jan 2024 11:30:00 +0000";
    let message_id = b"<two@example.org>";
    assert_eq!(fingerprint(date, message_id), fingerprint(date, message_id));
    let copy_of_date = date.to_vec();
    let copy_of_id = message_id.to_vec();
    assert_eq!(fingerprint(&copy_of_date, &copy_of_id), fingerprint(date, message_id));
}

#[test]
fn fingerprints_differ_for_different_message_ids() {
    let date = b"Mon, 1 Jan 2024 10:00:00 +0000";
    assert_ne!(fingerprint(date, b"<one@example.org>"), fingerprint(date, b"<two@example.org>"));
    assert_ne!(
        fingerprint(b"Mon, 1 Jan 2024 10:00:00 +0000", b"<one@example.org>"),
        fingerprint(b"Tue, 2 Jan 2024 11:30:00 +0000", b"<two@example.org>")
    );
}

#[test]
fn fingerprint_does_not_tell_where_the_date_ends() {
    assert_eq!(fingerprint(b"ab", b"c"), fingerprint(b"a", b"bc"));
}
