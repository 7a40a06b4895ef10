use imapdump::uid_set;

#[test]
fn uid_set_of_no_uid_is_empty() {
    assert_eq!(uid_set(&[]), "");
}

#[test]
fn uid_set_of_one_uid_has_no_comma() {
    assert_eq!(uid_set(&[7]), "7");
    assert_eq!(uid_set(&[0]), "0");
    assert_eq!(uid_set(&[10]), "10");
}

#[test]
fn uid_set_joins_uids_with_commas_in_the_order_given() {
    assert_eq!(uid_set(&[1, 2]), "1,2");
    assert_eq!(uid_set(&[1, 2, 30]), "1,2,30");
    assert_eq!(uid_set(&[30, 2, 1]), "30,2,1");
    assert_eq!(uid_set(&[100, 1009, 90]), "100,1009,90");
}

#[test]
fn uid_set_writes_the_largest_uid() {
    assert_eq!(uid_set(&[4294967295]), "4294967295");
    assert_eq!(uid_set(&[4294967295, 0]), "4294967295,0");
}

#[test]
fn uid_set_agrees_with_the_standard_formatting() {
    let uids: Vec<u32> = vec![5, 50, 500, 5000, 50000, 123456789, 1000000000];
    let expected = uids.iter().map(|uid| uid.to_string()).collect::<Vec<String>>().join(",");
    assert_eq!(uid_set(&uids), expected);
}

#[test]
fn uid_set_holds_only_digits_and_commas() {
    let text = uid_set(&[12, 0, 907, 4294967295]);
    assert!(!text.is_empty());
    assert!(text.chars().all(|c| c == ',' || c.is_ascii_digit()));
}
