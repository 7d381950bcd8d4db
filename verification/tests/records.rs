use mail_relay::models::{copy_ids, copy_text, MailingList, RecordId};

#[test]
fn clone_keeps_every_field() {
    let list = MailingList {
        id: Some(RecordId { high: 1, low: 2 }),
        list_name: "friends".to_string(),
        owner: RecordId { high: 3, low: 4 },
        subscribers: Some(vec![RecordId { high: 5, low: 6 }, RecordId { high: 7, low: 8 }]),
        smtp_key: Some("key".to_string()),
    };
    let copy = list.clone();
    assert_eq!(copy.id, list.id);
    assert_eq!(copy.list_name, "friends");
    assert_eq!(copy.owner, RecordId { high: 3, low: 4 });
    assert_eq!(copy.subscribers, list.subscribers);
    assert_eq!(copy.smtp_key, Some("key".to_string()));
}

#[test]
fn clone_keeps_what_is_absent() {
    let list = MailingList {
        id: None,
        list_name: String::new(),
        owner: RecordId { high: 0, low: 0 },
        subscribers: None,
        smtp_key: None,
    };
    let copy = list.clone();
    assert_eq!(copy.id, None);
    assert_eq!(copy.subscribers, None);
    assert_eq!(copy.smtp_key, None);
}

#[test]
fn copies_are_equal_to_their_source() {
    let ids = vec![RecordId { high: 9, low: 1 }, RecordId { high: 0, low: u64::MAX }];
    assert_eq!(copy_ids(&ids), ids);
    assert_eq!(copy_ids(&vec![]), vec![]);
    assert_eq!(copy_text(&Some("x".to_string())), Some("x".to_string()));
    assert_eq!(copy_text(&None), None);
}
