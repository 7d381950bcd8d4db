use mail_relay::cursor::{newest_id, unseen};

#[test]
fn newest_of_nothing_is_none() {
    assert_eq!(newest_id(&vec![]), None);
}

#[test]
fn newest_is_the_greatest_wherever_it_stands() {
    assert_eq!(newest_id(&vec![7]), Some(7));
    assert_eq!(newest_id(&vec![3, 9, 4]), Some(9));
    assert_eq!(newest_id(&vec![9, 3, 4]), Some(9));
    assert_eq!(newest_id(&vec![3, 4, 9]), Some(9));
    assert_eq!(newest_id(&vec![5, 5, 5]), Some(5));
    assert_eq!(newest_id(&vec![0, u32::MAX, 1]), Some(u32::MAX));
    assert_eq!(newest_id(&vec![0]), Some(0));
}

#[test]
fn unseen_compares_with_the_cursor() {
    assert_eq!(unseen(None, None), None);
    assert_eq!(unseen(Some(4), None), None);
    assert_eq!(unseen(None, Some(4)), Some(4));
    assert_eq!(unseen(Some(4), Some(4)), None);
    assert_eq!(unseen(Some(4), Some(5)), Some(5));
    assert_eq!(unseen(Some(5), Some(4)), Some(4));
}
