use mail_relay::address::is_valid_email;

#[test]
fn well_formed_addresses_pass() {
    assert!(is_valid_email("a@x.com"));
    assert!(is_valid_email("first.last+tag@mail-host.co.uk"));
    assert!(is_valid_email("A_1-b@x-1.y"));
    assert!(is_valid_email("a@b.-"));
}

#[test]
fn malformed_addresses_fail() {
    assert!(!is_valid_email(""));
    assert!(!is_valid_email("a@x"));
    assert!(!is_valid_email("@x.com"));
    assert!(!is_valid_email("a@.com"));
    assert!(!is_valid_email("a@x."));
    assert!(!is_valid_email("a b@x.com"));
    assert!(!is_valid_email("a@x.com "));
    assert!(!is_valid_email(" a@x.com"));
    assert!(!is_valid_email("a@x.com\n"));
    assert!(!is_valid_email("a@@x.com"));
    assert!(!is_valid_email("a@x_y.com"));
    assert!(!is_valid_email("^[a-zA-Z0-9_.+-]+@[a-zA-Z0-9-]+\\.[a-zA-Z0-9-.]+$"));
}
