use mail_relay::extract::{extract, join_plain_parts, parse, ExtractError};
use mail_relay::mime::{find_header, letters_match, names_match, Header, MimeMessage, MimePart};

fn header(name: &str, value: &str) -> Header {
    Header { name: name.to_string(), value: value.to_string() }
}

fn part(mimetype: &str, body: Option<&str>) -> MimePart {
    MimePart { mimetype: mimetype.to_string(), body: body.map(|b| b.to_string()) }
}

fn four_headers() -> Vec<Header> {
    vec![
        header("From", "a@x.com"),
        header("To", "b@x.com"),
        header("Subject", "Greetings"),
        header("Date", "Mon, 1 Jan"),
    ]
}

#[test]
fn multipart_keeps_plain_text_only() {
    let message = MimeMessage {
        headers: four_headers(),
        body: Some(String::new()),
        parts: vec![part("text/plain", Some("Hello")), part("text/html", Some("<b>Hello</b>"))],
    };
    let out = extract(&message).unwrap();
    assert_eq!(out.body_text, "Hello");
    assert_eq!(out.from, "a@x.com");
    assert_eq!(out.to, "b@x.com");
    assert_eq!(out.subject, "Greetings");
    assert_eq!(out.date, "Mon, 1 Jan");
}

#[test]
fn multipart_from_bytes_keeps_plain_text_only() {
    let raw = "From: a@x.com\r\n\
        To: b@x.com\r\n\
        Subject: Greetings\r\n\
        Date: Mon, 1 Jan\r\n\
        Content-Type: multipart/alternative; boundary=cut\r\n\
        \r\n\
        --cut\r\n\
        Content-Type: text/plain\r\n\
        \r\n\
        Hello\r\n\
        --cut\r\n\
        Content-Type: text/html\r\n\
        \r\n\
        <b>Hello</b>\r\n\
        --cut--\r\n";
    let out = parse(raw.as_bytes()).unwrap();
    assert_eq!(out.body_text.trim_end(), "Hello");
    assert!(!out.body_text.contains("<b>"));
    assert_eq!(out.subject, "Greetings");
}

#[test]
fn single_part_body_is_the_text() {
    let out = parse(b"From: a@x.com\nTo: b@x.com\nSubject: s\nDate: d\n\nThis is the body").unwrap();
    assert_eq!(out.body_text, "This is the body");
    assert_eq!(out.from, "a@x.com");
    assert_eq!(out.to, "b@x.com");
    assert_eq!(out.subject, "s");
    assert_eq!(out.date, "d");
}

#[test]
fn encoded_header_and_body_are_decoded() {
    let raw = "From: a@x.com\n\
        To: b@x.com\n\
        Subject: =?utf-8?B?aGVsbG8gd29ybGQ=?=\n\
        Date: d\n\
        Content-Transfer-Encoding: base64\n\
        \n\
        aGVsbG8gd29ybGQ=";
    let out = parse(raw.as_bytes()).unwrap();
    assert_eq!(out.subject, "hello world");
    assert_eq!(out.body_text, "hello world");
}

#[test]
fn missing_subject_fails() {
    let message = MimeMessage {
        headers: vec![header("From", "a@x.com"), header("To", "b@x.com"), header("Date", "d")],
        body: Some("hi".to_string()),
        parts: vec![],
    };
    assert_eq!(extract(&message).unwrap_err(), ExtractError::MissingSubject);
    let raw = b"From: a@x.com\nTo: b@x.com\nDate: d\n\nhi";
    assert_eq!(parse(raw).unwrap_err(), ExtractError::MissingSubject);
}

#[test]
fn each_missing_header_has_its_error() {
    let without = |skip: &str| MimeMessage {
        headers: four_headers().into_iter().filter(|h| h.name != skip).collect(),
        body: Some("hi".to_string()),
        parts: vec![],
    };
    assert_eq!(extract(&without("From")).unwrap_err(), ExtractError::MissingFrom);
    assert_eq!(extract(&without("To")).unwrap_err(), ExtractError::MissingTo);
    assert_eq!(extract(&without("Subject")).unwrap_err(), ExtractError::MissingSubject);
    assert_eq!(extract(&without("Date")).unwrap_err(), ExtractError::MissingDate);
}

#[test]
fn first_thing_wanting_decides() {
    let message = MimeMessage { headers: vec![], body: None, parts: vec![] };
    assert_eq!(extract(&message).unwrap_err(), ExtractError::UndecodableBody);
    let message = MimeMessage { headers: vec![], body: Some("x".to_string()), parts: vec![] };
    assert_eq!(extract(&message).unwrap_err(), ExtractError::MissingFrom);
    let message = MimeMessage {
        headers: vec![header("From", "a")],
        body: Some("x".to_string()),
        parts: vec![],
    };
    assert_eq!(extract(&message).unwrap_err(), ExtractError::MissingTo);
}

#[test]
fn undecodable_body_fails() {
    let raw = b"From: a\nTo: b\nSubject: s\nDate: d\nContent-Transfer-Encoding: base64\n\n!!!!";
    assert_eq!(parse(raw).unwrap_err(), ExtractError::UndecodableBody);
}

#[test]
fn undecodable_body_is_ignored_where_there_are_parts() {
    let message = MimeMessage {
        headers: four_headers(),
        body: None,
        parts: vec![part("text/plain", Some("kept"))],
    };
    assert_eq!(extract(&message).unwrap().body_text, "kept");
}

#[test]
fn header_block_that_starts_with_a_space_is_unparsable() {
    let raw = b" From: a@x.com\nTo: b@x.com\nSubject: s\nDate: d\n\nhi";
    assert_eq!(parse(raw).unwrap_err(), ExtractError::Unparsable);
}

#[test]
fn empty_bytes_miss_their_headers() {
    assert_eq!(parse(b"").unwrap_err(), ExtractError::MissingFrom);
}

#[test]
fn plain_parts_are_joined_by_line_feed_in_order() {
    let parts = vec![
        part("text/plain", Some("one")),
        part("text/html", Some("<p>no</p>")),
        part("text/plain", None),
        part("text/plain", Some("two")),
        part("TEXT/PLAIN", Some("no")),
        part("text/plain", Some("three")),
    ];
    assert_eq!(join_plain_parts(&parts), "one\ntwo\nthree");
}

#[test]
fn no_plain_part_gives_empty_text() {
    assert_eq!(join_plain_parts(&vec![part("text/html", Some("<p>x</p>"))]), "");
    assert_eq!(join_plain_parts(&vec![]), "");
    let message = MimeMessage {
        headers: four_headers(),
        body: Some("outer".to_string()),
        parts: vec![part("text/html", Some("<p>x</p>"))],
    };
    assert_eq!(extract(&message).unwrap().body_text, "");
}

#[test]
fn one_plain_part_has_no_line_feed_added() {
    assert_eq!(join_plain_parts(&vec![part("text/plain", Some("only"))]), "only");
}

#[test]
fn header_names_ignore_ascii_case() {
    let headers = vec![header("SUBJECT", "loud"), header("subject", "quiet")];
    assert_eq!(find_header(&headers, "Subject"), Some("loud".to_string()));
    assert_eq!(find_header(&headers, "sUbJeCt"), Some("loud".to_string()));
    assert_eq!(find_header(&headers, "Subjec"), None);
    assert_eq!(find_header(&headers, "Subjects"), None);
    assert_eq!(find_header(&vec![], "Subject"), None);
}

#[test]
fn first_header_of_a_name_wins() {
    let out = parse(b"From: first\nFrom: second\nto: b\nSUBJECT: s\nDate: d\n\nx").unwrap();
    assert_eq!(out.from, "first");
    assert_eq!(out.to, "b");
    assert_eq!(out.subject, "s");
}

#[test]
fn names_match_like_the_standard_comparison() {
    let names = ["From", "FROM", "from", "Fro", "Fr\u{f6}m", "FR\u{d6}M", "@rom", "`rom", "", "To", "tO", "[o", "{o"];
    for a in names {
        for b in names {
            assert_eq!(names_match(a, b), a.eq_ignore_ascii_case(b), "{a:?} {b:?}");
        }
    }
}

#[test]
fn letters_match_like_the_standard_comparison() {
    for a in 0u8..=127 {
        for b in 0u8..=127 {
            let (x, y) = (a as char, b as char);
            assert_eq!(letters_match(x, y), x.eq_ignore_ascii_case(&y));
        }
    }
    assert!(letters_match('\u{e9}', '\u{e9}'));
    assert!(!letters_match('\u{e9}', '\u{c9}'));
}
