use mail_relay::extract::ForwardableMessage;
use mail_relay::forward::{compose_body, outbound};

fn message() -> ForwardableMessage {
    ForwardableMessage {
        from: "a@x.com".to_string(),
        to: "b@x.com".to_string(),
        subject: "Re: plans".to_string(),
        date: "Mon, 1 Jan".to_string(),
        body_text: "hi".to_string(),
    }
}

#[test]
fn composed_body_follows_the_template() {
    assert_eq!(
        compose_body(&message()),
        "---------- Forwarded message ---------\nFrom: a@x.com\nTo: b@x.com\nSent: Mon, 1 Jan\n\nhi"
    );
}

#[test]
fn composed_body_of_empty_fields() {
    let empty = ForwardableMessage {
        from: String::new(),
        to: String::new(),
        subject: String::new(),
        date: String::new(),
        body_text: String::new(),
    };
    assert_eq!(
        compose_body(&empty),
        "---------- Forwarded message ---------\nFrom: \nTo: \nSent: \n\n"
    );
}

#[test]
fn outbound_keeps_subject_and_sets_envelope() {
    let email = outbound(&message(), "list@x.com", "sub@y.org");
    assert_eq!(email.from, "list@x.com");
    assert_eq!(email.to, "sub@y.org");
    assert_eq!(email.subject, "Re: plans");
    assert_eq!(email.body, compose_body(&message()));
}
