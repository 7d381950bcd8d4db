//! Composition of the message that goes out to one subscriber.

use vstd::prelude::*;

use crate::extract::{ForwardableMessage, MessageView};

verus! {

/// One message to hand to the mail transport: the list's mailbox as sender,
/// one subscriber as recipient.
#[derive(Clone, Debug, PartialEq, Eq)]
pub struct OutboundEmail {
    pub from: String,
    pub to: String,
    pub subject: String,
    pub body: String,
}

pub struct OutboundView {
    pub from: Seq<char>,
    pub to: Seq<char>,
    pub subject: Seq<char>,
    pub body: Seq<char>,
}

impl View for OutboundEmail {
    type V = OutboundView;

    open spec fn view(&self) -> OutboundView {
        OutboundView { from: self.from@, to: self.to@, subject: self.subject@, body: self.body@ }
    }
}

/// The forwarded body: a banner, the received sender, recipient and date,
/// an empty line, and the text.
pub open spec fn composed_body(message: MessageView) -> Seq<char> {
    "---------- Forwarded message ---------\nFrom: "@ + message.from + "\nTo: "@ + message.to
        + "\nSent: "@ + message.date + "\n\n"@ + message.body_text
}

/// The message that goes out to `to_address` on behalf of `from_address`.
/// The subject is the received one, unchanged.
pub open spec fn outbound_spec(
    message: MessageView,
    from_address: Seq<char>,
    to_address: Seq<char>,
) -> OutboundView {
    OutboundView {
        from: from_address,
        to: to_address,
        subject: message.subject,
        body: composed_body(message),
    }
}

/// Writes the body of the forwarded message.
pub fn compose_body(message: &ForwardableMessage) -> (body: String)
    ensures
        body@ == composed_body(message@),
{
    let mut body = String::from_str("---------- Forwarded message ---------\nFrom: ");
    body.append(message.from.as_str());
    body.append("\nTo: ");
    body.append(message.to.as_str());
    body.append("\nSent: ");
    body.append(message.date.as_str());
    body.append("\n\n");
    body.append(message.body_text.as_str());
    body
}

/// Builds the message that goes out to one subscriber.
pub fn outbound(message: &ForwardableMessage, from_address: &str, to_address: &str) -> (email:
    OutboundEmail)
    ensures
        email@ == outbound_spec(message@, from_address@, to_address@),
{
    OutboundEmail {
        from: String::from_str(from_address),
        to: String::from_str(to_address),
        subject: message.subject.clone(),
        body: compose_body(message),
    }
}

} // verus!
