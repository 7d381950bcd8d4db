//! From the raw bytes of a received message to the fields that are forwarded.

use vstd::prelude::*;

use crate::mime::{
    find_header, first_value, Header, MimeMessage, MimeMessageView, MimePart, MimePartView,
};

verus! {

/// What is forwarded of a received message.
#[derive(Clone, Debug, PartialEq, Eq)]
pub struct ForwardableMessage {
    pub from: String,
    pub to: String,
    pub subject: String,
    pub date: String,
    pub body_text: String,
}

pub struct MessageView {
    pub from: Seq<char>,
    pub to: Seq<char>,
    pub subject: Seq<char>,
    pub date: Seq<char>,
    pub body_text: Seq<char>,
}

impl View for ForwardableMessage {
    type V = MessageView;

    open spec fn view(&self) -> MessageView {
        MessageView {
            from: self.from@,
            to: self.to@,
            subject: self.subject@,
            date: self.date@,
            body_text: self.body_text@,
        }
    }
}

/// Why a received message cannot be forwarded.
#[derive(Clone, Copy, Debug, PartialEq, Eq, Structural)]
pub enum ExtractError {
    /// The bytes are not a message at all.
    Unparsable,
    /// The message has no parts and its own content cannot be decoded.
    UndecodableBody,
    MissingFrom,
    MissingTo,
    MissingSubject,
    MissingDate,
}

/// A part whose text is forwarded: plain text that could be decoded.
pub open spec fn is_plain_text(part: MimePartView) -> bool {
    part.mimetype == "text/plain"@ && part.body is Some
}

/// The texts of the forwarded parts, in the order of the parts.
pub open spec fn plain_texts(parts: Seq<MimePartView>) -> Seq<Seq<char>>
    decreases parts.len(),
{
    if parts.len() == 0 {
        Seq::empty()
    } else if is_plain_text(parts.last()) {
        plain_texts(parts.drop_last()).push(parts.last().body->0)
    } else {
        plain_texts(parts.drop_last())
    }
}

/// The texts one after the other, a line feed between each two.
pub open spec fn join_lines(texts: Seq<Seq<char>>) -> Seq<char>
    decreases texts.len(),
{
    if texts.len() == 0 {
        Seq::empty()
    } else if texts.len() == 1 {
        texts[0]
    } else {
        join_lines(texts.drop_last()) + seq!['\n'] + texts.last()
    }
}

/// The text to forward: the message's own content where it has no parts, else
/// the plain-text parts joined. `None` where the message has no parts and its
/// content could not be decoded.
pub open spec fn body_text(message: MimeMessageView) -> Option<Seq<char>> {
    if message.parts.len() == 0 {
        message.body
    } else {
        Some(join_lines(plain_texts(message.parts)))
    }
}

/// What extraction yields. The body is looked at first, then the four
/// headers in the order From, To, Subject, Date; the first thing found
/// wanting decides the error.
pub open spec fn extract_spec(message: MimeMessageView) -> Result<MessageView, ExtractError> {
    let from = first_value(message.headers, "From"@);
    let to = first_value(message.headers, "To"@);
    let subject = first_value(message.headers, "Subject"@);
    let date = first_value(message.headers, "Date"@);
    if body_text(message) is None {
        Err(ExtractError::UndecodableBody)
    } else if from is None {
        Err(ExtractError::MissingFrom)
    } else if to is None {
        Err(ExtractError::MissingTo)
    } else if subject is None {
        Err(ExtractError::MissingSubject)
    } else if date is None {
        Err(ExtractError::MissingDate)
    } else {
        Ok(
            MessageView {
                from: from->0,
                to: to->0,
                subject: subject->0,
                date: date->0,
                body_text: body_text(message)->0,
            },
        )
    }
}

/// The outcome of an extraction, as mathematical values.
pub open spec fn outcome_view(r: Result<ForwardableMessage, ExtractError>) -> Result<
    MessageView,
    ExtractError,
> {
    match r {
        Ok(m) => Ok(m@),
        Err(e) => Err(e),
    }
}

/// Joins the decoded plain-text parts, a line feed between each two.
pub fn join_plain_parts(parts: &Vec<MimePart>) -> (text: String)
    ensures
        text@ == join_lines(plain_texts(parts@.map_values(|p: MimePart| p@))),
{
    let ghost all = parts@.map_values(|p: MimePart| p@);
    let wanted = String::from_str("text/plain");
    let mut text = String::new();
    let mut none_yet = true;
    let mut i: usize = 0;
    assert(all.take(0) =~= Seq::empty());
    while i < parts.len()
        invariant
            i <= parts.len(),
            all == parts@.map_values(|p: MimePart| p@),
            wanted@ == "text/plain"@,
            text@ == join_lines(plain_texts(all.take(i as int))),
            none_yet == (plain_texts(all.take(i as int)).len() == 0),
        decreases parts.len() - i,
    {
        let ghost before = plain_texts(all.take(i as int));
        proof {
            assert(all.take(i + 1).drop_last() =~= all.take(i as int));
            assert(all.take(i + 1).last() == parts@[i as int]@);
        }
        if parts[i].mimetype == wanted {
            if let Some(body) = &parts[i].body {
                proof {
                    reveal_strlit("\n");
                    assert("\n"@ =~= seq!['\n']);
                    assert(before.push(body@).drop_last() =~= before);
                }
                if !none_yet {
                    text.append("\n");
                }
                text.append(body.as_str());
                none_yet = false;
                assert(text@ =~= join_lines(before.push(body@)));
            }
        }
        i += 1;
    }
    assert(all.take(parts.len() as int) =~= all);
    text
}

/// Reduces a message to what is forwarded of it.
///
/// Fails where the message has no parts and its content could not be decoded,
/// and where one of the headers From, To, Subject and Date is absent; nothing
/// is put in an absent header's place.
pub fn extract(message: &MimeMessage) -> (r: Result<ForwardableMessage, ExtractError>)
    ensures
        outcome_view(r) == extract_spec(message@),
{
    let body_text = if message.parts.len() == 0 {
        match &message.body {
            Some(body) => body.clone(),
            None => {
                return Err(ExtractError::UndecodableBody);
            },
        }
    } else {
        join_plain_parts(&message.parts)
    };
    let from = match find_header(&message.headers, "From") {
        Some(value) => value,
        None => {
            return Err(ExtractError::MissingFrom);
        },
    };
    let to = match find_header(&message.headers, "To") {
        Some(value) => value,
        None => {
            return Err(ExtractError::MissingTo);
        },
    };
    let subject = match find_header(&message.headers, "Subject") {
        Some(value) => value,
        None => {
            return Err(ExtractError::MissingSubject);
        },
    };
    let date = match find_header(&message.headers, "Date") {
        Some(value) => value,
        None => {
            return Err(ExtractError::MissingDate);
        },
    };
    Ok(ForwardableMessage { from, to, subject, date, body_text })
}

/// The structure that the MIME parser finds in the bytes of a message: every
/// header decoded, the message's content decoded, and each top-level part's
/// type and decoded content. `None` where the parser finds no message.
pub uninterp spec fn mime_structure(raw: Seq<u8>) -> Option<MimeMessageView>;

/// What decoding handed out, as mathematical values.
pub open spec fn decoded_view(r: Option<MimeMessage>) -> Option<MimeMessageView> {
    match r {
        Some(m) => Some(m@),
        None => None,
    }
}

/// Takes a message apart with `mailparse::parse_mail` and copies out what the
/// parser found: each header through `MailHeader::get_key` and
/// `MailHeader::get_value`, contents through `ParsedMail::get_body`, and each
/// part's `ctype.mimetype`. Content that `get_body` rejects becomes `None`.
///
/// Not proved: that this is the structure of the message. The contract only
/// gives the parser's answer a name, which is sound because the answer
/// depends on the bytes alone.
#[verifier::external_body]
pub(crate) fn decode(raw: &[u8]) -> (r: Option<MimeMessage>)
    ensures
        decoded_view(r) == mime_structure(raw@),
{
    let mail = mailparse::parse_mail(raw).ok()?;
    let headers =
        mail.headers.iter().map(|h| Header { name: h.get_key(), value: h.get_value() }).collect();
    let parts = mail.subparts.iter().map(
        |p| MimePart { mimetype: p.ctype.mimetype.clone(), body: p.get_body().ok() },
    ).collect();
    Some(MimeMessage { headers, body: mail.get_body().ok(), parts })
}

/// What parsing yields for the bytes of a message.
pub open spec fn parse_spec(raw: Seq<u8>) -> Result<MessageView, ExtractError> {
    match mime_structure(raw) {
        Some(message) => extract_spec(message),
        None => Err(ExtractError::Unparsable),
    }
}

/// Parses the bytes of a received message and reduces it to what is
/// forwarded. Fails where the bytes are no message, and where [`extract`]
/// fails on the message found.
pub fn parse(raw: &[u8]) -> (r: Result<ForwardableMessage, ExtractError>)
    ensures
        outcome_view(r) == parse_spec(raw@),
{
    match decode(raw) {
        Some(message) => extract(&message),
        None => Err(ExtractError::Unparsable),
    }
}

} // verus!
