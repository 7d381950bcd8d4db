//! A received message as the relay sees it: decoded headers, the decoded body,
//! and the decoded bodies of the top-level parts.

use vstd::prelude::*;

use crate::models::text_of;

verus! {

/// One header line, name and value both decoded.
#[derive(Debug)]
pub struct Header {
    pub name: String,
    pub value: String,
}

pub struct HeaderView {
    pub name: Seq<char>,
    pub value: Seq<char>,
}

impl View for Header {
    type V = HeaderView;

    open spec fn view(&self) -> HeaderView {
        HeaderView { name: self.name@, value: self.value@ }
    }
}

/// One top-level part of a multipart message. `body` is `None` where the
/// part's content could not be decoded to text.
#[derive(Debug)]
pub struct MimePart {
    pub mimetype: String,
    pub body: Option<String>,
}

pub struct MimePartView {
    pub mimetype: Seq<char>,
    pub body: Option<Seq<char>>,
}

impl View for MimePart {
    type V = MimePartView;

    open spec fn view(&self) -> MimePartView {
        MimePartView { mimetype: self.mimetype@, body: text_of(self.body) }
    }
}

/// A message taken apart. `headers` are in the order of the message; `body` is
/// the content of the message itself, `None` where it could not be decoded;
/// `parts` is empty unless the message is multipart.
#[derive(Debug)]
pub struct MimeMessage {
    pub headers: Vec<Header>,
    pub body: Option<String>,
    pub parts: Vec<MimePart>,
}

pub struct MimeMessageView {
    pub headers: Seq<HeaderView>,
    pub body: Option<Seq<char>>,
    pub parts: Seq<MimePartView>,
}

impl View for MimeMessage {
    type V = MimeMessageView;

    open spec fn view(&self) -> MimeMessageView {
        MimeMessageView {
            headers: self.headers@.map_values(|h: Header| h@),
            body: text_of(self.body),
            parts: self.parts@.map_values(|p: MimePart| p@),
        }
    }
}

/// Two characters that differ at most in the case of an ASCII letter.
pub open spec fn same_letter(a: char, b: char) -> bool {
    ||| a == b
    ||| ('A' <= a <= 'Z' && a as u32 + 32 == b as u32)
    ||| ('A' <= b <= 'Z' && b as u32 + 32 == a as u32)
}

/// Header names are compared without regard to the case of ASCII letters.
pub open spec fn same_name(a: Seq<char>, b: Seq<char>) -> bool {
    &&& a.len() == b.len()
    &&& forall|i: int| 0 <= i < a.len() ==> same_letter(#[trigger] a[i], b[i])
}

/// The value of the first header called `name`, if there is one.
pub open spec fn first_value(headers: Seq<HeaderView>, name: Seq<char>) -> Option<Seq<char>>
    decreases headers.len(),
{
    if headers.len() == 0 {
        None
    } else if same_name(headers[0].name, name) {
        Some(headers[0].value)
    } else {
        first_value(headers.drop_first(), name)
    }
}

/// Whether two characters are the same letter, case of ASCII letters aside.
pub fn letters_match(a: char, b: char) -> (r: bool)
    ensures
        r == same_letter(a, b),
{
    if a == b {
        true
    } else if 'A' <= a && a <= 'Z' {
        a as u32 + 32 == b as u32
    } else if 'A' <= b && b <= 'Z' {
        b as u32 + 32 == a as u32
    } else {
        false
    }
}

/// Whether two header names are the same name.
pub fn names_match(a: &str, b: &str) -> (r: bool)
    ensures
        r == same_name(a@, b@),
{
    let n: usize = a.unicode_len();
    if n != b.unicode_len() {
        return false;
    }
    let mut i: usize = 0;
    while i < n
        invariant
            i <= n,
            n == a@.len(),
            n == b@.len(),
            forall|j: int| 0 <= j < i ==> same_letter(#[trigger] a@[j], b@[j]),
        decreases n - i,
    {
        if !letters_match(a.get_char(i), b.get_char(i)) {
            return false;
        }
        i += 1;
    }
    true
}

/// Looks a header up by name and hands out a copy of the first match's value.
pub fn find_header(headers: &Vec<Header>, name: &str) -> (r: Option<String>)
    ensures
        text_of(r) == first_value(headers@.map_values(|h: Header| h@), name@),
{
    let ghost all = headers@.map_values(|h: Header| h@);
    let mut i: usize = 0;
    assert(all.skip(0) =~= all);
    while i < headers.len()
        invariant
            i <= headers.len(),
            all == headers@.map_values(|h: Header| h@),
            first_value(all, name@) == first_value(all.skip(i as int), name@),
        decreases headers.len() - i,
    {
        assert(all.skip(i as int)[0] == headers@[i as int]@);
        assert(all.skip(i as int).drop_first() =~= all.skip(i + 1));
        if names_match(headers[i].name.as_str(), name) {
            return Some(headers[i].value.clone());
        }
        i += 1;
    }
    assert(all.skip(i as int).len() == 0);
    None
}

} // verus!
