//! The records that the relay reads: users and mailing lists.

use vstd::prelude::*;

verus! {

/// Identifier of a stored record: ninety-six bits, the first thirty-two in
/// `high`, the remaining sixty-four in `low`.
#[derive(Clone, Copy, Debug, PartialEq, Eq, Structural, Hash)]
pub struct RecordId {
    pub high: u32,
    pub low: u64,
}

/// A user of the service. Only `email` matters to the relay.
#[derive(Debug)]
pub struct User {
    pub id: Option<RecordId>,
    pub username: String,
    pub email: Option<String>,
    pub password: String,
}

/// What a [`User`] holds, as mathematical values.
pub struct UserView {
    pub id: Option<RecordId>,
    pub username: Seq<char>,
    pub email: Option<Seq<char>>,
    pub password: Seq<char>,
}

/// A mailing list: its owner, who receives its mail, and the secret of the
/// mailbox that the list is read from and relayed through.
#[derive(Debug)]
pub struct MailingList {
    pub id: Option<RecordId>,
    pub list_name: String,
    pub owner: RecordId,
    pub subscribers: Option<Vec<RecordId>>,
    pub smtp_key: Option<String>,
}

/// What a [`MailingList`] holds, as mathematical values.
pub struct MailingListView {
    pub id: Option<RecordId>,
    pub list_name: Seq<char>,
    pub owner: RecordId,
    pub subscribers: Option<Seq<RecordId>>,
    pub smtp_key: Option<Seq<char>>,
}

/// The characters of an optional string.
pub open spec fn text_of(s: Option<String>) -> Option<Seq<char>> {
    match s {
        Some(t) => Some(t@),
        None => None,
    }
}

/// The entries of an optional list of identifiers.
pub open spec fn ids_of(v: Option<Vec<RecordId>>) -> Option<Seq<RecordId>> {
    match v {
        Some(w) => Some(w@),
        None => None,
    }
}

impl View for User {
    type V = UserView;

    open spec fn view(&self) -> UserView {
        UserView {
            id: self.id,
            username: self.username@,
            email: text_of(self.email),
            password: self.password@,
        }
    }
}

impl View for MailingList {
    type V = MailingListView;

    open spec fn view(&self) -> MailingListView {
        MailingListView {
            id: self.id,
            list_name: self.list_name@,
            owner: self.owner,
            subscribers: ids_of(self.subscribers),
            smtp_key: text_of(self.smtp_key),
        }
    }
}

/// Copies an optional string.
pub fn copy_text(s: &Option<String>) -> (copy: Option<String>)
    ensures
        text_of(copy) == text_of(*s),
{
    match s {
        Some(t) => Some(t.clone()),
        None => None,
    }
}

/// Copies a list of identifiers, keeping their order.
pub fn copy_ids(v: &Vec<RecordId>) -> (copy: Vec<RecordId>)
    ensures
        copy@ == v@,
{
    let mut copy: Vec<RecordId> = Vec::new();
    let mut i: usize = 0;
    while i < v.len()
        invariant
            i <= v.len(),
            copy@ == v@.take(i as int),
        decreases v.len() - i,
    {
        copy.push(v[i]);
        i += 1;
        assert(v@.take(i as int) =~= v@.take(i - 1).push(v@[i - 1]));
    }
    assert(v@.take(v.len() as int) =~= v@);
    copy
}

impl Clone for MailingList {
    fn clone(&self) -> (copy: Self)
        ensures
            copy@ == self@,
    {
        let subscribers = match &self.subscribers {
            Some(v) => Some(copy_ids(v)),
            None => None,
        };
        Self {
            id: self.id,
            list_name: self.list_name.clone(),
            owner: self.owner,
            subscribers,
            smtp_key: copy_text(&self.smtp_key),
        }
    }
}

} // verus!
