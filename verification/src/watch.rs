//! The watcher of one mailing list's mailbox.
//!
//! A watcher never touches the network. It is told what happened, as an
//! [`Event`], and answers with the [`Action`] to perform next; whoever drives
//! it performs the action and comes back with the event that resulted.

use vstd::prelude::*;

use crate::cursor::{is_unseen, newest, newest_id, unseen};
use crate::extract::{parse, parse_spec, ExtractError, ForwardableMessage, MessageView};
use crate::forward::{outbound, outbound_spec, OutboundEmail, OutboundView};
use crate::models::{MailingList, MailingListView, RecordId, User, UserView};

verus! {

/// What a forwarding watcher is waiting for.
#[derive(Clone, Copy, Debug, PartialEq, Eq, Structural)]
pub enum Awaiting {
    /// The record of the list, for its subscribers.
    Subscribers,
    /// The record of the subscriber whose turn it is.
    User,
    /// The outcome of the send to the subscriber whose turn it is.
    Delivery,
}

/// Where a watcher stands in its cycle.
#[derive(Debug, PartialEq, Eq)]
pub enum Phase {
    /// Waiting for the mailbox to change.
    Idling,
    /// Waiting for the listing of the mailbox.
    Diffing,
    /// Waiting for the bytes of message `id`.
    Fetching { id: u32 },
    /// Forwarding message `id` to the subscribers, one after the other;
    /// `next` is the position of the subscriber whose turn it is.
    Forwarding {
        id: u32,
        message: ForwardableMessage,
        subscribers: Vec<RecordId>,
        next: usize,
        awaiting: Awaiting,
    },
    /// The last wait for the mailbox failed; the watcher is waiting again.
    Failed,
}

pub enum PhaseView {
    Idling,
    Diffing,
    Fetching { id: u32 },
    Forwarding {
        id: u32,
        message: MessageView,
        subscribers: Seq<RecordId>,
        next: int,
        awaiting: Awaiting,
    },
    Failed,
}

impl View for Phase {
    type V = PhaseView;

    open spec fn view(&self) -> PhaseView {
        match *self {
            Phase::Idling => PhaseView::Idling,
            Phase::Diffing => PhaseView::Diffing,
            Phase::Fetching { id } => PhaseView::Fetching { id },
            Phase::Forwarding { id, message, subscribers, next, awaiting } => PhaseView::Forwarding {
                id,
                message: message@,
                subscribers: subscribers@,
                next: next as int,
                awaiting,
            },
            Phase::Failed => PhaseView::Failed,
        }
    }
}

/// What the outside world answered.
#[derive(Debug)]
pub enum Event {
    /// The wait ended: the mailbox changed, or the keepalive interval passed.
    Woke,
    /// The identifiers of all messages in the mailbox, in any order.
    Listed(Vec<u32>),
    /// The complete bytes of the message asked for.
    Fetched(Vec<u8>),
    /// The mailbox holds no message under the identifier asked for.
    NotFound,
    /// The mailbox server failed the command.
    ProtocolError,
    /// The record of the list; `None` where it was not found or the lookup
    /// failed.
    ListLoaded(Option<MailingList>),
    /// The record of a subscriber; `None` where it was not found or the
    /// lookup failed.
    UserLoaded(Option<User>),
    /// The send went through.
    Delivered,
    /// The send failed.
    DeliveryFailed,
}

pub enum EventView {
    Woke,
    Listed(Seq<u32>),
    Fetched(Seq<u8>),
    NotFound,
    ProtocolError,
    ListLoaded(Option<MailingListView>),
    UserLoaded(Option<UserView>),
    Delivered,
    DeliveryFailed,
}

impl View for Event {
    type V = EventView;

    open spec fn view(&self) -> EventView {
        match *self {
            Event::Woke => EventView::Woke,
            Event::Listed(ids) => EventView::Listed(ids@),
            Event::Fetched(raw) => EventView::Fetched(raw@),
            Event::NotFound => EventView::NotFound,
            Event::ProtocolError => EventView::ProtocolError,
            Event::ListLoaded(list) => EventView::ListLoaded(
                match list {
                    Some(l) => Some(l@),
                    None => None,
                },
            ),
            Event::UserLoaded(user) => EventView::UserLoaded(
                match user {
                    Some(u) => Some(u@),
                    None => None,
                },
            ),
            Event::Delivered => EventView::Delivered,
            Event::DeliveryFailed => EventView::DeliveryFailed,
        }
    }
}

/// What to do next.
#[derive(Debug, PartialEq, Eq)]
pub enum Action {
    /// Wait for the mailbox to change. Answered by `Woke` or `ProtocolError`.
    Idle,
    /// List all messages of the mailbox. Answered by `Listed` or
    /// `ProtocolError`.
    Search,
    /// Fetch the complete message. Answered by `Fetched`, `NotFound` or
    /// `ProtocolError`.
    Fetch(u32),
    /// Look the list up. Answered by `ListLoaded`.
    LoadList(RecordId),
    /// Look a subscriber up. Answered by `UserLoaded`.
    LoadUser(RecordId),
    /// Send the message. Answered by `Delivered` or `DeliveryFailed`.
    Send(OutboundEmail),
}

pub enum ActionView {
    Idle,
    Search,
    Fetch(u32),
    LoadList(RecordId),
    LoadUser(RecordId),
    Send(OutboundView),
}

impl View for Action {
    type V = ActionView;

    open spec fn view(&self) -> ActionView {
        match *self {
            Action::Idle => ActionView::Idle,
            Action::Search => ActionView::Search,
            Action::Fetch(id) => ActionView::Fetch(id),
            Action::LoadList(id) => ActionView::LoadList(id),
            Action::LoadUser(id) => ActionView::LoadUser(id),
            Action::Send(email) => ActionView::Send(email@),
        }
    }
}

/// Something that went wrong and is worth a line in the log.
#[derive(Clone, Copy, Debug, PartialEq, Eq, Structural)]
pub enum Fault {
    /// The mailbox server failed a command.
    Protocol,
    /// The newest message was gone when it was fetched.
    NotFound,
    /// The newest message cannot be forwarded and is skipped.
    Malformed(ExtractError),
    /// The record of the list could not be had.
    ListUnavailable,
    /// A subscriber has no record, or no address; the subscriber is skipped.
    SubscriberUnresolved,
    /// A send failed; the subscriber goes without.
    SendFailed,
    /// The event answers no action that the watcher asked for.
    OutOfOrder,
}

/// Why a watcher cannot start.
#[derive(Clone, Copy, Debug, PartialEq, Eq, Structural)]
pub enum StartError {
    /// The owner of the list was not found, or the lookup failed.
    OwnerNotFound,
    /// The owner has no address, so the list has no mailbox.
    OwnerHasNoEmail,
    /// The list has no secret for its mailbox.
    MissingCredentials,
    /// The list has no identifier under which to look it up.
    MissingListId,
}

/// The watcher of one list: the mailbox it reads and relays through, the
/// list it serves, the identifier of the message it last handled, and where
/// it stands in its cycle.
#[derive(Debug)]
pub struct Watcher {
    address: String,
    secret: String,
    list: RecordId,
    last_seen: Option<u32>,
    phase: Phase,
}

pub struct WatcherView {
    pub address: Seq<char>,
    pub secret: Seq<char>,
    pub list: RecordId,
    pub last_seen: Option<u32>,
    pub phase: PhaseView,
}

impl View for Watcher {
    type V = WatcherView;

    closed spec fn view(&self) -> WatcherView {
        WatcherView {
            address: self.address@,
            secret: self.secret@,
            list: self.list,
            last_seen: self.last_seen,
            phase: self.phase@,
        }
    }
}

/// The answer of a watcher to an event.
#[derive(Debug)]
pub struct Step {
    /// The watcher after the event.
    pub watcher: Watcher,
    /// What to do next.
    pub action: Action,
    /// What went wrong, if anything did.
    pub report: Option<Fault>,
}

pub struct StepView {
    pub watcher: WatcherView,
    pub action: ActionView,
    pub report: Option<Fault>,
}

impl View for Step {
    type V = StepView;

    open spec fn view(&self) -> StepView {
        StepView { watcher: self.watcher@, action: self.action@, report: self.report }
    }
}

/// A forwarding watcher that knows the subscribers points at one of them;
/// one that does not know them yet has none.
pub open spec fn well_formed(w: WatcherView) -> bool {
    match w.phase {
        PhaseView::Forwarding { subscribers, next, awaiting, .. } => if awaiting
            == Awaiting::Subscribers {
            next == 0 && subscribers.len() == 0
        } else {
            0 <= next < subscribers.len()
        },
        _ => true,
    }
}

/// The address to send to for a subscriber's record: the record's address,
/// where there is a record and its address is not empty.
pub open spec fn deliverable(user: Option<UserView>) -> Option<Seq<char>> {
    match user {
        Some(u) => match u.email {
            Some(address) if address.len() > 0 => Some(address),
            _ => None,
        },
        None => None,
    }
}

/// The subscribers of a list's record; a record without any has none.
pub open spec fn subscribers_of(list: MailingListView) -> Seq<RecordId> {
    match list.subscribers {
        Some(ids) => ids,
        None => Seq::empty(),
    }
}

/// The fault in an event that answers nothing the watcher asked for.
pub open spec fn fault_of(event: EventView) -> Fault {
    if event is ProtocolError {
        Fault::Protocol
    } else {
        Fault::OutOfOrder
    }
}

/// A failed wait: the watcher keeps its cursor and waits again.
pub open spec fn fail(w: WatcherView, fault: Fault) -> StepView {
    StepView {
        watcher: WatcherView { phase: PhaseView::Failed, ..w },
        action: ActionView::Idle,
        report: Some(fault),
    }
}

/// An aborted cycle: the watcher keeps its cursor and goes back to waiting.
pub open spec fn abort(w: WatcherView, fault: Fault) -> StepView {
    StepView {
        watcher: WatcherView { phase: PhaseView::Idling, ..w },
        action: ActionView::Idle,
        report: Some(fault),
    }
}

/// A cycle without anything to do: the watcher goes back to waiting.
pub open spec fn rest(w: WatcherView) -> StepView {
    StepView {
        watcher: WatcherView { phase: PhaseView::Idling, ..w },
        action: ActionView::Idle,
        report: None,
    }
}

/// A completed cycle: the cursor moves to the message handled, and the
/// watcher goes back to waiting.
pub open spec fn complete(w: WatcherView, id: u32, report: Option<Fault>) -> StepView {
    StepView {
        watcher: WatcherView { last_seen: Some(id), phase: PhaseView::Idling, ..w },
        action: ActionView::Idle,
        report,
    }
}

/// The turn of the subscriber at position `k`: their record is asked for.
/// Past the last subscriber the cycle is complete.
pub open spec fn turn(
    w: WatcherView,
    id: u32,
    message: MessageView,
    subscribers: Seq<RecordId>,
    k: int,
    report: Option<Fault>,
) -> StepView {
    if 0 <= k < subscribers.len() {
        StepView {
            watcher: WatcherView {
                phase: PhaseView::Forwarding {
                    id,
                    message,
                    subscribers,
                    next: k,
                    awaiting: Awaiting::User,
                },
                ..w
            },
            action: ActionView::LoadUser(subscribers[k]),
            report,
        }
    } else {
        complete(w, id, report)
    }
}

/// The answer of watcher `w` to the outcome of parsing the message it
/// fetched. A message that parses is forwarded, starting with the lookup of
/// the list. One that does not is skipped for good: the cycle is complete
/// and the cursor moves. A watcher that fetched nothing treats the outcome
/// as an event out of order.
pub open spec fn received(w: WatcherView, outcome: Result<MessageView, ExtractError>) -> StepView {
    match w.phase {
        PhaseView::Fetching { id } => match outcome {
            Ok(message) => StepView {
                watcher: WatcherView {
                    phase: PhaseView::Forwarding {
                        id,
                        message,
                        subscribers: Seq::empty(),
                        next: 0,
                        awaiting: Awaiting::Subscribers,
                    },
                    ..w
                },
                action: ActionView::LoadList(w.list),
                report: None,
            },
            Err(e) => complete(w, id, Some(Fault::Malformed(e))),
        },
        PhaseView::Idling | PhaseView::Failed => fail(w, Fault::OutOfOrder),
        _ => abort(w, Fault::OutOfOrder),
    }
}

/// The answer of watcher `w` to `event`.
///
/// * Waiting (`Idling` or `Failed`): on `Woke` the mailbox is listed; any
///   other event is a failed wait.
/// * `Diffing`: on `Listed`, the newest identifier is compared with the
///   cursor; if there is one and it differs, that message is fetched, else
///   the watcher rests.
/// * `Fetching`: on `Fetched`, the bytes are parsed. A message that parses is
///   forwarded, starting with the lookup of the list. One that does not is
///   skipped for good: the cycle is complete and the cursor moves.
/// * `Forwarding`: the list's record gives the subscribers; each subscriber
///   in turn is looked up and, where the record gives an address, sent the
///   message. A subscriber without address and a failed send are reported,
///   and the next subscriber has their turn. After the last one the cycle
///   is complete. Without the list's record the cycle is aborted.
/// * In a cycle, an event that answers nothing asked for aborts the cycle.
pub open spec fn next_step(w: WatcherView, event: EventView) -> StepView {
    match w.phase {
        PhaseView::Idling | PhaseView::Failed => match event {
            EventView::Woke => StepView {
                watcher: WatcherView { phase: PhaseView::Diffing, ..w },
                action: ActionView::Search,
                report: None,
            },
            _ => fail(w, fault_of(event)),
        },
        PhaseView::Diffing => match event {
            EventView::Listed(ids) => if is_unseen(w.last_seen, newest(ids)) {
                StepView {
                    watcher: WatcherView {
                        phase: PhaseView::Fetching { id: newest(ids)->0 },
                        ..w
                    },
                    action: ActionView::Fetch(newest(ids)->0),
                    report: None,
                }
            } else {
                rest(w)
            },
            _ => abort(w, fault_of(event)),
        },
        PhaseView::Fetching { id } => match event {
            EventView::Fetched(raw) => received(w, parse_spec(raw)),
            EventView::NotFound => abort(w, Fault::NotFound),
            _ => abort(w, fault_of(event)),
        },
        PhaseView::Forwarding { id, message, subscribers, next, awaiting } => match (
            awaiting,
            event,
        ) {
            (Awaiting::Subscribers, EventView::ListLoaded(Some(list))) => turn(
                w,
                id,
                message,
                subscribers_of(list),
                0,
                None,
            ),
            (Awaiting::Subscribers, EventView::ListLoaded(None)) => abort(
                w,
                Fault::ListUnavailable,
            ),
            (Awaiting::User, EventView::UserLoaded(user)) => match deliverable(user) {
                Some(address) => StepView {
                    watcher: WatcherView {
                        phase: PhaseView::Forwarding {
                            id,
                            message,
                            subscribers,
                            next,
                            awaiting: Awaiting::Delivery,
                        },
                        ..w
                    },
                    action: ActionView::Send(outbound_spec(message, w.address, address)),
                    report: None,
                },
                None => turn(
                    w,
                    id,
                    message,
                    subscribers,
                    next + 1,
                    Some(Fault::SubscriberUnresolved),
                ),
            },
            (Awaiting::Delivery, EventView::Delivered) => turn(
                w,
                id,
                message,
                subscribers,
                next + 1,
                None,
            ),
            (Awaiting::Delivery, EventView::DeliveryFailed) => turn(
                w,
                id,
                message,
                subscribers,
                next + 1,
                Some(Fault::SendFailed),
            ),
            _ => abort(w, fault_of(event)),
        },
    }
}

/// What starting a watcher yields.
///
/// The owner's record is needed first, then the owner's address, which is
/// the list's mailbox, then the list's secret, then the list's identifier;
/// the first thing found wanting decides the error. A fresh watcher has
/// handled no message and is waiting.
pub open spec fn start_spec(list: MailingListView, owner: Option<UserView>) -> Result<
    WatcherView,
    StartError,
> {
    if owner is None {
        Err(StartError::OwnerNotFound)
    } else if owner->0.email is None {
        Err(StartError::OwnerHasNoEmail)
    } else if list.smtp_key is None {
        Err(StartError::MissingCredentials)
    } else if list.id is None {
        Err(StartError::MissingListId)
    } else {
        Ok(
            WatcherView {
                address: owner->0.email->0,
                secret: list.smtp_key->0,
                list: list.id->0,
                last_seen: None,
                phase: PhaseView::Idling,
            },
        )
    }
}

/// The outcome of a start, as mathematical values.
pub open spec fn started_view(r: Result<Watcher, StartError>) -> Result<WatcherView, StartError> {
    match r {
        Ok(w) => Ok(w@),
        Err(e) => Err(e),
    }
}

/// The record looked up for the owner or a subscriber, as mathematical
/// values.
pub open spec fn user_view(user: Option<User>) -> Option<UserView> {
    match user {
        Some(u) => Some(u@),
        None => None,
    }
}

/// Picks the address to send to out of a subscriber's record.
pub fn resolve(user: Option<User>) -> (r: Option<String>)
    ensures
        crate::models::text_of(r) == deliverable(user_view(user)),
{
    match user {
        Some(u) => match u.email {
            Some(address) => if address.as_str().unicode_len() > 0 {
                Some(address)
            } else {
                None
            },
            None => None,
        },
        None => None,
    }
}

impl Watcher {
    /// Every watcher is in a state that it can reach.
    #[verifier::type_invariant]
    spec fn reachable(self) -> bool {
        well_formed(self@)
    }

    /// Starts the watcher of `list`, whose owner's record is `owner` (`None`
    /// where it was not found or the lookup failed). The watcher comes out
    /// waiting: the first thing to do with it is [`Action::Idle`].
    pub fn start(list: &MailingList, owner: Option<User>) -> (r: Result<Watcher, StartError>)
        ensures
            started_view(r) == start_spec(list@, user_view(owner)),
            r matches Ok(w) ==> well_formed(w@),
    {
        let owner = match owner {
            Some(user) => user,
            None => {
                return Err(StartError::OwnerNotFound);
            },
        };
        let address = match owner.email {
            Some(address) => address,
            None => {
                return Err(StartError::OwnerHasNoEmail);
            },
        };
        let secret = match &list.smtp_key {
            Some(key) => key.clone(),
            None => {
                return Err(StartError::MissingCredentials);
            },
        };
        let id = match list.id {
            Some(id) => id,
            None => {
                return Err(StartError::MissingListId);
            },
        };
        Ok(Watcher { address, secret, list: id, last_seen: None, phase: Phase::Idling })
    }

    /// The address of the list's mailbox.
    pub fn address(&self) -> (r: &str)
        ensures
            r@ == self@.address,
    {
        self.address.as_str()
    }

    /// The secret of the list's mailbox.
    pub fn secret(&self) -> (r: &str)
        ensures
            r@ == self@.secret,
    {
        self.secret.as_str()
    }

    /// The identifier of the list.
    pub fn list(&self) -> (r: RecordId)
        ensures
            r == self@.list,
    {
        self.list
    }

    /// The identifier of the message last handled, `None` before the first.
    pub fn last_seen(&self) -> (r: Option<u32>)
        ensures
            r == self@.last_seen,
    {
        self.last_seen
    }

    /// Where the watcher stands in its cycle.
    pub fn phase(&self) -> (r: &Phase)
        ensures
            r@ == self@.phase,
    {
        &self.phase
    }

    /// Gives the turn to the subscriber at position `k`, or completes the
    /// cycle past the last one.
    fn turn(
        self,
        id: u32,
        message: ForwardableMessage,
        subscribers: Vec<RecordId>,
        k: usize,
        report: Option<Fault>,
    ) -> (r: Step)
        ensures
            r@ == turn(self@, id, message@, subscribers@, k as int, report),
            well_formed(r.watcher@),
    {
        let Watcher { address, secret, list, last_seen, phase: _ } = self;
        if k < subscribers.len() {
            let action = Action::LoadUser(subscribers[k]);
            let phase = Phase::Forwarding {
                id,
                message,
                subscribers,
                next: k,
                awaiting: Awaiting::User,
            };
            Step { watcher: Watcher { address, secret, list, last_seen, phase }, action, report }
        } else {
            Step {
                watcher: Watcher {
                    address,
                    secret,
                    list,
                    last_seen: Some(id),
                    phase: Phase::Idling,
                },
                action: Action::Idle,
                report,
            }
        }
    }

    /// Goes back to waiting, in phase `phase`, with `report`.
    fn wait(self, phase: Phase, report: Option<Fault>) -> (r: Step)
        requires
            phase is Idling || phase is Failed,
        ensures
            r@ == (StepView {
                watcher: WatcherView { phase: phase@, ..self@ },
                action: ActionView::Idle,
                report,
            }),
            well_formed(r.watcher@),
    {
        let Watcher { address, secret, list, last_seen, phase: _ } = self;
        Step {
            watcher: Watcher { address, secret, list, last_seen, phase },
            action: Action::Idle,
            report,
        }
    }

    /// Answers the outcome of parsing the fetched message: a message is
    /// forwarded, a failure is reported and the message skipped. See
    /// [`received`] for the rules.
    pub fn receive(self, outcome: Result<ForwardableMessage, ExtractError>) -> (r: Step)
        ensures
            r@ == received(self@, crate::extract::outcome_view(outcome)),
            well_formed(r.watcher@),
    {
        let Watcher { address, secret, list, last_seen, phase } = self;
        match phase {
            Phase::Fetching { id } => match outcome {
                Ok(message) => Step {
                    watcher: Watcher {
                        address,
                        secret,
                        list,
                        last_seen,
                        phase: Phase::Forwarding {
                            id,
                            message,
                            subscribers: Vec::new(),
                            next: 0,
                            awaiting: Awaiting::Subscribers,
                        },
                    },
                    action: Action::LoadList(list),
                    report: None,
                },
                Err(e) => Watcher {
                    address,
                    secret,
                    list,
                    last_seen: Some(id),
                    phase: Phase::Idling,
                }.wait(Phase::Idling, Some(Fault::Malformed(e))),
            },
            Phase::Idling | Phase::Failed => Watcher {
                address,
                secret,
                list,
                last_seen,
                phase: Phase::Idling,
            }.wait(Phase::Failed, Some(Fault::OutOfOrder)),
            _ => Watcher { address, secret, list, last_seen, phase: Phase::Idling }.wait(
                Phase::Idling,
                Some(Fault::OutOfOrder),
            ),
        }
    }

    /// Answers an event: the watcher after it, what to do next, and what to
    /// report. See [`next_step`] for the rules.
    pub fn step(self, event: Event) -> (r: Step)
        ensures
            r@ == next_step(self@, event@),
            well_formed(r.watcher@),
    {
        proof {
            use_type_invariant(&self);
        }
        let fault = match &event {
            Event::ProtocolError => Fault::Protocol,
            _ => Fault::OutOfOrder,
        };
        let event = match event {
            Event::Fetched(raw) => {
                return self.receive(parse(raw.as_slice()));
            },
            other => other,
        };
        let Watcher { address, secret, list, last_seen, phase } = self;
        match phase {
            Phase::Idling | Phase::Failed => {
                let watcher = Watcher { address, secret, list, last_seen, phase: Phase::Diffing };
                match event {
                    Event::Woke => Step { watcher, action: Action::Search, report: None },
                    _ => watcher.wait(Phase::Failed, Some(fault)),
                }
            },
            Phase::Diffing => {
                let watcher = Watcher { address, secret, list, last_seen, phase: Phase::Idling };
                match event {
                    Event::Listed(ids) => match unseen(last_seen, newest_id(&ids)) {
                        Some(id) => {
                            let Watcher { address, secret, list, last_seen, phase: _ } = watcher;
                            Step {
                                watcher: Watcher {
                                    address,
                                    secret,
                                    list,
                                    last_seen,
                                    phase: Phase::Fetching { id },
                                },
                                action: Action::Fetch(id),
                                report: None,
                            }
                        },
                        None => watcher.wait(Phase::Idling, None),
                    },
                    _ => watcher.wait(Phase::Idling, Some(fault)),
                }
            },
            Phase::Fetching { id } => {
                let watcher = Watcher { address, secret, list, last_seen, phase: Phase::Idling };
                match event {
                    Event::NotFound => watcher.wait(Phase::Idling, Some(Fault::NotFound)),
                    _ => watcher.wait(Phase::Idling, Some(fault)),
                }
            },
            Phase::Forwarding { id, message, subscribers, next, awaiting } => {
                let count: usize = subscribers.len();
                assert(awaiting != Awaiting::Subscribers ==> next < count);
                let watcher = Watcher { address, secret, list, last_seen, phase: Phase::Idling };
                match (awaiting, event) {
                    (Awaiting::Subscribers, Event::ListLoaded(Some(record))) => {
                        let found = match record.subscribers {
                            Some(ids) => ids,
                            None => Vec::new(),
                        };
                        watcher.turn(id, message, found, 0, None)
                    },
                    (Awaiting::Subscribers, Event::ListLoaded(None)) => watcher.wait(
                        Phase::Idling,
                        Some(Fault::ListUnavailable),
                    ),
                    (Awaiting::User, Event::UserLoaded(user)) => match resolve(user) {
                        Some(to) => {
                            let email = outbound(&message, watcher.address.as_str(), to.as_str());
                            let Watcher { address, secret, list, last_seen, phase: _ } = watcher;
                            Step {
                                watcher: Watcher {
                                    address,
                                    secret,
                                    list,
                                    last_seen,
                                    phase: Phase::Forwarding {
                                        id,
                                        message,
                                        subscribers,
                                        next,
                                        awaiting: Awaiting::Delivery,
                                    },
                                },
                                action: Action::Send(email),
                                report: None,
                            }
                        },
                        None => watcher.turn(
                            id,
                            message,
                            subscribers,
                            next + 1,
                            Some(Fault::SubscriberUnresolved),
                        ),
                    },
                    (Awaiting::Delivery, Event::Delivered) => watcher.turn(
                        id,
                        message,
                        subscribers,
                        next + 1,
                        None,
                    ),
                    (Awaiting::Delivery, Event::DeliveryFailed) => watcher.turn(
                        id,
                        message,
                        subscribers,
                        next + 1,
                        Some(Fault::SendFailed),
                    ),
                    _ => watcher.wait(Phase::Idling, Some(fault)),
                }
            },
        }
    }
}

} // verus!
