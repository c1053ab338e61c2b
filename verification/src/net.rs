//! The transport layer: its request protocol, the keys of its mock table,
//! and the handle that answers from the table or hands the request on to
//! the owner task's queue.

use vstd::prelude::*;
use vstd::string::*;
use tokio::sync::oneshot::{channel, Receiver, Sender};
use crate::actor::{left_unread, Outcome};
use crate::table::{MockTable, TableKey};

verus! {

/// The verbs of the transport layer.
#[derive(Debug, Clone, Copy, PartialEq, Eq, Hash, Structural)]
pub enum Verb {
    Get,
    Post,
    Put,
    Delete,
    Patch,
}

/// The key of a canned response: the verb and the address.
#[derive(Debug, Clone, PartialEq, Eq, Hash)]
pub struct MockRequestKey {
    pub method: Verb,
    pub url: String,
}

impl View for MockRequestKey {
    type V = (Verb, Seq<char>);

    open spec fn view(&self) -> (Verb, Seq<char>) {
        (self.method, self.url@)
    }
}

impl TableKey for MockRequestKey {
    fn same_key(&self, other: &MockRequestKey) -> (r: bool) {
        self.method == other.method && self.url == other.url
    }

    fn duplicate(&self) -> (r: MockRequestKey) {
        MockRequestKey { method: self.method, url: self.url.clone() }
    }
}

/// One header of a request.
#[derive(Debug, Clone, PartialEq, Eq)]
pub struct Header {
    pub name: String,
    pub value: String,
}

/// A request to the transport's owner task: one variant for each verb,
/// with that verb's inputs and the slot that the reply is written to.
#[derive(Debug)]
pub enum Message {
    Get { url: String, headers: Option<Vec<Header>>, tx: Sender<Result<String, NetError>> },
    Post {
        url: String,
        headers: Option<Vec<Header>>,
        body: Option<String>,
        tx: Sender<Result<String, NetError>>,
    },
    Put {
        url: String,
        headers: Option<Vec<Header>>,
        body: Option<String>,
        tx: Sender<Result<String, NetError>>,
    },
    Delete { url: String, headers: Option<Vec<Header>>, tx: Sender<Result<String, NetError>> },
    Patch {
        url: String,
        headers: Option<Vec<Header>>,
        body: Option<String>,
        tx: Sender<Result<String, NetError>>,
    },
}

/// Why a call to the transport layer failed.
#[derive(Debug, Clone, PartialEq, Eq)]
pub enum NetError {
    /// The owner task's queue is closed: the request was never accepted.
    ActorUnavailable,
    /// The owner task accepted the request and gave up its reply slot.
    NoResponse,
    /// The request itself failed; the text is its cause.
    RequestFailed(String),
    /// The mock table holds nothing under the key of this call.
    NotFound(MockRequestKey),
}

/// What a handle does with a call: answer at once, or have a request put
/// on the owner task's queue and the reply awaited at the reading end of
/// the request's slot.
#[derive(Debug)]
pub enum NetDispatch {
    Answer(Result<String, NetError>),
    Enqueue(Message, Receiver<Result<String, NetError>>),
}

/// The handle of the transport layer: live, in front of an owner task, or
/// a mock that answers from its table.
#[derive(Debug)]
pub enum Net {
    Actual(tokio::sync::mpsc::Sender<Message>),
    Mock(MockTable<MockRequestKey>),
}

/// The verb as it is written.
pub open spec fn verb_name(verb: Verb) -> Seq<char> {
    match verb {
        Verb::Get => "GET"@,
        Verb::Post => "POST"@,
        Verb::Put => "PUT"@,
        Verb::Delete => "DELETE"@,
        Verb::Patch => "PATCH"@,
    }
}

/// The verb of a request.
pub open spec fn verb_of(message: Message) -> Verb {
    match message {
        Message::Get { .. } => Verb::Get,
        Message::Post { .. } => Verb::Post,
        Message::Put { .. } => Verb::Put,
        Message::Delete { .. } => Verb::Delete,
        Message::Patch { .. } => Verb::Patch,
    }
}

/// The address of a request.
pub open spec fn url_of(message: Message) -> String {
    match message {
        Message::Get { url, .. } => url,
        Message::Post { url, .. } => url,
        Message::Put { url, .. } => url,
        Message::Delete { url, .. } => url,
        Message::Patch { url, .. } => url,
    }
}

/// The headers of a request.
pub open spec fn headers_of(message: Message) -> Option<Vec<Header>> {
    match message {
        Message::Get { headers, .. } => headers,
        Message::Post { headers, .. } => headers,
        Message::Put { headers, .. } => headers,
        Message::Delete { headers, .. } => headers,
        Message::Patch { headers, .. } => headers,
    }
}

/// The body of a request; a GET and a DELETE have none.
pub open spec fn body_of(message: Message) -> Option<String> {
    match message {
        Message::Get { .. } => None,
        Message::Post { body, .. } => body,
        Message::Put { body, .. } => body,
        Message::Delete { .. } => None,
        Message::Patch { body, .. } => body,
    }
}

/// The key under which the mock table holds the reply to a request: its
/// verb and its address. Headers and body play no part.
pub open spec fn key_of(message: Message) -> (Verb, Seq<char>) {
    (verb_of(message), url_of(message)@)
}

/// Whether `answer` is what a mock with this table gives for a key: the
/// stored body, or the error that carries the key.
pub open spec fn answers(
    table: Map<(Verb, Seq<char>), Seq<char>>,
    key: (Verb, Seq<char>),
    answer: Result<String, NetError>,
) -> bool {
    if table.contains_key(key) {
        answer matches Ok(body) && body@ == table[key]
    } else {
        answer matches Err(NetError::NotFound(named)) && named@ == key
    }
}

/// Whether `step` is what a handle does with a call: a live handle has a
/// request with the call's inputs enqueued, a mock answers from its table
/// under the key of verb and address.
pub open spec fn dispatches(
    net: Net,
    verb: Verb,
    url: String,
    headers: Option<Vec<Header>>,
    body: Option<String>,
    step: NetDispatch,
) -> bool {
    match net {
        Net::Actual(_) => step matches NetDispatch::Enqueue(message, _) && verb_of(message) == verb
            && url_of(message) == url && headers_of(message) == headers && body_of(message)
            == body,
        Net::Mock(table) => step matches NetDispatch::Answer(answer) && answers(
            table@,
            (verb, url@),
            answer,
        ),
    }
}

/// The reply that stands for the result of a request: the body, or the
/// failure with its cause.
pub open spec fn captured(result: Result<String, String>) -> Result<String, NetError> {
    match result {
        Ok(body) => Ok(body),
        Err(cause) => Err(NetError::RequestFailed(cause)),
    }
}

/// The text of an error.
pub open spec fn error_text(error: NetError) -> Seq<char> {
    match error {
        NetError::ActorUnavailable => "Sending message to Net actor"@,
        NetError::NoResponse => "Receiving response from Net actor"@,
        NetError::RequestFailed(cause) => cause@,
        NetError::NotFound(key) => verb_name(key.method)
            + " request not found in mock responses: "@ + key.url@,
    }
}

/// How a request to a live handle ends for its caller.
pub open spec fn concluded(outcome: Outcome<Result<String, NetError>>) -> Result<String, NetError> {
    match outcome {
        Outcome::QueueClosed => Err(NetError::ActorUnavailable),
        Outcome::SlotAbandoned => Err(NetError::NoResponse),
        Outcome::Replied(reply) => reply,
    }
}

/// A mock's answer depends on the table and the key alone: two answers
/// for one key agree.
pub proof fn same_key_same_answer(
    table: Map<(Verb, Seq<char>), Seq<char>>,
    key: (Verb, Seq<char>),
    one: Result<String, NetError>,
    other: Result<String, NetError>,
)
    requires
        answers(table, key, one),
        answers(table, key, other),
    ensures
        one is Ok <==> other is Ok,
        one is Ok ==> one->Ok_0@ == other->Ok_0@,
        one is Err ==> error_text(one->Err_0) == error_text(other->Err_0),
{
}

/// A fixture stored under a key is the answer for that key, whatever the
/// table held before.
pub proof fn stored_fixture_is_answered(
    table: Map<(Verb, Seq<char>), Seq<char>>,
    key: (Verb, Seq<char>),
    body: Seq<char>,
    answer: Result<String, NetError>,
)
    requires
        answers(table.insert(key, body), key, answer),
    ensures
        answer is Ok,
        answer->Ok_0@ == body,
{
}

/// An empty table answers every key with the error that carries the key,
/// and the error's text ends in the address.
pub proof fn empty_table_misses(key: (Verb, Seq<char>), answer: Result<String, NetError>)
    requires
        answers(Map::<(Verb, Seq<char>), Seq<char>>::empty(), key, answer),
    ensures
        answer matches Err(NetError::NotFound(named)) && named@ == key,
        error_text(answer->Err_0) == verb_name(key.0) + " request not found in mock responses: "@
            + key.1,
{
}

impl Verb {
    /// The verb as it is written, in capitals.
    pub fn name(&self) -> (r: &'static str)
        ensures
            r@ == verb_name(*self),
    {
        match self {
            Verb::Get => "GET",
            Verb::Post => "POST",
            Verb::Put => "PUT",
            Verb::Delete => "DELETE",
            Verb::Patch => "PATCH",
        }
    }
}

impl MockRequestKey {
    /// The key of a GET of `url`.
    pub fn get(url: String) -> (key: MockRequestKey)
        ensures
            key == (MockRequestKey { method: Verb::Get, url }),
    {
        MockRequestKey { method: Verb::Get, url }
    }

    /// The key of a POST to `url`.
    pub fn post(url: String) -> (key: MockRequestKey)
        ensures
            key == (MockRequestKey { method: Verb::Post, url }),
    {
        MockRequestKey { method: Verb::Post, url }
    }

    /// The key of a PUT to `url`.
    pub fn put(url: String) -> (key: MockRequestKey)
        ensures
            key == (MockRequestKey { method: Verb::Put, url }),
    {
        MockRequestKey { method: Verb::Put, url }
    }

    /// The key of a DELETE of `url`.
    pub fn delete(url: String) -> (key: MockRequestKey)
        ensures
            key == (MockRequestKey { method: Verb::Delete, url }),
    {
        MockRequestKey { method: Verb::Delete, url }
    }

    /// The key of a PATCH to `url`.
    pub fn patch(url: String) -> (key: MockRequestKey)
        ensures
            key == (MockRequestKey { method: Verb::Patch, url }),
    {
        MockRequestKey { method: Verb::Patch, url }
    }
}

impl Message {
    /// The key under which a mock table holds the reply to the request.
    pub fn key(&self) -> (key: MockRequestKey)
        ensures
            key@ == key_of(*self),
    {
        match self {
            Message::Get { url, .. } => MockRequestKey::get(url.clone()),
            Message::Post { url, .. } => MockRequestKey::post(url.clone()),
            Message::Put { url, .. } => MockRequestKey::put(url.clone()),
            Message::Delete { url, .. } => MockRequestKey::delete(url.clone()),
            Message::Patch { url, .. } => MockRequestKey::patch(url.clone()),
        }
    }

    /// Writes the reply for the finished request into its slot, and uses
    /// the request up: a request gets one reply, a failure as well as a
    /// body. When the caller no longer waits, nothing is written and the
    /// reply comes back.
    pub fn reply(self, result: Result<String, String>) -> (unread: Option<Result<String, NetError>>)
        ensures
            unread matches Some(reply) ==> reply == captured(result),
    {
        let reply = NetError::capture(result);
        let tx = self.slot();
        left_unread(tx.send(reply))
    }

    /// Takes the writing end of the reply slot out of the request, which
    /// is used up.
    pub fn slot(self) -> (tx: Sender<Result<String, NetError>>)
        ensures
            tx == slot_of(self),
    {
        match self {
            Message::Get { tx, .. } => tx,
            Message::Post { tx, .. } => tx,
            Message::Put { tx, .. } => tx,
            Message::Delete { tx, .. } => tx,
            Message::Patch { tx, .. } => tx,
        }
    }
}

/// The writing end of the slot that the reply to a request goes to.
pub open spec fn slot_of(message: Message) -> Sender<Result<String, NetError>> {
    match message {
        Message::Get { tx, .. } => tx,
        Message::Post { tx, .. } => tx,
        Message::Put { tx, .. } => tx,
        Message::Delete { tx, .. } => tx,
        Message::Patch { tx, .. } => tx,
    }
}

impl NetError {
    /// The text of the error. That of a missing fixture ends in the
    /// address that was looked up.
    pub fn message(&self) -> (r: String)
        ensures
            r@ == error_text(*self),
    {
        match self {
            NetError::ActorUnavailable => String::from_str("Sending message to Net actor"),
            NetError::NoResponse => String::from_str("Receiving response from Net actor"),
            NetError::RequestFailed(cause) => cause.clone(),
            NetError::NotFound(key) => {
                let mut text = String::from_str(key.method.name());
                text.append(" request not found in mock responses: ");
                text.append(key.url.as_str());
                text
            },
        }
    }

    /// The reply that the owner task writes for a finished request: the
    /// body, or the failure with its cause. A failure is a reply like any
    /// other, so every request gets one.
    pub fn capture(result: Result<String, String>) -> (reply: Result<String, NetError>)
        ensures
            reply == captured(result),
    {
        match result {
            Ok(body) => Ok(body),
            Err(cause) => Err(NetError::RequestFailed(cause)),
        }
    }
}

impl Clone for Net {
    /// Another handle to the same owner task, or to a table with the same
    /// mapping: what one clone answers, every clone answers.
    fn clone(&self) -> (other: Net)
        ensures
            match *self {
                Net::Actual(_) => other is Actual,
                Net::Mock(table) => other matches Net::Mock(copy) && copy@ == table@,
            },
    {
        match self {
            Net::Actual(sender) => Net::Actual(sender.clone()),
            Net::Mock(table) => Net::Mock(table.clone()),
        }
    }
}

impl Net {
    /// A mock handle that answers from `responses`.
    pub fn mock(responses: MockTable<MockRequestKey>) -> (net: Net)
        ensures
            net == Net::Mock(responses),
    {
        Net::Mock(responses)
    }

    /// A mock handle with an empty table: every call misses.
    pub fn mock_empty() -> (net: Net)
        ensures
            net matches Net::Mock(table) && table@ == Map::<(Verb, Seq<char>), Seq<char>>::empty(),
    {
        Net::Mock(MockTable::new())
    }

    /// What the handle does with a call. A live handle makes a fresh reply
    /// slot and has the request enqueued; a mock answers with the body
    /// stored under the call's key, or with the error that carries the key.
    fn dispatch(
        &self,
        verb: Verb,
        url: String,
        headers: Option<Vec<Header>>,
        body: Option<String>,
    ) -> (step: NetDispatch)
        ensures
            dispatches(*self, verb, url, headers, if verb == Verb::Get || verb == Verb::Delete {
                None
            } else {
                body
            }, step),
    {
        match self {
            Net::Actual(_) => {
                let (tx, rx) = channel();
                let message = match verb {
                    Verb::Get => Message::Get { url, headers, tx },
                    Verb::Post => Message::Post { url, headers, body, tx },
                    Verb::Put => Message::Put { url, headers, body, tx },
                    Verb::Delete => Message::Delete { url, headers, tx },
                    Verb::Patch => Message::Patch { url, headers, body, tx },
                };
                NetDispatch::Enqueue(message, rx)
            },
            Net::Mock(table) => {
                let key = MockRequestKey { method: verb, url };
                match table.lookup(&key) {
                    Some(body) => NetDispatch::Answer(Ok(body)),
                    None => NetDispatch::Answer(Err(NetError::NotFound(key))),
                }
            },
        }
    }

    /// How a request to a live handle ends for its caller: with the reply,
    /// or with the error of the stage that failed.
    pub fn conclude(outcome: Outcome<Result<String, NetError>>) -> (r: Result<String, NetError>)
        ensures
            r == concluded(outcome),
    {
        match outcome {
            Outcome::QueueClosed => Err(NetError::ActorUnavailable),
            Outcome::SlotAbandoned => Err(NetError::NoResponse),
            Outcome::Replied(reply) => reply,
        }
    }

    /// A GET of `url`.
    pub fn get(&self, url: String, headers: Option<Vec<Header>>) -> (step: NetDispatch)
        ensures
            dispatches(*self, Verb::Get, url, headers, None, step),
    {
        self.dispatch(Verb::Get, url, headers, None)
    }

    /// A POST to `url`.
    pub fn post(&self, url: String, headers: Option<Vec<Header>>, body: Option<String>) -> (step:
        NetDispatch)
        ensures
            dispatches(*self, Verb::Post, url, headers, body, step),
    {
        self.dispatch(Verb::Post, url, headers, body)
    }

    /// A PUT to `url`.
    pub fn put(&self, url: String, headers: Option<Vec<Header>>, body: Option<String>) -> (step:
        NetDispatch)
        ensures
            dispatches(*self, Verb::Put, url, headers, body, step),
    {
        self.dispatch(Verb::Put, url, headers, body)
    }

    /// A DELETE of `url`.
    pub fn delete(&self, url: String, headers: Option<Vec<Header>>) -> (step: NetDispatch)
        ensures
            dispatches(*self, Verb::Delete, url, headers, None, step),
    {
        self.dispatch(Verb::Delete, url, headers, None)
    }

    /// A PATCH to `url`.
    pub fn patch(&self, url: String, headers: Option<Vec<Header>>, body: Option<String>) -> (step:
        NetDispatch)
        ensures
            dispatches(*self, Verb::Patch, url, headers, body, step),
    {
        self.dispatch(Verb::Patch, url, headers, body)
    }
}

} // verus!
