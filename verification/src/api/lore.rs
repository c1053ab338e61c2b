//! The facade for the mail archive: its request protocol, the keys of its
//! mock table, and the handle that answers from the table or hands the
//! request on to the owner task's queue.

use vstd::prelude::*;
use vstd::string::*;
use tokio::sync::oneshot::{channel, Receiver, Sender};
use crate::actor::{left_unread, Outcome};
use crate::table::MockTable;
use crate::text::{decimal, decimal_text};

verus! {

/// The operations of the facade.
#[derive(Debug, Clone, Copy, PartialEq, Eq, Hash, Structural)]
pub enum LoreOperation {
    PatchFeed,
    AvailableLists,
    PatchHtml,
    RawPatch,
    PatchMetadata,
}

/// A request to the facade's owner task: one variant for each operation,
/// with that operation's inputs and the slot that the reply is written to.
#[derive(Debug)]
pub enum LoreApiMessage {
    GetPatchFeed { target_list: String, min_index: usize, tx: Sender<Result<String, LoreError>> },
    GetAvailableLists { min_index: usize, tx: Sender<Result<String, LoreError>> },
    GetPatchHtml { target_list: String, message_id: String, tx: Sender<Result<String, LoreError>> },
    GetRawPatch { target_list: String, message_id: String, tx: Sender<Result<String, LoreError>> },
    GetPatchMetadata {
        target_list: String,
        message_id: String,
        tx: Sender<Result<String, LoreError>>,
    },
}

/// Why a call to the facade failed.
#[derive(Debug, Clone, PartialEq, Eq)]
pub enum LoreError {
    /// The owner task's queue is closed: the request was never accepted.
    ActorUnavailable,
    /// The owner task accepted the request and gave up its reply slot.
    NoResponse,
    /// The operation itself failed; the text is its cause.
    RequestFailed(String),
    /// The mock table holds nothing under the key of this call.
    NotFound { operation: LoreOperation, key: String },
}

/// What a handle does with a call: answer at once, or have a request put
/// on the owner task's queue and the reply awaited at the reading end of
/// the request's slot.
#[derive(Debug)]
pub enum LoreDispatch {
    Answer(Result<String, LoreError>),
    Enqueue(LoreApiMessage, Receiver<Result<String, LoreError>>),
}

/// The handle of the facade: live, in front of an owner task, or a mock
/// that answers from its table.
#[derive(Debug)]
pub enum LoreApi {
    Actual(tokio::sync::mpsc::Sender<LoreApiMessage>),
    Mock(MockTable<String>),
}

/// The word that a key begins with.
pub open spec fn key_prefix(operation: LoreOperation) -> Seq<char> {
    match operation {
        LoreOperation::PatchFeed => "patch_feed_"@,
        LoreOperation::AvailableLists => "available_lists_"@,
        LoreOperation::PatchHtml => "patch_html_"@,
        LoreOperation::RawPatch => "raw_patch_"@,
        LoreOperation::PatchMetadata => "patch_metadata_"@,
    }
}

/// How an operation is called in an error's text.
pub open spec fn label(operation: LoreOperation) -> Seq<char> {
    match operation {
        LoreOperation::PatchFeed => "Patch feed"@,
        LoreOperation::AvailableLists => "Available lists"@,
        LoreOperation::PatchHtml => "Patch HTML"@,
        LoreOperation::RawPatch => "Raw patch"@,
        LoreOperation::PatchMetadata => "Patch metadata"@,
    }
}

/// The key of a call on one list: the operation's prefix, the list's name,
/// an underscore, and the page offset or the message id.
pub open spec fn list_key(operation: LoreOperation, target_list: Seq<char>, item: Seq<char>) -> Seq<char> {
    key_prefix(operation) + target_list + "_"@ + item
}

/// The key of a call for a page of the lists: the prefix and the offset.
pub open spec fn lists_key(min_index: nat) -> Seq<char> {
    key_prefix(LoreOperation::AvailableLists) + decimal(min_index)
}

/// The operation that a request asks for.
pub open spec fn operation_of(message: LoreApiMessage) -> LoreOperation {
    match message {
        LoreApiMessage::GetPatchFeed { .. } => LoreOperation::PatchFeed,
        LoreApiMessage::GetAvailableLists { .. } => LoreOperation::AvailableLists,
        LoreApiMessage::GetPatchHtml { .. } => LoreOperation::PatchHtml,
        LoreApiMessage::GetRawPatch { .. } => LoreOperation::RawPatch,
        LoreApiMessage::GetPatchMetadata { .. } => LoreOperation::PatchMetadata,
    }
}

/// The key under which the mock table holds the reply to a request.
pub open spec fn key_of(message: LoreApiMessage) -> Seq<char> {
    match message {
        LoreApiMessage::GetPatchFeed { target_list, min_index, .. } => list_key(
            LoreOperation::PatchFeed,
            target_list@,
            decimal(min_index as nat),
        ),
        LoreApiMessage::GetAvailableLists { min_index, .. } => lists_key(min_index as nat),
        LoreApiMessage::GetPatchHtml { target_list, message_id, .. } => list_key(
            LoreOperation::PatchHtml,
            target_list@,
            message_id@,
        ),
        LoreApiMessage::GetRawPatch { target_list, message_id, .. } => list_key(
            LoreOperation::RawPatch,
            target_list@,
            message_id@,
        ),
        LoreApiMessage::GetPatchMetadata { target_list, message_id, .. } => list_key(
            LoreOperation::PatchMetadata,
            target_list@,
            message_id@,
        ),
    }
}

/// Whether `answer` is what a mock with this table gives for a key: the
/// stored body, or the error that names the operation and the key.
pub open spec fn answers(
    table: Map<Seq<char>, Seq<char>>,
    operation: LoreOperation,
    key: Seq<char>,
    answer: Result<String, LoreError>,
) -> bool {
    if table.contains_key(key) {
        answer matches Ok(body) && body@ == table[key]
    } else {
        answer matches Err(LoreError::NotFound { operation: missed, key: named })
            && missed == operation && named@ == key
    }
}

/// The reply that stands for the result of a request: the body, or the
/// failure with its cause.
pub open spec fn captured(result: Result<String, String>) -> Result<String, LoreError> {
    match result {
        Ok(body) => Ok(body),
        Err(cause) => Err(LoreError::RequestFailed(cause)),
    }
}

/// The text of an error.
pub open spec fn error_text(error: LoreError) -> Seq<char> {
    match error {
        LoreError::ActorUnavailable => "Sending message to LoreApi actor"@,
        LoreError::NoResponse => "Receiving response from LoreApi actor"@,
        LoreError::RequestFailed(cause) => cause@,
        LoreError::NotFound { operation, key } => label(operation)
            + " not found in mock responses: "@ + key@,
    }
}

/// How a request to a live handle ends for its caller.
pub open spec fn concluded(outcome: Outcome<Result<String, LoreError>>) -> Result<
    String,
    LoreError,
> {
    match outcome {
        Outcome::QueueClosed => Err(LoreError::ActorUnavailable),
        Outcome::SlotAbandoned => Err(LoreError::NoResponse),
        Outcome::Replied(reply) => reply,
    }
}

/// A mock's answer depends on the table, the operation and the key alone:
/// two answers for one key agree.
pub proof fn same_key_same_answer(
    table: Map<Seq<char>, Seq<char>>,
    operation: LoreOperation,
    key: Seq<char>,
    one: Result<String, LoreError>,
    other: Result<String, LoreError>,
)
    requires
        answers(table, operation, key, one),
        answers(table, operation, key, other),
    ensures
        one is Ok <==> other is Ok,
        one is Ok ==> one->Ok_0@ == other->Ok_0@,
        one is Err ==> error_text(one->Err_0) == error_text(other->Err_0),
{
}

/// A fixture stored under a key is the answer for that key, whatever the
/// table held before.
pub proof fn stored_fixture_is_answered(
    table: Map<Seq<char>, Seq<char>>,
    operation: LoreOperation,
    key: Seq<char>,
    body: Seq<char>,
    answer: Result<String, LoreError>,
)
    requires
        answers(table.insert(key, body), operation, key, answer),
    ensures
        answer is Ok,
        answer->Ok_0@ == body,
{
}

/// An empty table answers every key with the error that names the
/// operation and the key, and the error's text ends in the key.
pub proof fn empty_table_misses(
    operation: LoreOperation,
    key: Seq<char>,
    answer: Result<String, LoreError>,
)
    requires
        answers(Map::<Seq<char>, Seq<char>>::empty(), operation, key, answer),
    ensures
        answer matches Err(LoreError::NotFound { operation: missed, key: named }) && missed
            == operation && named@ == key,
        error_text(answer->Err_0) == label(operation) + " not found in mock responses: "@ + key,
{
}

impl LoreOperation {
    /// The word that the operation's keys begin with.
    pub fn key_prefix(&self) -> (r: &'static str)
        ensures
            r@ == key_prefix(*self),
    {
        match self {
            LoreOperation::PatchFeed => "patch_feed_",
            LoreOperation::AvailableLists => "available_lists_",
            LoreOperation::PatchHtml => "patch_html_",
            LoreOperation::RawPatch => "raw_patch_",
            LoreOperation::PatchMetadata => "patch_metadata_",
        }
    }

    /// How the operation is called in an error's text.
    pub fn label(&self) -> (r: &'static str)
        ensures
            r@ == label(*self),
    {
        match self {
            LoreOperation::PatchFeed => "Patch feed",
            LoreOperation::AvailableLists => "Available lists",
            LoreOperation::PatchHtml => "Patch HTML",
            LoreOperation::RawPatch => "Raw patch",
            LoreOperation::PatchMetadata => "Patch metadata",
        }
    }
}

fn key_on_list(operation: LoreOperation, target_list: &str, item: &str) -> (key: String)
    ensures
        key@ == list_key(operation, target_list@, item@),
{
    let mut key = String::from_str(operation.key_prefix());
    key.append(target_list);
    key.append("_");
    key.append(item);
    key
}

impl LoreApiMessage {
    /// The operation that the request asks for.
    pub fn operation(&self) -> (r: LoreOperation)
        ensures
            r == operation_of(*self),
    {
        match self {
            LoreApiMessage::GetPatchFeed { .. } => LoreOperation::PatchFeed,
            LoreApiMessage::GetAvailableLists { .. } => LoreOperation::AvailableLists,
            LoreApiMessage::GetPatchHtml { .. } => LoreOperation::PatchHtml,
            LoreApiMessage::GetRawPatch { .. } => LoreOperation::RawPatch,
            LoreApiMessage::GetPatchMetadata { .. } => LoreOperation::PatchMetadata,
        }
    }

    /// The key under which a mock table holds the reply to the request.
    pub fn key(&self) -> (key: String)
        ensures
            key@ == key_of(*self),
    {
        match self {
            LoreApiMessage::GetPatchFeed { target_list, min_index, .. } => {
                let offset = decimal_text(*min_index);
                key_on_list(LoreOperation::PatchFeed, target_list.as_str(), offset.as_str())
            },
            LoreApiMessage::GetAvailableLists { min_index, .. } => {
                let offset = decimal_text(*min_index);
                String::from_str(LoreOperation::AvailableLists.key_prefix()).concat(offset.as_str())
            },
            LoreApiMessage::GetPatchHtml { target_list, message_id, .. } => key_on_list(
                LoreOperation::PatchHtml,
                target_list.as_str(),
                message_id.as_str(),
            ),
            LoreApiMessage::GetRawPatch { target_list, message_id, .. } => key_on_list(
                LoreOperation::RawPatch,
                target_list.as_str(),
                message_id.as_str(),
            ),
            LoreApiMessage::GetPatchMetadata { target_list, message_id, .. } => key_on_list(
                LoreOperation::PatchMetadata,
                target_list.as_str(),
                message_id.as_str(),
            ),
        }
    }
}

impl LoreApiMessage {
    /// Writes the reply for the finished request into its slot, and uses
    /// the request up: a request gets one reply, a failure as well as a
    /// body. When the caller no longer waits, nothing is written and the
    /// reply comes back.
    pub fn reply(self, result: Result<String, String>) -> (unread: Option<Result<String, LoreError>>)
        ensures
            unread matches Some(reply) ==> reply == captured(result),
    {
        let reply = LoreError::capture(result);
        let tx = self.slot();
        left_unread(tx.send(reply))
    }

    /// Takes the writing end of the reply slot out of the request, which
    /// is used up.
    pub fn slot(self) -> (tx: Sender<Result<String, LoreError>>)
        ensures
            tx == slot_of(self),
    {
        match self {
            LoreApiMessage::GetPatchFeed { tx, .. } => tx,
            LoreApiMessage::GetAvailableLists { tx, .. } => tx,
            LoreApiMessage::GetPatchHtml { tx, .. } => tx,
            LoreApiMessage::GetRawPatch { tx, .. } => tx,
            LoreApiMessage::GetPatchMetadata { tx, .. } => tx,
        }
    }
}

/// The writing end of the slot that the reply to a request goes to.
pub open spec fn slot_of(message: LoreApiMessage) -> Sender<Result<String, LoreError>> {
    match message {
        LoreApiMessage::GetPatchFeed { tx, .. } => tx,
        LoreApiMessage::GetAvailableLists { tx, .. } => tx,
        LoreApiMessage::GetPatchHtml { tx, .. } => tx,
        LoreApiMessage::GetRawPatch { tx, .. } => tx,
        LoreApiMessage::GetPatchMetadata { tx, .. } => tx,
    }
}

impl LoreError {
    /// The text of the error. That of a missing fixture ends in the key
    /// that was looked up.
    pub fn message(&self) -> (r: String)
        ensures
            r@ == error_text(*self),
    {
        match self {
            LoreError::ActorUnavailable => String::from_str("Sending message to LoreApi actor"),
            LoreError::NoResponse => String::from_str("Receiving response from LoreApi actor"),
            LoreError::RequestFailed(cause) => cause.clone(),
            LoreError::NotFound { operation, key } => {
                let mut text = String::from_str(operation.label());
                text.append(" not found in mock responses: ");
                text.append(key.as_str());
                text
            },
        }
    }
}

impl LoreError {
    /// The reply that the owner task writes for a finished request: the
    /// body, or the failure with its cause. A failure is a reply like any
    /// other, so every request gets one.
    pub fn capture(result: Result<String, String>) -> (reply: Result<String, LoreError>)
        ensures
            reply == captured(result),
    {
        match result {
            Ok(body) => Ok(body),
            Err(cause) => Err(LoreError::RequestFailed(cause)),
        }
    }
}

impl Clone for LoreApi {
    /// Another handle to the same owner task, or to a table with the same
    /// mapping: what one clone answers, every clone answers.
    fn clone(&self) -> (other: LoreApi)
        ensures
            match *self {
                LoreApi::Actual(_) => other is Actual,
                LoreApi::Mock(table) => other matches LoreApi::Mock(copy) && copy@ == table@,
            },
    {
        match self {
            LoreApi::Actual(sender) => LoreApi::Actual(sender.clone()),
            LoreApi::Mock(table) => LoreApi::Mock(table.clone()),
        }
    }
}

impl LoreApi {
    /// How a request to a live handle ends for its caller: with the reply,
    /// or with the error of the stage that failed.
    pub fn conclude(outcome: Outcome<Result<String, LoreError>>) -> (r: Result<String, LoreError>)
        ensures
            r == concluded(outcome),
    {
        match outcome {
            Outcome::QueueClosed => Err(LoreError::ActorUnavailable),
            Outcome::SlotAbandoned => Err(LoreError::NoResponse),
            Outcome::Replied(reply) => reply,
        }
    }

    /// A mock handle that answers from `responses`.
    pub fn mock(responses: MockTable<String>) -> (api: LoreApi)
        ensures
            api == LoreApi::Mock(responses),
    {
        LoreApi::Mock(responses)
    }

    /// A mock handle with an empty table: every call misses.
    pub fn mock_empty() -> (api: LoreApi)
        ensures
            api matches LoreApi::Mock(table) && table@ == Map::<Seq<char>, Seq<char>>::empty(),
    {
        LoreApi::Mock(MockTable::new())
    }

    /// The answer of a mock with this table for a key: the body stored
    /// under it, or the error that names the operation and the key.
    fn answer(table: &MockTable<String>, operation: LoreOperation, key: String) -> (answer: Result<
        String,
        LoreError,
    >)
        ensures
            answers(table@, operation, key@, answer),
    {
        match table.lookup(&key) {
            Some(body) => Ok(body),
            None => Err(LoreError::NotFound { operation, key }),
        }
    }

    /// A page of the patch feed of one list, from offset `min_index` on.
    /// A live handle makes a fresh reply slot and has the request
    /// enqueued; a mock answers from its table.
    pub fn get_patch_feed(&self, target_list: &str, min_index: usize) -> (step: LoreDispatch)
        ensures
            match *self {
                LoreApi::Actual(_) => step matches LoreDispatch::Enqueue(
                    LoreApiMessage::GetPatchFeed { target_list: list, min_index: offset, .. },
                    _,
                ) && list@ == target_list@ && offset == min_index,
                LoreApi::Mock(table) => step matches LoreDispatch::Answer(answer) && answers(
                    table@,
                    LoreOperation::PatchFeed,
                    list_key(LoreOperation::PatchFeed, target_list@, decimal(min_index as nat)),
                    answer,
                ),
            },
    {
        match self {
            LoreApi::Actual(_) => {
                let (tx, rx) = channel();
                LoreDispatch::Enqueue(
                    LoreApiMessage::GetPatchFeed {
                        target_list: String::from_str(target_list),
                        min_index,
                        tx,
                    },
                    rx,
                )
            },
            LoreApi::Mock(table) => {
                let offset = decimal_text(min_index);
                let key = key_on_list(LoreOperation::PatchFeed, target_list, offset.as_str());
                LoreDispatch::Answer(LoreApi::answer(table, LoreOperation::PatchFeed, key))
            },
        }
    }

    /// A page of the archive's lists, from offset `min_index` on.
    /// A live handle makes a fresh reply slot and has the request
    /// enqueued; a mock answers from its table.
    pub fn get_available_lists(&self, min_index: usize) -> (step: LoreDispatch)
        ensures
            match *self {
                LoreApi::Actual(_) => step matches LoreDispatch::Enqueue(
                    LoreApiMessage::GetAvailableLists { min_index: offset, .. },
                    _,
                ) && offset == min_index,
                LoreApi::Mock(table) => step matches LoreDispatch::Answer(answer) && answers(
                    table@,
                    LoreOperation::AvailableLists,
                    lists_key(min_index as nat),
                    answer,
                ),
            },
    {
        match self {
            LoreApi::Actual(_) => {
                let (tx, rx) = channel();
                LoreDispatch::Enqueue(LoreApiMessage::GetAvailableLists { min_index, tx }, rx)
            },
            LoreApi::Mock(table) => {
                let offset = decimal_text(min_index);
                let key = String::from_str(LoreOperation::AvailableLists.key_prefix()).concat(
                    offset.as_str(),
                );
                LoreDispatch::Answer(LoreApi::answer(table, LoreOperation::AvailableLists, key))
            },
        }
    }

    /// One patch of a list as a page of HTML.
    /// A live handle makes a fresh reply slot and has the request
    /// enqueued; a mock answers from its table.
    pub fn get_patch_html(&self, target_list: &str, message_id: &str) -> (step: LoreDispatch)
        ensures
            match *self {
                LoreApi::Actual(_) => step matches LoreDispatch::Enqueue(
                    LoreApiMessage::GetPatchHtml { target_list: list, message_id: id, .. },
                    _,
                ) && list@ == target_list@ && id@ == message_id@,
                LoreApi::Mock(table) => step matches LoreDispatch::Answer(answer) && answers(
                    table@,
                    LoreOperation::PatchHtml,
                    list_key(LoreOperation::PatchHtml, target_list@, message_id@),
                    answer,
                ),
            },
    {
        match self {
            LoreApi::Actual(_) => {
                let (tx, rx) = channel();
                LoreDispatch::Enqueue(
                    LoreApiMessage::GetPatchHtml {
                        target_list: String::from_str(target_list),
                        message_id: String::from_str(message_id),
                        tx,
                    },
                    rx,
                )
            },
            LoreApi::Mock(table) => {
                let key = key_on_list(LoreOperation::PatchHtml, target_list, message_id);
                LoreDispatch::Answer(LoreApi::answer(table, LoreOperation::PatchHtml, key))
            },
        }
    }

    /// One patch of a list as plain text.
    /// A live handle makes a fresh reply slot and has the request
    /// enqueued; a mock answers from its table.
    pub fn get_raw_patch(&self, target_list: &str, message_id: &str) -> (step: LoreDispatch)
        ensures
            match *self {
                LoreApi::Actual(_) => step matches LoreDispatch::Enqueue(
                    LoreApiMessage::GetRawPatch { target_list: list, message_id: id, .. },
                    _,
                ) && list@ == target_list@ && id@ == message_id@,
                LoreApi::Mock(table) => step matches LoreDispatch::Answer(answer) && answers(
                    table@,
                    LoreOperation::RawPatch,
                    list_key(LoreOperation::RawPatch, target_list@, message_id@),
                    answer,
                ),
            },
    {
        match self {
            LoreApi::Actual(_) => {
                let (tx, rx) = channel();
                LoreDispatch::Enqueue(
                    LoreApiMessage::GetRawPatch {
                        target_list: String::from_str(target_list),
                        message_id: String::from_str(message_id),
                        tx,
                    },
                    rx,
                )
            },
            LoreApi::Mock(table) => {
                let key = key_on_list(LoreOperation::RawPatch, target_list, message_id);
                LoreDispatch::Answer(LoreApi::answer(table, LoreOperation::RawPatch, key))
            },
        }
    }

    /// The metadata of one patch of a list.
    /// A live handle makes a fresh reply slot and has the request
    /// enqueued; a mock answers from its table.
    pub fn get_patch_metadata(&self, target_list: &str, message_id: &str) -> (step: LoreDispatch)
        ensures
            match *self {
                LoreApi::Actual(_) => step matches LoreDispatch::Enqueue(
                    LoreApiMessage::GetPatchMetadata { target_list: list, message_id: id, .. },
                    _,
                ) && list@ == target_list@ && id@ == message_id@,
                LoreApi::Mock(table) => step matches LoreDispatch::Answer(answer) && answers(
                    table@,
                    LoreOperation::PatchMetadata,
                    list_key(LoreOperation::PatchMetadata, target_list@, message_id@),
                    answer,
                ),
            },
    {
        match self {
            LoreApi::Actual(_) => {
                let (tx, rx) = channel();
                LoreDispatch::Enqueue(
                    LoreApiMessage::GetPatchMetadata {
                        target_list: String::from_str(target_list),
                        message_id: String::from_str(message_id),
                        tx,
                    },
                    rx,
                )
            },
            LoreApi::Mock(table) => {
                let key = key_on_list(LoreOperation::PatchMetadata, target_list, message_id);
                LoreDispatch::Answer(LoreApi::answer(table, LoreOperation::PatchMetadata, key))
            },
        }
    }
}

} // verus!
