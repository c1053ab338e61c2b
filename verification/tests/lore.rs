use patch_hub::actor::Outcome;
use patch_hub::api::lore::{LoreApi, LoreApiMessage, LoreDispatch, LoreError, LoreOperation};
use patch_hub::table::MockTable;
use patch_hub::text::decimal_text;

fn table_of(entries: &[(&str, &str)]) -> MockTable<String> {
    let mut table = MockTable::new();
    for (key, body) in entries {
        table.insert(key.to_string(), body.to_string());
    }
    table
}

fn answer(step: LoreDispatch) -> Result<String, LoreError> {
    match step {
        LoreDispatch::Answer(answer) => answer,
        LoreDispatch::Enqueue(..) => panic!("a mock answers at once"),
    }
}

fn missing(operation: LoreOperation, key: &str) -> Result<String, LoreError> {
    Err(LoreError::NotFound { operation, key: key.to_string() })
}

fn live() -> (LoreApi, tokio::sync::mpsc::Receiver<LoreApiMessage>) {
    let (sender, queue) = tokio::sync::mpsc::channel(8);
    (LoreApi::Actual(sender), queue)
}

#[test]
fn test_mock_with_typed_keys() {
    let mut responses = MockTable::new();
    let test_response = String::from("<feed>test response</feed>");

    responses.insert("patch_feed_test-list_0".to_string(), test_response.clone());

    let lore_api = LoreApi::mock(responses);

    let result = answer(lore_api.get_patch_feed("test-list", 0));
    assert!(result.is_ok());
    assert_eq!(result.unwrap(), test_response);
}

#[test]
fn test_mock_empty() {
    let lore_api = LoreApi::mock_empty();

    let result = answer(lore_api.get_patch_feed("test-list", 0));
    assert!(result.is_err());
}

#[test]
fn empty_mock_names_the_missing_feed_key() {
    let result = answer(LoreApi::mock_empty().get_patch_feed("amd-gfx", 0));
    assert_eq!(result, missing(LoreOperation::PatchFeed, "patch_feed_amd-gfx_0"));
    let error = result.unwrap_err();
    assert_eq!(error.message(), "Patch feed not found in mock responses: patch_feed_amd-gfx_0");
    assert!(error.message().contains("patch_feed_amd-gfx_0"));
}

#[test]
fn mock_returns_the_stored_feed() {
    let api = LoreApi::mock(table_of(&[("patch_feed_amd-gfx_0", "<feed>X</feed>")]));
    assert_eq!(answer(api.get_patch_feed("amd-gfx", 0)), Ok("<feed>X</feed>".to_string()));
}

#[test]
fn mock_keys_of_every_operation() {
    let api = LoreApi::mock(table_of(&[
        ("patch_feed_amd-gfx_200", "feed"),
        ("available_lists_400", "lists"),
        ("patch_html_amd-gfx_id1", "html"),
        ("raw_patch_amd-gfx_id1", "raw"),
        ("patch_metadata_amd-gfx_id1", "meta"),
    ]));
    assert_eq!(answer(api.get_patch_feed("amd-gfx", 200)), Ok("feed".to_string()));
    assert_eq!(answer(api.get_available_lists(400)), Ok("lists".to_string()));
    assert_eq!(answer(api.get_patch_html("amd-gfx", "id1")), Ok("html".to_string()));
    assert_eq!(answer(api.get_raw_patch("amd-gfx", "id1")), Ok("raw".to_string()));
    assert_eq!(answer(api.get_patch_metadata("amd-gfx", "id1")), Ok("meta".to_string()));
}

#[test]
fn empty_mock_misses_every_operation() {
    let api = LoreApi::mock_empty();
    assert_eq!(
        answer(api.get_patch_feed("test-list", 100)),
        missing(LoreOperation::PatchFeed, "patch_feed_test-list_100")
    );
    assert_eq!(
        answer(api.get_available_lists(200)),
        missing(LoreOperation::AvailableLists, "available_lists_200")
    );
    assert_eq!(
        answer(api.get_patch_html("test-list", "test-message-id")),
        missing(LoreOperation::PatchHtml, "patch_html_test-list_test-message-id")
    );
    assert_eq!(
        answer(api.get_raw_patch("test-list", "test-message-id")),
        missing(LoreOperation::RawPatch, "raw_patch_test-list_test-message-id")
    );
    assert_eq!(
        answer(api.get_patch_metadata("test-list", "test-message-id")),
        missing(LoreOperation::PatchMetadata, "patch_metadata_test-list_test-message-id")
    );
}

#[test]
fn same_call_gives_the_same_key_and_answer() {
    let api = LoreApi::mock(table_of(&[("patch_html_amd-gfx_id1", "one")]));
    assert_eq!(
        answer(api.get_patch_html("amd-gfx", "id1")),
        answer(api.get_patch_html("amd-gfx", "id1"))
    );
    assert_eq!(
        answer(api.get_patch_html("amd-gfx", "id2")),
        answer(api.get_patch_html("amd-gfx", "id2"))
    );
    let (live, _queue) = live();
    let first = match live.get_patch_feed("amd-gfx", 7) {
        LoreDispatch::Enqueue(message, _) => message.key(),
        LoreDispatch::Answer(_) => panic!("a live handle enqueues"),
    };
    let second = match live.get_patch_feed("amd-gfx", 7) {
        LoreDispatch::Enqueue(message, _) => message.key(),
        LoreDispatch::Answer(_) => panic!("a live handle enqueues"),
    };
    assert_eq!(first, second);
    assert_eq!(first, "patch_feed_amd-gfx_7");
}

#[test]
fn later_fixture_replaces_the_earlier_one() {
    let api = LoreApi::mock(table_of(&[
        ("available_lists_0", "old"),
        ("available_lists_0", "new"),
    ]));
    assert_eq!(answer(api.get_available_lists(0)), Ok("new".to_string()));
}

#[test]
fn live_handle_enqueues_the_request() {
    let (api, _queue) = live();
    match api.get_patch_feed("amd-gfx", 0) {
        LoreDispatch::Enqueue(LoreApiMessage::GetPatchFeed { target_list, min_index, .. }, _) => {
            assert_eq!(target_list, "amd-gfx");
            assert_eq!(min_index, 0);
        }
        other => panic!("not a feed request: {:?}", other),
    }
    match api.get_available_lists(3) {
        LoreDispatch::Enqueue(LoreApiMessage::GetAvailableLists { min_index, .. }, _) => {
            assert_eq!(min_index, 3);
        }
        other => panic!("not a lists request: {:?}", other),
    }
    match api.get_patch_html("amd-gfx", "id1") {
        LoreDispatch::Enqueue(LoreApiMessage::GetPatchHtml { target_list, message_id, .. }, _) => {
            assert_eq!((target_list.as_str(), message_id.as_str()), ("amd-gfx", "id1"));
        }
        other => panic!("not an html request: {:?}", other),
    }
    match api.get_raw_patch("amd-gfx", "id2") {
        LoreDispatch::Enqueue(LoreApiMessage::GetRawPatch { target_list, message_id, .. }, _) => {
            assert_eq!((target_list.as_str(), message_id.as_str()), ("amd-gfx", "id2"));
        }
        other => panic!("not a raw request: {:?}", other),
    }
    match api.get_patch_metadata("amd-gfx", "id3") {
        LoreDispatch::Enqueue(
            LoreApiMessage::GetPatchMetadata { target_list, message_id, .. },
            _,
        ) => {
            assert_eq!((target_list.as_str(), message_id.as_str()), ("amd-gfx", "id3"));
        }
        other => panic!("not a metadata request: {:?}", other),
    }
}

#[test]
fn live_reply_reaches_the_caller() {
    let (api, _queue) = live();
    match api.get_raw_patch("amd-gfx", "id1") {
        LoreDispatch::Enqueue(message, slot) => {
            assert_eq!(message.reply(Ok("diff".to_string())), None);
            let outcome = Outcome::received(slot.blocking_recv());
            assert_eq!(LoreApi::conclude(outcome), Ok("diff".to_string()));
        }
        other => panic!("not enqueued: {:?}", other),
    }
    match api.get_raw_patch("amd-gfx", "id1") {
        LoreDispatch::Enqueue(message, slot) => {
            assert_eq!(message.reply(Err("status 500".to_string())), None);
            let outcome = Outcome::received(slot.blocking_recv());
            assert_eq!(
                LoreApi::conclude(outcome),
                Err(LoreError::RequestFailed("status 500".to_string()))
            );
        }
        other => panic!("not enqueued: {:?}", other),
    }
}

#[test]
fn reply_to_a_caller_that_left_comes_back() {
    let (api, _queue) = live();
    match api.get_patch_metadata("amd-gfx", "id1") {
        LoreDispatch::Enqueue(message, slot) => {
            drop(slot);
            assert_eq!(message.reply(Ok("{}".to_string())), Some(Ok("{}".to_string())));
        }
        other => panic!("not enqueued: {:?}", other),
    }
}

#[test]
fn dropped_request_leaves_the_caller_without_response() {
    let (api, _queue) = live();
    match api.get_patch_html("amd-gfx", "id1") {
        LoreDispatch::Enqueue(message, slot) => {
            drop(message);
            let outcome = Outcome::received(slot.blocking_recv());
            assert_eq!(outcome, Outcome::SlotAbandoned);
            assert_eq!(LoreApi::conclude(outcome), Err(LoreError::NoResponse));
        }
        other => panic!("not enqueued: {:?}", other),
    }
}

#[test]
fn lore_outcomes_and_their_errors() {
    assert_eq!(LoreApi::conclude(Outcome::QueueClosed), Err(LoreError::ActorUnavailable));
    assert_eq!(LoreApi::conclude(Outcome::SlotAbandoned), Err(LoreError::NoResponse));
    assert_eq!(LoreApi::conclude(Outcome::Replied(Ok("body".to_string()))), Ok("body".to_string()));
    assert_eq!(
        LoreApi::conclude(Outcome::Replied(Err(LoreError::RequestFailed("timeout".to_string())))),
        Err(LoreError::RequestFailed("timeout".to_string()))
    );
}

#[test]
fn lore_error_texts() {
    assert_eq!(LoreError::ActorUnavailable.message(), "Sending message to LoreApi actor");
    assert_eq!(LoreError::NoResponse.message(), "Receiving response from LoreApi actor");
    assert_eq!(LoreError::RequestFailed("status 500".to_string()).message(), "status 500");
    let labels = [
        (LoreOperation::PatchFeed, "Patch feed"),
        (LoreOperation::AvailableLists, "Available lists"),
        (LoreOperation::PatchHtml, "Patch HTML"),
        (LoreOperation::RawPatch, "Raw patch"),
        (LoreOperation::PatchMetadata, "Patch metadata"),
    ];
    for (operation, label) in labels {
        let error = LoreError::NotFound { operation, key: "k".to_string() };
        assert_eq!(error.message(), format!("{} not found in mock responses: k", label));
        assert_eq!(operation.label(), label);
    }
}

#[test]
fn lore_capture_keeps_body_and_cause() {
    assert_eq!(LoreError::capture(Ok("<html>".to_string())), Ok("<html>".to_string()));
    assert_eq!(
        LoreError::capture(Err("connection reset".to_string())),
        Err(LoreError::RequestFailed("connection reset".to_string()))
    );
}

#[test]
fn lore_message_operations_and_prefixes() {
    let (api, _queue) = live();
    match api.get_patch_feed("l", 0) {
        LoreDispatch::Enqueue(message, _) => {
            assert_eq!(message.operation(), LoreOperation::PatchFeed);
            assert_eq!(message.key(), "patch_feed_l_0");
        }
        other => panic!("not enqueued: {:?}", other),
    }
    match api.get_available_lists(12) {
        LoreDispatch::Enqueue(message, _) => {
            assert_eq!(message.operation(), LoreOperation::AvailableLists);
            assert_eq!(message.key(), "available_lists_12");
        }
        other => panic!("not enqueued: {:?}", other),
    }
    assert_eq!(LoreOperation::PatchHtml.key_prefix(), "patch_html_");
    assert_eq!(LoreOperation::RawPatch.key_prefix(), "raw_patch_");
    assert_eq!(LoreOperation::PatchMetadata.key_prefix(), "patch_metadata_");
}

#[test]
fn decimal_numerals() {
    assert_eq!(decimal_text(0), "0");
    assert_eq!(decimal_text(9), "9");
    assert_eq!(decimal_text(10), "10");
    assert_eq!(decimal_text(100), "100");
    assert_eq!(decimal_text(1234567890), "1234567890");
    assert_eq!(decimal_text(usize::MAX), usize::MAX.to_string());
}

#[test]
fn lore_clones_answer_alike() {
    let api = LoreApi::mock(table_of(&[("raw_patch_amd-gfx_id1", "diff")]));
    let other = api.clone();
    assert_eq!(answer(other.get_raw_patch("amd-gfx", "id1")), Ok("diff".to_string()));
    assert_eq!(
        answer(other.get_raw_patch("amd-gfx", "id2")),
        answer(api.get_raw_patch("amd-gfx", "id2"))
    );
}

#[test]
fn keys_with_the_largest_offset() {
    let api = LoreApi::mock_empty();
    assert_eq!(
        answer(api.get_available_lists(usize::MAX)),
        missing(LoreOperation::AvailableLists, &format!("available_lists_{}", usize::MAX))
    );
    assert_eq!(
        answer(api.get_patch_feed("", 10)),
        missing(LoreOperation::PatchFeed, "patch_feed__10")
    );
}
