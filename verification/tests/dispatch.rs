use tgbot::handler::{
    dispatch_batch, ordered_batch, process_webhook, run_longpoll, webhook_decode, LongPollOptions,
    PollState, PollTransport, TransportError, UpdateHandler,
};
use tgbot::json::JsonValue;
use tgbot::update::{GetUpdates, Update, UpdateError, UpdateType};

fn empty_payload() -> JsonValue {
    JsonValue::Obj(Vec::new())
}

fn message_update(id: i64) -> Update {
    Update::new(id, UpdateType::Message(empty_payload()))
}

/// Records the identifiers of every handled update.
struct Recorder {
    seen: Vec<i64>,
}

impl UpdateHandler for Recorder {
    fn handle(&mut self, update: Update) {
        self.seen.push(update.id);
    }
}

/// Serves scripted batches and records the offset of every fetch.
struct ScriptedTransport {
    batches: Vec<Option<Vec<Update>>>,
    requested_offsets: Vec<Option<i64>>,
    cancel_after: usize,
    cancel_checks: usize,
}

impl PollTransport for ScriptedTransport {
    fn get_updates(&mut self, request: &GetUpdates) -> Result<Vec<Update>, TransportError> {
        self.requested_offsets.push(request.offset);
        if self.batches.is_empty() {
            return Ok(Vec::new());
        }
        match self.batches.remove(0) {
            Some(batch) => Ok(batch),
            None => Err(TransportError { message: String::from("fetch failed") }),
        }
    }

    fn is_cancelled(&mut self) -> bool {
        self.cancel_checks += 1;
        self.cancel_checks > self.cancel_after
    }
}

#[test]
fn offsets_follow_highest_delivered_id() {
    // The scenario of three fetches: a batch of 10 and 11, an empty batch,
    // then a batch of 12; the requested offsets are none, 12, 12, and the
    // handler sees 10, 11, 12 in order.
    let mut transport = ScriptedTransport {
        batches: vec![
            Some(vec![message_update(10), message_update(11)]),
            Some(Vec::new()),
            Some(vec![message_update(12)]),
        ],
        requested_offsets: Vec::new(),
        cancel_after: 3,
        cancel_checks: 0,
    };
    let mut handler = Recorder { seen: Vec::new() };
    let options = LongPollOptions::new(100, 10);
    let state = run_longpoll(&mut transport, &mut handler, &options, 1000);
    assert_eq!(transport.requested_offsets, vec![None, Some(12), Some(12)]);
    assert_eq!(handler.seen, vec![10, 11, 12]);
    assert_eq!(state.next_offset, Some(13));
}

#[test]
fn cancellation_stops_the_loop_without_handling() {
    let mut transport = ScriptedTransport {
        batches: vec![Some(vec![message_update(10)])],
        requested_offsets: Vec::new(),
        cancel_after: 0,
        cancel_checks: 0,
    };
    let mut handler = Recorder { seen: Vec::new() };
    let options = LongPollOptions::new(100, 10);
    let state = run_longpoll(&mut transport, &mut handler, &options, 1000);
    assert_eq!(transport.requested_offsets.len(), 0);
    assert_eq!(handler.seen.len(), 0);
    assert_eq!(state.next_offset, None);
}

#[test]
fn transport_failure_is_retried_not_fatal() {
    let mut transport = ScriptedTransport {
        batches: vec![None, Some(vec![message_update(3)])],
        requested_offsets: Vec::new(),
        cancel_after: 2,
        cancel_checks: 0,
    };
    let mut handler = Recorder { seen: Vec::new() };
    let options = LongPollOptions::new(100, 10);
    let state = run_longpoll(&mut transport, &mut handler, &options, 1000);
    assert_eq!(transport.requested_offsets, vec![None, None]);
    assert_eq!(handler.seen, vec![3]);
    assert_eq!(state.next_offset, Some(4));
}

#[test]
fn empty_batch_leaves_offset_unchanged() {
    let mut state = PollState::new();
    state.apply_batch(&vec![message_update(7)]);
    assert_eq!(state.next_offset, Some(8));
    state.apply_batch(&Vec::new());
    assert_eq!(state.next_offset, Some(8));
}

#[test]
fn batch_offset_is_maximum_plus_one() {
    let mut state = PollState::new();
    state.apply_batch(&vec![message_update(4), message_update(9), message_update(2)]);
    assert_eq!(state.next_offset, Some(10));
}

#[test]
fn batches_are_dispatched_in_ascending_id_order() {
    let shuffled = vec![message_update(3), message_update(1), message_update(2)];
    let ordered = ordered_batch(shuffled);
    let ids: Vec<i64> = ordered.iter().map(|u| u.id).collect();
    assert_eq!(ids, vec![1, 2, 3]);

    let mut handler = Recorder { seen: Vec::new() };
    dispatch_batch(
        &mut handler,
        vec![message_update(11), message_update(10), message_update(12)],
    );
    assert_eq!(handler.seen, vec![10, 11, 12]);
}

#[test]
fn malformed_webhook_body_is_rejected() {
    let mut handler = Recorder { seen: Vec::new() };
    let status = process_webhook(&mut handler, None, None, r#"{"update_id": "not-a-number"}"#);
    assert_eq!(status, 400);
    assert_eq!(handler.seen.len(), 0);

    let status = process_webhook(&mut handler, None, None, "this is not json");
    assert_eq!(status, 400);
    assert_eq!(handler.seen.len(), 0);
}

#[test]
fn unknown_update_shape_is_delivered() {
    let mut handler = Recorder { seen: Vec::new() };
    let status = process_webhook(
        &mut handler,
        None,
        None,
        r#"{"update_id": 5, "some_new_field": {}}"#,
    );
    assert_eq!(status, 200);
    assert_eq!(handler.seen, vec![5]);
}

#[test]
fn webhook_secret_is_checked() {
    let mut handler = Recorder { seen: Vec::new() };
    let body = r#"{"update_id": 5, "message": {}}"#;
    assert_eq!(process_webhook(&mut handler, Some("s3cret"), None, body), 401);
    assert_eq!(process_webhook(&mut handler, Some("s3cret"), Some("wrong"), body), 401);
    assert_eq!(handler.seen.len(), 0);
    assert_eq!(process_webhook(&mut handler, Some("s3cret"), Some("s3cret"), body), 200);
    assert_eq!(process_webhook(&mut handler, None, Some("anything"), body), 200);
    assert_eq!(handler.seen, vec![5, 5]);
}

#[test]
fn webhook_delivers_decoded_update() {
    struct Captures {
        payloads: Vec<String>,
    }
    impl UpdateHandler for Captures {
        fn handle(&mut self, update: Update) {
            if let UpdateType::Unknown(payload) = update.update_type {
                self.payloads.push(tgbot::json::render_json(&payload));
            }
        }
    }
    let mut handler = Captures { payloads: Vec::new() };
    let status = process_webhook(
        &mut handler,
        None,
        None,
        r#"{"update_id": 5, "some_new_field": {"a": 1}}"#,
    );
    assert_eq!(status, 200);
    assert_eq!(handler.payloads, vec![String::from(r#"{"some_new_field":{"a":1}}"#)]);
}

#[test]
fn webhook_decode_names_the_exact_error() {
    assert_eq!(webhook_decode("not json").unwrap_err(), UpdateError::InvalidJson);
    assert_eq!(webhook_decode("[1, 2]").unwrap_err(), UpdateError::NotObject);
    assert_eq!(webhook_decode("{}").unwrap_err(), UpdateError::MissingUpdateId);
    assert_eq!(
        webhook_decode(r#"{"update_id": true}"#).unwrap_err(),
        UpdateError::InvalidUpdateId
    );
    assert_eq!(webhook_decode(r#"{"update_id": 9}"#).unwrap().id, 9);
}

#[test]
fn batch_with_identifier_at_integer_limit_is_skipped() {
    let mut transport = ScriptedTransport {
        batches: vec![Some(vec![message_update(i64::MAX)])],
        requested_offsets: Vec::new(),
        cancel_after: 1,
        cancel_checks: 0,
    };
    let mut handler = Recorder { seen: Vec::new() };
    let options = LongPollOptions::new(100, 10);
    let state = run_longpoll(&mut transport, &mut handler, &options, 1000);
    assert_eq!(handler.seen.len(), 0);
    assert_eq!(state.next_offset, None);
}
