use para_memos::category::Category;
use para_memos::clock::wav_file_name;
use para_memos::errors::MemoError;
use para_memos::recording::Recording;
use para_memos::session::RecordingSession;
use para_memos::store::MetadataStore;

fn plain_recording(id: &str) -> Recording {
    Recording {
        id: id.to_string(),
        file_path: format!("{}.wav", id),
        timestamp_millis: 1_700_000_000_000,
        duration_millis: 1_500,
        transcript: None,
        summary: None,
        category: None,
    }
}

#[test]
fn second_start_fails_with_already_recording() {
    let mut session = RecordingSession::new();
    assert!(session.start().is_ok());
    assert_eq!(session.start(), Err(MemoError::AlreadyRecording));
    // after a stop, starting is allowed again
    assert!(session.stop().is_ok());
    assert!(session.start().is_ok());
}

#[test]
fn stop_without_start_fails_with_not_recording() {
    let mut session = RecordingSession::new();
    match session.stop() {
        Err(e) => assert_eq!(e, MemoError::NotRecording),
        Ok(_) => panic!("stop on an idle session must fail"),
    }
    // still idle: a second stop fails the same way
    match session.stop() {
        Err(e) => assert_eq!(e, MemoError::NotRecording),
        Ok(_) => panic!("stop on an idle session must fail"),
    }
}

#[test]
fn stop_yields_well_formed_recording() {
    let mut session = RecordingSession::new();
    session.start().unwrap();
    let rec = session.stop().unwrap();
    assert_eq!(rec.id.len(), 36);
    assert!(!rec.file_path.is_empty());
    assert!(rec.file_path.starts_with("recording_"));
    assert!(rec.file_path.ends_with(".wav"));
    assert!(rec.transcript.is_none());
    assert!(rec.summary.is_none());
    assert!(rec.category.is_none());
}

#[test]
fn immediate_stop_has_near_zero_duration() {
    let mut session = RecordingSession::new();
    session.start().unwrap();
    let rec = session.stop().unwrap();
    // duration is non-negative by type; an immediate stop stays tiny
    assert!(rec.duration_millis < 10_000);
}

#[test]
fn distinct_stops_yield_distinct_ids() {
    let mut session = RecordingSession::new();
    session.start().unwrap();
    let first = session.stop().unwrap();
    session.start().unwrap();
    let second = session.stop().unwrap();
    assert_ne!(first.id, second.id);
}

#[test]
fn wav_file_name_is_deterministic() {
    assert_eq!(wav_file_name(0), "recording_19700101_000000.wav");
    // one known instant: 2000-01-12 01:02:03.004 UTC
    assert_eq!(wav_file_name(947_638_923_004), "recording_20000112_010203.wav");
    assert_eq!(wav_file_name(5), wav_file_name(5));
}

#[test]
fn create_then_get_round_trips_all_fields() {
    let mut store = MetadataStore::new();
    let mut rec = plain_recording("memo-1");
    rec.transcript = Some("a transcript".to_string());
    rec.summary = Some("a summary".to_string());
    rec.category = Some(Category::Areas);
    store.create(rec.clone()).unwrap();
    let got = store.get(&"memo-1".to_string()).unwrap();
    assert_eq!(got.id, rec.id);
    assert_eq!(got.file_path, rec.file_path);
    assert_eq!(got.timestamp_millis, rec.timestamp_millis);
    assert_eq!(got.duration_millis, rec.duration_millis);
    assert_eq!(got.transcript, rec.transcript);
    assert_eq!(got.summary, rec.summary);
    assert_eq!(got.category, rec.category);
}

#[test]
fn create_duplicate_id_fails() {
    let mut store = MetadataStore::new();
    store.create(plain_recording("memo-1")).unwrap();
    assert_eq!(store.create(plain_recording("memo-1")), Err(MemoError::DuplicateId));
    // the store still holds exactly one record
    assert_eq!(store.list_all().len(), 1);
}

#[test]
fn get_missing_id_fails_with_not_found() {
    let store = MetadataStore::new();
    match store.get(&"absent".to_string()) {
        Err(e) => assert_eq!(e, MemoError::NotFound),
        Ok(_) => panic!("get on an empty store must fail"),
    }
}

#[test]
fn list_all_keeps_insertion_order() {
    let mut store = MetadataStore::new();
    store.create(plain_recording("memo-1")).unwrap();
    store.create(plain_recording("memo-2")).unwrap();
    store.create(plain_recording("memo-3")).unwrap();
    let all = store.list_all();
    assert_eq!(all.len(), 3);
    assert_eq!(all[0].id, "memo-1");
    assert_eq!(all[1].id, "memo-2");
    assert_eq!(all[2].id, "memo-3");
    // a second scan reports the same order
    let again = store.list_all();
    assert_eq!(again[0].id, "memo-1");
    assert_eq!(again[2].id, "memo-3");
}

#[test]
fn merge_update_missing_id_fails_with_not_found() {
    let mut store = MetadataStore::new();
    let res = store.merge_update(
        &"absent".to_string(),
        Some("text".to_string()),
        None,
        None,
    );
    assert_eq!(res, Err(MemoError::NotFound));
}

#[test]
fn merge_update_never_clears_set_fields() {
    let mut store = MetadataStore::new();
    store.create(plain_recording("memo-1")).unwrap();
    let id = "memo-1".to_string();
    store
        .merge_update(&id, Some("the transcript".to_string()), None, None)
        .unwrap();
    store
        .merge_update(&id, None, Some("the summary".to_string()), None)
        .unwrap();
    store
        .merge_update(&id, None, None, Some(Category::Projects))
        .unwrap();
    // an all-absent merge changes nothing
    store.merge_update(&id, None, None, None).unwrap();
    let got = store.get(&id).unwrap();
    assert_eq!(got.transcript, Some("the transcript".to_string()));
    assert_eq!(got.summary, Some("the summary".to_string()));
    assert_eq!(got.category, Some(Category::Projects));
    // identity fields stayed untouched
    assert_eq!(got.file_path, "memo-1.wav");
    assert_eq!(got.duration_millis, 1_500);
}

#[test]
fn error_messages_name_the_failure() {
    assert_eq!(MemoError::AlreadyRecording.message(), "already recording");
    assert_eq!(MemoError::NotRecording.message(), "not recording");
    assert_eq!(MemoError::NotFound.message(), "no such recording");
    assert_eq!(MemoError::DuplicateId.message(), "recording id already exists");
    assert_eq!(MemoError::MissingPrerequisite.message(), "an earlier stage has not run");
}

#[test]
fn category_labels_are_the_four_fixed_names() {
    assert_eq!(Category::Projects.label(), "Projects");
    assert_eq!(Category::Areas.label(), "Areas");
    assert_eq!(Category::Resources.label(), "Resources");
    assert_eq!(Category::Archives.label(), "Archives");
}
