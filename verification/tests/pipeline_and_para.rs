use para_memos::category::Category;
use para_memos::classify::classify;
use para_memos::errors::MemoError;
use para_memos::pipeline::{
    apply_transcript, categorize_text, get_transcript, run_categorize, run_summarize,
    summarize_text, transcription_input, EngineStatus,
};
use para_memos::recording::Recording;
use para_memos::store::MetadataStore;
use para_memos::text::condense;

fn fresh_store_with(id: &str) -> MetadataStore {
    let mut store = MetadataStore::new();
    store
        .create(Recording {
            id: id.to_string(),
            file_path: format!("{}.wav", id),
            timestamp_millis: 1_700_000_000_000,
            duration_millis: 2_000,
            transcript: None,
            summary: None,
            category: None,
        })
        .unwrap();
    store
}

#[test]
fn transcription_input_hands_out_the_audio_path() {
    let store = fresh_store_with("memo-1");
    let id = "memo-1".to_string();
    let path = transcription_input(&store, &id, &EngineStatus::Loaded).unwrap();
    assert_eq!(path, "memo-1.wav");
    assert_eq!(
        transcription_input(&store, &id, &EngineStatus::NotLoaded),
        Err(MemoError::EngineUnavailable)
    );
    assert_eq!(
        transcription_input(&store, &"absent".to_string(), &EngineStatus::Loaded),
        Err(MemoError::NotFound)
    );
}

#[test]
fn failed_decode_leaves_transcript_absent_and_retry_merges() {
    let mut store = fresh_store_with("memo-1");
    let id = "memo-1".to_string();
    // the decoder failed on the first attempt
    let res = apply_transcript(&mut store, &id, Err(MemoError::DecodeFailure));
    assert_eq!(res, Err(MemoError::DecodeFailure));
    let rec = store.get(&id).unwrap();
    assert!(rec.transcript.is_none());
    assert_eq!(rec.duration_millis, 2_000);
    // a retry after fixing the input succeeds and disturbs nothing else
    apply_transcript(&mut store, &id, Ok("now it decodes.".to_string())).unwrap();
    let rec = store.get(&id).unwrap();
    assert_eq!(rec.transcript, Some("now it decodes.".to_string()));
    assert!(rec.summary.is_none());
    assert!(rec.category.is_none());
    assert_eq!(rec.file_path, "memo-1.wav");
    assert_eq!(rec.timestamp_millis, 1_700_000_000_000);
}

#[test]
fn empty_decoded_text_is_a_decode_failure() {
    let mut store = fresh_store_with("memo-1");
    let id = "memo-1".to_string();
    let res = apply_transcript(&mut store, &id, Ok(String::new()));
    assert_eq!(res, Err(MemoError::DecodeFailure));
    assert!(store.get(&id).unwrap().transcript.is_none());
}

#[test]
fn summarize_before_transcribe_fails_and_changes_nothing() {
    let mut store = fresh_store_with("memo-1");
    let id = "memo-1".to_string();
    let res = run_summarize(&mut store, &id, &EngineStatus::Loaded);
    assert_eq!(res, Err(MemoError::MissingPrerequisite));
    let rec = store.get(&id).unwrap();
    assert!(rec.transcript.is_none());
    assert!(rec.summary.is_none());
    assert!(rec.category.is_none());
}

#[test]
fn summarize_keeps_the_leading_sentence() {
    let mut store = fresh_store_with("memo-1");
    let id = "memo-1".to_string();
    apply_transcript(
        &mut store,
        &id,
        Ok("Plan the launch. Then rest a while.".to_string()),
    )
    .unwrap();
    let summary = run_summarize(&mut store, &id, &EngineStatus::Loaded).unwrap();
    assert_eq!(summary, "Plan the launch.");
    assert_eq!(store.get(&id).unwrap().summary, Some("Plan the launch.".to_string()));
}

#[test]
fn summarize_twice_equals_summarize_once() {
    let mut store = fresh_store_with("memo-1");
    let id = "memo-1".to_string();
    apply_transcript(&mut store, &id, Ok("One thing. Another thing.".to_string())).unwrap();
    let first = run_summarize(&mut store, &id, &EngineStatus::Loaded).unwrap();
    let after_one = store.get(&id).unwrap();
    let second = run_summarize(&mut store, &id, &EngineStatus::Loaded).unwrap();
    let after_two = store.get(&id).unwrap();
    assert_eq!(first, second);
    assert_eq!(after_one.summary, after_two.summary);
    assert_eq!(after_one.transcript, after_two.transcript);
    assert_eq!(after_one.category, after_two.category);
}

#[test]
fn summarize_without_engine_is_unavailable() {
    let mut store = fresh_store_with("memo-1");
    let id = "memo-1".to_string();
    apply_transcript(&mut store, &id, Ok("Some words.".to_string())).unwrap();
    let res = run_summarize(&mut store, &id, &EngineStatus::NotLoaded);
    assert_eq!(res, Err(MemoError::EngineUnavailable));
    assert!(store.get(&id).unwrap().summary.is_none());
}

#[test]
fn summarize_text_rejects_empty_input() {
    assert_eq!(summarize_text("", &EngineStatus::Loaded), Err(MemoError::EmptyInput));
    assert_eq!(
        summarize_text("anything", &EngineStatus::NotLoaded),
        Err(MemoError::EngineUnavailable)
    );
    let out = summarize_text("A short note without a stop", &EngineStatus::Loaded).unwrap();
    assert_eq!(out, "A short note without a stop");
}

#[test]
fn condense_caps_texts_without_a_full_stop() {
    let long = "x".repeat(300);
    let out = condense(&long);
    assert_eq!(out.chars().count(), 120);
    assert!(long.starts_with(&out));
}

#[test]
fn classifier_is_deterministic_and_closed() {
    let cases = [
        ("we set a deadline for the project", "kickoff soon", Category::Projects),
        ("morning routine and health habits", "", Category::Areas),
        ("notes on a book I read", "an article worth keeping", Category::Resources),
        ("this one is finished, move it to the archive", "done", Category::Archives),
        ("nothing special at all", "plain words", Category::Resources),
        // matching folds ASCII case
        ("We set a Deadline for the PROJECT", "Kickoff", Category::Projects),
    ];
    for (t, s, expected) in cases {
        let c = classify(t, s);
        assert_eq!(c, expected);
        // same text, same bucket, on every invocation
        assert_eq!(classify(t, s), c);
        assert!(matches!(
            c,
            Category::Projects | Category::Areas | Category::Resources | Category::Archives
        ));
    }
}

#[test]
fn categorize_text_needs_only_the_engine() {
    assert_eq!(
        categorize_text("a", "b", &EngineStatus::NotLoaded),
        Err(MemoError::EngineUnavailable)
    );
    assert_eq!(
        categorize_text("the project deadline", "", &EngineStatus::Loaded),
        Ok(Category::Projects)
    );
}

#[test]
fn categorize_stage_merges_a_category_and_is_idempotent() {
    let mut store = fresh_store_with("memo-1");
    let id = "memo-1".to_string();
    // neither transcript nor summary: nothing to classify yet
    assert_eq!(
        run_categorize(&mut store, &id, &EngineStatus::Loaded),
        Err(MemoError::MissingPrerequisite)
    );
    // degraded fallback: transcript alone is enough
    apply_transcript(&mut store, &id, Ok("family health routine".to_string())).unwrap();
    let c = run_categorize(&mut store, &id, &EngineStatus::Loaded).unwrap();
    assert_eq!(c, Category::Areas);
    assert_eq!(store.get(&id).unwrap().category, Some(Category::Areas));
    // re-running re-derives the same bucket
    let again = run_categorize(&mut store, &id, &EngineStatus::Loaded).unwrap();
    assert_eq!(again, Category::Areas);
}

#[test]
fn get_transcript_reports_text_and_later_artifacts() {
    let mut store = fresh_store_with("memo-1");
    let id = "memo-1".to_string();
    assert!(matches!(get_transcript(&store, &id), Err(MemoError::NotFound)));
    apply_transcript(&mut store, &id, Ok("Buy the book. It helps.".to_string())).unwrap();
    run_summarize(&mut store, &id, &EngineStatus::Loaded).unwrap();
    run_categorize(&mut store, &id, &EngineStatus::Loaded).unwrap();
    let t = get_transcript(&store, &id).unwrap();
    assert_eq!(t.text, "Buy the book. It helps.");
    assert_eq!(t.timestamp_millis, 1_700_000_000_000);
    assert_eq!(t.summary, Some("Buy the book.".to_string()));
    assert_eq!(t.category, Some(Category::Resources));
}

#[test]
fn para_folders_partition_the_categorized_records() {
    let mut store = MetadataStore::new();
    for (id, text) in [
        ("memo-1", "the project deadline is near"),
        ("memo-2", "daily health routine"),
        ("memo-3", "a book of ideas"),
        ("memo-4", "finished and archived"),
        ("memo-5", "another project launch"),
    ] {
        store
            .create(Recording {
                id: id.to_string(),
                file_path: format!("{}.wav", id),
                timestamp_millis: 1_700_000_000_000,
                duration_millis: 1_000,
                transcript: None,
                summary: None,
                category: None,
            })
            .unwrap();
        apply_transcript(&mut store, &id.to_string(), Ok(text.to_string())).unwrap();
        run_categorize(&mut store, &id.to_string(), &EngineStatus::Loaded).unwrap();
    }
    // one record stays uncategorized
    store
        .create(Recording {
            id: "memo-6".to_string(),
            file_path: "memo-6.wav".to_string(),
            timestamp_millis: 1_700_000_000_000,
            duration_millis: 1_000,
            transcript: None,
            summary: None,
            category: None,
        })
        .unwrap();
    let folders = store.build_para_folders();
    let projects: Vec<&str> = folders.projects.iter().map(|r| r.id.as_str()).collect();
    let areas: Vec<&str> = folders.areas.iter().map(|r| r.id.as_str()).collect();
    let resources: Vec<&str> = folders.resources.iter().map(|r| r.id.as_str()).collect();
    let archives: Vec<&str> = folders.archives.iter().map(|r| r.id.as_str()).collect();
    assert_eq!(projects, vec!["memo-1", "memo-5"]);
    assert_eq!(areas, vec!["memo-2"]);
    assert_eq!(resources, vec!["memo-3"]);
    assert_eq!(archives, vec!["memo-4"]);
    // disjoint union of exactly the categorized records
    let mut seen: Vec<&str> = Vec::new();
    for bucket in [&projects, &areas, &resources, &archives] {
        for id in bucket.iter() {
            assert!(!seen.contains(id), "a record appeared in two buckets");
            seen.push(id);
        }
    }
    let categorized = store
        .list_all()
        .into_iter()
        .filter(|r| r.category.is_some())
        .count();
    assert_eq!(seen.len(), categorized);
    assert!(!seen.contains(&"memo-6"));
}
