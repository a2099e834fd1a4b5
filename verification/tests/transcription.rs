use voice_notes::errors::RecorderError;
use voice_notes::model::plan_model_fetch;
use voice_notes::model::model_artifact_path;
use voice_notes::model::ModelAction;
use voice_notes::notes::timestamp_le;
use voice_notes::notes::Note;
use voice_notes::pipeline::finish_transcript;
use voice_notes::pipeline::prepare_samples;
use voice_notes::pipeline::should_delete_source;
use voice_notes::pipeline::EngineRun;
use voice_notes::timefmt::format_timestamp;
use voice_notes::timefmt::recording_file_name;
use voice_notes::transcript::assemble_transcript;
use voice_notes::wav::encode_wav;

#[test]
fn segments_are_joined_with_single_spaces() {
    let segments = vec!["Hello,".to_string(), "world.".to_string()];
    assert_eq!(assemble_transcript(&segments), "Hello, world.");
}

#[test]
fn no_segments_give_the_empty_transcript() {
    assert_eq!(assemble_transcript(&vec![]), "");
}

#[test]
fn whitespace_only_segments_give_the_empty_transcript() {
    let segments = vec!["   ".to_string(), "".to_string(), " \t".to_string()];
    assert_eq!(assemble_transcript(&segments), "");
}

#[test]
fn only_trailing_whitespace_is_trimmed() {
    assert_eq!(assemble_transcript(&vec!["hi".to_string()]), "hi");
    assert_eq!(assemble_transcript(&vec![" leading".to_string()]), " leading");
    assert_eq!(
        assemble_transcript(&vec![" Hello,".to_string(), " world.".to_string()]),
        " Hello,  world."
    );
}

#[test]
fn transcription_without_model_fails_before_reading_audio() {
    let bytes = encode_wav(&vec![1, 2, 3]);
    assert_eq!(
        prepare_samples(false, &Some(bytes)),
        Err(RecorderError::ModelNotFound)
    );
}

#[test]
fn unreadable_container_fails_with_unreadable_audio() {
    assert_eq!(prepare_samples(true, &None), Err(RecorderError::UnreadableAudio));
    assert_eq!(
        prepare_samples(true, &Some(vec![1u8, 2, 3])),
        Err(RecorderError::UnreadableAudio)
    );
}

#[test]
fn valid_container_yields_its_samples() {
    let samples: Vec<i16> = vec![0, 0, 0, 0, 0, 0, 0, 0];
    let bytes = encode_wav(&samples);
    assert_eq!(prepare_samples(true, &Some(bytes)), Ok(samples));
}

#[test]
fn completed_run_yields_the_assembled_text() {
    let run = EngineRun::Completed(vec![" Hello".to_string(), " there.".to_string()]);
    assert_eq!(finish_transcript(&run), Ok(" Hello  there.".to_string()));
}

#[test]
fn failed_run_yields_no_partial_text() {
    assert_eq!(
        finish_transcript(&EngineRun::Failed),
        Err(RecorderError::ProcessingError)
    );
}

#[test]
fn source_audio_is_deleted_only_after_success() {
    assert!(should_delete_source(&Ok("text".to_string())));
    assert!(!should_delete_source(&Err(RecorderError::ProcessingError)));
    assert!(!should_delete_source(&Err(RecorderError::ModelNotFound)));
}

#[test]
fn model_fetch_is_planned_only_when_absent() {
    assert_eq!(plan_model_fetch(true), ModelAction::UseExisting);
    assert_eq!(plan_model_fetch(false), ModelAction::Download);
}

#[test]
fn model_artifact_lives_under_the_data_directory() {
    assert_eq!(
        model_artifact_path("/home/u/.local/share/com.notes.dev"),
        "/home/u/.local/share/com.notes.dev/models/ggml-base.bin"
    );
}

#[test]
fn timestamps_are_rendered_zero_padded() {
    assert_eq!(format_timestamp(2024, 1, 31, 9, 5, 0), "20240131_090500");
    assert_eq!(format_timestamp(987, 12, 3, 23, 59, 58), "09871203_235958");
}

#[test]
fn recording_file_name_carries_the_timestamp() {
    assert_eq!(
        recording_file_name("20240101_120000"),
        "recording_20240101_120000.wav"
    );
}

#[test]
fn notes_are_sorted_newest_first() {
    let mk = |id: i64, ts: &str| {
        Note::new(id, "t".to_string(), "c".to_string(), ts.to_string())
    };
    let mut notes = vec![
        mk(1, "20240101_000000"),
        mk(2, "20250101_000000"),
        mk(3, "20230615_120000"),
        mk(4, "20250101_000000"),
    ];
    voice_notes::notes::sort_notes_newest_first(&mut notes);
    let stamps: Vec<&str> = notes.iter().map(|n| n.timestamp.as_str()).collect();
    assert_eq!(
        stamps,
        vec!["20250101_000000", "20250101_000000", "20240101_000000", "20230615_120000"]
    );
    let mut ids: Vec<i64> = notes.iter().map(|n| n.id).collect();
    ids.sort();
    assert_eq!(ids, vec![1, 2, 3, 4]);
}

#[test]
fn sorting_no_notes_is_a_no_op() {
    let mut notes: Vec<Note> = Vec::new();
    voice_notes::notes::sort_notes_newest_first(&mut notes);
    assert!(notes.is_empty());
}

#[test]
fn timestamp_order_is_lexicographic() {
    assert!(timestamp_le("20240101_000000", "20240101_000001"));
    assert!(timestamp_le("2024", "20240101_000000"));
    assert!(!timestamp_le("20250101_000000", "20241231_235959"));
    assert!(timestamp_le("", ""));
    assert!(timestamp_le("20240101_000000", "20240101_000000"));
}

#[test]
fn note_keeps_its_parts() {
    let n = Note::new(
        7,
        "title".to_string(),
        "content".to_string(),
        "20240101_120000".to_string(),
    );
    assert_eq!(n.id, 7);
    assert_eq!(n.title, "title");
    assert_eq!(n.content, "content");
    assert_eq!(n.timestamp, "20240101_120000");
}
