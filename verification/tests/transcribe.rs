use dictation::audio::AudioState;
use dictation::error::AudioError;
use dictation::transcribe::{
    join_segments, load_model, select_model, transcribe_audio, transcription_request,
    EngineReport, ModelPick, TranscriptionRequest,
};

type State = AudioState<f32, u32>;

fn with_model(path: &str) -> State {
    let mut state = State::new();
    load_model(&mut state, path.to_string(), true).unwrap();
    state
}

fn segments(parts: &[&str]) -> EngineReport {
    EngineReport::Segments(parts.iter().map(|p| p.to_string()).collect())
}

#[test]
fn transcribe_without_model_fails_with_no_model_selected() {
    let state = State::new();
    assert_eq!(
        transcribe_audio(&state, segments(&["hello"])),
        Err(AudioError::NoModelSelected)
    );
    assert_eq!(
        transcribe_audio(&state, EngineReport::ModelUnreadable("x".to_string())),
        Err(AudioError::NoModelSelected)
    );
    assert_eq!(transcription_request(&state, None), Err(AudioError::NoModelSelected));
    assert_eq!(
        transcription_request(&state, Some("de".to_string())),
        Err(AudioError::NoModelSelected)
    );
}

#[test]
fn refused_model_leaves_none_selected() {
    let mut state = State::new();
    assert!(load_model(&mut state, "".to_string(), true).is_err());
    assert!(load_model(&mut state, "/missing.bin".to_string(), false).is_err());
    assert!(select_model(&mut state, ModelPick::Cancelled).is_err());
    assert_eq!(transcribe_audio(&state, segments(&["a"])), Err(AudioError::NoModelSelected));
}

#[test]
fn segments_are_joined_without_separators() {
    let state = with_model("/models/base.bin");
    assert_eq!(
        transcribe_audio(&state, segments(&[" Hello", ",", " world", ".", ""])),
        Ok(" Hello, world.".to_string())
    );
    assert_eq!(transcribe_audio(&state, segments(&[])), Ok(String::new()));
    assert_eq!(transcribe_audio(&state, segments(&["one"])), Ok("one".to_string()));
}

#[test]
fn join_keeps_order_and_unicode() {
    let parts: Vec<String> = ["Gr", "\u{fc}\u{df}", "e ", "\u{4e16}\u{754c}", "!"]
        .iter()
        .map(|p| p.to_string())
        .collect();
    assert_eq!(join_segments(&parts), "Gr\u{fc}\u{df}e \u{4e16}\u{754c}!");
    assert_eq!(join_segments(&parts), parts.concat());
    assert_eq!(join_segments(&Vec::new()), "");
    let ba: Vec<String> = vec!["b".to_string(), "a".to_string()];
    assert_eq!(join_segments(&ba), "ba");
}

#[test]
fn engine_failures_map_to_their_kind() {
    let state = with_model("/models/base.bin");
    assert_eq!(
        transcribe_audio(&state, EngineReport::ModelUnreadable("bad magic".to_string())),
        Err(AudioError::ModelLoad("bad magic".to_string()))
    );
    assert_eq!(
        transcribe_audio(&state, EngineReport::AudioUnreadable("no such file".to_string())),
        Err(AudioError::Io("no such file".to_string()))
    );
    assert_eq!(
        transcribe_audio(&state, EngineReport::DecodeFailed("out of memory".to_string())),
        Err(AudioError::Inference("out of memory".to_string()))
    );
}

#[test]
fn request_names_the_model_and_defaults_the_language() {
    let state = with_model("/models/base.bin");
    assert_eq!(
        transcription_request(&state, None),
        Ok(TranscriptionRequest {
            model_path: "/models/base.bin".to_string(),
            language: "en".to_string(),
            best_of: 1,
        })
    );
    assert_eq!(
        transcription_request(&state, Some("de".to_string())),
        Ok(TranscriptionRequest {
            model_path: "/models/base.bin".to_string(),
            language: "de".to_string(),
            best_of: 1,
        })
    );
    assert_eq!(
        transcription_request(&state, Some(String::new())),
        Ok(TranscriptionRequest {
            model_path: "/models/base.bin".to_string(),
            language: String::new(),
            best_of: 1,
        })
    );
}

#[test]
fn load_model_checks_the_path() {
    let mut state = State::new();
    assert_eq!(
        load_model(&mut state, String::new(), false),
        Err(AudioError::ModelLoad("Empty path provided".to_string()))
    );
    assert_eq!(
        load_model(&mut state, String::new(), true),
        Err(AudioError::ModelLoad("Empty path provided".to_string()))
    );
    assert_eq!(
        load_model(&mut state, "/models/gone.bin".to_string(), false),
        Err(AudioError::ModelLoad("Model file not found: /models/gone.bin".to_string()))
    );
    assert_eq!(state.model_path, None);
    assert_eq!(
        load_model(&mut state, "/models/base.bin".to_string(), true),
        Ok("/models/base.bin".to_string())
    );
    assert_eq!(state.model_path, Some("/models/base.bin".to_string()));
    assert!(load_model(&mut state, "/models/gone.bin".to_string(), false).is_err());
    assert_eq!(state.model_path, Some("/models/base.bin".to_string()));
    assert_eq!(
        load_model(&mut state, "/models/large.bin".to_string(), true),
        Ok("/models/large.bin".to_string())
    );
    assert_eq!(state.model_path, Some("/models/large.bin".to_string()));
}

#[test]
fn select_model_takes_the_chosen_file() {
    let mut state = State::new();
    assert_eq!(
        select_model(&mut state, ModelPick::Cancelled),
        Err(AudioError::ModelLoad("No file selected".to_string()))
    );
    assert_eq!(
        select_model(&mut state, ModelPick::NotAPath),
        Err(AudioError::ModelLoad("Invalid path".to_string()))
    );
    assert_eq!(state.model_path, None);
    assert_eq!(
        select_model(&mut state, ModelPick::Path("/models/tiny.bin".to_string())),
        Ok("/models/tiny.bin".to_string())
    );
    assert_eq!(state.model_path, Some("/models/tiny.bin".to_string()));
    assert!(select_model(&mut state, ModelPick::Cancelled).is_err());
    assert_eq!(state.model_path, Some("/models/tiny.bin".to_string()));
}

#[test]
fn model_choice_does_not_touch_the_session() {
    let mut state = State::new();
    state.format = Some((44100, 2));
    state.recording_buffer = vec![0.5, 0.25];
    load_model(&mut state, "/models/base.bin".to_string(), true).unwrap();
    assert_eq!(state.format, Some((44100, 2)));
    assert_eq!(state.recording_buffer, vec![0.5, 0.25]);
    assert!(!state.is_recording);
}
