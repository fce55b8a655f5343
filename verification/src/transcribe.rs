//! Choosing the inference model and turning the engine's report into the
//! transcript.

use vstd::prelude::*;
use crate::audio::{AudioState, Session};
use crate::text::texts;
use crate::error::{text_outcome, AudioError, Failure};

verus! {

/// What the file dialog gave.
#[derive(Debug, PartialEq, Eq)]
pub enum ModelPick {
    /// The dialog was closed without a choice.
    Cancelled,
    /// The choice does not name a file on this machine.
    NotAPath,
    /// The path of the chosen file.
    Path(String),
}

/// What the engine is asked to do: load the model at `model_path` and decode
/// in `language`, greedily, keeping the best of `best_of` candidates.
#[derive(Debug, PartialEq, Eq)]
pub struct TranscriptionRequest {
    pub model_path: String,
    pub language: String,
    pub best_of: i32,
}

/// Candidates kept while decoding: one, so that the same audio always gives
/// the same text.
pub const BEST_OF: i32 = 1;

/// How a run of the engine went.
#[derive(Debug, PartialEq, Eq)]
pub enum EngineReport {
    /// The model could not be loaded.
    ModelUnreadable(String),
    /// The stored waveform could not be read or resampled.
    AudioUnreadable(String),
    /// Decoding failed.
    DecodeFailed(String),
    /// The text segments, in the order the engine emitted them.
    Segments(Vec<String>),
}

/// A [`ModelPick`] with its path as a sequence of characters.
pub enum PickView {
    Cancelled,
    NotAPath,
    Path(Seq<char>),
}

impl View for ModelPick {
    type V = PickView;

    open spec fn view(&self) -> PickView {
        match self {
            ModelPick::Cancelled => PickView::Cancelled,
            ModelPick::NotAPath => PickView::NotAPath,
            ModelPick::Path(path) => PickView::Path(path@),
        }
    }
}

/// An [`EngineReport`] with its texts as sequences of characters.
pub enum ReportView {
    ModelUnreadable(Seq<char>),
    AudioUnreadable(Seq<char>),
    DecodeFailed(Seq<char>),
    Segments(Seq<Seq<char>>),
}

impl View for EngineReport {
    type V = ReportView;

    open spec fn view(&self) -> ReportView {
        match self {
            EngineReport::ModelUnreadable(detail) => ReportView::ModelUnreadable(detail@),
            EngineReport::AudioUnreadable(detail) => ReportView::AudioUnreadable(detail@),
            EngineReport::DecodeFailed(detail) => ReportView::DecodeFailed(detail@),
            EngineReport::Segments(segments) => ReportView::Segments(texts(segments@)),
        }
    }
}

/// The language decoded in where the caller names none.
pub open spec fn default_language() -> Seq<char> {
    "en"@
}

/// The segments one behind the other, with nothing between them.
pub open spec fn transcript(segments: Seq<Seq<char>>) -> Seq<char> {
    segments.flatten()
}

/// What a model path given by the caller leads to: the path itself where it
/// is not empty and a file lies there.
pub open spec fn loaded(path: Seq<char>, exists: bool) -> Result<Seq<char>, Failure> {
    if path.len() == 0 {
        Err(Failure::ModelLoad("Empty path provided"@))
    } else if !exists {
        Err(Failure::ModelLoad("Model file not found: "@ + path))
    } else {
        Ok(path)
    }
}

/// What a file dialog's answer leads to: the path, where one was chosen.
pub open spec fn selected(pick: PickView) -> Result<Seq<char>, Failure> {
    match pick {
        PickView::Cancelled => Err(Failure::ModelLoad("No file selected"@)),
        PickView::NotAPath => Err(Failure::ModelLoad("Invalid path"@)),
        PickView::Path(path) => Ok(path),
    }
}

/// The state after a model path was accepted or refused: an accepted path is
/// the configured one, a refused one changes nothing.
pub open spec fn configured<S, C>(s: Session<S, C>, choice: Result<Seq<char>, Failure>) -> Session<
    S,
    C,
> {
    match choice {
        Ok(path) => Session { model_path: Some(path), ..s },
        Err(_) => s,
    }
}

/// What a transcription returns for an engine's report: `NoModelSelected`
/// where no model is configured, whatever the report; else the failure the
/// engine met, or the segments joined.
pub open spec fn transcribed<S, C>(s: Session<S, C>, report: ReportView) -> Result<
    Seq<char>,
    Failure,
> {
    if s.model_path is None {
        Err(Failure::NoModelSelected)
    } else {
        match report {
            ReportView::ModelUnreadable(detail) => Err(Failure::ModelLoad(detail)),
            ReportView::AudioUnreadable(detail) => Err(Failure::Io(detail)),
            ReportView::DecodeFailed(detail) => Err(Failure::Inference(detail)),
            ReportView::Segments(segments) => Ok(transcript(segments)),
        }
    }
}

/// Takes the file chosen in a dialog as the model. A dialog closed without a
/// choice, or a choice that names no file, fails with `ModelLoad` and leaves
/// the configured model as it was.
pub fn select_model<S, C>(state: &mut AudioState<S, C>, pick: ModelPick) -> (r: Result<
    String,
    AudioError,
>)
    ensures
        text_outcome(r) == selected(pick@),
        final(state)@ == configured(old(state)@, selected(pick@)),
{
    match pick {
        ModelPick::Cancelled => Err(AudioError::ModelLoad(String::from_str("No file selected"))),
        ModelPick::NotAPath => Err(AudioError::ModelLoad(String::from_str("Invalid path"))),
        ModelPick::Path(path) => {
            state.model_path = Some(path.clone());
            Ok(path)
        },
    }
}

/// Takes `path` as the model; `exists` says whether a file lies there. An
/// empty path, or one where no file lies, fails with `ModelLoad` and leaves
/// the configured model as it was.
pub fn load_model<S, C>(state: &mut AudioState<S, C>, path: String, exists: bool) -> (r: Result<
    String,
    AudioError,
>)
    ensures
        text_outcome(r) == loaded(path@, exists),
        final(state)@ == configured(old(state)@, loaded(path@, exists)),
{
    if path.as_str().is_empty() {
        return Err(AudioError::ModelLoad(String::from_str("Empty path provided")));
    }
    if !exists {
        let mut text = String::from_str("Model file not found: ");
        text.append(path.as_str());
        return Err(AudioError::ModelLoad(text));
    }
    state.model_path = Some(path.clone());
    Ok(path)
}

/// Says what the engine is to run: the configured model, and the language
/// given or, in its place, the default one. Fails with `NoModelSelected`
/// where no model is configured.
pub fn transcription_request<S, C>(state: &AudioState<S, C>, language: Option<String>) -> (r:
    Result<TranscriptionRequest, AudioError>)
    ensures
        match state@.model_path {
            None => r matches Err(e) && e@ == Failure::NoModelSelected,
            Some(path) => r matches Ok(request) && request.model_path@ == path
                && request.best_of == BEST_OF && request.language@ == match language {
                Some(given) => given@,
                None => default_language(),
            },
        },
{
    match &state.model_path {
        None => Err(AudioError::NoModelSelected),
        Some(path) => {
            let language = match language {
                Some(given) => given,
                None => String::from_str("en"),
            };
            Ok(TranscriptionRequest { model_path: path.clone(), language, best_of: BEST_OF })
        },
    }
}

/// Joins the segments in the order given, with nothing put between them.
pub fn join_segments(segments: &Vec<String>) -> (text: String)
    ensures
        text@ == transcript(texts(segments@)),
{
    let mut text = String::new();
    let mut i: usize = 0;
    while i < segments.len()
        invariant
            i <= segments.len(),
            text@ == transcript(texts(segments@.take(i as int))),
        decreases segments.len() - i,
    {
        proof {
            let before = texts(segments@.take(i as int));
            assert(texts(segments@.take(i + 1)) =~= before.push(segments@[i as int]@));
            before.lemma_flatten_push(segments@[i as int]@);
        }
        text.append(segments[i].as_str());
        i += 1;
    }
    assert(segments@.take(i as int) =~= segments@);
    text
}

/// Turns the engine's report into the result of a transcription.
///
/// Fails with `NoModelSelected` where no model is configured. Else a model
/// that could not be loaded gives `ModelLoad`, a waveform that could not be
/// read gives `Io`, a failed decoding gives `Inference`, each with the
/// engine's message; and segments give the transcript, joined in their order
/// with nothing between them.
pub fn transcribe_audio<S, C>(state: &AudioState<S, C>, report: EngineReport) -> (r: Result<
    String,
    AudioError,
>)
    ensures
        text_outcome(r) == transcribed(state@, report@),
{
    if state.model_path.is_none() {
        return Err(AudioError::NoModelSelected);
    }
    match report {
        EngineReport::ModelUnreadable(detail) => Err(AudioError::ModelLoad(detail)),
        EngineReport::AudioUnreadable(detail) => Err(AudioError::Io(detail)),
        EngineReport::DecodeFailed(detail) => Err(AudioError::Inference(detail)),
        EngineReport::Segments(segments) => Ok(join_segments(&segments)),
    }
}

/// Joining keeps every segment whole and in its place: the transcript of two
/// runs of segments is the transcript of the first followed by that of the
/// second, the transcript of one segment is that segment, and the transcript
/// of none is empty.
pub proof fn law_transcript_concatenates(first: Seq<Seq<char>>, second: Seq<Seq<char>>, one: Seq<char>)
    ensures
        transcript(first + second) == transcript(first) + transcript(second),
        transcript(seq![one]) == one,
        transcript(Seq::<Seq<char>>::empty()) == Seq::<char>::empty(),
{
    vstd::seq_lib::lemma_flatten_concat(first, second);
    seq![one].lemma_flatten_one_element();
}

/// While no model is configured, every transcription fails with
/// `NoModelSelected`. None is configured in a new state, and a refused model
/// path does not change that.
pub proof fn law_no_model_selected<S, C>(s: Session<S, C>, report: ReportView, refused: Failure)
    requires
        s.model_path is None,
    ensures
        transcribed(s, report) == Err::<Seq<char>, Failure>(Failure::NoModelSelected),
        Session::<S, C>::idle().model_path is None,
        configured(s, Err(refused)).model_path is None,
{
}

} // verus!
