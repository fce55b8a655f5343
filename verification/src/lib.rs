//! Decision core of a dictation tool: it records from a microphone, keeps the
//! samples of the running session, stores them as a waveform, brings that
//! waveform to the rate an inference engine wants and joins the text the
//! engine emits.
//!
//! Everything here works on plain values. Hardware, files and the engine live
//! with the caller, which reports what it found and carries out what these
//! functions decide.

pub mod audio;
pub mod devices;
pub mod error;
pub mod ollama;
pub mod resample;
pub mod samples;
pub mod text;
pub mod transcribe;
pub mod waveform;
