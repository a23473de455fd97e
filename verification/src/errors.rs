use vstd::prelude::*;

verus! {

/// Everything that can go wrong in the speech pipeline.
///
/// - `EngineUnavailable`: the voice catalog query itself failed.
/// - `VoiceNotFound`: no catalog entry matches the selection (including the
///   case where nothing is selected at all).
/// - `InvalidRate`: the raw speaking-rate value lies outside the accepted
///   range.
/// - `SynthesisFailed`: the speech engine rejected or errored on a synthesis
///   call.
/// - `IoError`: the output file could not be created or written, or the
///   destination names no file.
/// - `PathRequired`: no destination path was supplied (the save dialog was
///   abandoned).
#[derive(Clone, Copy, Debug, PartialEq, Eq, Structural)]
pub enum SpeechError {
    EngineUnavailable,
    VoiceNotFound,
    InvalidRate,
    SynthesisFailed,
    IoError,
    PathRequired,
}

} // verus!
