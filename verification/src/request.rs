use vstd::prelude::*;
use crate::errors::SpeechError;
use crate::rate::{validate_rate, SpeakingRate, MAX_RATE_TENTHS, MIN_RATE_TENTHS};
use crate::voice::{catalog_has, matches_at, VoiceCatalog, VoiceDescriptor};

verus! {

/// Everything the speech engine needs for one synthesis call. Built fresh
/// per call and handed to the engine boundary; never retained.
#[derive(Debug)]
pub struct SynthesisRequest {
    pub text: String,
    pub voice: VoiceDescriptor,
    pub rate: SpeakingRate,
}

/// What the engine reports about a synthesized stream: its content type and
/// its declared payload length in bytes. The byte stream itself stays with
/// the engine boundary; this crate reasons about it through these two
/// values and, on the export path, through the loaded payload.
#[derive(Debug)]
pub struct AudioStream {
    pub content_type: String,
    pub byte_length: u64,
}

/// Assembles a synthesis request from the current UI state: the selection
/// string (or `None` when nothing is selected), the raw trackbar rate, and
/// the captured text.
///
/// The voice is resolved first, then the rate is validated, so an unknown
/// selection fails with `VoiceNotFound` even when the rate is bad too.
/// Succeeds if and only if the selection names a catalog entry and the raw
/// rate lies in [`MIN_RATE_TENTHS`, `MAX_RATE_TENTHS`].
pub fn prepare_request(
    catalog: &VoiceCatalog,
    selection: Option<&String>,
    raw_rate: i64,
    text: String,
) -> (r: Result<SynthesisRequest, SpeechError>)
    ensures
        r is Ok <==> {
            &&& selection is Some
            &&& catalog_has(catalog.spec_voices(), selection->0@)
            &&& MIN_RATE_TENTHS <= raw_rate <= MAX_RATE_TENTHS
        },
        r is Ok ==> {
            let req = r->Ok_0;
            &&& req.text == text
            &&& req.rate.spec_tenths() == raw_rate
            &&& exists|i: int|
                {
                    &&& matches_at(catalog.spec_voices(), selection->0@, i)
                    &&& (forall|j: int|
                        0 <= j < i ==> !matches_at(catalog.spec_voices(), selection->0@, j))
                    &&& req.voice == catalog.spec_voices()[i]
                }
        },
        (selection is None || (selection is Some && !catalog_has(
            catalog.spec_voices(),
            selection->0@,
        ))) ==> r == Result::<SynthesisRequest, SpeechError>::Err(SpeechError::VoiceNotFound),
        (selection is Some && catalog_has(catalog.spec_voices(), selection->0@) && !(
        MIN_RATE_TENTHS <= raw_rate <= MAX_RATE_TENTHS)) ==> r == Result::<
            SynthesisRequest,
            SpeechError,
        >::Err(SpeechError::InvalidRate),
{
    let name = match selection {
        Some(n) => n,
        None => {
            return Err(SpeechError::VoiceNotFound);
        },
    };
    let voice = match catalog.resolve_voice(name) {
        Ok(v) => v,
        Err(e) => {
            return Err(e);
        },
    };
    let rate = match validate_rate(raw_rate) {
        Ok(t) => t,
        Err(e) => {
            return Err(e);
        },
    };
    Ok(SynthesisRequest { text, voice, rate })
}

/// Folds the engine boundary's answer to a synthesis call back into the
/// pipeline: `None` means the engine rejected or errored on the call and
/// becomes `SynthesisFailed`; a stream descriptor passes through unchanged.
pub fn synthesis_result(outcome: Option<AudioStream>) -> (r: Result<AudioStream, SpeechError>)
    ensures
        r is Ok <==> outcome is Some,
        r is Ok ==> r->Ok_0 == outcome->0,
        r is Err ==> r->Err_0 == SpeechError::SynthesisFailed,
{
    match outcome {
        Some(s) => Ok(s),
        None => Err(SpeechError::SynthesisFailed),
    }
}

} // verus!
