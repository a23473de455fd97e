use vstd::prelude::*;
use crate::errors::SpeechError;
use crate::request::{prepare_request, AudioStream, SynthesisRequest};
use crate::voice::{catalog_has, VoiceCatalog};
use crate::rate::{MAX_RATE_TENTHS, MIN_RATE_TENTHS};

verus! {

/// Paths cross the save dialog's boundary as NUL-terminated UTF-16 buffers;
/// this module works on those code units directly.
///
/// A path separator: backslash or forward slash.
pub open spec fn is_sep(u: u16) -> bool {
    u == 92 || u == 47
}

/// The display name of a path: the suffix after its last separator (the
/// whole path when it has no separator; empty when it ends in one).
pub open spec fn display_name_of(p: Seq<u16>) -> Seq<u16>
    decreases p.len(),
{
    if p.len() == 0 {
        p
    } else if is_sep(p.last()) {
        Seq::empty()
    } else {
        display_name_of(p.drop_last()).push(p.last())
    }
}

/// `display_name_of` is the suffix that starts right after the last
/// separator: if nothing from `s` on is a separator and `s` is either the
/// start or preceded by one, the display name is exactly `p[s..]`.
proof fn lemma_display_name_suffix(p: Seq<u16>, s: int)
    requires
        0 <= s <= p.len(),
        s == 0 || is_sep(p[s - 1]),
        forall|j: int| s <= j < p.len() ==> !is_sep(#[trigger] p[j]),
    ensures
        display_name_of(p) == p.subrange(s, p.len() as int),
    decreases p.len(),
{
    if p.len() == s {
        if s == 0 {
            assert(display_name_of(p) =~= p.subrange(s, p.len() as int));
        } else {
            assert(is_sep(p.last()));
            assert(display_name_of(p) =~= p.subrange(s, p.len() as int));
        }
    } else {
        assert(!is_sep(p.last()));
        lemma_display_name_suffix(p.drop_last(), s);
        assert(p.drop_last().subrange(s, p.drop_last().len() as int).push(p.last()) =~= p.subrange(
            s,
            p.len() as int,
        ));
    }
}

/// The part of the dialog's output buffer that is the path: everything
/// before the first NUL, or the whole buffer if it holds none.
pub fn nul_terminated_prefix(buf: &Vec<u16>) -> (p: Vec<u16>)
    ensures
        p@.len() <= buf@.len(),
        forall|j: int| 0 <= j < p@.len() ==> p@[j] == buf@[j] && buf@[j] != 0,
        p@.len() < buf@.len() ==> buf@[p@.len() as int] == 0,
{
    let mut p: Vec<u16> = Vec::new();
    let n = buf.len();
    let mut i: usize = 0;
    while i < n
        invariant
            0 <= i <= n,
            n == buf@.len(),
            p@.len() == i,
            forall|j: int| 0 <= j < i ==> p@[j] == buf@[j] && buf@[j] != 0,
        decreases n - i,
    {
        let u = buf[i];
        if u == 0 {
            return p;
        }
        p.push(u);
        i = i + 1;
    }
    p
}

/// The display name of the written file, for the confirmation message:
/// the path's suffix after its last separator. Fails with `IoError` when
/// the path names no file (it is empty or ends in a separator).
pub fn path_display_name(path: &Vec<u16>) -> (r: Result<Vec<u16>, SpeechError>)
    ensures
        r is Ok <==> display_name_of(path@).len() > 0,
        r is Ok ==> r->Ok_0@ == display_name_of(path@),
        r is Err ==> r->Err_0 == SpeechError::IoError,
{
    let n = path.len();
    let s = name_start(path);
    proof {
        lemma_display_name_suffix(path@, s as int);
    }
    let mut name: Vec<u16> = Vec::new();
    let mut i: usize = s;
    while i < n
        invariant
            s <= i <= n,
            n == path@.len(),
            name@ == path@.subrange(s as int, i as int),
        decreases n - i,
    {
        name.push(path[i]);
        proof {
            assert(name@ =~= path@.subrange(s as int, i + 1 as int));
        }
        i = i + 1;
    }
    if name.len() == 0 {
        Err(SpeechError::IoError)
    } else {
        Ok(name)
    }
}

/// Whether this code unit is a path separator.
fn is_sep_unit(u: u16) -> (r: bool)
    ensures
        r == is_sep(u),
{
    u == 92 || u == 47
}

/// Where the display name starts: the position right after the last
/// separator, or the start of the path when it has none.
fn name_start(path: &Vec<u16>) -> (s: usize)
    ensures
        s <= path@.len(),
        s == 0 || is_sep(path@[s - 1]),
        forall|j: int| s <= j < path@.len() ==> !is_sep(#[trigger] path@[j]),
{
    let n = path.len();
    let mut s: usize = n;
    while s > 0
        invariant
            0 <= s <= n,
            n == path@.len(),
            forall|j: int| s <= j < n ==> !is_sep(#[trigger] path@[j]),
        decreases s,
    {
        if is_sep_unit(path[s - 1]) {
            return s;
        }
        s = s - 1;
    }
    0
}

/// Everything the export path needs once its checks have passed: where to
/// write, and the synthesis request to hand to the engine.
#[derive(Debug)]
pub struct ExportRequest {
    pub path: Vec<u16>,
    pub request: SynthesisRequest,
}

/// The checks that precede an export, in order: a destination must have
/// been chosen — an abandoned dialog fails with `PathRequired` before any
/// synthesis work — and then the synthesis request is assembled exactly as
/// for playback (`VoiceNotFound`, then `InvalidRate`).
pub fn prepare_export(
    catalog: &VoiceCatalog,
    selection: Option<&String>,
    raw_rate: i64,
    text: String,
    destination: Option<Vec<u16>>,
) -> (r: Result<ExportRequest, SpeechError>)
    ensures
        destination is None ==> r is Err && r->Err_0 == SpeechError::PathRequired,
        r is Ok <==> {
            &&& destination is Some
            &&& selection is Some
            &&& catalog_has(catalog.spec_voices(), selection->0@)
            &&& MIN_RATE_TENTHS <= raw_rate <= MAX_RATE_TENTHS
        },
        r is Ok ==> {
            let e = r->Ok_0;
            &&& e.path@ == destination->0@
            &&& e.request.text == text
            &&& e.request.rate.spec_tenths() == raw_rate
            &&& catalog_has(catalog.spec_voices(), e.request.voice.display_name@)
        },
        (destination is Some && (selection is None || !catalog_has(
            catalog.spec_voices(),
            selection->0@,
        ))) ==> r is Err && r->Err_0 == SpeechError::VoiceNotFound,
        (destination is Some && selection is Some && catalog_has(
            catalog.spec_voices(),
            selection->0@,
        ) && !(MIN_RATE_TENTHS <= raw_rate <= MAX_RATE_TENTHS)) ==> r is Err && r->Err_0
            == SpeechError::InvalidRate,
{
    let path = match destination {
        Some(p) => p,
        None => {
            return Err(SpeechError::PathRequired);
        },
    };
    match prepare_request(catalog, selection, raw_rate, text) {
        Ok(request) => Ok(ExportRequest { path, request }),
        Err(e) => Err(e),
    }
}

/// The load-then-read step of the export: the payload read from the stream
/// must be exactly as long as the stream declared, and is passed on
/// verbatim for the single write. A short or long read fails with
/// `IoError` and nothing is written.
pub fn export_payload(stream: &AudioStream, payload: Vec<u8>) -> (r: Result<Vec<u8>, SpeechError>)
    ensures
        r is Ok <==> payload@.len() == stream.byte_length,
        r is Ok ==> r->Ok_0@ == payload@ && r->Ok_0@.len() == stream.byte_length,
        r is Err ==> r->Err_0 == SpeechError::IoError,
{
    if payload.len() as u64 == stream.byte_length {
        Ok(payload)
    } else {
        Err(SpeechError::IoError)
    }
}

} // verus!
