use vstd::prelude::*;
use crate::errors::SpeechError;

verus! {

/// One installed synthesis voice: the name the user sees, and the position
/// the engine listed it at, which the UI layer uses to find the engine's
/// own voice object again.
#[derive(Debug, PartialEq, Eq)]
pub struct VoiceDescriptor {
    pub display_name: String,
    pub engine_handle: usize,
}

impl Clone for VoiceDescriptor {
    fn clone(&self) -> (r: Self)
        ensures
            r == *self,
    {
        VoiceDescriptor {
            display_name: self.display_name.clone(),
            engine_handle: self.engine_handle,
        }
    }
}

/// Holds `i` exactly when entry `i` of `voices` is named `name`.
pub open spec fn matches_at(voices: Seq<VoiceDescriptor>, name: Seq<char>, i: int) -> bool {
    0 <= i < voices.len() && voices[i].display_name@ == name
}

/// Some catalog entry is named `name` (case-sensitive, whole-string match).
pub open spec fn catalog_has(voices: Seq<VoiceDescriptor>, name: Seq<char>) -> bool {
    exists|i: int| matches_at(voices, name, i)
}

/// Index of the first entry of `voices` named `name`, if any.
fn find_first(voices: &Vec<VoiceDescriptor>, name: &String) -> (r: Option<usize>)
    ensures
        r is Some <==> catalog_has(voices@, name@),
        r is Some ==> {
            &&& matches_at(voices@, name@, r->0 as int)
            &&& forall|j: int| 0 <= j < r->0 ==> !matches_at(voices@, name@, j)
        },
{
    let n = voices.len();
    let mut i: usize = 0;
    while i < n
        invariant
            0 <= i <= n,
            n == voices@.len(),
            forall|j: int| 0 <= j < i ==> !matches_at(voices@, name@, j),
        decreases n - i,
    {
        if voices[i].display_name == *name {
            assert(matches_at(voices@, name@, i as int));
            return Some(i);
        }
        i = i + 1;
    }
    None
}

/// The catalog of installed voices, in the order the engine listed them,
/// together with which entry (if any) is the engine's configured default.
pub struct VoiceCatalog {
    voices: Vec<VoiceDescriptor>,
    default_index: usize,
}

/// What a catalog built from an engine query looks like: one entry per
/// reported name, in order, each keeping its enumeration index as its
/// engine handle; the default entry is the first one carrying the engine's
/// default name, and there is none exactly when that name matches nothing
/// (or the default query failed).
pub open spec fn catalog_matches(
    c: VoiceCatalog,
    names: Seq<String>,
    default_name: Option<&String>,
) -> bool {
    &&& c.spec_voices().len() == names.len()
    &&& forall|i: int|
        0 <= i < names.len() ==> {
            &&& (#[trigger] c.spec_voices()[i]).display_name@ == names[i]@
            &&& c.spec_voices()[i].engine_handle == i
        }
    &&& match default_name {
        Some(d) => {
            &&& (c.spec_default_index() < names.len() <==> catalog_has(c.spec_voices(), d@))
            &&& (c.spec_default_index() < names.len() ==> matches_at(
                c.spec_voices(),
                d@,
                c.spec_default_index(),
            ) && (forall|j: int|
                0 <= j < c.spec_default_index() ==> !matches_at(c.spec_voices(), d@, j)))
        },
        None => c.spec_default_index() == names.len(),
    }
}

impl VoiceCatalog {
    /// The catalog entries, in engine order.
    pub closed spec fn spec_voices(&self) -> Seq<VoiceDescriptor> {
        self.voices@
    }

    /// Index of the default entry; `spec_voices().len()` when none is known.
    pub closed spec fn spec_default_index(&self) -> int {
        self.default_index as int
    }

    /// Builds the catalog from the names the engine reported, in the order
    /// it reported them; entry `i` keeps `i` as its engine handle. The
    /// default entry is the first one named `default_name`, if any.
    pub fn from_engine(names: Vec<String>, default_name: Option<&String>) -> (c: VoiceCatalog)
        ensures
            catalog_matches(c, names@, default_name),
    {
        let mut voices: Vec<VoiceDescriptor> = Vec::new();
        let mut i: usize = 0;
        let n = names.len();
        while i < n
            invariant
                0 <= i <= n,
                n == names@.len(),
                voices@.len() == i,
                forall|j: int| 0 <= j < i ==> {
                    &&& (#[trigger] voices@[j]).display_name@ == names@[j]@
                    &&& voices@[j].engine_handle == j
                },
            decreases n - i,
        {
            let name = names[i].clone();
            voices.push(VoiceDescriptor { display_name: name, engine_handle: i });
            i = i + 1;
        }
        let default_index: usize = match default_name {
            Some(d) => match find_first(&voices, d) {
                Some(k) => k,
                None => n,
            },
            None => n,
        };
        VoiceCatalog { voices, default_index }
    }

    /// All installed voices, in engine order.
    pub fn list_voices(&self) -> (v: &Vec<VoiceDescriptor>)
        ensures
            v@ == self.spec_voices(),
    {
        &self.voices
    }

    /// Resolves a user-facing selection string to the first catalog entry
    /// with exactly that display name. Succeeds if and only if some entry
    /// matches; otherwise fails with `VoiceNotFound`.
    pub fn resolve_voice(&self, name: &String) -> (r: Result<VoiceDescriptor, SpeechError>)
        ensures
            r is Ok <==> catalog_has(self.spec_voices(), name@),
            r is Ok ==> exists|i: int|
                {
                    &&& matches_at(self.spec_voices(), name@, i)
                    &&& (forall|j: int| 0 <= j < i ==> !matches_at(self.spec_voices(), name@, j))
                    &&& r->Ok_0 == self.spec_voices()[i]
                },
            r is Err ==> r->Err_0 == SpeechError::VoiceNotFound,
    {
        match find_first(&self.voices, name) {
            Some(i) => {
                let v = self.voices[i].clone();
                assert(matches_at(self.spec_voices(), name@, i as int));
                Ok(v)
            },
            None => Err(SpeechError::VoiceNotFound),
        }
    }

    /// The engine's configured default voice; fails with `EngineUnavailable`
    /// when the engine reported no usable default.
    pub fn default_voice(&self) -> (r: Result<VoiceDescriptor, SpeechError>)
        ensures
            r is Ok <==> self.spec_default_index() < self.spec_voices().len(),
            r is Ok ==> r->Ok_0 == self.spec_voices()[self.spec_default_index()],
            r is Err ==> r->Err_0 == SpeechError::EngineUnavailable,
    {
        if self.default_index < self.voices.len() {
            Ok(self.voices[self.default_index].clone())
        } else {
            Err(SpeechError::EngineUnavailable)
        }
    }
}

/// Wraps the result of the engine's voice enumeration: `None` means the
/// query itself failed and becomes `EngineUnavailable`; otherwise the
/// catalog is built as `VoiceCatalog::from_engine` describes.
pub fn catalog_from_query(names: Option<Vec<String>>, default_name: Option<&String>) -> (r:
    Result<VoiceCatalog, SpeechError>)
    ensures
        r is Ok <==> names is Some,
        r is Err ==> r->Err_0 == SpeechError::EngineUnavailable,
        r is Ok ==> catalog_matches(r->Ok_0, names->0@, default_name),
{
    match names {
        Some(ns) => Ok(VoiceCatalog::from_engine(ns, default_name)),
        None => Err(SpeechError::EngineUnavailable),
    }
}

} // verus!
