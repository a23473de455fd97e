use vstd::prelude::*;
use crate::errors::SpeechError;
use crate::request::AudioStream;

verus! {

/// The lifecycle of one playback attempt. `Completed`, `Failed` and
/// `Cancelled` are terminal.
#[derive(Clone, Copy, Debug, PartialEq, Eq, Structural)]
pub enum SessionState {
    Starting,
    Synthesizing,
    Playing,
    Completed,
    Failed,
    Cancelled,
}

/// One playback attempt: the text it captured at start, where it stands in
/// its lifecycle, and — once it has failed before playback — why.
pub struct Session {
    pub text: String,
    pub state: SessionState,
    pub error: Option<SpeechError>,
}

/// Position of the first occurrence of `id` in `v`, if any.
fn index_of(v: &Vec<usize>, id: usize) -> (r: Option<usize>)
    ensures
        r is Some ==> {
            &&& r->0 < v@.len()
            &&& v@[r->0 as int] == id
            &&& forall|j: int| 0 <= j < r->0 ==> (#[trigger] v@[j]) != id
        },
        r is None ==> forall|j: int| 0 <= j < v@.len() ==> (#[trigger] v@[j]) != id,
{
    let n = v.len();
    let mut k: usize = 0;
    while k < n
        invariant
            0 <= k <= n,
            n == v@.len(),
            forall|j: int| 0 <= j < k ==> (#[trigger] v@[j]) != id,
        decreases n - k,
    {
        if v[k] == id {
            return Some(k);
        }
        k = k + 1;
    }
    None
}

/// Owns every playback attempt ever started and the registry of the ones
/// whose completion signal is still outstanding. Sessions are identified by
/// the index at which they were started; the registry holds exactly the
/// sessions that are currently `Playing`, which is what makes global
/// cancellation possible. The UI layer serializes access with one lock and
/// never holds it across a blocking wait.
pub struct SessionManager {
    sessions: Vec<Session>,
    registry: Vec<usize>,
}

impl SessionManager {
    /// Every session started so far, by id.
    pub closed spec fn spec_sessions(&self) -> Seq<Session> {
        self.sessions@
    }

    /// The ids whose completion-signal sender is still registered.
    pub closed spec fn spec_registry(&self) -> Seq<usize> {
        self.registry@
    }

    /// Session `i` has an outstanding completion signal.
    pub open spec fn is_registered(&self, i: int) -> bool {
        exists|k: int|
            0 <= k < self.spec_registry().len() && (#[trigger] self.spec_registry()[k]) as int == i
    }

    /// The state session `i` is in.
    pub open spec fn spec_state(&self, i: int) -> SessionState {
        self.spec_sessions()[i].state
    }

    /// The registry names real sessions, each at most once, and holds
    /// exactly the `Playing` ones; a recorded error means the session
    /// failed.
    pub open spec fn wf(&self) -> bool {
        &&& forall|k: int|
            0 <= k < self.spec_registry().len() ==> {
                &&& (#[trigger] self.spec_registry()[k]) < self.spec_sessions().len()
                &&& self.spec_sessions()[self.spec_registry()[k] as int].state
                    == SessionState::Playing
            }
        &&& forall|k1: int, k2: int|
            0 <= k1 < k2 < self.spec_registry().len() ==> self.spec_registry()[k1]
                != self.spec_registry()[k2]
        &&& forall|i: int|
            0 <= i < self.spec_sessions().len() && (#[trigger] self.spec_sessions()[i]).state
                == SessionState::Playing ==> self.is_registered(i)
        &&& forall|i: int|
            0 <= i < self.spec_sessions().len() && (#[trigger] self.spec_sessions()[i]).error
                is Some ==> self.spec_sessions()[i].state == SessionState::Failed
    }

    /// A manager with no sessions and an empty registry.
    pub fn new() -> (m: SessionManager)
        ensures
            m.wf(),
            m.spec_sessions().len() == 0,
            m.spec_registry().len() == 0,
    {
        SessionManager { sessions: Vec::new(), registry: Vec::new() }
    }

    /// How many sessions have ever been started.
    pub fn session_count(&self) -> (n: usize)
        ensures
            n == self.spec_sessions().len(),
    {
        self.sessions.len()
    }

    /// How many sessions hold an outstanding completion signal.
    pub fn active_count(&self) -> (n: usize)
        ensures
            n == self.spec_registry().len(),
    {
        self.registry.len()
    }

    /// Where session `id` stands in its lifecycle.
    pub fn session_state(&self, id: usize) -> (s: SessionState)
        requires
            id < self.spec_sessions().len(),
        ensures
            s == self.spec_state(id as int),
    {
        self.sessions[id].state
    }

    /// Why session `id` failed, when it failed before playback.
    pub fn session_error(&self, id: usize) -> (e: Option<SpeechError>)
        requires
            id < self.spec_sessions().len(),
        ensures
            e == self.spec_sessions()[id as int].error,
    {
        self.sessions[id].error
    }

    /// Starts a new session that captures `text`, in state `Starting`, and
    /// returns its id. Nothing else changes; the new session is not yet
    /// registered.
    pub fn start(&mut self, text: String) -> (id: usize)
        requires
            old(self).wf(),
        ensures
            final(self).wf(),
            id == old(self).spec_sessions().len(),
            final(self).spec_sessions().len() == id + 1,
            final(self).spec_sessions()[id as int].text == text,
            final(self).spec_sessions()[id as int].state == SessionState::Starting,
            final(self).spec_sessions()[id as int].error is None,
            forall|i: int|
                0 <= i < id ==> final(self).spec_sessions()[i] == old(self).spec_sessions()[i],
            final(self).spec_registry() == old(self).spec_registry(),
    {
        let id = self.sessions.len();
        self.sessions.push(Session { text, state: SessionState::Starting, error: None });
        id
    }

    /// The background unit of work has picked session `id` up: it moves
    /// from `Starting` to `Synthesizing`. Nothing else changes.
    pub fn begin_synthesis(&mut self, id: usize)
        requires
            old(self).wf(),
            id < old(self).spec_sessions().len(),
            old(self).spec_state(id as int) == SessionState::Starting,
        ensures
            final(self).wf(),
            final(self).spec_sessions().len() == old(self).spec_sessions().len(),
            final(self).spec_state(id as int) == SessionState::Synthesizing,
            final(self).spec_sessions()[id as int].text == old(self).spec_sessions()[id as int].text,
            final(self).spec_sessions()[id as int].error == old(self).spec_sessions()[
                id as int
            ].error,
            forall|i: int|
                0 <= i < old(self).spec_sessions().len() && i != id ==> final(self).spec_sessions()[i] == old(self).spec_sessions()[i],
            final(self).spec_registry() == old(self).spec_registry(),
    {
        self.sessions[id].state = SessionState::Synthesizing;
    }

    /// Folds the outcome of the synthesis step into session `id`, which
    /// must be `Synthesizing`.
    ///
    /// On `Ok` the session moves to `Playing`, its completion signal is
    /// registered, and the stream descriptor is handed back so the caller
    /// can feed the player. On `Err` the session moves to `Failed` with the
    /// error recorded, nothing is registered, and — per the playback
    /// contract — the failure stays inside the session: nothing is handed
    /// back. Other sessions never change.
    pub fn on_synthesis_result(&mut self, id: usize, outcome: Result<AudioStream, SpeechError>)
        -> (r: Option<AudioStream>)
        requires
            old(self).wf(),
            id < old(self).spec_sessions().len(),
            old(self).spec_state(id as int) == SessionState::Synthesizing,
        ensures
            final(self).wf(),
            final(self).spec_sessions().len() == old(self).spec_sessions().len(),
            final(self).spec_sessions()[id as int].text == old(self).spec_sessions()[id as int].text,
            forall|i: int|
                0 <= i < old(self).spec_sessions().len() && i != id ==> final(self).spec_sessions()[i] == old(self).spec_sessions()[i],
            outcome is Ok ==> {
                &&& r == Some(outcome->Ok_0)
                &&& final(self).spec_state(id as int) == SessionState::Playing
                &&& final(self).spec_sessions()[id as int].error is None
                &&& final(self).spec_registry() == old(self).spec_registry().push(id)
                &&& final(self).is_registered(id as int)
            },
            outcome is Err ==> {
                &&& r is None
                &&& final(self).spec_state(id as int) == SessionState::Failed
                &&& final(self).spec_sessions()[id as int].error == Some(outcome->Err_0)
                &&& final(self).spec_registry() == old(self).spec_registry()
            },
    {
        proof {
            assert(!old(self).is_registered(id as int));
            assert forall|k: int| 0 <= k < old(self).spec_registry().len() implies (
            #[trigger] old(self).spec_registry()[k]) as int != id by {
            }
        }
        match outcome {
            Ok(stream) => {
                self.sessions[id].state = SessionState::Playing;
                self.registry.push(id);
                proof {
                    assert(self.spec_registry() =~= old(self).spec_registry().push(id));
                    assert(self.spec_registry()[self.spec_registry().len() - 1] == id);
                    assert(self.is_registered(id as int));
                    assert forall|i: int|
                        i != id && #[trigger] old(self).is_registered(i) implies self.is_registered(
                        i,
                    ) by {
                        let w = choose|j: int|
                            0 <= j < old(self).spec_registry().len() && (#[trigger] old(
                                self,
                            ).spec_registry()[j]) as int == i;
                        assert(self.spec_registry()[w] as int == i);
                    }
                    assert(self.wf());
                }
                Some(stream)
            },
            Err(e) => {
                self.sessions[id].state = SessionState::Failed;
                self.sessions[id].error = Some(e);
                proof {
                    assert forall|i: int|
                        i != id && #[trigger] old(self).is_registered(i) implies self.is_registered(
                        i,
                    ) by {
                        let w = choose|j: int|
                            0 <= j < old(self).spec_registry().len() && (#[trigger] old(
                                self,
                            ).spec_registry()[j]) as int == i;
                        assert(self.spec_registry()[w] as int == i);
                    }
                    assert(self.wf());
                }
                None
            },
        }
    }

    /// A completion signal for session `id` arrived from the player:
    /// "media ended" when `ended`, "media failed" otherwise.
    ///
    /// If the session is still `Playing`, it is deregistered and moves to
    /// `Completed` or `Failed`; whichever listener fires first is
    /// authoritative. In every other state — already completed, already
    /// cancelled, or a second listener firing after the first — the signal
    /// is harmless and nothing at all changes.
    pub fn deliver(&mut self, id: usize, ended: bool)
        requires
            old(self).wf(),
            id < old(self).spec_sessions().len(),
        ensures
            final(self).wf(),
            final(self).spec_sessions().len() == old(self).spec_sessions().len(),
            old(self).spec_state(id as int) == SessionState::Playing ==> {
                &&& final(self).spec_state(id as int) == (if ended {
                    SessionState::Completed
                } else {
                    SessionState::Failed
                })
                &&& final(self).spec_sessions()[id as int].text == old(self).spec_sessions()[
                    id as int
                ].text
                &&& final(self).spec_sessions()[id as int].error is None
                &&& !final(self).is_registered(id as int)
                &&& final(self).spec_registry().len() == old(self).spec_registry().len() - 1
                &&& forall|i: int|
                    0 <= i < old(self).spec_sessions().len() && i != id ==> final(self).spec_sessions()[i] == old(self).spec_sessions()[i]
                &&& forall|i: int|
                    i != id ==> (final(self).is_registered(i) <==> old(self).is_registered(i))
            },
            old(self).spec_state(id as int) != SessionState::Playing ==> *final(self) == *old(self),
    {
        if self.sessions[id].state == SessionState::Playing {
            let ghost pre = *self;
            proof {
                assert(pre.is_registered(id as int));
            }
            let k = match index_of(&self.registry, id) {
                Some(k) => k,
                None => unreached(),
            };
            self.registry.remove(k);
            self.sessions[id].state = if ended {
                SessionState::Completed
            } else {
                SessionState::Failed
            };
            proof {
                assert forall|i: int| i != id && #[trigger] self.is_registered(i) implies pre
                    .is_registered(i) by {
                    let w = choose|j: int|
                        0 <= j < self.spec_registry().len() && (#[trigger] self.spec_registry()[j])
                            as int == i;
                    if w < k {
                        assert(pre.spec_registry()[w] as int == i);
                    } else {
                        assert(pre.spec_registry()[w + 1] as int == i);
                    }
                }
                assert forall|i: int| i != id && #[trigger] pre.is_registered(i) implies self
                    .is_registered(i) by {
                    let w = choose|j: int|
                        0 <= j < pre.spec_registry().len() && (#[trigger] pre.spec_registry()[j])
                            as int == i;
                    if w < k {
                        assert(self.spec_registry()[w] as int == i);
                    } else {
                        assert(w != k);
                        assert(self.spec_registry()[w - 1] as int == i);
                    }
                }
                assert(!self.is_registered(id as int)) by {
                    if self.is_registered(id as int) {
                        let w = choose|j: int|
                            0 <= j < self.spec_registry().len() && (
                            #[trigger] self.spec_registry()[j]) as int == id;
                        if w < k {
                            assert(pre.spec_registry()[w] as int == id);
                        } else {
                            assert(pre.spec_registry()[w + 1] as int == id);
                            assert(pre.spec_registry()[k as int] as int == id);
                        }
                    }
                }
            }
        }
    }

    /// The registry never holds a stale entry: a session that is not
    /// `Playing` — one that completed, failed or was cancelled, or one
    /// whose setup never got that far — has no outstanding completion
    /// signal, so nothing can ever signal it again.
    pub proof fn lemma_no_stale_entry(&self, id: int)
        requires
            self.wf(),
            0 <= id < self.spec_sessions().len(),
            self.spec_state(id) != SessionState::Playing,
        ensures
            !self.is_registered(id),
    {
    }

    /// Drains the registry and cancels every session that still held an
    /// outstanding completion signal: each moves to `Cancelled` and its
    /// signal is spent. Sessions not in the registry — including any
    /// started after the drain snapshot — are untouched. With zero active
    /// sessions this is a no-op: the registry stays empty and no session
    /// changes.
    pub fn cancel_all(&mut self)
        requires
            old(self).wf(),
        ensures
            final(self).wf(),
            final(self).spec_registry().len() == 0,
            final(self).spec_sessions().len() == old(self).spec_sessions().len(),
            forall|i: int|
                0 <= i < old(self).spec_sessions().len() && old(self).is_registered(i) ==> {
                    &&& final(self).spec_state(i) == SessionState::Cancelled
                    &&& (#[trigger] final(self).spec_sessions()[i]).text == old(self).spec_sessions()[i].text
                    &&& final(self).spec_sessions()[i].error == old(self).spec_sessions()[i].error
                },
            forall|i: int|
                0 <= i < old(self).spec_sessions().len() && !old(self).is_registered(i) ==> final(self).spec_sessions()[i] == old(self).spec_sessions()[i],
            old(self).spec_registry().len() == 0 ==> final(self).spec_sessions() == old(self).spec_sessions(),
    {
        let ghost pre = *self;
        loop
            invariant
                pre == *old(self),
                self.wf(),
                self.spec_sessions().len() == pre.spec_sessions().len(),
                forall|i: int| #[trigger]
                    self.is_registered(i) ==> pre.is_registered(i) && self.spec_sessions()[i]
                        == pre.spec_sessions()[i],
                forall|i: int|
                    0 <= i < pre.spec_sessions().len() && pre.is_registered(i) && !self
                        .is_registered(i) ==> {
                        &&& self.spec_state(i) == SessionState::Cancelled
                        &&& (#[trigger] self.spec_sessions()[i]).text == pre.spec_sessions()[i].text
                        &&& self.spec_sessions()[i].error == pre.spec_sessions()[i].error
                    },
                forall|i: int|
                    0 <= i < pre.spec_sessions().len() && !pre.is_registered(i) ==> self
                        .spec_sessions()[i] == pre.spec_sessions()[i],
            decreases self.spec_registry().len(),
        {
            let ghost before = *self;
            match self.registry.pop() {
                Some(id) => {
                    proof {
                        assert(before.spec_registry()[before.spec_registry().len() - 1] == id);
                        assert(before.is_registered(id as int));
                        assert(id < self.spec_sessions().len());
                    }
                    self.sessions[id].state = SessionState::Cancelled;
                    proof {
                        let glen = before.spec_registry().len() - 1;
                        assert(self.spec_registry() =~= before.spec_registry().subrange(0, glen));
                        assert forall|k: int|
                            0 <= k < glen implies (#[trigger] self.spec_registry()[k]) == before
                            .spec_registry()[k] && before.spec_registry()[k] as int != id by {
                            assert(before.spec_registry()[k] != before.spec_registry()[glen]);
                        }
                        assert forall|i: int| #[trigger]
                            self.is_registered(i) implies i != id && before.is_registered(i) by {
                            let w = choose|j: int|
                                0 <= j < self.spec_registry().len() && (
                                #[trigger] self.spec_registry()[j]) as int == i;
                            assert(before.spec_registry()[w] as int == i);
                        }
                        assert forall|i: int|
                            i != id && #[trigger] before.is_registered(i) implies self
                            .is_registered(i) by {
                            let w = choose|j: int|
                                0 <= j < before.spec_registry().len() && (
                                #[trigger] before.spec_registry()[j]) as int == i;
                            assert(w != glen);
                            assert(self.spec_registry()[w] as int == i);
                        }
                        assert(self.wf());
                    }
                },
                None => {
                    proof {
                        if pre.spec_registry().len() == 0 {
                            assert forall|i: int|
                                0 <= i < pre.spec_sessions().len() implies self.spec_sessions()[i]
                                == pre.spec_sessions()[i] by {
                                assert(!pre.is_registered(i));
                            }
                            assert(self.spec_sessions() =~= pre.spec_sessions());
                        }
                    }
                    return ;
                },
            }
        }
    }
}

} // verus!
