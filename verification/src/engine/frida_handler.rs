//! Operations above the session manager: injecting into a process by its
//! id, with a session found or made for it, and the process-level handler.

use vstd::prelude::*;
use vstd::string::*;
use crate::engine::backend::{added, extends, Engine, EngineEvent, Traced};
use crate::engine::error::{ErrorKind, SessionError};
use crate::engine::registry::RegistryView;
use crate::engine::session::SessionView;
use crate::engine::session_id::session_id_text;

pub use crate::engine::manager::{
    batch_texts, listing_texts, script_releases, select_target, FridaSessionManager, Lookup,
    ScriptOutcome, Target,
};

verus! {

/// Whether `kind` is one of the two ways in which an injection can fail in
/// the engine.
pub open spec fn is_script_failure(kind: ErrorKind) -> bool {
    kind == ErrorKind::ScriptCompileError || kind == ErrorKind::ScriptLoadError
}

/// The failure of a call, if it failed.
pub open spec fn failure_of<T>(r: Result<T, SessionError>) -> Option<SessionError> {
    match r {
        Ok(_) => None,
        Err(e) => Some(e),
    }
}

/// The session through which a script for the process `pid` goes: the
/// oldest active session attached to `pid`, or, where there is none, the
/// session that is created next.
pub open spec fn script_session(before: RegistryView, pid: u32) -> Seq<char> {
    match before.first_for_pid(pid) {
        Some(at) => session_id_text(before.sessions[at].number),
        None => before.next_id(),
    }
}

/// What the injection of `source` into the process `pid` makes of the
/// registry `before` and of the record `asked` of the engine, given how the
/// call ended.
///
/// Where an active session is attached to `pid`, the script goes into the
/// oldest of them, as with `inject_script`. Where there is none, a session
/// is created for `pid` first, as with `create_session`; it stays
/// registered when the injection fails.
pub open spec fn script_executed(
    before: RegistryView,
    after: RegistryView,
    asked: Seq<EngineEvent>,
    answered: Seq<EngineEvent>,
    pid: u32,
    source: Seq<char>,
    failure: Option<SessionError>,
) -> bool {
    let id = script_session(before, pid);
    let session = after.session(id);
    let script = session.scripts.last();
    match before.first_for_pid(pid) {
        Some(at) => {
            let connection = before.sessions[at].handle;
            match failure {
                None => {
                    &&& after == before.script_loaded(id, script)
                    &&& answered == asked + FridaSessionManager::injection_events(
                        connection,
                        source,
                        id,
                        script,
                    )
                },
                Some(e) => {
                    &&& after == before
                    &&& extends(asked, answered)
                    &&& FridaSessionManager::failed_injection_events(
                        connection,
                        source,
                        id,
                        e,
                        added(asked, answered),
                    )
                },
            }
        },
        None => {
            let attached = asked + FridaSessionManager::creation_events(None, session);
            match failure {
                None => {
                    &&& session.pid == pid
                    &&& after == before.extended_by(session).script_loaded(id, script)
                    &&& answered == attached + FridaSessionManager::injection_events(
                        session.handle,
                        source,
                        id,
                        script,
                    )
                },
                Some(e) => if e.kind == ErrorKind::AttachFailed {
                    &&& after == before
                    &&& answered == asked.push(
                        EngineEvent::Attach { pid, answer: Err(e.detail@) },
                    )
                } else {
                    &&& session.pid == pid
                    &&& after == before.extended_by(session)
                    &&& extends(attached, answered)
                    &&& FridaSessionManager::failed_injection_events(
                        session.handle,
                        source,
                        id,
                        e,
                        added(attached, answered),
                    )
                },
            }
        },
    }
}

/// Injects `script_content` into the process `pid` and returns the
/// identifier of the session that was used: the oldest active session
/// attached to `pid`, or, where there is none, a session created for it.
///
/// A session created for the call stays registered when the injection
/// fails.
pub fn execute_script_with_session<E: Engine>(
    manager: &mut FridaSessionManager,
    engine: &mut Traced<E>,
    pid: u32,
    script_content: &str,
) -> (r: Result<String, SessionError>)
    requires
        old(manager).wf(),
        old(manager)@.first_for_pid(pid) is None ==> old(manager)@.next < u32::MAX,
    ensures
        final(manager).wf(),
        r is Ok ==> r->Ok_0@ == script_session(old(manager)@, pid),
        script_executed(
            old(manager)@,
            final(manager)@,
            old(engine).trace(),
            final(engine).trace(),
            pid,
            script_content@,
            failure_of(r),
        ),
{
    let ghost before = manager@;
    let ghost asked = engine.trace();
    let session_id = match manager.find_active_for_pid(pid) {
        Some(id) => id,
        None => match manager.create_session(engine, Some(pid), None) {
            Ok(id) => id,
            Err(e) => {
                proof {
                    let events = seq![EngineEvent::Attach { pid, answer: Err(e.detail@) }];
                    assert(engine.trace() =~= asked + added(asked, engine.trace()));
                    assert(asked + events =~= asked.push(events[0]));
                }
                return Err(e);
            },
        },
    };
    let ghost ready = manager@;
    let ghost attached = engine.trace();
    proof {
        ready.lemma_contained_was_issued(session_id@);
        ready.lemma_position_valid(session_id@);
        if before.first_for_pid(pid) is None {
            assert(ready == before.extended_by(ready.session(session_id@)));
        }
    }
    let r = manager.inject_script(engine, session_id.as_str(), script_content);
    proof {
        let id = session_id@;
        let session = manager@.session(id);
        if r is Ok {
            ready.lemma_with_session(id, ready.session(id).script_loaded(session.scripts.last()));
        }
        assert(session.pid == ready.session(id).pid);
        assert(session.handle == ready.session(id).handle);
        assert(session.created_at == ready.session(id).created_at);
        if before.first_for_pid(pid) is None {
            assert(FridaSessionManager::creation_events(None, session)
                == FridaSessionManager::creation_events(None, ready.session(id)));
            assert(before.extended_by(session) == before.extended_by(ready.session(id)));
        } else {
            assert(attached == asked);
        }
    }
    match r {
        Ok(_) => Ok(session_id),
        Err(e) => Err(e),
    }
}

/// Injects `script_content` into the process `pid`, through the oldest
/// active session attached to it or, where there is none, through a session
/// created for the call.
pub fn execute_script<E: Engine>(
    manager: &mut FridaSessionManager,
    engine: &mut Traced<E>,
    pid: u32,
    script_content: &str,
) -> (r: Result<(), SessionError>)
    requires
        old(manager).wf(),
        old(manager)@.first_for_pid(pid) is None ==> old(manager)@.next < u32::MAX,
    ensures
        final(manager).wf(),
        script_executed(
            old(manager)@,
            final(manager)@,
            old(engine).trace(),
            final(engine).trace(),
            pid,
            script_content@,
            failure_of(r),
        ),
{
    match execute_script_with_session(manager, engine, pid, script_content) {
        Ok(_) => Ok(()),
        Err(e) => Err(e),
    }
}

/// Process-level operations on top of the session manager, for callers that
/// think in process ids rather than in sessions.
#[derive(Clone, Copy, Debug)]
pub struct FridaHandler {}

impl FridaHandler {
    pub fn new() -> (h: FridaHandler) {
        FridaHandler {}
    }

    /// The registry after a session like `s` was created and, if `injected`
    /// says so, given the script that `s` got last.
    pub open spec fn instrumented(
        before: RegistryView,
        s: SessionView,
        injected: bool,
    ) -> RegistryView {
        let created = before.extended_by(s);
        if injected {
            created.script_loaded(before.next_id(), s.scripts.last())
        } else {
            created
        }
    }

    /// What the creation of a session like `s` for the program at `path`
    /// has asked of the engine, with the injection of `source` if `injected`
    /// says that there was one.
    pub open spec fn instrumentation_events(
        path: Seq<char>,
        source: Seq<char>,
        session_id: Seq<char>,
        s: SessionView,
        injected: bool,
    ) -> Seq<EngineEvent> {
        let created = seq![
            EngineEvent::Spawn { path, answer: Ok(s.pid) },
            EngineEvent::Attach { pid: s.pid, answer: Ok(s.handle) },
            EngineEvent::Now { answer: s.created_at },
        ];
        if injected {
            created + FridaSessionManager::injection_events(
                s.handle,
                source,
                session_id,
                s.scripts.last(),
            )
        } else {
            created
        }
    }

    /// What spawning and instrumenting the program at `path` makes of the
    /// registry `before` and of the record `asked` of the engine, given how
    /// the call ended.
    ///
    /// A session is created for the program, as with `create_session`; the
    /// script is injected into it, unless it is empty, as with
    /// `inject_script`; the process is resumed, as with `resume_process`;
    /// and the id of the process is returned. The first step that fails ends
    /// the call with its failure. The session stays registered when the
    /// injection or the resume fails.
    pub open spec fn spawned(
        before: RegistryView,
        after: RegistryView,
        asked: Seq<EngineEvent>,
        answered: Seq<EngineEvent>,
        path: &str,
        source: Seq<char>,
        r: Result<u32, SessionError>,
    ) -> bool {
        let id = before.next_id();
        let created = after.session(id);
        let injected = source.len() > 0;
        let instrumented = Self::instrumented(before, created, injected);
        let creation = FridaSessionManager::creation_events(Some(path), created);
        let instrumentation = Self::instrumentation_events(path@, source, id, created, injected);
        match r {
            Ok(pid) => {
                &&& created.pid == pid
                &&& after == instrumented.resumed(id)
                &&& answered == asked + instrumentation.push(
                    EngineEvent::Resume { pid, answer: Ok(()) },
                )
            },
            Err(e) => {
                ||| {
                    &&& e.kind == ErrorKind::ProcessSpawnError || e.kind
                        == ErrorKind::AttachFailed
                    &&& after == before
                    &&& extends(asked, answered)
                    &&& FridaSessionManager::failed_creation_events(
                        None,
                        Some(path),
                        e,
                        added(asked, answered),
                    )
                }
                ||| {
                    &&& is_script_failure(e.kind)
                    &&& injected
                    &&& after == before.extended_by(created)
                    &&& extends(asked + creation, answered)
                    &&& FridaSessionManager::failed_injection_events(
                        created.handle,
                        source,
                        id,
                        e,
                        added(asked + creation, answered),
                    )
                }
                ||| {
                    &&& e.kind == ErrorKind::ResumeFailed
                    &&& after == instrumented
                    &&& answered == asked + instrumentation.push(
                        EngineEvent::Resume { pid: created.pid, answer: Err(e.detail@) },
                    )
                }
            },
        }
    }

    /// Spawns the program at `path` suspended, attaches to it, injects
    /// `script_content` unless it is empty, and lets the process run.
    /// Returns the id of the new process.
    pub fn spawn_and_instrument<E: Engine>(
        &self,
        manager: &mut FridaSessionManager,
        engine: &mut Traced<E>,
        path: &str,
        script_content: &str,
    ) -> (r: Result<u32, SessionError>)
        requires
            old(manager).wf(),
            old(manager)@.next < u32::MAX,
        ensures
            final(manager).wf(),
            Self::spawned(
                old(manager)@,
                final(manager)@,
                old(engine).trace(),
                final(engine).trace(),
                path,
                script_content@,
                r,
            ),
    {
        let ghost before = manager@;
        let ghost asked = engine.trace();
        let session_id = match manager.create_session(engine, None, Some(path)) {
            Ok(id) => id,
            Err(e) => {
                return Err(e);
            },
        };
        let ghost created = manager@;
        let ghost attached = engine.trace();
        let id = session_id.as_str();
        proof {
            created.lemma_contained_was_issued(id@);
            created.lemma_position_valid(id@);
        }
        if !script_content.is_empty() {
            match manager.inject_script(engine, id, script_content) {
                Ok(_) => {
                    proof {
                        let script = manager@.session(id@).scripts.last();
                        created.lemma_with_session(
                            id@,
                            created.session(id@).script_loaded(script),
                        );
                    }
                },
                Err(e) => {
                    proof {
                        let kept = manager@.session(id@);
                        assert(FridaSessionManager::creation_events(Some(path), kept)
                            == FridaSessionManager::creation_events(
                            Some(path),
                            created.session(id@),
                        ));
                    }
                    return Err(e);
                },
            }
        }
        let ghost loaded = manager@;
        let ghost instrumented = engine.trace();
        proof {
            loaded.lemma_contained_was_issued(id@);
            loaded.lemma_position_valid(id@);
            loaded.lemma_with_session(id@, loaded.session(id@).resumed());
        }
        let resumed = manager.resume_process(engine, id);
        proof {
            let s = manager@.session(id@);
            let injected = script_content@.len() > 0;
            assert(s.pid == created.session(id@).pid);
            assert(s.handle == created.session(id@).handle);
            assert(s.created_at == created.session(id@).created_at);
            assert(s.scripts == loaded.session(id@).scripts);
            assert(FridaSessionManager::creation_events(Some(path), created.session(id@))
                =~= Self::instrumentation_events(path@, script_content@, id@, s, false));
            let events = Self::instrumentation_events(path@, script_content@, id@, s, injected);
            assert(instrumented =~= asked + events);
            assert(engine.trace() =~= asked + events.push(engine.trace().last()));
            assert(before.extended_by(s) == before.extended_by(created.session(id@)));
        }
        match resumed {
            Ok(_) => {},
            Err(e) => {
                return Err(e);
            },
        }
        match manager.get_pid(id) {
            Some(pid) => Ok(pid),
            None => Err(SessionError::not_found(id)),
        }
    }

    /// Attaches to the running process `pid` and registers a session for
    /// it. Returns `pid`.
    pub fn attach_process<E: Engine>(
        &self,
        manager: &mut FridaSessionManager,
        engine: &mut Traced<E>,
        pid: u32,
    ) -> (r: Result<u32, SessionError>)
        requires
            old(manager).wf(),
            old(manager)@.next < u32::MAX,
        ensures
            final(manager).wf(),
            match r {
                Ok(attached) => {
                    let created = final(manager)@.session(old(manager)@.next_id());
                    &&& attached == pid
                    &&& final(manager)@ == old(manager)@.extended_by(created)
                    &&& created.pid == pid
                    &&& final(engine).trace() == old(engine).trace()
                        + FridaSessionManager::creation_events(None, created)
                },
                Err(e) => {
                    &&& e.kind == ErrorKind::AttachFailed
                    &&& final(manager)@ == old(manager)@
                    &&& final(engine).trace() == old(engine).trace().push(
                        EngineEvent::Attach { pid, answer: Err(e.detail@) },
                    )
                },
            },
    {
        let ghost before = engine.trace();
        match manager.create_session(engine, Some(pid), None) {
            Ok(_) => Ok(pid),
            Err(e) => {
                proof {
                    let events = seq![EngineEvent::Attach { pid, answer: Err(e.detail@) }];
                    assert(engine.trace() =~= before + added(before, engine.trace()));
                    assert(before + events =~= before.push(events[0]));
                }
                Err(e)
            },
        }
    }

    /// Lets the process `pid` run, whether or not a session is attached to
    /// it: the engine is asked once to resume the process. Its failure is
    /// reported as `ResumeFailed`, with the engine's text.
    pub fn resume_process<E: Engine>(&self, engine: &mut Traced<E>, pid: u32) -> (r: Result<
        (),
        SessionError,
    >)
        ensures
            r is Err ==> r->Err_0.kind == ErrorKind::ResumeFailed,
            final(engine).trace() == old(engine).trace().push(
                EngineEvent::Resume {
                    pid,
                    answer: match r {
                        Ok(_) => Ok(()),
                        Err(e) => Err(e.detail@),
                    },
                },
            ),
    {
        match engine.resume(pid) {
            Ok(_) => Ok(()),
            Err(detail) => Err(SessionError::from_engine(ErrorKind::ResumeFailed, detail)),
        }
    }

    /// Injects `script_content` into the process `pid`; see
    /// `execute_script`.
    pub fn inject_script<E: Engine>(
        &self,
        manager: &mut FridaSessionManager,
        engine: &mut Traced<E>,
        pid: u32,
        script_content: &str,
    ) -> (r: Result<(), SessionError>)
        requires
            old(manager).wf(),
            old(manager)@.first_for_pid(pid) is None ==> old(manager)@.next < u32::MAX,
        ensures
            final(manager).wf(),
            script_executed(
                old(manager)@,
                final(manager)@,
                old(engine).trace(),
                final(engine).trace(),
                pid,
                script_content@,
                failure_of(r),
            ),
    {
        execute_script(manager, engine, pid, script_content)
    }
}

} // verus!
