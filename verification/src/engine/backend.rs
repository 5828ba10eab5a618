//! The instrumentation engine, as the registry consumes it.
//!
//! Nothing is assumed about what an engine answers. What the registry does
//! with an engine is recorded instead: every call goes through a `Traced`
//! engine, which keeps the sequence of the calls made and of the answers
//! given, and the contracts of the registry say what that sequence is.

use vstd::prelude::*;
use crate::engine::session::{EngineHandle, ScriptHandle};

verus! {

/// The primitives of an instrumentation engine.
///
/// Every method may fail, and a failure carries the engine's diagnostic
/// text.
pub trait Engine {
    /// Starts the program at `path` in a suspended state and returns the id
    /// of the new process.
    fn spawn(&mut self, path: &str) -> Result<u32, String>;

    /// Opens a connection to the process `pid`.
    fn attach(&mut self, pid: u32) -> Result<EngineHandle, String>;

    /// Compiles `source` for the process behind `session`. Messages that the
    /// script emits once loaded are to be delivered to the session
    /// `session_id`, in the order in which they are emitted.
    fn create_script(&mut self, session: &EngineHandle, source: &str, session_id: &str) -> Result<
        ScriptHandle,
        String,
    >;

    /// Loads a compiled script into its process.
    fn load_script(&mut self, script: &ScriptHandle) -> Result<(), String>;

    /// Lets the process `pid` run. Resuming a running process does nothing.
    fn resume(&mut self, pid: u32) -> Result<(), String>;

    /// The time on the engine's clock, in seconds.
    fn now(&mut self) -> u64;

    /// Unloads a script and gives up its handle.
    fn release_script(&mut self, script: ScriptHandle);

    /// Detaches from a process and gives up the connection.
    fn release_session(&mut self, session: EngineHandle);
}

/// One call of an engine, with what was handed to it and what it answered.
#[allow(inconsistent_fields)]
pub enum EngineEvent {
    Spawn { path: Seq<char>, answer: Result<u32, Seq<char>> },
    Attach { pid: u32, answer: Result<u64, Seq<char>> },
    CreateScript {
        connection: u64,
        source: Seq<char>,
        session_id: Seq<char>,
        answer: Result<u64, Seq<char>>,
    },
    LoadScript { script: u64, answer: Result<(), Seq<char>> },
    Resume { pid: u32, answer: Result<(), Seq<char>> },
    Now { answer: u64 },
    ReleaseScript { script: u64 },
    ReleaseSession { connection: u64 },
}

/// Whether `after` is `before` with further events behind it.
pub open spec fn extends(before: Seq<EngineEvent>, after: Seq<EngineEvent>) -> bool {
    before.len() <= after.len() && after.subrange(0, before.len() as int) == before
}

/// The events that `after` holds behind those of `before`.
pub open spec fn added(before: Seq<EngineEvent>, after: Seq<EngineEvent>) -> Seq<EngineEvent> {
    after.subrange(before.len() as int, after.len() as int)
}

/// What was added to a record is what stands behind the old record.
pub proof fn lemma_added(before: Seq<EngineEvent>, events: Seq<EngineEvent>)
    ensures
        extends(before, before + events),
        added(before, before + events) == events,
{
    assert((before + events).subrange(0, before.len() as int) =~= before);
    assert(added(before, before + events) =~= events);
}

/// An answer of the engine that carries a process id or nothing, as a
/// mathematical value.
pub open spec fn plain_answer<T>(r: Result<T, String>) -> Result<T, Seq<char>> {
    match r {
        Ok(value) => Ok(value),
        Err(detail) => Err(detail@),
    }
}

/// An answer of the engine that carries a connection, as a mathematical
/// value.
pub open spec fn connection_answer(r: Result<EngineHandle, String>) -> Result<u64, Seq<char>> {
    match r {
        Ok(handle) => Ok(handle@),
        Err(detail) => Err(detail@),
    }
}

/// An answer of the engine that carries a script, as a mathematical value.
pub open spec fn script_answer(r: Result<ScriptHandle, String>) -> Result<u64, Seq<char>> {
    match r {
        Ok(handle) => Ok(handle@),
        Err(detail) => Err(detail@),
    }
}

/// An engine together with the record of what it was asked and what it
/// answered since it was wrapped. The engine can only be called through the
/// methods of this type, so the record misses no call.
pub struct Traced<E: Engine> {
    engine: E,
    trace: Ghost<Seq<EngineEvent>>,
}

impl<E: Engine> Traced<E> {
    /// The calls made so far, oldest first.
    pub closed spec fn trace(&self) -> Seq<EngineEvent> {
        self.trace@
    }

    /// The engine that is wrapped, in the state in which its last call left
    /// it.
    pub closed spec fn inner(&self) -> E {
        self.engine
    }

    /// Wraps an engine; the record starts empty.
    pub fn new(engine: E) -> (traced: Traced<E>)
        ensures
            traced.trace() == Seq::<EngineEvent>::empty(),
            traced.inner() == engine,
    {
        Traced { engine, trace: Ghost(Seq::empty()) }
    }

    /// The engine, for a look at it.
    pub fn engine(&self) -> (engine: &E)
        ensures
            *engine == self.inner(),
    {
        &self.engine
    }

    /// Gives the engine back and drops the record.
    pub fn into_inner(self) -> (engine: E)
        ensures
            engine == self.inner(),
    {
        self.engine
    }

    /// Calls `Engine::spawn`.
    pub fn spawn(&mut self, path: &str) -> (r: Result<u32, String>)
        ensures
            final(self).trace() == old(self).trace().push(
                EngineEvent::Spawn { path: path@, answer: plain_answer(r) },
            ),
    {
        let r = self.engine.spawn(path);
        self.trace = Ghost(
            self.trace@.push(EngineEvent::Spawn { path: path@, answer: plain_answer(r) }),
        );
        r
    }

    /// Calls `Engine::attach`.
    pub fn attach(&mut self, pid: u32) -> (r: Result<EngineHandle, String>)
        ensures
            final(self).trace() == old(self).trace().push(
                EngineEvent::Attach { pid, answer: connection_answer(r) },
            ),
    {
        let r = self.engine.attach(pid);
        self.trace = Ghost(
            self.trace@.push(EngineEvent::Attach { pid, answer: connection_answer(r) }),
        );
        r
    }

    /// Calls `Engine::create_script`.
    pub fn create_script(
        &mut self,
        session: &EngineHandle,
        source: &str,
        session_id: &str,
    ) -> (r: Result<ScriptHandle, String>)
        ensures
            final(self).trace() == old(self).trace().push(
                EngineEvent::CreateScript {
                    connection: session@,
                    source: source@,
                    session_id: session_id@,
                    answer: script_answer(r),
                },
            ),
    {
        let r = self.engine.create_script(session, source, session_id);
        self.trace = Ghost(
            self.trace@.push(
                EngineEvent::CreateScript {
                    connection: session@,
                    source: source@,
                    session_id: session_id@,
                    answer: script_answer(r),
                },
            ),
        );
        r
    }

    /// Calls `Engine::load_script`.
    pub fn load_script(&mut self, script: &ScriptHandle) -> (r: Result<(), String>)
        ensures
            final(self).trace() == old(self).trace().push(
                EngineEvent::LoadScript { script: script@, answer: plain_answer(r) },
            ),
    {
        let r = self.engine.load_script(script);
        self.trace = Ghost(
            self.trace@.push(EngineEvent::LoadScript { script: script@, answer: plain_answer(r) }),
        );
        r
    }

    /// Calls `Engine::resume`.
    pub fn resume(&mut self, pid: u32) -> (r: Result<(), String>)
        ensures
            final(self).trace() == old(self).trace().push(
                EngineEvent::Resume { pid, answer: plain_answer(r) },
            ),
    {
        let r = self.engine.resume(pid);
        self.trace = Ghost(self.trace@.push(EngineEvent::Resume { pid, answer: plain_answer(r) }));
        r
    }

    /// Calls `Engine::now`.
    pub fn now(&mut self) -> (r: u64)
        ensures
            final(self).trace() == old(self).trace().push(EngineEvent::Now { answer: r }),
    {
        let r = self.engine.now();
        self.trace = Ghost(self.trace@.push(EngineEvent::Now { answer: r }));
        r
    }

    /// Calls `Engine::release_script`.
    pub fn release_script(&mut self, script: ScriptHandle)
        ensures
            final(self).trace() == old(self).trace().push(
                EngineEvent::ReleaseScript { script: script@ },
            ),
    {
        let ghost released = script@;
        self.engine.release_script(script);
        self.trace = Ghost(self.trace@.push(EngineEvent::ReleaseScript { script: released }));
    }

    /// Calls `Engine::release_session`.
    pub fn release_session(&mut self, session: EngineHandle)
        ensures
            final(self).trace() == old(self).trace().push(
                EngineEvent::ReleaseSession { connection: session@ },
            ),
    {
        let ghost released = session@;
        self.engine.release_session(session);
        self.trace = Ghost(
            self.trace@.push(EngineEvent::ReleaseSession { connection: released }),
        );
    }
}

} // verus!
