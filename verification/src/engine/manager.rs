//! The session manager: creation, injection, resumption, polling and
//! destruction of instrumentation sessions.
//!
//! Each operation that needs the engine comes in two forms. The functions
//! `select_target`, `plan_inject`, `plan_resume`, `after_attach`,
//! `after_inject`, `after_resume` and `remove` decide: they say what the
//! engine is to be asked, and what an answer of the engine makes of the
//! registry. The functions `create_session`, `inject_script`,
//! `resume_process` and `destroy_session` do the asking as well.

use vstd::prelude::*;
use vstd::string::*;
use crate::engine::backend::{added, extends, lemma_added, Engine, EngineEvent, Traced};
use crate::engine::error::{
    inactive_text,
    invalid_target_text,
    not_found_text,
    ErrorKind,
    SessionError,
};
use crate::engine::registry::{ListingEntry, RegistryView};
use crate::engine::session::{
    message_texts,
    script_values,
    EngineHandle,
    ScriptHandle,
    Session,
    SessionState,
    SessionView,
};
use crate::engine::session_id::{
    format_session_id,
    parse_session_id,
    session_id_text,
    session_number,
};

verus! {

/// Where an identifier stands in a registry.
#[derive(Clone, Copy, Debug, PartialEq, Eq, Structural)]
pub enum Lookup {
    /// It names the live session at this position.
    Live(usize),
    /// It was issued, and its session has been destroyed.
    Destroyed,
    /// It was never issued.
    Unknown,
}

/// What a request for a new session asks the engine to do first.
#[derive(Clone, Copy, Debug)]
pub enum Target<'a> {
    /// Attach to the running process with this id.
    Attach(u32),
    /// Spawn the program at this path, suspended, and attach to it.
    Spawn(&'a str),
}

/// What the engine answered to the request to compile and load a script.
#[derive(Debug)]
pub enum ScriptOutcome {
    /// The script is loaded.
    Loaded(ScriptHandle),
    /// The source did not compile.
    CompileFailed(String),
    /// The script compiled and could not be loaded.
    LoadFailed(String),
}

/// Decides what a request for a new session asks for. Exactly one of a
/// process id and a spawn path names a target; any other request is
/// invalid.
pub fn select_target<'a>(pid: Option<u32>, spawn_path: Option<&'a str>) -> (r: Result<
    Target<'a>,
    SessionError,
>)
    ensures
        match r {
            Ok(Target::Attach(p)) => pid == Some(p) && spawn_path is None,
            Ok(Target::Spawn(path)) => pid is None && spawn_path == Some(path),
            Err(e) => (pid is Some <==> spawn_path is Some) && e.carries(
                ErrorKind::InvalidArgument,
                invalid_target_text(),
            ),
        },
{
    match (pid, spawn_path) {
        (Some(p), None) => Ok(Target::Attach(p)),
        (None, Some(path)) => Ok(Target::Spawn(path)),
        _ => Err(SessionError::invalid_target()),
    }
}

/// The registry of sessions. It owns every session record, and with it every
/// engine handle.
#[derive(Debug)]
pub struct FridaSessionManager {
    sessions: Vec<Session>,
    next_id: u32,
}

impl View for FridaSessionManager {
    type V = RegistryView;

    closed spec fn view(&self) -> RegistryView {
        RegistryView {
            sessions: self.sessions@.map_values(|s: Session| s@),
            next: self.next_id as nat,
        }
    }
}

/// The texts of a batch of messages, each with the session it is meant for.
pub open spec fn batch_texts(batch: Seq<(String, String)>) -> Seq<(Seq<char>, Seq<char>)> {
    batch.map_values(|m: (String, String)| (m.0@, m.1@))
}

/// The texts of a listing as the manager returns it.
pub open spec fn listing_texts(entries: Seq<(String, u32, bool)>) -> Seq<ListingEntry> {
    entries.map_values(|e: (String, u32, bool)| (e.0@, e.1, e.2))
}

impl FridaSessionManager {
    /// The invariant of the manager; see `RegistryView::wf`.
    pub open spec fn wf(&self) -> bool {
        self@.wf()
    }

    /// A manager without sessions. The first session it registers gets the
    /// sequence number one.
    pub fn new() -> (m: FridaSessionManager)
        ensures
            m.wf(),
            m@ == RegistryView::empty(),
    {
        let m = FridaSessionManager { sessions: Vec::new(), next_id: 1 };
        assert(m@.sessions =~= Seq::empty());
        m
    }

    /// Whether one more session can be registered: sequence numbers are
    /// 32-bit, and the last of them is never issued.
    pub fn has_capacity(&self) -> (r: bool)
        ensures
            r == (self@.next < u32::MAX),
    {
        self.next_id < u32::MAX
    }

    /// Finds out where `id` stands.
    pub fn lookup(&self, id: &str) -> (r: Lookup)
        requires
            self.wf(),
        ensures
            match r {
                Lookup::Live(i) => self@.position(id@) == Some(i as int),
                Lookup::Destroyed => !self@.contains(id@) && self@.was_issued(id@),
                Lookup::Unknown => !self@.contains(id@) && !self@.was_issued(id@),
            },
    {
        match parse_session_id(id) {
            None => {
                proof {
                    if session_number(id@) is Some {
                        let n = session_number(id@)->0;
                        assert(n > u32::MAX);
                        assert forall|i: int| !self@.has_number_at(n, i) by {}
                    }
                }
                Lookup::Unknown
            },
            Some(n) => {
                let mut i: usize = 0;
                while i < self.sessions.len()
                    invariant
                        i <= self.sessions.len(),
                        self.wf(),
                        session_number(id@) == Some(n as nat),
                        forall|j: int| 0 <= j < i ==> !self@.has_number_at(n as nat, j),
                    decreases self.sessions.len() - i,
                {
                    assert(self@.sessions[i as int] == self.sessions[i as int]@);
                    if self.sessions[i].number() == n {
                        proof {
                            self@.lemma_index_of(n as nat, i as int);
                        }
                        return Lookup::Live(i);
                    }
                    i += 1;
                }
                assert forall|j: int| !self@.has_number_at(n as nat, j) by {}
                if 1 <= n && n < self.next_id {
                    Lookup::Destroyed
                } else {
                    Lookup::Unknown
                }
            },
        }
    }

    /// Registers a session for the process `pid`, to which the engine is
    /// attached through `handle` since the time `created_at`, and returns
    /// its identifier.
    pub fn register(&mut self, pid: u32, handle: EngineHandle, created_at: u64) -> (id: String)
        requires
            old(self).wf(),
            old(self)@.next < u32::MAX,
        ensures
            final(self).wf(),
            final(self)@ == old(self)@.registered(pid, handle@, created_at),
            id@ == old(self)@.next_id(),
            final(self)@.contains(id@),
            final(self)@.session(id@) == SessionView::fresh(
                old(self)@.next,
                pid,
                handle@,
                created_at,
            ),
    {
        let number = self.next_id;
        self.sessions.push(Session::attached(number, pid, handle, created_at));
        self.next_id = number + 1;
        proof {
            assert(self@.sessions =~= old(self)@.registered(pid, handle@, created_at).sessions);
            old(self)@.lemma_registered(pid, handle@, created_at);
        }
        format_session_id(number)
    }

    /// One delivery of the message pump: appends `message` to the inbox of
    /// the session `id`. A message for anything but a live session is
    /// dropped; the result says whether the message was kept.
    pub fn deliver(&mut self, id: &str, message: String) -> (kept: bool)
        requires
            old(self).wf(),
        ensures
            final(self).wf(),
            final(self)@ == old(self)@.delivered(id@, message@),
            kept == old(self)@.contains(id@),
            final(self)@.contains(id@) == kept,
            kept ==> final(self)@.messages(id@) == old(self)@.messages(id@).push(message@),
    {
        match self.lookup(id) {
            Lookup::Live(i) => {
                self.sessions[i].receive(message);
                proof {
                    let before = old(self)@;
                    let s = before.session(id@).received(message@);
                    assert(before.sessions[i as int] == old(self).sessions[i as int]@);
                    assert(self@.sessions =~= before.with_session(id@, s).sessions);
                    before.lemma_with_session(id@, s);
                }
                true
            },
            _ => false,
        }
    }

    /// Delivers a batch of messages in its order, each to the session that
    /// its first component names.
    pub fn deliver_all(&mut self, batch: Vec<(String, String)>)
        requires
            old(self).wf(),
        ensures
            final(self).wf(),
            final(self)@ == old(self)@.delivered_batch(batch_texts(batch@)),
    {
        let ghost items = batch_texts(batch@);
        for message in it: batch.into_iter()
            invariant
                self.wf(),
                batch_texts(it.seq()) == items,
                self@ == old(self)@.delivered_batch(items.subrange(0, it.index() as int)),
        {
            proof {
                let done = items.subrange(0, it.index() as int);
                let next = items.subrange(0, it.index() + 1);
                assert(next.drop_last() =~= done);
                assert(next.last() == (message.0@, message.1@));
            }
            let (id, text) = message;
            self.deliver(id.as_str(), text);
        }
        assert(items.subrange(0, items.len() as int) =~= items);
    }

    /// When the session `id` was created, in seconds on the engine's clock.
    pub fn get_created_at(&self, id: &str) -> (at: Option<u64>)
        requires
            self.wf(),
        ensures
            at == self@.created_at_of(id@),
    {
        match self.lookup(id) {
            Lookup::Live(i) => {
                assert(self@.sessions[i as int] == self.sessions[i as int]@);
                Some(self.sessions[i].created_at())
            },
            _ => None,
        }
    }

    /// A copy of everything the session `id` has received since it was
    /// created, oldest first. For an identifier that names no live session
    /// the result is empty.
    pub fn get_messages(&self, id: &str) -> (messages: Vec<String>)
        requires
            self.wf(),
        ensures
            message_texts(messages@) == self@.messages(id@),
    {
        match self.lookup(id) {
            Lookup::Live(i) => {
                assert(self@.sessions[i as int] == self.sessions[i as int]@);
                self.sessions[i].messages()
            },
            _ => {
                let messages: Vec<String> = Vec::new();
                assert(message_texts(messages@) =~= Seq::empty());
                messages
            },
        }
    }

    /// The process that the session `id` is attached to.
    pub fn get_pid(&self, id: &str) -> (pid: Option<u32>)
        requires
            self.wf(),
        ensures
            pid == self@.pid_of(id@),
    {
        match self.lookup(id) {
            Lookup::Live(i) => {
                assert(self@.sessions[i as int] == self.sessions[i as int]@);
                Some(self.sessions[i].pid())
            },
            _ => None,
        }
    }

    /// The lifecycle state behind `id`.
    pub fn state_of(&self, id: &str) -> (state: Option<SessionState>)
        requires
            self.wf(),
        ensures
            state == self@.state_of(id@),
    {
        match self.lookup(id) {
            Lookup::Live(i) => {
                assert(self@.sessions[i as int] == self.sessions[i as int]@);
                Some(self.sessions[i].state())
            },
            Lookup::Destroyed => Some(SessionState::Destroyed),
            Lookup::Unknown => None,
        }
    }

    /// The number of live sessions.
    pub fn session_count(&self) -> (n: usize)
        ensures
            n == self@.sessions.len(),
    {
        self.sessions.len()
    }

    /// A snapshot of the registry: identifier, process id and activity of
    /// every live session, oldest first.
    pub fn list_sessions(&self) -> (entries: Vec<(String, u32, bool)>)
        requires
            self.wf(),
        ensures
            listing_texts(entries@) == self@.listing(),
    {
        let mut entries: Vec<(String, u32, bool)> = Vec::new();
        let mut i: usize = 0;
        while i < self.sessions.len()
            invariant
                i <= self.sessions.len(),
                entries.len() == i,
                forall|j: int|
                    0 <= j < i ==> (#[trigger] entries[j]).0@ == session_id_text(
                        self.sessions[j]@.number,
                    ) && entries[j].1 == self.sessions[j]@.pid && entries[j].2
                        == self.sessions[j]@.state.active(),
            decreases self.sessions.len() - i,
        {
            let session = &self.sessions[i];
            let state = session.state();
            entries.push((format_session_id(session.number()), session.pid(), state.is_active()));
            i += 1;
        }
        proof {
            assert forall|j: int| 0 <= j < entries.len() implies #[trigger] listing_texts(
                entries@,
            )[j] == self@.listing()[j] by {
                assert(self@.sessions[j] == self.sessions[j]@);
            }
            assert(listing_texts(entries@) =~= self@.listing());
        }
        entries
    }

    /// The identifier of the oldest active session attached to `pid`.
    pub fn find_active_for_pid(&self, pid: u32) -> (id: Option<String>)
        requires
            self.wf(),
        ensures
            match id {
                Some(id) => {
                    &&& self@.first_for_pid(pid) is Some
                    &&& id@ == session_id_text(
                        self@.sessions[self@.first_for_pid(pid)->0].number,
                    )
                    &&& self@.position(id@) == self@.first_for_pid(pid)
                    &&& self@.session(id@).pid == pid
                },
                None => self@.first_for_pid(pid) is None,
            },
    {
        let mut i: usize = 0;
        while i < self.sessions.len()
            invariant
                i <= self.sessions.len(),
                self.wf(),
                forall|j: int|
                    0 <= j < i ==> !((#[trigger] self@.sessions[j]).pid == pid
                        && self@.sessions[j].state.active()),
            decreases self.sessions.len() - i,
        {
            assert(self@.sessions[i as int] == self.sessions[i as int]@);
            let session = &self.sessions[i];
            let state = session.state();
            if session.pid() == pid && state.is_active() {
                proof {
                    assert(self@.is_first_for_pid(pid, i as int));
                    let c = choose|c: int| self@.is_first_for_pid(pid, c);
                    assert(c == i) by {
                        if c < i {
                            assert(self@.sessions[c].pid == pid);
                        } else if i < c {
                            assert(self@.sessions[i as int].pid == pid);
                        }
                    }
                    self@.lemma_position(session_id_text(session@.number), i as int);
                }
                return Some(format_session_id(session.number()));
            }
            i += 1;
        }
        proof {
            assert forall|c: int| !self@.is_first_for_pid(pid, c) by {
                if self@.is_first_for_pid(pid, c) {
                    assert(self@.sessions[c].pid == pid);
                }
            }
        }
        None
    }

    /// Finds the live session `id` for an operation on it. An identifier
    /// that was never issued fails with `NotFound`, the identifier of a
    /// destroyed session with `Inactive`.
    pub fn find_live(&self, id: &str) -> (r: Result<usize, SessionError>)
        requires
            self.wf(),
        ensures
            match self@.state_of(id@) {
                None => r is Err && r->Err_0.carries(ErrorKind::NotFound, not_found_text(id@)),
                Some(SessionState::Destroyed) => r is Err && r->Err_0.carries(
                    ErrorKind::Inactive,
                    inactive_text(id@),
                ),
                Some(_) => r is Ok && self@.position(id@) == Some(r->Ok_0 as int),
            },
    {
        match self.lookup(id) {
            Lookup::Unknown => Err(SessionError::not_found(id)),
            Lookup::Destroyed => Err(SessionError::inactive(id)),
            Lookup::Live(i) => {
                proof {
                    self@.lemma_contained_was_issued(id@);
                }
                Ok(i)
            },
        }
    }

    /// Decides whether a script may be injected into the session `id`, and
    /// if so names the connection that the engine is to compile the script
    /// for.
    pub fn plan_inject(&self, id: &str) -> (r: Result<&EngineHandle, SessionError>)
        requires
            self.wf(),
        ensures
            match self@.state_of(id@) {
                None => r is Err && r->Err_0.carries(ErrorKind::NotFound, not_found_text(id@)),
                Some(SessionState::Destroyed) => r is Err && r->Err_0.carries(
                    ErrorKind::Inactive,
                    inactive_text(id@),
                ),
                Some(_) => {
                    &&& r is Ok
                    &&& self@.contains(id@)
                    &&& r->Ok_0@ == self@.session(id@).handle
                },
            },
    {
        match self.find_live(id) {
            Ok(i) => {
                assert(self@.sessions[i as int] == self.sessions[i as int]@);
                Ok(self.sessions[i].handle())
            },
            Err(e) => Err(e),
        }
    }

    /// Decides whether the target of the session `id` may be resumed, and if
    /// so names the process that the engine is to resume.
    pub fn plan_resume(&self, id: &str) -> (r: Result<u32, SessionError>)
        requires
            self.wf(),
        ensures
            match self@.state_of(id@) {
                None => r is Err && r->Err_0.carries(ErrorKind::NotFound, not_found_text(id@)),
                Some(SessionState::Destroyed) => r is Err && r->Err_0.carries(
                    ErrorKind::Inactive,
                    inactive_text(id@),
                ),
                Some(_) => {
                    &&& r is Ok
                    &&& self@.contains(id@)
                    &&& r->Ok_0 == self@.session(id@).pid
                },
            },
    {
        match self.find_live(id) {
            Ok(i) => {
                assert(self@.sessions[i as int] == self.sessions[i as int]@);
                Ok(self.sessions[i].pid())
            },
            Err(e) => Err(e),
        }
    }

    /// Finishes the creation of a session once the engine has answered the
    /// request to attach to `pid`: a connection, with the time at which it
    /// was opened, is registered under a new identifier; a failure is
    /// reported as `AttachFailed` and leaves no record.
    pub fn after_attach(
        &mut self,
        pid: u32,
        outcome: Result<(EngineHandle, u64), String>,
    ) -> (r: Result<String, SessionError>)
        requires
            old(self).wf(),
            outcome is Ok ==> old(self)@.next < u32::MAX,
        ensures
            final(self).wf(),
            match outcome {
                Ok(opened) => {
                    &&& r is Ok
                    &&& r->Ok_0@ == old(self)@.next_id()
                    &&& final(self)@ == old(self)@.registered(pid, opened.0@, opened.1)
                    &&& final(self)@.contains(r->Ok_0@)
                    &&& final(self)@.session(r->Ok_0@) == SessionView::fresh(
                        old(self)@.next,
                        pid,
                        opened.0@,
                        opened.1,
                    )
                },
                Err(detail) => {
                    &&& r is Err
                    &&& r->Err_0.carries(ErrorKind::AttachFailed, detail@)
                    &&& final(self)@ == old(self)@
                },
            },
    {
        match outcome {
            Ok((handle, opened_at)) => Ok(self.register(pid, handle, opened_at)),
            Err(detail) => Err(SessionError::from_engine(ErrorKind::AttachFailed, detail)),
        }
    }

    /// The position of the live session `id`.
    fn position_of_live(&self, id: &str) -> (i: usize)
        requires
            self.wf(),
            self@.contains(id@),
        ensures
            self@.position(id@) == Some(i as int),
            i < self.sessions@.len(),
            self@.sessions[i as int] == self.sessions[i as int]@,
    {
        match self.lookup(id) {
            Lookup::Live(i) => {
                proof {
                    self@.lemma_position_valid(id@);
                }
                i
            },
            _ => unreached(),
        }
    }

    /// Finishes an injection into the live session `id` once the engine has
    /// answered: a loaded script is recorded and moves the session to
    /// `ScriptLoaded`, a failure is reported under its own kind and leaves
    /// the session as it was. The inbox is never touched.
    pub fn after_inject(&mut self, id: &str, outcome: ScriptOutcome) -> (r: Result<
        (),
        SessionError,
    >)
        requires
            old(self).wf(),
            old(self)@.contains(id@),
        ensures
            final(self).wf(),
            match outcome {
                ScriptOutcome::Loaded(script) => {
                    &&& r is Ok
                    &&& final(self)@ == old(self)@.script_loaded(id@, script@)
                    &&& final(self)@.contains(id@)
                    &&& final(self)@.session(id@) == old(self)@.session(id@).script_loaded(
                        script@,
                    )
                },
                ScriptOutcome::CompileFailed(detail) => {
                    &&& r is Err
                    &&& r->Err_0.carries(ErrorKind::ScriptCompileError, detail@)
                    &&& final(self)@ == old(self)@
                },
                ScriptOutcome::LoadFailed(detail) => {
                    &&& r is Err
                    &&& r->Err_0.carries(ErrorKind::ScriptLoadError, detail@)
                    &&& final(self)@ == old(self)@
                },
            },
    {
        match outcome {
            ScriptOutcome::Loaded(script) => {
                let i = self.position_of_live(id);
                self.sessions[i].record_script(script);
                proof {
                    let before = old(self)@;
                    let s = before.session(id@).script_loaded(script@);
                    assert(self@.sessions =~= before.with_session(id@, s).sessions);
                    before.lemma_with_session(id@, s);
                }
                Ok(())
            },
            ScriptOutcome::CompileFailed(detail) => Err(
                SessionError::from_engine(ErrorKind::ScriptCompileError, detail),
            ),
            ScriptOutcome::LoadFailed(detail) => Err(
                SessionError::from_engine(ErrorKind::ScriptLoadError, detail),
            ),
        }
    }

    /// Finishes a resume of the live session `id` once the engine has
    /// answered: success moves the session to `Resumed`, a failure is
    /// reported as `ResumeFailed` and leaves the session as it was.
    pub fn after_resume(&mut self, id: &str, outcome: Result<(), String>) -> (r: Result<
        (),
        SessionError,
    >)
        requires
            old(self).wf(),
            old(self)@.contains(id@),
        ensures
            final(self).wf(),
            match outcome {
                Ok(_) => {
                    &&& r is Ok
                    &&& final(self)@ == old(self)@.resumed(id@)
                    &&& final(self)@.contains(id@)
                    &&& final(self)@.session(id@) == old(self)@.session(id@).resumed()
                },
                Err(detail) => {
                    &&& r is Err
                    &&& r->Err_0.carries(ErrorKind::ResumeFailed, detail@)
                    &&& final(self)@ == old(self)@
                },
            },
    {
        match outcome {
            Ok(_) => {
                let i = self.position_of_live(id);
                self.sessions[i].record_resumed();
                proof {
                    let before = old(self)@;
                    let s = before.session(id@).resumed();
                    assert(self@.sessions =~= before.with_session(id@, s).sessions);
                    before.lemma_with_session(id@, s);
                }
                Ok(())
            },
            Err(detail) => Err(SessionError::from_engine(ErrorKind::ResumeFailed, detail)),
        }
    }

    /// Removes the record of the session `id` from the registry and hands
    /// it out, with the engine resources it owns. Nothing happens, and
    /// nothing is handed out, where `id` names no live session.
    pub fn remove(&mut self, id: &str) -> (record: Option<Session>)
        requires
            old(self).wf(),
        ensures
            final(self).wf(),
            final(self)@ == old(self)@.destroyed(id@),
            record is Some <==> old(self)@.contains(id@),
            record is Some ==> record->0@ == old(self)@.session(id@),
            !final(self)@.contains(id@),
            final(self)@.was_issued(id@) == old(self)@.was_issued(id@),
    {
        match self.lookup(id) {
            Lookup::Live(i) => {
                let record = self.sessions.remove(i);
                proof {
                    let before = old(self)@;
                    assert(before.sessions[i as int] == old(self).sessions[i as int]@);
                    assert(self@.sessions =~= before.destroyed(id@).sessions);
                    before.lemma_destroyed(id@);
                }
                Some(record)
            },
            _ => None,
        }
    }

    /// What a successful creation has asked of the engine, given the session
    /// that came of it: to spawn the program if a path was given, to attach
    /// to the process, and to read the clock.
    pub open spec fn creation_events(spawn_path: Option<&str>, created: SessionView) -> Seq<
        EngineEvent,
    > {
        let attach = seq![
            EngineEvent::Attach { pid: created.pid, answer: Ok(created.handle) },
            EngineEvent::Now { answer: created.created_at },
        ];
        match spawn_path {
            Some(path) => seq![EngineEvent::Spawn { path: path@, answer: Ok(created.pid) }]
                + attach,
            None => attach,
        }
    }

    /// Whether `events` is what a creation that failed with `e` has asked of
    /// the engine: nothing for an invalid request, a spawn that failed, or
    /// an attach that failed, behind the spawn that gave the process if a
    /// path was given.
    pub open spec fn failed_creation_events(
        pid: Option<u32>,
        spawn_path: Option<&str>,
        e: SessionError,
        events: Seq<EngineEvent>,
    ) -> bool {
        match e.kind {
            ErrorKind::InvalidArgument => events.len() == 0,
            ErrorKind::ProcessSpawnError => spawn_path is Some && events == seq![
                EngineEvent::Spawn { path: spawn_path->0@, answer: Err(e.detail@) },
            ],
            ErrorKind::AttachFailed => match spawn_path {
                None => pid is Some && events == seq![
                    EngineEvent::Attach { pid: pid->0, answer: Err(e.detail@) },
                ],
                Some(path) => {
                    &&& events.len() == 2
                    &&& events[0] is Spawn
                    &&& events[0]->Spawn_path == path@
                    &&& events[0]->Spawn_answer is Ok
                    &&& events[1] == (EngineEvent::Attach {
                        pid: events[0]->Spawn_answer->Ok_0,
                        answer: Err(e.detail@),
                    })
                },
            },
            _ => false,
        }
    }

    /// Creates a session: attaches to the process `pid`, or spawns the
    /// program at `spawn_path` suspended and attaches to the new process.
    ///
    /// Exactly one of the two must be given; any other request fails with
    /// `InvalidArgument` before the engine is touched. A failure of the
    /// engine is reported as `ProcessSpawnError` or `AttachFailed`, with the
    /// engine's text, and leaves no record. On success the session is
    /// registered in state `Attached` with an empty inbox, under an
    /// identifier that was never issued before.
    pub fn create_session<E: Engine>(
        &mut self,
        engine: &mut Traced<E>,
        pid: Option<u32>,
        spawn_path: Option<&str>,
    ) -> (r: Result<String, SessionError>)
        requires
            old(self).wf(),
            (pid is Some) != (spawn_path is Some) ==> old(self)@.next < u32::MAX,
        ensures
            final(self).wf(),
            (pid is Some <==> spawn_path is Some) ==> {
                &&& r is Err
                &&& r->Err_0.carries(ErrorKind::InvalidArgument, invalid_target_text())
            },
            match r {
                Ok(id) => {
                    let created = final(self)@.session(id@);
                    &&& (pid is Some) != (spawn_path is Some)
                    &&& id@ == old(self)@.next_id()
                    &&& final(self)@.contains(id@)
                    &&& final(self)@ == old(self)@.extended_by(created)
                    &&& created == SessionView::fresh(
                        old(self)@.next,
                        created.pid,
                        created.handle,
                        created.created_at,
                    )
                    &&& pid is Some ==> created.pid == pid->0
                    &&& final(engine).trace() == old(engine).trace() + Self::creation_events(
                        spawn_path,
                        created,
                    )
                },
                Err(e) => {
                    &&& final(self)@ == old(self)@
                    &&& (e.kind == ErrorKind::InvalidArgument) == (pid is Some <==> spawn_path
                        is Some)
                    &&& extends(old(engine).trace(), final(engine).trace())
                    &&& Self::failed_creation_events(
                        pid,
                        spawn_path,
                        e,
                        added(old(engine).trace(), final(engine).trace()),
                    )
                },
            },
    {
        let ghost before = engine.trace();
        let target = match select_target(pid, spawn_path) {
            Ok(target) => target,
            Err(e) => {
                proof {
                    lemma_added(before, Seq::empty());
                    assert(before + Seq::<EngineEvent>::empty() =~= before);
                }
                return Err(e);
            },
        };
        let target_pid = match target {
            Target::Attach(p) => p,
            Target::Spawn(path) => match engine.spawn(path) {
                Ok(p) => p,
                Err(detail) => {
                    let e = SessionError::from_engine(ErrorKind::ProcessSpawnError, detail);
                    proof {
                        let events = seq![
                            EngineEvent::Spawn { path: path@, answer: Err(e.detail@) },
                        ];
                        lemma_added(before, events);
                        assert(engine.trace() =~= before + events);
                    }
                    return Err(e);
                },
            },
        };
        let ghost spawned = engine.trace();
        let outcome = match engine.attach(target_pid) {
            Ok(handle) => Ok((handle, engine.now())),
            Err(detail) => Err(detail),
        };
        let ghost after = engine.trace();
        let ghost failed = outcome is Err;
        let ghost detail = if outcome is Err {
            outcome->Err_0@
        } else {
            Seq::empty()
        };
        let r = self.after_attach(target_pid, outcome);
        proof {
            if r is Ok {
                let created = self@.session(r->Ok_0@);
                assert(after =~= before + Self::creation_events(spawn_path, created));
            } else {
                let attach = EngineEvent::Attach { pid: target_pid, answer: Err(detail) };
                assert(after == spawned.push(attach));
                if spawn_path is Some {
                    let events = seq![spawned.last(), attach];
                    lemma_added(before, events);
                    assert(after =~= before + events);
                } else {
                    let events = seq![attach];
                    lemma_added(before, events);
                    assert(after =~= before + events);
                }
            }
        }
        r
    }

    /// What a successful injection has asked of the engine: to compile the
    /// source for the connection of the session, with the session as the
    /// addressee of the messages, and to load the script that came of it.
    pub open spec fn injection_events(
        connection: u64,
        source: Seq<char>,
        session_id: Seq<char>,
        script: u64,
    ) -> Seq<EngineEvent> {
        seq![
            EngineEvent::CreateScript { connection, source, session_id, answer: Ok(script) },
            EngineEvent::LoadScript { script, answer: Ok(()) },
        ]
    }

    /// Whether `events` is what an injection that failed in the engine with
    /// `e` has asked of it: a compilation that failed, or a compilation, a
    /// load that failed, and the release of the script that could not be
    /// loaded.
    pub open spec fn failed_injection_events(
        connection: u64,
        source: Seq<char>,
        session_id: Seq<char>,
        e: SessionError,
        events: Seq<EngineEvent>,
    ) -> bool {
        match e.kind {
            ErrorKind::ScriptCompileError => events == seq![
                EngineEvent::CreateScript {
                    connection,
                    source,
                    session_id,
                    answer: Err(e.detail@),
                },
            ],
            ErrorKind::ScriptLoadError => {
                &&& events.len() == 3
                &&& events[0] is CreateScript
                &&& events[0]->CreateScript_answer is Ok
                &&& events == {
                    let script = events[0]->CreateScript_answer->Ok_0;
                    seq![
                        EngineEvent::CreateScript {
                            connection,
                            source,
                            session_id,
                            answer: Ok(script),
                        },
                        EngineEvent::LoadScript { script, answer: Err(e.detail@) },
                        EngineEvent::ReleaseScript { script },
                    ]
                }
            },
            _ => false,
        }
    }

    /// Compiles and loads `script_content` into the target of the session
    /// `session_id`; the messages the script emits go to that session's
    /// inbox.
    ///
    /// An identifier that was never issued fails with `NotFound`, the
    /// identifier of a destroyed session with `Inactive`; in both cases the
    /// engine is not called. A failure of the engine is reported as
    /// `ScriptCompileError` or `ScriptLoadError`, with the engine's text,
    /// and leaves the session as it was; a script that does not load is
    /// released at once. Success moves the session to `ScriptLoaded`; the
    /// inbox keeps what it holds, also when a script is injected again.
    pub fn inject_script<E: Engine>(
        &mut self,
        engine: &mut Traced<E>,
        session_id: &str,
        script_content: &str,
    ) -> (r: Result<(), SessionError>)
        requires
            old(self).wf(),
        ensures
            final(self).wf(),
            match old(self)@.state_of(session_id@) {
                None => {
                    &&& r is Err
                    &&& r->Err_0.carries(ErrorKind::NotFound, not_found_text(session_id@))
                    &&& final(self)@ == old(self)@
                    &&& final(engine).trace() == old(engine).trace()
                },
                Some(SessionState::Destroyed) => {
                    &&& r is Err
                    &&& r->Err_0.carries(ErrorKind::Inactive, inactive_text(session_id@))
                    &&& final(self)@ == old(self)@
                    &&& final(engine).trace() == old(engine).trace()
                },
                Some(_) => {
                    let connection = old(self)@.session(session_id@).handle;
                    &&& old(self)@.contains(session_id@)
                    &&& match r {
                        Ok(_) => {
                            let script = final(self)@.session(session_id@).scripts.last();
                            &&& final(self)@.contains(session_id@)
                            &&& final(self)@ == old(self)@.script_loaded(session_id@, script)
                            &&& final(self)@.session(session_id@) == old(self)@.session(
                                session_id@,
                            ).script_loaded(script)
                            &&& final(engine).trace() == old(engine).trace()
                                + Self::injection_events(
                                connection,
                                script_content@,
                                session_id@,
                                script,
                            )
                        },
                        Err(e) => {
                            &&& final(self)@ == old(self)@
                            &&& extends(old(engine).trace(), final(engine).trace())
                            &&& Self::failed_injection_events(
                                connection,
                                script_content@,
                                session_id@,
                                e,
                                added(old(engine).trace(), final(engine).trace()),
                            )
                        },
                    }
                },
            },
    {
        let ghost before = engine.trace();
        let connection = match self.plan_inject(session_id) {
            Ok(connection) => connection,
            Err(e) => {
                return Err(e);
            },
        };
        let ghost handle = connection@;
        let outcome = match engine.create_script(connection, script_content, session_id) {
            Err(detail) => ScriptOutcome::CompileFailed(detail),
            Ok(script) => match engine.load_script(&script) {
                Ok(_) => ScriptOutcome::Loaded(script),
                Err(detail) => {
                    engine.release_script(script);
                    ScriptOutcome::LoadFailed(detail)
                },
            },
        };
        let ghost after = engine.trace();
        proof {
            if outcome is Loaded {
                assert(after =~= before + Self::injection_events(
                    handle,
                    script_content@,
                    session_id@,
                    outcome->Loaded_0@,
                ));
            } else if outcome is CompileFailed {
                let events = seq![
                    EngineEvent::CreateScript {
                        connection: handle,
                        source: script_content@,
                        session_id: session_id@,
                        answer: Err(outcome->CompileFailed_0@),
                    },
                ];
                lemma_added(before, events);
                assert(after =~= before + events);
            } else {
                let script = after[before.len() as int]->CreateScript_answer->Ok_0;
                let events = seq![
                    EngineEvent::CreateScript {
                        connection: handle,
                        source: script_content@,
                        session_id: session_id@,
                        answer: Ok(script),
                    },
                    EngineEvent::LoadScript { script, answer: Err(outcome->LoadFailed_0@) },
                    EngineEvent::ReleaseScript { script },
                ];
                lemma_added(before, events);
                assert(after =~= before + events);
            }
        }
        self.after_inject(session_id, outcome)
    }

    /// Lets the target of the session `session_id` run.
    ///
    /// An identifier that was never issued fails with `NotFound`, the
    /// identifier of a destroyed session with `Inactive`; in both cases the
    /// engine is not called. Otherwise the engine is asked once to resume
    /// the process of the session. Its failure is reported as
    /// `ResumeFailed`, with the engine's text, and leaves the session as it
    /// was. Success moves the session to `Resumed`, whether or not a script
    /// was injected before.
    pub fn resume_process<E: Engine>(
        &mut self,
        engine: &mut Traced<E>,
        session_id: &str,
    ) -> (r: Result<(), SessionError>)
        requires
            old(self).wf(),
        ensures
            final(self).wf(),
            match old(self)@.state_of(session_id@) {
                None => {
                    &&& r is Err
                    &&& r->Err_0.carries(ErrorKind::NotFound, not_found_text(session_id@))
                    &&& final(self)@ == old(self)@
                    &&& final(engine).trace() == old(engine).trace()
                },
                Some(SessionState::Destroyed) => {
                    &&& r is Err
                    &&& r->Err_0.carries(ErrorKind::Inactive, inactive_text(session_id@))
                    &&& final(self)@ == old(self)@
                    &&& final(engine).trace() == old(engine).trace()
                },
                Some(_) => {
                    let pid = old(self)@.session(session_id@).pid;
                    &&& old(self)@.contains(session_id@)
                    &&& match r {
                        Ok(_) => {
                            &&& final(self)@.contains(session_id@)
                            &&& final(self)@ == old(self)@.resumed(session_id@)
                            &&& final(self)@.session(session_id@) == old(self)@.session(
                                session_id@,
                            ).resumed()
                            &&& final(engine).trace() == old(engine).trace().push(
                                EngineEvent::Resume { pid, answer: Ok(()) },
                            )
                        },
                        Err(e) => {
                            &&& final(self)@ == old(self)@
                            &&& e.kind == ErrorKind::ResumeFailed
                            &&& final(engine).trace() == old(engine).trace().push(
                                EngineEvent::Resume { pid, answer: Err(e.detail@) },
                            )
                        },
                    }
                },
            },
    {
        let pid = match self.plan_resume(session_id) {
            Ok(pid) => pid,
            Err(e) => {
                return Err(e);
            },
        };
        let outcome = engine.resume(pid);
        self.after_resume(session_id, outcome)
    }

    /// What the release of the resources of a session asks of the engine:
    /// to release the scripts, the newest first, and then the connection.
    pub open spec fn release_events(s: SessionView) -> Seq<EngineEvent> {
        script_releases(s.scripts).push(EngineEvent::ReleaseSession { connection: s.handle })
    }

    /// Destroys the session `session_id`: its record is removed, its inbox
    /// discarded, and every engine resource it owns is handed back to the
    /// engine once, the scripts first and the connection last.
    ///
    /// The call never fails. For an identifier that names no live session
    /// it does nothing at all, so destroying twice is the same as
    /// destroying once.
    pub fn destroy_session<E: Engine>(
        &mut self,
        engine: &mut Traced<E>,
        session_id: &str,
    ) -> (r: Result<(), SessionError>)
        requires
            old(self).wf(),
        ensures
            final(self).wf(),
            r is Ok,
            final(self)@ == old(self)@.destroyed(session_id@),
            !final(self)@.contains(session_id@),
            final(self)@.was_issued(session_id@) == old(self)@.was_issued(session_id@),
            final(engine).trace() == (if old(self)@.contains(session_id@) {
                old(engine).trace() + Self::release_events(old(self)@.session(session_id@))
            } else {
                old(engine).trace()
            }),
    {
        let ghost before = engine.trace();
        match self.remove(session_id) {
            Some(record) => {
                let ghost s = record@;
                let (handle, mut scripts) = record.into_resources();
                assert(engine.trace() + script_releases(script_values(scripts@)) =~= before
                    + script_releases(s.scripts));
                while scripts.len() > 0
                    invariant
                        engine.trace() + script_releases(script_values(scripts@)) == before
                            + script_releases(s.scripts),
                    decreases scripts.len(),
                {
                    let ghost held = script_values(scripts@);
                    let ghost traced = engine.trace();
                    match scripts.pop() {
                        Some(script) => {
                            engine.release_script(script);
                            proof {
                                let rest = script_values(scripts@);
                                let step = seq![EngineEvent::ReleaseScript { script: script@ }];
                                assert(held.drop_last() =~= rest);
                                assert(held.last() == script@);
                                assert(traced.push(EngineEvent::ReleaseScript { script: script@ })
                                    + script_releases(rest) =~= traced + (step + script_releases(
                                    rest,
                                )));
                            }
                        },
                        None => {},
                    }
                }
                assert(script_releases(script_values(scripts@)) =~= Seq::empty());
                assert(engine.trace() =~= before + script_releases(s.scripts));
                engine.release_session(handle);
                assert(engine.trace() =~= before + Self::release_events(s));
            },
            None => {},
        }
        Ok(())
    }
}

/// The events of the release of `scripts`, the newest first.
pub open spec fn script_releases(scripts: Seq<u64>) -> Seq<EngineEvent>
    decreases scripts.len(),
{
    if scripts.len() == 0 {
        Seq::empty()
    } else {
        seq![EngineEvent::ReleaseScript { script: scripts.last() }] + script_releases(
            scripts.drop_last(),
        )
    }
}

} // verus!
