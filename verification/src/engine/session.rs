//! One session: the record the registry keeps for a live relationship with a
//! target process.

use vstd::prelude::*;
use vstd::string::*;

verus! {

/// Lifecycle state of a session.
///
/// `Attached` is the state after creation, `ScriptLoaded` the state after a
/// successful injection and `Resumed` the state after a successful resume.
/// `Destroyed` is terminal: it is the state of every identifier whose record
/// has been removed from the registry.
#[derive(Clone, Copy, Debug, PartialEq, Eq, Structural)]
pub enum SessionState {
    Attached,
    ScriptLoaded,
    Resumed,
    Destroyed,
}

impl SessionState {
    /// A session is active as long as it has not been destroyed.
    pub open spec fn active(self) -> bool {
        self != SessionState::Destroyed
    }

    pub fn is_active(&self) -> (r: bool)
        ensures
            r == self.active(),
    {
        match self {
            SessionState::Destroyed => false,
            _ => true,
        }
    }
}

/// An open connection of the engine to one target process.
///
/// The type is neither `Clone` nor `Copy`: a handle has one owner, and the
/// only way to dispose of it is to hand it back to the engine.
#[derive(Debug)]
pub struct EngineHandle {
    raw: u64,
}

impl View for EngineHandle {
    type V = u64;

    closed spec fn view(&self) -> u64 {
        self.raw
    }
}

impl EngineHandle {
    /// Wraps the raw value under which the engine knows the connection.
    pub fn new(raw: u64) -> (h: EngineHandle)
        ensures
            h@ == raw,
    {
        EngineHandle { raw }
    }

    /// The raw value under which the engine knows the connection.
    pub fn raw(&self) -> (raw: u64)
        ensures
            raw == self@,
    {
        self.raw
    }
}

/// A script that the engine has created for a session.
///
/// Like `EngineHandle`, it has one owner and is disposed of by the engine.
#[derive(Debug)]
pub struct ScriptHandle {
    raw: u64,
}

impl View for ScriptHandle {
    type V = u64;

    closed spec fn view(&self) -> u64 {
        self.raw
    }
}

impl ScriptHandle {
    /// Wraps the raw value under which the engine knows the script.
    pub fn new(raw: u64) -> (h: ScriptHandle)
        ensures
            h@ == raw,
    {
        ScriptHandle { raw }
    }

    /// The raw value under which the engine knows the script.
    pub fn raw(&self) -> (raw: u64)
        ensures
            raw == self@,
    {
        self.raw
    }
}

/// The raw values of a sequence of script handles.
pub open spec fn script_values(scripts: Seq<ScriptHandle>) -> Seq<u64> {
    scripts.map_values(|h: ScriptHandle| h@)
}

/// The texts of a sequence of messages.
pub open spec fn message_texts(messages: Seq<String>) -> Seq<Seq<char>> {
    messages.map_values(|m: String| m@)
}

/// What a session is, as a mathematical value.
pub struct SessionView {
    /// Sequence number under which the session was registered.
    pub number: nat,
    /// Process the session is attached to.
    pub pid: u32,
    /// The engine's connection to that process.
    pub handle: u64,
    /// The scripts loaded into the process, oldest first.
    pub scripts: Seq<u64>,
    pub state: SessionState,
    /// The messages received so far, oldest first.
    pub inbox: Seq<Seq<char>>,
    /// When the session was created, in seconds on the engine's clock.
    pub created_at: u64,
}

impl SessionView {
    /// The session as it is right after creation.
    pub open spec fn fresh(number: nat, pid: u32, handle: u64, created_at: u64) -> SessionView {
        SessionView {
            number,
            pid,
            handle,
            scripts: Seq::empty(),
            state: SessionState::Attached,
            inbox: Seq::empty(),
            created_at,
        }
    }

    /// The session after one more message has arrived.
    pub open spec fn received(self, message: Seq<char>) -> SessionView {
        SessionView { inbox: self.inbox.push(message), ..self }
    }

    /// The session after a script has been loaded into its target.
    pub open spec fn script_loaded(self, script: u64) -> SessionView {
        SessionView {
            scripts: self.scripts.push(script),
            state: SessionState::ScriptLoaded,
            ..self
        }
    }

    /// The session after its target has been resumed.
    pub open spec fn resumed(self) -> SessionView {
        SessionView { state: SessionState::Resumed, ..self }
    }
}

/// The record of one session.
#[derive(Debug)]
pub struct Session {
    number: u32,
    pid: u32,
    handle: EngineHandle,
    scripts: Vec<ScriptHandle>,
    state: SessionState,
    inbox: Vec<String>,
    created_at: u64,
}

impl View for Session {
    type V = SessionView;

    closed spec fn view(&self) -> SessionView {
        SessionView {
            number: self.number as nat,
            pid: self.pid,
            handle: self.handle@,
            scripts: script_values(self.scripts@),
            state: self.state,
            inbox: message_texts(self.inbox@),
            created_at: self.created_at,
        }
    }
}

impl Session {
    /// A session that has just been attached: no script, no message.
    pub fn attached(number: u32, pid: u32, handle: EngineHandle, created_at: u64) -> (s: Session)
        ensures
            s@ == SessionView::fresh(number as nat, pid, handle@, created_at),
    {
        let s = Session {
            number,
            pid,
            handle,
            scripts: Vec::new(),
            state: SessionState::Attached,
            inbox: Vec::new(),
            created_at,
        };
        assert(script_values(s.scripts@) =~= Seq::empty());
        assert(message_texts(s.inbox@) =~= Seq::empty());
        s
    }

    pub fn number(&self) -> (n: u32)
        ensures
            n == self@.number,
    {
        self.number
    }

    pub fn pid(&self) -> (pid: u32)
        ensures
            pid == self@.pid,
    {
        self.pid
    }

    /// When the session was created, in seconds on the engine's clock.
    pub fn created_at(&self) -> (at: u64)
        ensures
            at == self@.created_at,
    {
        self.created_at
    }

    pub fn state(&self) -> (state: SessionState)
        ensures
            state == self@.state,
    {
        self.state
    }

    /// The engine's connection to the target.
    pub fn handle(&self) -> (h: &EngineHandle)
        ensures
            h@ == self@.handle,
    {
        &self.handle
    }

    /// A copy of every message received so far, oldest first.
    pub fn messages(&self) -> (copy: Vec<String>)
        ensures
            message_texts(copy@) == self@.inbox,
    {
        let mut copy: Vec<String> = Vec::new();
        let mut i: usize = 0;
        while i < self.inbox.len()
            invariant
                i <= self.inbox.len(),
                copy.len() == i,
                forall|j: int| 0 <= j < i ==> copy[j]@ == self.inbox[j]@,
            decreases self.inbox.len() - i,
        {
            copy.push(self.inbox[i].clone());
            i += 1;
        }
        assert(message_texts(copy@) =~= message_texts(self.inbox@));
        copy
    }

    /// Appends one message to the inbox.
    pub fn receive(&mut self, message: String)
        ensures
            final(self)@ == old(self)@.received(message@),
    {
        self.inbox.push(message);
        assert(message_texts(self.inbox@) =~= message_texts(old(self).inbox@).push(message@));
    }

    /// Records that `script` has been loaded into the target.
    pub fn record_script(&mut self, script: ScriptHandle)
        ensures
            final(self)@ == old(self)@.script_loaded(script@),
    {
        self.scripts.push(script);
        self.state = SessionState::ScriptLoaded;
        assert(script_values(self.scripts@) =~= script_values(old(self).scripts@).push(script@));
    }

    /// Records that the target has been resumed.
    pub fn record_resumed(&mut self)
        ensures
            final(self)@ == old(self)@.resumed(),
    {
        self.state = SessionState::Resumed;
    }

    /// Takes the record apart into the resources that have to be handed back
    /// to the engine: the connection, and the scripts, oldest first.
    pub fn into_resources(self) -> (r: (EngineHandle, Vec<ScriptHandle>))
        ensures
            r.0@ == self@.handle,
            script_values(r.1@) == self@.scripts,
    {
        (self.handle, self.scripts)
    }
}

} // verus!
