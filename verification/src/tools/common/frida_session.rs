//! The tools that expose the session manager, one per operation.
//!
//! Each tool takes the arguments of a request as plain values, where an
//! argument that the request did not carry is `None`, and answers with a
//! plain record.

use vstd::prelude::*;
use vstd::string::*;
use crate::engine::backend::{added, extends, Engine, EngineEvent, Traced};
use crate::engine::error::{inactive_text, not_found_text, ErrorKind};
use crate::engine::frida_handler::{listing_texts, FridaSessionManager};
use crate::engine::session::{message_texts, SessionState, SessionView};
use crate::tools::failure::{pid_argument, pid_from_argument, ToolFailure};
use crate::tools::schema::{ParamDef, ToolSchema};

verus! {

/// How the target of a new session was obtained.
#[derive(Clone, Copy, Debug, PartialEq, Eq, Structural)]
pub enum SessionMode {
    Spawned,
    Attached,
}

impl SessionMode {
    /// The word under which the mode is reported.
    pub fn label(&self) -> (label: &'static str)
        ensures
            label@ == (match self {
                SessionMode::Spawned => "spawned"@,
                SessionMode::Attached => "attached"@,
            }),
    {
        match self {
            SessionMode::Spawned => "spawned",
            SessionMode::Attached => "attached",
        }
    }
}

/// Answer of `FridaSessionCreate`.
#[derive(Debug)]
pub struct SessionCreated {
    pub session_id: String,
    pub pid: u32,
    pub mode: SessionMode,
}

/// Answer of `FridaSessionInject`.
#[derive(Debug)]
pub struct ScriptInjected {
    pub session_id: String,
    pub injected: bool,
    /// Length of the script source in bytes.
    pub script_size: usize,
}

/// Answer of `FridaSessionResume`.
#[derive(Debug)]
pub struct ProcessResumed {
    pub session_id: String,
    pub resumed: bool,
}

/// Answer of `FridaSessionMessages`.
#[derive(Debug)]
pub struct SessionMessages {
    pub session_id: String,
    pub message_count: usize,
    pub messages: Vec<String>,
}

/// Answer of `FridaSessionDestroy`.
#[derive(Debug)]
pub struct SessionDestroyed {
    pub session_id: String,
    pub destroyed: bool,
}

/// Answer of `FridaSessionList`.
#[derive(Debug)]
pub struct SessionList {
    /// Identifier, process id and activity of every live session.
    pub sessions: Vec<(String, u32, bool)>,
    pub count: usize,
}

/// The parameter by which a tool is told which session it is to work on.
pub open spec fn session_id_param() -> ParamDef {
    ParamDef {
        name: "session_id",
        param_type: "string",
        required: true,
        description: "Frida session ID",
    }
}

/// A schema whose one parameter is the session identifier.
fn session_id_schema() -> (schema: ToolSchema)
    ensures
        schema.params@ == seq![session_id_param()],
{
    let mut params: Vec<ParamDef> = Vec::new();
    params.push(ParamDef::new("session_id", "string", true, "Frida session ID"));
    assert(params@ =~= seq![session_id_param()]);
    ToolSchema::new(params)
}

/// Creates a session, by attaching to a process or by spawning one.
pub struct FridaSessionCreate;

impl FridaSessionCreate {
    pub fn name(&self) -> (name: &'static str)
        ensures
            name@ == "frida_session_create"@,
    {
        "frida_session_create"
    }

    pub fn description(&self) -> (text: &'static str)
        ensures
            text@
                == "Create a persistent Frida session. Args: pid (attach) OR path (spawn). Returns session_id."@,
    {
        "Create a persistent Frida session. Args: pid (attach) OR path (spawn). Returns session_id."
    }

    /// The parameters of the tool: `pid` and `path`, neither required by
    /// itself.
    pub open spec fn params() -> Seq<ParamDef> {
        seq![
            ParamDef {
                name: "pid",
                param_type: "number",
                required: false,
                description: "Process ID to attach to",
            },
            ParamDef {
                name: "path",
                param_type: "string",
                required: false,
                description: "Path to executable to spawn",
            },
        ]
    }

    pub fn schema(&self) -> (schema: ToolSchema)
        ensures
            schema.params@ == Self::params(),
    {
        let mut params: Vec<ParamDef> = Vec::new();
        params.push(ParamDef::new("pid", "number", false, "Process ID to attach to"));
        params.push(ParamDef::new("path", "string", false, "Path to executable to spawn"));
        assert(params@ =~= Self::params());
        ToolSchema::new(params)
    }

    /// The process that a numeric argument names, if there is one.
    pub open spec fn target(pid: Option<u64>) -> Option<u32> {
        match pid {
            Some(value) => Some(pid_argument(value)),
            None => None,
        }
    }

    /// Creates a session for the process `pid`, of which the low 32 bits
    /// count, or for the program at `path`, and reports its identifier, the
    /// process it is attached to and how the process was obtained.
    pub fn run<E: Engine>(
        &self,
        manager: &mut FridaSessionManager,
        engine: &mut Traced<E>,
        pid: Option<u64>,
        path: Option<&str>,
    ) -> (r: Result<SessionCreated, ToolFailure>)
        requires
            old(manager).wf(),
            (pid is Some) != (path is Some) ==> old(manager)@.next < u32::MAX,
        ensures
            final(manager).wf(),
            match r {
                Ok(reply) => {
                    let created = final(manager)@.session(reply.session_id@);
                    &&& (pid is Some) != (path is Some)
                    &&& reply.session_id@ == old(manager)@.next_id()
                    &&& final(manager)@ == old(manager)@.extended_by(created)
                    &&& created == SessionView::fresh(
                        old(manager)@.next,
                        reply.pid,
                        created.handle,
                        created.created_at,
                    )
                    &&& pid is Some ==> reply.pid == pid_argument(pid->0)
                    &&& reply.mode == (if path is Some {
                        SessionMode::Spawned
                    } else {
                        SessionMode::Attached
                    })
                    &&& final(engine).trace() == old(engine).trace()
                        + FridaSessionManager::creation_events(path, created)
                },
                Err(failure) => {
                    &&& final(manager)@ == old(manager)@
                    &&& failure is Session
                    &&& (failure->Session_0.kind == ErrorKind::InvalidArgument) == (pid is Some
                        <==> path is Some)
                    &&& extends(old(engine).trace(), final(engine).trace())
                    &&& FridaSessionManager::failed_creation_events(
                        Self::target(pid),
                        path,
                        failure->Session_0,
                        added(old(engine).trace(), final(engine).trace()),
                    )
                },
            },
    {
        let target = match pid {
            Some(value) => Some(pid_from_argument(value)),
            None => None,
        };
        let session_id = match manager.create_session(engine, target, path) {
            Ok(id) => id,
            Err(e) => {
                return Err(ToolFailure::Session(e));
            },
        };
        let attached_to = match manager.get_pid(session_id.as_str()) {
            Some(p) => p,
            None => 0,
        };
        let mode = if path.is_some() {
            SessionMode::Spawned
        } else {
            SessionMode::Attached
        };
        Ok(SessionCreated { session_id, pid: attached_to, mode })
    }
}

/// Injects a script into the target of a session.
pub struct FridaSessionInject;

impl FridaSessionInject {
    pub fn name(&self) -> (name: &'static str)
        ensures
            name@ == "frida_session_inject"@,
    {
        "frida_session_inject"
    }

    pub fn description(&self) -> (text: &'static str)
        ensures
            text@ == "Inject JS script into Frida session. Args: session_id, script (JS code)"@,
    {
        "Inject JS script into Frida session. Args: session_id, script (JS code)"
    }

    /// The parameters of the tool: `session_id` and `script`, both
    /// required.
    pub open spec fn params() -> Seq<ParamDef> {
        seq![
            session_id_param(),
            ParamDef {
                name: "script",
                param_type: "string",
                required: true,
                description: "JavaScript code to inject",
            },
        ]
    }

    pub fn schema(&self) -> (schema: ToolSchema)
        ensures
            schema.params@ == Self::params(),
    {
        let mut params: Vec<ParamDef> = Vec::new();
        params.push(ParamDef::new("session_id", "string", true, "Frida session ID"));
        params.push(ParamDef::new("script", "string", true, "JavaScript code to inject"));
        assert(params@ =~= Self::params());
        ToolSchema::new(params)
    }

    /// Injects `script` into the session `session_id` and reports the size
    /// of the script. A missing argument is reported before anything else
    /// is looked at, the session identifier first.
    pub fn run<E: Engine>(
        &self,
        manager: &mut FridaSessionManager,
        engine: &mut Traced<E>,
        session_id: Option<&str>,
        script: Option<&str>,
    ) -> (r: Result<ScriptInjected, ToolFailure>)
        requires
            old(manager).wf(),
        ensures
            final(manager).wf(),
            session_id is None ==> r is Err && r->Err_0 == ToolFailure::MissingArgument(
                "Missing session_id",
            ),
            session_id is Some && script is None ==> r is Err && r->Err_0
                == ToolFailure::MissingArgument("Missing script"),
            session_id is None || script is None ==> final(manager)@ == old(manager)@
                && final(engine).trace() == old(engine).trace(),
            session_id is Some && script is Some ==> {
                let id = session_id->0@;
                let connection = old(manager)@.session(id).handle;
                match r {
                    Ok(reply) => {
                        let loaded = final(manager)@.session(id).scripts.last();
                        &&& reply.session_id@ == id
                        &&& reply.injected
                        &&& reply.script_size == script->0.len()
                        &&& old(manager)@.contains(id)
                        &&& final(manager)@ == old(manager)@.script_loaded(id, loaded)
                        &&& final(engine).trace() == old(engine).trace()
                            + FridaSessionManager::injection_events(
                            connection,
                            script->0@,
                            id,
                            loaded,
                        )
                    },
                    Err(failure) => {
                        &&& final(manager)@ == old(manager)@
                        &&& failure is Session
                        &&& old(manager)@.state_of(id) is None ==> failure->Session_0.carries(
                            ErrorKind::NotFound,
                            not_found_text(id),
                        ) && final(engine).trace() == old(engine).trace()
                        &&& old(manager)@.state_of(id) == Some(SessionState::Destroyed)
                            ==> failure->Session_0.carries(
                            ErrorKind::Inactive,
                            inactive_text(id),
                        ) && final(engine).trace() == old(engine).trace()
                        &&& old(manager)@.contains(id) ==> {
                            &&& extends(old(engine).trace(), final(engine).trace())
                            &&& FridaSessionManager::failed_injection_events(
                                connection,
                                script->0@,
                                id,
                                failure->Session_0,
                                added(old(engine).trace(), final(engine).trace()),
                            )
                        }
                    },
                }
            },
    {
        let id = match session_id {
            Some(id) => id,
            None => {
                return Err(ToolFailure::MissingArgument("Missing session_id"));
            },
        };
        let source = match script {
            Some(source) => source,
            None => {
                return Err(ToolFailure::MissingArgument("Missing script"));
            },
        };
        proof {
            if manager@.contains(id@) {
                manager@.lemma_contained_was_issued(id@);
            }
        }
        match manager.inject_script(engine, id, source) {
            Ok(_) => Ok(
                ScriptInjected {
                    session_id: String::from_str(id),
                    injected: true,
                    script_size: source.len(),
                },
            ),
            Err(e) => Err(ToolFailure::Session(e)),
        }
    }
}

/// Resumes the target of a session.
pub struct FridaSessionResume;

impl FridaSessionResume {
    pub fn name(&self) -> (name: &'static str)
        ensures
            name@ == "frida_session_resume"@,
    {
        "frida_session_resume"
    }

    pub fn description(&self) -> (text: &'static str)
        ensures
            text@ == "Resume a spawned process. Args: session_id"@,
    {
        "Resume a spawned process. Args: session_id"
    }

    pub fn schema(&self) -> (schema: ToolSchema)
        ensures
            schema.params@ == seq![session_id_param()],
    {
        session_id_schema()
    }

    /// Resumes the target of the session `session_id`.
    pub fn run<E: Engine>(
        &self,
        manager: &mut FridaSessionManager,
        engine: &mut Traced<E>,
        session_id: Option<&str>,
    ) -> (r: Result<ProcessResumed, ToolFailure>)
        requires
            old(manager).wf(),
        ensures
            final(manager).wf(),
            session_id is None ==> {
                &&& r is Err
                &&& r->Err_0 == ToolFailure::MissingArgument("Missing session_id")
                &&& final(manager)@ == old(manager)@
                &&& final(engine).trace() == old(engine).trace()
            },
            session_id is Some ==> {
                let id = session_id->0@;
                let target = old(manager)@.session(id).pid;
                match r {
                    Ok(reply) => {
                        &&& reply.session_id@ == id
                        &&& reply.resumed
                        &&& old(manager)@.contains(id)
                        &&& final(manager)@ == old(manager)@.resumed(id)
                        &&& final(engine).trace() == old(engine).trace().push(
                            EngineEvent::Resume { pid: target, answer: Ok(()) },
                        )
                    },
                    Err(failure) => {
                        &&& final(manager)@ == old(manager)@
                        &&& failure is Session
                        &&& old(manager)@.state_of(id) is None ==> failure->Session_0.carries(
                            ErrorKind::NotFound,
                            not_found_text(id),
                        ) && final(engine).trace() == old(engine).trace()
                        &&& old(manager)@.state_of(id) == Some(SessionState::Destroyed)
                            ==> failure->Session_0.carries(
                            ErrorKind::Inactive,
                            inactive_text(id),
                        ) && final(engine).trace() == old(engine).trace()
                        &&& old(manager)@.contains(id) ==> {
                            &&& failure->Session_0.kind == ErrorKind::ResumeFailed
                            &&& final(engine).trace() == old(engine).trace().push(
                                EngineEvent::Resume {
                                    pid: target,
                                    answer: Err(failure->Session_0.detail@),
                                },
                            )
                        }
                    },
                }
            },
    {
        let id = match session_id {
            Some(id) => id,
            None => {
                return Err(ToolFailure::MissingArgument("Missing session_id"));
            },
        };
        proof {
            if manager@.contains(id@) {
                manager@.lemma_contained_was_issued(id@);
            }
        }
        match manager.resume_process(engine, id) {
            Ok(_) => Ok(ProcessResumed { session_id: String::from_str(id), resumed: true }),
            Err(e) => Err(ToolFailure::Session(e)),
        }
    }
}

/// Reads the messages that a session has received.
pub struct FridaSessionMessages;

impl FridaSessionMessages {
    pub fn name(&self) -> (name: &'static str)
        ensures
            name@ == "frida_session_messages"@,
    {
        "frida_session_messages"
    }

    pub fn description(&self) -> (text: &'static str)
        ensures
            text@ == "Get collected messages from Frida session. Args: session_id"@,
    {
        "Get collected messages from Frida session. Args: session_id"
    }

    pub fn schema(&self) -> (schema: ToolSchema)
        ensures
            schema.params@ == seq![session_id_param()],
    {
        session_id_schema()
    }

    /// Reports everything the session `session_id` has received so far, and
    /// how many messages that is. A session that is not live has received
    /// nothing.
    pub fn run(&self, manager: &FridaSessionManager, session_id: Option<&str>) -> (r: Result<
        SessionMessages,
        ToolFailure,
    >)
        requires
            manager.wf(),
        ensures
            match session_id {
                None => r is Err && r->Err_0 == ToolFailure::MissingArgument(
                    "Missing session_id",
                ),
                Some(id) => {
                    &&& r is Ok
                    &&& r->Ok_0.session_id@ == id@
                    &&& message_texts(r->Ok_0.messages@) == manager@.messages(id@)
                    &&& r->Ok_0.message_count == manager@.messages(id@).len()
                },
            },
    {
        let id = match session_id {
            Some(id) => id,
            None => {
                return Err(ToolFailure::MissingArgument("Missing session_id"));
            },
        };
        let messages = manager.get_messages(id);
        assert(message_texts(messages@).len() == messages@.len());
        Ok(
            SessionMessages {
                session_id: String::from_str(id),
                message_count: messages.len(),
                messages,
            },
        )
    }
}

/// Destroys a session.
pub struct FridaSessionDestroy;

impl FridaSessionDestroy {
    pub fn name(&self) -> (name: &'static str)
        ensures
            name@ == "frida_session_destroy"@,
    {
        "frida_session_destroy"
    }

    pub fn description(&self) -> (text: &'static str)
        ensures
            text@ == "Destroy a Frida session and release resources. Args: session_id"@,
    {
        "Destroy a Frida session and release resources. Args: session_id"
    }

    pub fn schema(&self) -> (schema: ToolSchema)
        ensures
            schema.params@ == seq![session_id_param()],
    {
        session_id_schema()
    }

    /// Destroys the session `session_id`; succeeds whether or not there is
    /// such a session.
    pub fn run<E: Engine>(
        &self,
        manager: &mut FridaSessionManager,
        engine: &mut Traced<E>,
        session_id: Option<&str>,
    ) -> (r: Result<SessionDestroyed, ToolFailure>)
        requires
            old(manager).wf(),
        ensures
            final(manager).wf(),
            match session_id {
                None => {
                    &&& r is Err
                    &&& r->Err_0 == ToolFailure::MissingArgument("Missing session_id")
                    &&& final(manager)@ == old(manager)@
                    &&& final(engine).trace() == old(engine).trace()
                },
                Some(id) => {
                    &&& r is Ok
                    &&& r->Ok_0.session_id@ == id@
                    &&& r->Ok_0.destroyed
                    &&& final(manager)@ == old(manager)@.destroyed(id@)
                    &&& final(engine).trace() == (if old(manager)@.contains(id@) {
                        old(engine).trace() + FridaSessionManager::release_events(
                            old(manager)@.session(id@),
                        )
                    } else {
                        old(engine).trace()
                    })
                },
            },
    {
        let id = match session_id {
            Some(id) => id,
            None => {
                return Err(ToolFailure::MissingArgument("Missing session_id"));
            },
        };
        match manager.destroy_session(engine, id) {
            Ok(_) => Ok(SessionDestroyed { session_id: String::from_str(id), destroyed: true }),
            Err(e) => Err(ToolFailure::Session(e)),
        }
    }
}

/// Lists the live sessions.
pub struct FridaSessionList;

impl FridaSessionList {
    pub fn name(&self) -> (name: &'static str)
        ensures
            name@ == "frida_session_list"@,
    {
        "frida_session_list"
    }

    pub fn description(&self) -> (text: &'static str)
        ensures
            text@ == "List all active Frida sessions"@,
    {
        "List all active Frida sessions"
    }

    /// The tool takes no parameters.
    pub fn schema(&self) -> (schema: ToolSchema)
        ensures
            schema.params@ == Seq::<ParamDef>::empty(),
    {
        ToolSchema::empty()
    }

    /// Reports the listing of the registry and the number of its lines.
    pub fn run(&self, manager: &FridaSessionManager) -> (reply: SessionList)
        requires
            manager.wf(),
        ensures
            listing_texts(reply.sessions@) == manager@.listing(),
            reply.count == manager@.sessions.len(),
    {
        let sessions = manager.list_sessions();
        assert(listing_texts(sessions@).len() == sessions@.len());
        assert(manager@.listing().len() == manager@.sessions.len());
        SessionList { count: sessions.len(), sessions }
    }
}

} // verus!
