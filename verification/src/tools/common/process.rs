//! The tools that work on processes rather than on sessions.

use vstd::prelude::*;
use vstd::string::*;
use crate::engine::backend::{Engine, EngineEvent, Traced};
use crate::engine::error::{ErrorKind, SessionError};
use crate::engine::frida_handler::{script_executed, FridaHandler, FridaSessionManager};
use crate::tools::failure::{pid_argument, pid_from_argument, ToolFailure};
use crate::tools::schema::{ParamDef, ToolSchema};

verus! {

/// What a process tool did.
#[derive(Clone, Copy, Debug, PartialEq, Eq, Structural)]
pub enum ProcessStatus {
    Injected,
    SpawnedAndHooked,
    Attached,
    Resumed,
}

impl ProcessStatus {
    /// The word under which the status is reported.
    pub fn label(&self) -> (label: &'static str)
        ensures
            label@ == (match self {
                ProcessStatus::Injected => "injected"@,
                ProcessStatus::SpawnedAndHooked => "spawned_and_hooked"@,
                ProcessStatus::Attached => "attached"@,
                ProcessStatus::Resumed => "resumed"@,
            }),
    {
        match self {
            ProcessStatus::Injected => "injected",
            ProcessStatus::SpawnedAndHooked => "spawned_and_hooked",
            ProcessStatus::Attached => "attached",
            ProcessStatus::Resumed => "resumed",
        }
    }
}

/// Answer of a process tool.
#[derive(Clone, Copy, Debug, PartialEq, Eq, Structural)]
pub struct ProcessReport {
    pub status: ProcessStatus,
    pub pid: u32,
    /// Length in bytes of the script that was injected, where the tool
    /// reports one.
    pub script_length: Option<usize>,
    /// Whether the stealth script was asked for, where the tool knows of
    /// one.
    pub stealth_mode: Option<bool>,
}

/// The failure of the session manager behind a failed call of a tool.
pub open spec fn session_failure<T>(r: Result<T, ToolFailure>) -> Option<SessionError> {
    match r {
        Ok(_) => None,
        Err(failure) => match failure {
            ToolFailure::Session(e) => Some(e),
            _ => None,
        },
    }
}

/// Injects a script into a running process.
pub struct InjectFridaScript;

impl InjectFridaScript {
    pub fn name(&self) -> (name: &'static str)
        ensures
            name@ == "inject_frida_script"@,
    {
        "inject_frida_script"
    }

    pub fn description(&self) -> (text: &'static str)
        ensures
            text@
                == "Injects a custom Frida script (JavaScript) into a running process. Args: pid (number), script (string)"@,
    {
        "Injects a custom Frida script (JavaScript) into a running process. Args: pid (number), script (string)"
    }

    /// The tool declares no parameters.
    pub fn schema(&self) -> (schema: ToolSchema)
        ensures
            schema.params@ == Seq::<ParamDef>::empty(),
    {
        ToolSchema::empty()
    }

    /// Injects `script` into the process `pid`, of which the low 32 bits
    /// count, through the oldest active session attached to that process
    /// or through a new one. A missing argument is reported before
    /// anything else is looked at, the process id first.
    pub fn run<E: Engine>(
        &self,
        manager: &mut FridaSessionManager,
        engine: &mut Traced<E>,
        pid: Option<u64>,
        script: Option<&str>,
    ) -> (r: Result<ProcessReport, ToolFailure>)
        requires
            old(manager).wf(),
            pid is Some && script is Some && old(manager)@.first_for_pid(pid_argument(pid->0))
                is None ==> old(manager)@.next < u32::MAX,
        ensures
            final(manager).wf(),
            pid is None ==> r is Err && r->Err_0 == ToolFailure::MissingArgument("Missing pid"),
            pid is Some && script is None ==> r is Err && r->Err_0
                == ToolFailure::MissingArgument("Missing script content"),
            pid is None || script is None ==> final(manager)@ == old(manager)@ && *final(engine)
                == *old(engine),
            pid is Some && script is Some ==> {
                &&& match r {
                    Ok(report) => report == (ProcessReport {
                        status: ProcessStatus::Injected,
                        pid: pid_argument(pid->0),
                        script_length: Some(script->0.len()),
                        stealth_mode: None,
                    }),
                    Err(failure) => failure is Session,
                }
                &&& script_executed(
                    old(manager)@,
                    final(manager)@,
                    old(engine).trace(),
                    final(engine).trace(),
                    pid_argument(pid->0),
                    script->0@,
                    session_failure(r),
                )
            },
    {
        let target = match pid {
            Some(value) => pid_from_argument(value),
            None => {
                return Err(ToolFailure::MissingArgument("Missing pid"));
            },
        };
        let source = match script {
            Some(source) => source,
            None => {
                return Err(ToolFailure::MissingArgument("Missing script content"));
            },
        };
        let handler = FridaHandler::new();
        match handler.inject_script(manager, engine, target, source) {
            Ok(_) => Ok(
                ProcessReport {
                    status: ProcessStatus::Injected,
                    pid: target,
                    script_length: Some(source.len()),
                    stealth_mode: None,
                },
            ),
            Err(e) => Err(ToolFailure::Session(e)),
        }
    }
}

/// Spawns a program suspended, hooks it, and lets it run.
pub struct SpawnProcess;

impl SpawnProcess {
    pub fn name(&self) -> (name: &'static str)
        ensures
            name@ == "spawn_process"@,
    {
        "spawn_process"
    }

    pub fn description(&self) -> (text: &'static str)
        ensures
            text@
                == "Spawns a process in suspended state (Frida) & injects stealth hooks. Args: path, stealth (bool, default true)"@,
    {
        "Spawns a process in suspended state (Frida) & injects stealth hooks. Args: path, stealth (bool, default true)"
    }

    /// The tool declares no parameters.
    pub fn schema(&self) -> (schema: ToolSchema)
        ensures
            schema.params@ == Seq::<ParamDef>::empty(),
    {
        ToolSchema::empty()
    }

    /// Whether stealth hooks are asked for: they are unless the request
    /// says otherwise.
    pub open spec fn wants_stealth(stealth: Option<bool>) -> bool {
        match stealth {
            Some(flag) => flag,
            None => true,
        }
    }

    /// The script that is injected: the stealth script if stealth hooks are
    /// asked for, and none otherwise.
    pub open spec fn script_for(stealth: Option<bool>, stealth_script: &str) -> Seq<char> {
        if Self::wants_stealth(stealth) {
            stealth_script@
        } else {
            Seq::empty()
        }
    }

    /// Spawns the program at `path` suspended, injects `stealth_script`
    /// into it if stealth hooks are asked for and the script is not empty,
    /// and lets the process run.
    pub fn run<E: Engine>(
        &self,
        manager: &mut FridaSessionManager,
        engine: &mut Traced<E>,
        path: Option<&str>,
        stealth: Option<bool>,
        stealth_script: &str,
    ) -> (r: Result<ProcessReport, ToolFailure>)
        requires
            old(manager).wf(),
            path is Some ==> old(manager)@.next < u32::MAX,
        ensures
            final(manager).wf(),
            path is None ==> {
                &&& r is Err
                &&& r->Err_0 == ToolFailure::MissingArgument("Missing path")
                &&& final(manager)@ == old(manager)@
                &&& final(engine).trace() == old(engine).trace()
            },
            path is Some ==> {
                &&& match r {
                    Ok(report) => report == (ProcessReport {
                        status: ProcessStatus::SpawnedAndHooked,
                        pid: report.pid,
                        script_length: None,
                        stealth_mode: Some(Self::wants_stealth(stealth)),
                    }),
                    Err(failure) => failure is Session,
                }
                &&& FridaHandler::spawned(
                    old(manager)@,
                    final(manager)@,
                    old(engine).trace(),
                    final(engine).trace(),
                    path->0,
                    Self::script_for(stealth, stealth_script),
                    match r {
                        Ok(report) => Ok(report.pid),
                        Err(failure) => Err(failure->Session_0),
                    },
                )
            },
    {
        let program = match path {
            Some(program) => program,
            None => {
                return Err(ToolFailure::MissingArgument("Missing path"));
            },
        };
        let stealth_mode = match stealth {
            Some(flag) => flag,
            None => true,
        };
        proof {
            reveal_strlit("");
        }
        let script = if stealth_mode {
            stealth_script
        } else {
            ""
        };
        let handler = FridaHandler::new();
        match handler.spawn_and_instrument(manager, engine, program, script) {
            Ok(pid) => Ok(
                ProcessReport {
                    status: ProcessStatus::SpawnedAndHooked,
                    pid,
                    script_length: None,
                    stealth_mode: Some(stealth_mode),
                },
            ),
            Err(e) => Err(ToolFailure::Session(e)),
        }
    }
}

/// Attaches to a running process.
pub struct AttachProcess;

impl AttachProcess {
    pub fn name(&self) -> (name: &'static str)
        ensures
            name@ == "attach_process"@,
    {
        "attach_process"
    }

    pub fn description(&self) -> (text: &'static str)
        ensures
            text@ == "Attaches to a running process. Args: pid (number)"@,
    {
        "Attaches to a running process. Args: pid (number)"
    }

    /// The tool declares no parameters.
    pub fn schema(&self) -> (schema: ToolSchema)
        ensures
            schema.params@ == Seq::<ParamDef>::empty(),
    {
        ToolSchema::empty()
    }

    /// Attaches to the process `pid`, of which the low 32 bits count, and
    /// registers a session for it.
    pub fn run<E: Engine>(
        &self,
        manager: &mut FridaSessionManager,
        engine: &mut Traced<E>,
        pid: Option<u64>,
    ) -> (r: Result<ProcessReport, ToolFailure>)
        requires
            old(manager).wf(),
            pid is Some ==> old(manager)@.next < u32::MAX,
        ensures
            final(manager).wf(),
            match pid {
                None => {
                    &&& r is Err
                    &&& r->Err_0 == ToolFailure::MissingArgument("Missing pid")
                    &&& final(manager)@ == old(manager)@
                    &&& final(engine).trace() == old(engine).trace()
                },
                Some(value) => match r {
                    Ok(report) => {
                        let created = final(manager)@.session(old(manager)@.next_id());
                        &&& report == (ProcessReport {
                            status: ProcessStatus::Attached,
                            pid: pid_argument(value),
                            script_length: None,
                            stealth_mode: None,
                        })
                        &&& final(manager)@ == old(manager)@.extended_by(created)
                        &&& created.pid == pid_argument(value)
                        &&& final(engine).trace() == old(engine).trace()
                            + FridaSessionManager::creation_events(None, created)
                    },
                    Err(failure) => {
                        &&& failure is Session
                        &&& failure->Session_0.kind == ErrorKind::AttachFailed
                        &&& final(manager)@ == old(manager)@
                        &&& final(engine).trace() == old(engine).trace().push(
                            EngineEvent::Attach {
                                pid: pid_argument(value),
                                answer: Err(failure->Session_0.detail@),
                            },
                        )
                    },
                },
            },
    {
        let target = match pid {
            Some(value) => pid_from_argument(value),
            None => {
                return Err(ToolFailure::MissingArgument("Missing pid"));
            },
        };
        let handler = FridaHandler::new();
        match handler.attach_process(manager, engine, target) {
            Ok(attached) => Ok(
                ProcessReport {
                    status: ProcessStatus::Attached,
                    pid: attached,
                    script_length: None,
                    stealth_mode: None,
                },
            ),
            Err(e) => Err(ToolFailure::Session(e)),
        }
    }
}

/// Resumes a suspended process.
pub struct ResumeProcess;

impl ResumeProcess {
    pub fn name(&self) -> (name: &'static str)
        ensures
            name@ == "resume_process"@,
    {
        "resume_process"
    }

    pub fn description(&self) -> (text: &'static str)
        ensures
            text@ == "Resumes a suspended process. Args: pid (number)"@,
    {
        "Resumes a suspended process. Args: pid (number)"
    }

    /// The tool declares no parameters.
    pub fn schema(&self) -> (schema: ToolSchema)
        ensures
            schema.params@ == Seq::<ParamDef>::empty(),
    {
        ToolSchema::empty()
    }

    /// Lets the process `pid` run, of which the low 32 bits count.
    pub fn run<E: Engine>(&self, engine: &mut Traced<E>, pid: Option<u64>) -> (r: Result<
        ProcessReport,
        ToolFailure,
    >)
        ensures
            match pid {
                None => {
                    &&& r is Err
                    &&& r->Err_0 == ToolFailure::MissingArgument("Missing pid")
                    &&& final(engine).trace() == old(engine).trace()
                },
                Some(value) => {
                    &&& match r {
                        Ok(report) => report == (ProcessReport {
                            status: ProcessStatus::Resumed,
                            pid: pid_argument(value),
                            script_length: None,
                            stealth_mode: None,
                        }),
                        Err(failure) => failure is Session && failure->Session_0.kind
                            == ErrorKind::ResumeFailed,
                    }
                    &&& final(engine).trace() == old(engine).trace().push(
                        EngineEvent::Resume {
                            pid: pid_argument(value),
                            answer: match r {
                                Ok(_) => Ok(()),
                                Err(failure) => Err(failure->Session_0.detail@),
                            },
                        },
                    )
                },
            },
    {
        let target = match pid {
            Some(value) => pid_from_argument(value),
            None => {
                return Err(ToolFailure::MissingArgument("Missing pid"));
            },
        };
        let handler = FridaHandler::new();
        match handler.resume_process(engine, target) {
            Ok(_) => Ok(
                ProcessReport {
                    status: ProcessStatus::Resumed,
                    pid: target,
                    script_length: None,
                    stealth_mode: None,
                },
            ),
            Err(e) => Err(ToolFailure::Session(e)),
        }
    }
}

} // verus!
