use nexuscore_mcp::engine::backend::{Engine, Traced};
use nexuscore_mcp::engine::error::{ErrorKind, SessionError};
use nexuscore_mcp::engine::frida_handler::{
    execute_script, execute_script_with_session, select_target, FridaHandler, FridaSessionManager,
    Lookup, ScriptOutcome, Target,
};
use nexuscore_mcp::engine::session::{EngineHandle, ScriptHandle, SessionState};
use nexuscore_mcp::engine::session_id::{format_session_id, parse_session_id};
use std::cell::{Cell, RefCell};
use std::rc::Rc;

/// What a test sees and steers of a scripted engine.
#[derive(Clone, Default)]
struct Probe {
    log: Rc<RefCell<Vec<String>>>,
    fail_spawn: Rc<Cell<bool>>,
    fail_attach: Rc<Cell<bool>>,
    fail_compile: Rc<Cell<bool>>,
    fail_load: Rc<Cell<bool>>,
    fail_resume: Rc<Cell<bool>>,
    clock: Rc<Cell<u64>>,
}

impl Probe {
    fn calls(&self) -> Vec<String> {
        self.log.borrow().clone()
    }

    fn clear(&self) {
        self.log.borrow_mut().clear();
    }

    fn note(&self, call: String) {
        self.log.borrow_mut().push(call);
    }
}

/// An engine that answers as its probe says and keeps a record of every
/// call.
struct ScriptedEngine {
    probe: Probe,
    next_pid: u32,
    next_handle: u64,
}

impl ScriptedEngine {
    fn fresh_handle(&mut self) -> u64 {
        let h = self.next_handle;
        self.next_handle += 1;
        h
    }
}

fn scripted() -> (Traced<ScriptedEngine>, Probe) {
    let probe = Probe::default();
    probe.clock.set(1_700_000_000);
    let engine = ScriptedEngine { probe: probe.clone(), next_pid: 9000, next_handle: 100 };
    (Traced::new(engine), probe)
}

impl Engine for ScriptedEngine {
    fn spawn(&mut self, path: &str) -> Result<u32, String> {
        self.probe.note(format!("spawn {}", path));
        if self.probe.fail_spawn.get() {
            return Err(format!("cannot spawn {}", path));
        }
        let pid = self.next_pid;
        self.next_pid += 1;
        Ok(pid)
    }

    fn attach(&mut self, pid: u32) -> Result<EngineHandle, String> {
        self.probe.note(format!("attach {}", pid));
        if self.probe.fail_attach.get() {
            return Err(format!("no process {}", pid));
        }
        let h = self.fresh_handle();
        Ok(EngineHandle::new(h))
    }

    fn create_script(
        &mut self,
        session: &EngineHandle,
        source: &str,
        session_id: &str,
    ) -> Result<ScriptHandle, String> {
        self.probe.note(format!("create_script {} {} {}", session.raw(), source, session_id));
        if self.probe.fail_compile.get() {
            return Err("syntax error".to_string());
        }
        let h = self.fresh_handle();
        Ok(ScriptHandle::new(h))
    }

    fn load_script(&mut self, script: &ScriptHandle) -> Result<(), String> {
        self.probe.note(format!("load_script {}", script.raw()));
        if self.probe.fail_load.get() {
            return Err("load refused".to_string());
        }
        Ok(())
    }

    fn resume(&mut self, pid: u32) -> Result<(), String> {
        self.probe.note(format!("resume {}", pid));
        if self.probe.fail_resume.get() {
            return Err(format!("cannot resume {}", pid));
        }
        Ok(())
    }

    fn now(&mut self) -> u64 {
        self.probe.clock.set(self.probe.clock.get() + 1);
        self.probe.clock.get()
    }

    fn release_script(&mut self, script: ScriptHandle) {
        self.probe.note(format!("release_script {}", script.raw()));
    }

    fn release_session(&mut self, session: EngineHandle) {
        self.probe.note(format!("release_session {}", session.raw()));
    }
}

fn kind_of<T: std::fmt::Debug>(r: Result<T, SessionError>) -> ErrorKind {
    r.unwrap_err().kind
}

#[test]
fn new_manager_has_no_sessions() {
    let manager = FridaSessionManager::new();
    assert_eq!(manager.session_count(), 0);
    assert!(manager.list_sessions().is_empty());
    assert!(manager.has_capacity());
}

#[test]
fn session_ids_are_written_in_decimal() {
    assert_eq!(format_session_id(0), "frida_0");
    assert_eq!(format_session_id(1), "frida_1");
    assert_eq!(format_session_id(9), "frida_9");
    assert_eq!(format_session_id(10), "frida_10");
    assert_eq!(format_session_id(4242), "frida_4242");
    assert_eq!(format_session_id(1_000_000), "frida_1000000");
    assert_eq!(format_session_id(u32::MAX), "frida_4294967295");
}

#[test]
fn session_ids_are_read_back() {
    assert_eq!(parse_session_id("frida_0"), Some(0));
    assert_eq!(parse_session_id("frida_1"), Some(1));
    assert_eq!(parse_session_id("frida_42"), Some(42));
    assert_eq!(parse_session_id("frida_4294967295"), Some(u32::MAX));
    for n in [0u32, 7, 10, 99, 100, 65535, 65536, 999_999_999, 1_000_000_000, u32::MAX] {
        assert_eq!(parse_session_id(&format_session_id(n)), Some(n));
    }
}

#[test]
fn texts_that_are_no_session_id_are_not_read() {
    assert_eq!(parse_session_id(""), None);
    assert_eq!(parse_session_id("unknown"), None);
    assert_eq!(parse_session_id("frida_"), None);
    assert_eq!(parse_session_id("frida"), None);
    assert_eq!(parse_session_id("frida_01"), None);
    assert_eq!(parse_session_id("frida_00"), None);
    assert_eq!(parse_session_id("frida_1 "), None);
    assert_eq!(parse_session_id(" frida_1"), None);
    assert_eq!(parse_session_id("frida_+1"), None);
    assert_eq!(parse_session_id("frida_-1"), None);
    assert_eq!(parse_session_id("frida_1a"), None);
    assert_eq!(parse_session_id("Frida_1"), None);
    assert_eq!(parse_session_id("frida-1"), None);
    assert_eq!(parse_session_id("frida_4294967296"), None);
    assert_eq!(parse_session_id("frida_99999999999999999999999999"), None);
    assert_eq!(parse_session_id("frida_\u{0661}"), None);
}

#[test]
fn target_needs_exactly_one_of_pid_and_path() {
    assert!(matches!(select_target(Some(7), None), Ok(Target::Attach(7))));
    assert!(matches!(select_target(None, Some("/bin/true")), Ok(Target::Spawn("/bin/true"))));
    let neither = select_target(None, None).unwrap_err();
    assert_eq!(neither.kind, ErrorKind::InvalidArgument);
    assert_eq!(neither.message(), "Provide pid or spawn_path");
    let both = select_target(Some(7), Some("/bin/true")).unwrap_err();
    assert_eq!(both.kind, ErrorKind::InvalidArgument);
}

#[test]
fn created_session_is_listed_with_its_pid() {
    for pid in [0u32, 1, 4242, u32::MAX] {
        let mut manager = FridaSessionManager::new();
        let (mut engine, probe) = scripted();
        let id = manager.create_session(&mut engine, Some(pid), None).unwrap();
        assert_eq!(id, "frida_1");
        assert_eq!(manager.list_sessions(), vec![(id.clone(), pid, true)]);
        assert_eq!(manager.get_pid(&id), Some(pid));
        assert_eq!(manager.state_of(&id), Some(SessionState::Attached));
        assert!(manager.get_messages(&id).is_empty());
        assert_eq!(probe.calls(), vec![format!("attach {}", pid)]);
    }
}

#[test]
fn create_without_target_is_invalid() {
    let mut manager = FridaSessionManager::new();
    let (mut engine, probe) = scripted();
    let err = manager.create_session(&mut engine, None, None).unwrap_err();
    assert_eq!(err.kind, ErrorKind::InvalidArgument);
    assert_eq!(err.message(), "Provide pid or spawn_path");
    assert!(probe.calls().is_empty());
    assert_eq!(manager.session_count(), 0);

    manager.create_session(&mut engine, Some(5), None).unwrap();
    probe.clear();
    assert_eq!(kind_of(manager.create_session(&mut engine, None, None)), ErrorKind::InvalidArgument);
    assert!(probe.calls().is_empty());
    assert_eq!(manager.session_count(), 1);
}

#[test]
fn create_with_both_targets_is_invalid() {
    let mut manager = FridaSessionManager::new();
    let (mut engine, probe) = scripted();
    let r = manager.create_session(&mut engine, Some(5), Some("/bin/true"));
    assert_eq!(kind_of(r), ErrorKind::InvalidArgument);
    assert!(probe.calls().is_empty());
    assert_eq!(manager.session_count(), 0);
}

#[test]
fn failed_attach_leaves_no_record() {
    let mut manager = FridaSessionManager::new();
    let (mut engine, probe) = scripted();
    probe.fail_attach.set(true);
    let err = manager.create_session(&mut engine, Some(77), None).unwrap_err();
    assert_eq!(err.kind, ErrorKind::AttachFailed);
    assert_eq!(err.message(), "no process 77");
    assert_eq!(manager.session_count(), 0);
    assert!(manager.list_sessions().is_empty());

    probe.fail_attach.set(false);
    let id = manager.create_session(&mut engine, Some(77), None).unwrap();
    assert_eq!(id, "frida_1");
}

#[test]
fn failed_spawn_leaves_no_record() {
    let mut manager = FridaSessionManager::new();
    let (mut engine, probe) = scripted();
    probe.fail_spawn.set(true);
    let err = manager.create_session(&mut engine, None, Some("/no/such")).unwrap_err();
    assert_eq!(err.kind, ErrorKind::ProcessSpawnError);
    assert_eq!(err.message(), "cannot spawn /no/such");
    assert_eq!(probe.calls(), vec!["spawn /no/such".to_string()]);
    assert_eq!(manager.session_count(), 0);
}

#[test]
fn spawn_is_followed_by_attach_to_the_new_process() {
    let mut manager = FridaSessionManager::new();
    let (mut engine, probe) = scripted();
    let id = manager.create_session(&mut engine, None, Some("/bin/true")).unwrap();
    assert_eq!(probe.calls(), vec!["spawn /bin/true".to_string(), "attach 9000".to_string()]);
    assert_eq!(manager.get_pid(&id), Some(9000));
}

#[test]
fn after_attach_registers_or_reports() {
    let mut manager = FridaSessionManager::new();
    let id = manager.after_attach(31, Ok((EngineHandle::new(5), 77))).unwrap();
    assert_eq!(manager.get_created_at(&id), Some(77));
    assert_eq!(id, "frida_1");
    assert_eq!(manager.list_sessions(), vec![("frida_1".to_string(), 31, true)]);
    let err = manager.after_attach(32, Err("denied".to_string())).unwrap_err();
    assert_eq!(err.kind, ErrorKind::AttachFailed);
    assert_eq!(err.message(), "denied");
    assert_eq!(manager.session_count(), 1);
    let id = manager.after_attach(33, Ok((EngineHandle::new(6), 79))).unwrap();
    assert_eq!(id, "frida_2");
}

#[test]
fn destroy_is_idempotent() {
    let mut manager = FridaSessionManager::new();
    let (mut engine, probe) = scripted();
    let a = manager.create_session(&mut engine, Some(1), None).unwrap();
    let b = manager.create_session(&mut engine, Some(2), None).unwrap();
    assert_eq!(manager.session_count(), 2);
    assert!(manager.destroy_session(&mut engine, &a).is_ok());
    assert_eq!(manager.session_count(), 1);
    let calls_after_first = probe.calls();
    assert!(manager.destroy_session(&mut engine, &a).is_ok());
    assert_eq!(manager.session_count(), 1);
    assert_eq!(probe.calls(), calls_after_first);
    assert_eq!(manager.list_sessions(), vec![(b.clone(), 2, true)]);
    assert!(manager.destroy_session(&mut engine, "unknown").is_ok());
    assert!(manager.destroy_session(&mut engine, "frida_999").is_ok());
    assert_eq!(manager.session_count(), 1);
    assert_eq!(probe.calls(), calls_after_first);
}

#[test]
fn destroy_releases_scripts_then_session_once() {
    let mut manager = FridaSessionManager::new();
    let (mut engine, probe) = scripted();
    let id = manager.create_session(&mut engine, Some(1), None).unwrap();
    manager.inject_script(&mut engine, &id, "a").unwrap();
    manager.inject_script(&mut engine, &id, "b").unwrap();
    probe.clear();
    manager.destroy_session(&mut engine, &id).unwrap();
    assert_eq!(
        probe.calls(),
        vec![
            "release_script 102".to_string(),
            "release_script 101".to_string(),
            "release_session 100".to_string(),
        ]
    );
}

#[test]
fn deliveries_are_returned_in_order() {
    let mut manager = FridaSessionManager::new();
    let (mut engine, probe) = scripted();
    let id = manager.create_session(&mut engine, Some(1), None).unwrap();
    let other = manager.create_session(&mut engine, Some(2), None).unwrap();
    let n = 25;
    for i in 0..n {
        assert!(manager.deliver(&id, format!("m{}", i)));
        if i % 5 == 0 {
            assert!(manager.deliver(&other, format!("o{}", i)));
        }
    }
    let got = manager.get_messages(&id);
    assert_eq!(got.len(), n);
    for i in 0..n {
        assert_eq!(got[i], format!("m{}", i));
    }
    assert_eq!(manager.get_messages(&other), vec!["o0", "o5", "o10", "o15", "o20"]);
    // polling does not drain
    assert_eq!(manager.get_messages(&id).len(), n);
    assert!(manager.deliver(&id, "last".to_string()));
    let got = manager.get_messages(&id);
    assert_eq!(got.len(), n + 1);
    assert_eq!(got[n], "last");
}

#[test]
fn delivery_to_unknown_or_destroyed_session_is_dropped() {
    let mut manager = FridaSessionManager::new();
    let (mut engine, probe) = scripted();
    assert!(!manager.deliver("frida_1", "early".to_string()));
    assert!(!manager.deliver("nonsense", "x".to_string()));
    let id = manager.create_session(&mut engine, Some(1), None).unwrap();
    assert!(manager.get_messages(&id).is_empty());
    manager.destroy_session(&mut engine, &id).unwrap();
    assert!(!manager.deliver(&id, "late".to_string()));
    assert!(manager.get_messages(&id).is_empty());
}

#[test]
fn get_messages_of_unknown_session_is_empty() {
    let manager = FridaSessionManager::new();
    assert!(manager.get_messages("unknown").is_empty());
    assert!(manager.get_messages("frida_1").is_empty());
    assert!(manager.get_messages("").is_empty());
}

#[test]
fn inject_into_destroyed_session_is_inactive_and_calls_nothing() {
    let mut manager = FridaSessionManager::new();
    let (mut engine, probe) = scripted();
    let id = manager.create_session(&mut engine, Some(1), None).unwrap();
    manager.destroy_session(&mut engine, &id).unwrap();
    probe.clear();
    let err = manager.inject_script(&mut engine, &id, "emit('hi')").unwrap_err();
    assert_eq!(err.kind, ErrorKind::Inactive);
    assert_eq!(err.message(), "Session frida_1 is no longer active");
    assert!(probe.calls().is_empty());
    assert_eq!(manager.state_of(&id), Some(SessionState::Destroyed));
    let err = manager.resume_process(&mut engine, &id).unwrap_err();
    assert_eq!(err.kind, ErrorKind::Inactive);
    assert!(probe.calls().is_empty());
}

#[test]
fn inject_into_unknown_session_is_not_found_and_calls_nothing() {
    let mut manager = FridaSessionManager::new();
    let (mut engine, probe) = scripted();
    for id in ["unknown", "frida_1", "frida_0", "", "frida_4294967295"] {
        let err = manager.inject_script(&mut engine, id, "x").unwrap_err();
        assert_eq!(err.kind, ErrorKind::NotFound);
        assert_eq!(err.message(), format!("Session not found: {}", id));
        assert_eq!(manager.state_of(id), None);
    }
    assert!(probe.calls().is_empty());
}

#[test]
fn inject_moves_to_script_loaded_and_keeps_the_inbox() {
    let mut manager = FridaSessionManager::new();
    let (mut engine, probe) = scripted();
    let id = manager.create_session(&mut engine, Some(1), None).unwrap();
    manager.deliver(&id, "before".to_string());
    manager.inject_script(&mut engine, &id, "first").unwrap();
    assert_eq!(manager.state_of(&id), Some(SessionState::ScriptLoaded));
    manager.deliver(&id, "between".to_string());
    manager.inject_script(&mut engine, &id, "second").unwrap();
    assert_eq!(manager.state_of(&id), Some(SessionState::ScriptLoaded));
    assert_eq!(manager.get_messages(&id), vec!["before", "between"]);
    assert_eq!(
        probe.calls(),
        vec![
            "attach 1".to_string(),
            "create_script 100 first frida_1".to_string(),
            "load_script 101".to_string(),
            "create_script 100 second frida_1".to_string(),
            "load_script 102".to_string(),
        ]
    );
}

#[test]
fn failed_compile_leaves_state_unchanged() {
    let mut manager = FridaSessionManager::new();
    let (mut engine, probe) = scripted();
    let id = manager.create_session(&mut engine, Some(1), None).unwrap();
    probe.fail_compile.set(true);
    let err = manager.inject_script(&mut engine, &id, "bad(").unwrap_err();
    assert_eq!(err.kind, ErrorKind::ScriptCompileError);
    assert_eq!(err.message(), "syntax error");
    assert_eq!(manager.state_of(&id), Some(SessionState::Attached));
}

#[test]
fn failed_load_releases_the_script_and_leaves_state_unchanged() {
    let mut manager = FridaSessionManager::new();
    let (mut engine, probe) = scripted();
    let id = manager.create_session(&mut engine, Some(1), None).unwrap();
    manager.resume_process(&mut engine, &id).unwrap();
    probe.fail_load.set(true);
    probe.clear();
    let err = manager.inject_script(&mut engine, &id, "x").unwrap_err();
    assert_eq!(err.kind, ErrorKind::ScriptLoadError);
    assert_eq!(err.message(), "load refused");
    assert_eq!(manager.state_of(&id), Some(SessionState::Resumed));
    assert_eq!(
        probe.calls(),
        vec![
            "create_script 100 x frida_1".to_string(),
            "load_script 101".to_string(),
            "release_script 101".to_string(),
        ]
    );
    probe.clear();
    manager.destroy_session(&mut engine, &id).unwrap();
    assert_eq!(probe.calls(), vec!["release_session 100".to_string()]);
}

#[test]
fn after_inject_says_what_each_outcome_does() {
    let mut manager = FridaSessionManager::new();
    let id = manager.register(1, EngineHandle::new(1), 0);
    let e = manager.after_inject(&id, ScriptOutcome::CompileFailed("c".to_string())).unwrap_err();
    assert_eq!((e.kind, e.message()), (ErrorKind::ScriptCompileError, "c".to_string()));
    assert_eq!(manager.state_of(&id), Some(SessionState::Attached));
    let e = manager.after_inject(&id, ScriptOutcome::LoadFailed("l".to_string())).unwrap_err();
    assert_eq!((e.kind, e.message()), (ErrorKind::ScriptLoadError, "l".to_string()));
    assert_eq!(manager.state_of(&id), Some(SessionState::Attached));
    manager.after_inject(&id, ScriptOutcome::Loaded(ScriptHandle::new(9))).unwrap();
    assert_eq!(manager.state_of(&id), Some(SessionState::ScriptLoaded));
}

#[test]
fn resume_needs_no_script_and_records_resumed() {
    let mut manager = FridaSessionManager::new();
    let (mut engine, probe) = scripted();
    let id = manager.create_session(&mut engine, Some(12), None).unwrap();
    manager.resume_process(&mut engine, &id).unwrap();
    assert_eq!(manager.state_of(&id), Some(SessionState::Resumed));
    manager.resume_process(&mut engine, &id).unwrap();
    assert_eq!(manager.state_of(&id), Some(SessionState::Resumed));
    manager.inject_script(&mut engine, &id, "s").unwrap();
    assert_eq!(manager.state_of(&id), Some(SessionState::ScriptLoaded));
    manager.resume_process(&mut engine, &id).unwrap();
    assert_eq!(manager.state_of(&id), Some(SessionState::Resumed));
    assert_eq!(manager.list_sessions(), vec![(id.clone(), 12, true)]);
}

#[test]
fn failed_resume_leaves_state_unchanged() {
    let mut manager = FridaSessionManager::new();
    let (mut engine, probe) = scripted();
    let id = manager.create_session(&mut engine, Some(12), None).unwrap();
    probe.fail_resume.set(true);
    let err = manager.resume_process(&mut engine, &id).unwrap_err();
    assert_eq!(err.kind, ErrorKind::ResumeFailed);
    assert_eq!(err.message(), "cannot resume 12");
    assert_eq!(manager.state_of(&id), Some(SessionState::Attached));
    let e = manager.after_resume(&id, Err("gone".to_string())).unwrap_err();
    assert_eq!((e.kind, e.message()), (ErrorKind::ResumeFailed, "gone".to_string()));
    manager.after_resume(&id, Ok(())).unwrap();
    assert_eq!(manager.state_of(&id), Some(SessionState::Resumed));
}

#[test]
fn hundred_creations_give_hundred_distinct_ids() {
    let mut manager = FridaSessionManager::new();
    let (mut engine, probe) = scripted();
    let mut ids = Vec::new();
    for i in 0..100u32 {
        // several sessions may share a process
        ids.push(manager.create_session(&mut engine, Some(i % 7), None).unwrap());
    }
    assert_eq!(manager.session_count(), 100);
    assert_eq!(manager.list_sessions().len(), 100);
    let mut sorted = ids.clone();
    sorted.sort();
    sorted.dedup();
    assert_eq!(sorted.len(), 100);
    assert_eq!(ids[0], "frida_1");
    assert_eq!(ids[99], "frida_100");
}

#[test]
fn identifiers_are_not_reused_after_destroy() {
    let mut manager = FridaSessionManager::new();
    let (mut engine, probe) = scripted();
    let a = manager.create_session(&mut engine, Some(1), None).unwrap();
    manager.destroy_session(&mut engine, &a).unwrap();
    let b = manager.create_session(&mut engine, Some(1), None).unwrap();
    assert_ne!(a, b);
    assert_eq!(b, "frida_2");
    assert_eq!(manager.state_of(&a), Some(SessionState::Destroyed));
    assert_eq!(manager.state_of(&b), Some(SessionState::Attached));
    assert_eq!(manager.state_of("frida_3"), None);
}

#[test]
fn lookup_tells_live_destroyed_and_unknown_apart() {
    let mut manager = FridaSessionManager::new();
    let (mut engine, probe) = scripted();
    let a = manager.create_session(&mut engine, Some(1), None).unwrap();
    let b = manager.create_session(&mut engine, Some(2), None).unwrap();
    let c = manager.create_session(&mut engine, Some(3), None).unwrap();
    manager.destroy_session(&mut engine, &b).unwrap();
    assert!(matches!(manager.lookup(&a), Lookup::Live(0)));
    assert!(matches!(manager.lookup(&b), Lookup::Destroyed));
    assert!(matches!(manager.lookup(&c), Lookup::Live(1)));
    assert!(matches!(manager.lookup("frida_4"), Lookup::Unknown));
    assert!(matches!(manager.lookup("frida_0"), Lookup::Unknown));
    assert!(matches!(manager.lookup("frida_02"), Lookup::Unknown));
    assert_eq!(manager.get_pid(&b), None);
    assert_eq!(manager.get_pid(&c), Some(3));
}

#[test]
fn scenario_attach_inject_poll_destroy() {
    let mut manager = FridaSessionManager::new();
    let (mut engine, probe) = scripted();
    let s1 = manager.create_session(&mut engine, Some(4242), None).unwrap();
    manager.inject_script(&mut engine, &s1, "emit('hi')").unwrap();
    assert!(manager.deliver(&s1, "hi".to_string()));
    assert_eq!(manager.get_messages(&s1), vec!["hi"]);
    manager.destroy_session(&mut engine, &s1).unwrap();
    assert!(manager.get_messages(&s1).is_empty());
}

#[test]
fn scenario_spawn_resume_and_unknown_resume() {
    let mut manager = FridaSessionManager::new();
    let (mut engine, probe) = scripted();
    let s2 = manager.create_session(&mut engine, None, Some("/bin/true")).unwrap();
    let p = manager.get_pid(&s2).unwrap();
    assert_eq!(p, 9000);
    assert!(manager.resume_process(&mut engine, &s2).is_ok());
    assert_eq!(probe.calls().last().unwrap(), "resume 9000");
    let err = manager.resume_process(&mut engine, "unknown").unwrap_err();
    assert_eq!(err.kind, ErrorKind::NotFound);
    assert_eq!(err.message(), "Session not found: unknown");
}

#[test]
fn execute_script_reuses_the_oldest_session_of_a_process() {
    let mut manager = FridaSessionManager::new();
    let (mut engine, probe) = scripted();
    let a = manager.create_session(&mut engine, Some(5), None).unwrap();
    let b = manager.create_session(&mut engine, Some(6), None).unwrap();
    let c = manager.create_session(&mut engine, Some(6), None).unwrap();
    let used = execute_script_with_session(&mut manager, &mut engine, 6, "s").unwrap();
    assert_eq!(used, b);
    assert_eq!(manager.session_count(), 3);
    assert_eq!(manager.state_of(&a), Some(SessionState::Attached));
    assert_eq!(manager.state_of(&b), Some(SessionState::ScriptLoaded));
    assert_eq!(manager.state_of(&c), Some(SessionState::Attached));
    assert_eq!(manager.find_active_for_pid(6), Some(b.clone()));
    assert_eq!(manager.find_active_for_pid(7), None);
    manager.destroy_session(&mut engine, &b).unwrap();
    let used = execute_script_with_session(&mut manager, &mut engine, 6, "s").unwrap();
    assert_eq!(used, c);
}

#[test]
fn execute_script_creates_a_session_where_there_is_none() {
    let mut manager = FridaSessionManager::new();
    let (mut engine, probe) = scripted();
    execute_script(&mut manager, &mut engine, 8, "s").unwrap();
    assert_eq!(manager.list_sessions(), vec![("frida_1".to_string(), 8, true)]);
    assert_eq!(manager.state_of("frida_1"), Some(SessionState::ScriptLoaded));
    let used = execute_script_with_session(&mut manager, &mut engine, 9, "t").unwrap();
    assert_eq!(used, "frida_2");

    probe.fail_attach.set(true);
    let err = execute_script(&mut manager, &mut engine, 10, "s").unwrap_err();
    assert_eq!(err.kind, ErrorKind::AttachFailed);
    assert_eq!(manager.session_count(), 2);

    probe.fail_attach.set(false);
    probe.fail_compile.set(true);
    let err = execute_script(&mut manager, &mut engine, 10, "s").unwrap_err();
    assert_eq!(err.kind, ErrorKind::ScriptCompileError);
    assert_eq!(manager.session_count(), 3);
    assert_eq!(manager.state_of("frida_3"), Some(SessionState::Attached));
}

#[test]
fn handler_spawns_instruments_and_resumes() {
    let handler = FridaHandler::new();
    let mut manager = FridaSessionManager::new();
    let (mut engine, probe) = scripted();
    let pid = handler.spawn_and_instrument(&mut manager, &mut engine, "/bin/app", "hook()").unwrap();
    assert_eq!(pid, 9000);
    assert_eq!(manager.state_of("frida_1"), Some(SessionState::Resumed));
    assert_eq!(
        probe.calls(),
        vec![
            "spawn /bin/app".to_string(),
            "attach 9000".to_string(),
            "create_script 100 hook() frida_1".to_string(),
            "load_script 101".to_string(),
            "resume 9000".to_string(),
        ]
    );
    probe.clear();
    let pid = handler.spawn_and_instrument(&mut manager, &mut engine, "/bin/app", "").unwrap();
    assert_eq!(pid, 9001);
    assert_eq!(
        probe.calls(),
        vec!["spawn /bin/app".to_string(), "attach 9001".to_string(), "resume 9001".to_string()]
    );
}

#[test]
fn handler_keeps_the_session_when_a_later_step_fails() {
    let handler = FridaHandler::new();
    let mut manager = FridaSessionManager::new();
    let (mut engine, probe) = scripted();
    probe.fail_resume.set(true);
    let err = handler.spawn_and_instrument(&mut manager, &mut engine, "/bin/app", "h").unwrap_err();
    assert_eq!(err.kind, ErrorKind::ResumeFailed);
    assert_eq!(manager.state_of("frida_1"), Some(SessionState::ScriptLoaded));
    probe.fail_load.set(true);
    let err = handler.spawn_and_instrument(&mut manager, &mut engine, "/bin/app", "h").unwrap_err();
    assert_eq!(err.kind, ErrorKind::ScriptLoadError);
    assert_eq!(manager.state_of("frida_2"), Some(SessionState::Attached));
    probe.fail_spawn.set(true);
    let err = handler.spawn_and_instrument(&mut manager, &mut engine, "/bin/app", "h").unwrap_err();
    assert_eq!(err.kind, ErrorKind::ProcessSpawnError);
    assert_eq!(manager.session_count(), 2);
}

#[test]
fn handler_attaches_resumes_and_injects_by_pid() {
    let handler = FridaHandler::new();
    let mut manager = FridaSessionManager::new();
    let (mut engine, probe) = scripted();
    assert_eq!(handler.attach_process(&mut manager, &mut engine, 44).unwrap(), 44);
    assert_eq!(manager.list_sessions(), vec![("frida_1".to_string(), 44, true)]);
    handler.inject_script(&mut manager, &mut engine, 44, "s").unwrap();
    assert_eq!(manager.session_count(), 1);
    assert_eq!(manager.state_of("frida_1"), Some(SessionState::ScriptLoaded));
    handler.resume_process(&mut engine, 44).unwrap();
    assert_eq!(probe.calls().last().unwrap(), "resume 44");
    // resuming by pid goes past the registry
    assert_eq!(manager.state_of("frida_1"), Some(SessionState::ScriptLoaded));
    probe.fail_resume.set(true);
    assert_eq!(kind_of(handler.resume_process(&mut engine, 44)), ErrorKind::ResumeFailed);
    probe.fail_attach.set(true);
    assert_eq!(
        kind_of(handler.attach_process(&mut manager, &mut engine, 45)),
        ErrorKind::AttachFailed
    );
}

#[test]
fn creation_time_is_kept() {
    let mut manager = FridaSessionManager::new();
    let (mut engine, probe) = scripted();
    let a = manager.create_session(&mut engine, Some(1), None).unwrap();
    let b = manager.create_session(&mut engine, Some(2), None).unwrap();
    assert_eq!(manager.get_created_at(&a), Some(1_700_000_001));
    assert_eq!(manager.get_created_at(&b), Some(1_700_000_002));
    manager.inject_script(&mut engine, &a, "s").unwrap();
    manager.resume_process(&mut engine, &a).unwrap();
    manager.deliver(&a, "m".to_string());
    assert_eq!(manager.get_created_at(&a), Some(1_700_000_001));
    assert_eq!(manager.get_pid(&a), Some(1));
    manager.destroy_session(&mut engine, &a).unwrap();
    assert_eq!(manager.get_created_at(&a), None);
    assert_eq!(manager.get_created_at("unknown"), None);
    probe.fail_attach.set(true);
    let clock = probe.clock.get();
    assert!(manager.create_session(&mut engine, Some(3), None).is_err());
    assert_eq!(probe.clock.get(), clock);
}

#[test]
fn batch_is_delivered_in_order_to_each_session() {
    let mut manager = FridaSessionManager::new();
    let (mut engine, probe) = scripted();
    let a = manager.create_session(&mut engine, Some(1), None).unwrap();
    let b = manager.create_session(&mut engine, Some(2), None).unwrap();
    manager.deliver(&a, "a0".to_string());
    manager.deliver_all(vec![
        (a.clone(), "a1".to_string()),
        (b.clone(), "b1".to_string()),
        ("unknown".to_string(), "lost".to_string()),
        (a.clone(), "a2".to_string()),
        (b.clone(), "b2".to_string()),
        (a.clone(), "a3".to_string()),
    ]);
    assert_eq!(manager.get_messages(&a), vec!["a0", "a1", "a2", "a3"]);
    assert_eq!(manager.get_messages(&b), vec!["b1", "b2"]);
    manager.deliver_all(Vec::new());
    assert_eq!(manager.get_messages(&a).len(), 4);
    manager.destroy_session(&mut engine, &a).unwrap();
    manager.deliver_all(vec![(a.clone(), "late".to_string()), (b.clone(), "b3".to_string())]);
    assert!(manager.get_messages(&a).is_empty());
    assert_eq!(manager.get_messages(&b), vec!["b1", "b2", "b3"]);
}

#[test]
fn traced_engine_hands_its_engine_back() {
    let (mut engine, probe) = scripted();
    let mut manager = FridaSessionManager::new();
    manager.create_session(&mut engine, Some(1), None).unwrap();
    assert_eq!(engine.engine().next_handle, 101);
    assert_eq!(engine.attach(2).unwrap().raw(), 101);
    assert_eq!(engine.spawn("/bin/x").unwrap(), 9000);
    assert_eq!(engine.now(), 1_700_000_002);
    assert!(engine.resume(2).is_ok());
    let inner = engine.into_inner();
    assert_eq!(inner.next_handle, 102);
    assert_eq!(inner.next_pid, 9001);
    assert_eq!(
        probe.calls(),
        vec!["attach 1", "attach 2", "spawn /bin/x", "resume 2"]
    );
}

#[test]
fn destroyed_session_is_not_resumed_or_released_again() {
    let (mut engine, probe) = scripted();
    let mut manager = FridaSessionManager::new();
    let id = manager.create_session(&mut engine, Some(1), None).unwrap();
    manager.inject_script(&mut engine, &id, "s").unwrap();
    manager.destroy_session(&mut engine, &id).unwrap();
    let released = probe.calls();
    assert_eq!(released.iter().filter(|c| c.starts_with("release_session")).count(), 1);
    assert_eq!(released.iter().filter(|c| c.starts_with("release_script")).count(), 1);
    for _ in 0..3 {
        manager.destroy_session(&mut engine, &id).unwrap();
        assert!(manager.resume_process(&mut engine, &id).is_err());
        assert!(manager.inject_script(&mut engine, &id, "s").is_err());
    }
    assert_eq!(probe.calls(), released);
}

#[test]
fn plans_name_what_the_engine_is_to_work_on() {
    let (mut engine, _probe) = scripted();
    let mut manager = FridaSessionManager::new();
    let a = manager.create_session(&mut engine, Some(11), None).unwrap();
    let b = manager.create_session(&mut engine, Some(22), None).unwrap();
    assert_eq!(manager.plan_inject(&a).unwrap().raw(), 100);
    assert_eq!(manager.plan_inject(&b).unwrap().raw(), 101);
    assert_eq!(manager.plan_resume(&a).unwrap(), 11);
    assert_eq!(manager.plan_resume(&b).unwrap(), 22);
    assert_eq!(manager.find_live(&b).unwrap(), 1);
    assert_eq!(kind_of(manager.plan_resume("frida_3")), ErrorKind::NotFound);
    assert_eq!(manager.plan_inject("x").unwrap_err().kind, ErrorKind::NotFound);
    manager.destroy_session(&mut engine, &a).unwrap();
    assert_eq!(kind_of(manager.plan_resume(&a)), ErrorKind::Inactive);
    assert_eq!(manager.plan_inject(&a).unwrap_err().kind, ErrorKind::Inactive);
    assert_eq!(manager.find_live(&a).unwrap_err().message(), "Session frida_1 is no longer active");
    assert_eq!(manager.find_live(&b).unwrap(), 0);
    let record = manager.remove(&b).unwrap();
    assert_eq!(record.pid(), 22);
    assert_eq!(record.number(), 2);
    let (connection, scripts) = record.into_resources();
    assert_eq!(connection.raw(), 101);
    assert!(scripts.is_empty());
    assert!(manager.remove(&b).is_none());
}

#[test]
fn activity_follows_the_state() {
    assert!(SessionState::Attached.is_active());
    assert!(SessionState::ScriptLoaded.is_active());
    assert!(SessionState::Resumed.is_active());
    assert!(!SessionState::Destroyed.is_active());
}
