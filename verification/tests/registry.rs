use ivygate::inc::{Inc, IncSpawner, Message, Range, Index, Session, SessionError, Severity, SpawnError};
use ivygate::registry::{HandleState, OpenError, RegistryError, SessionRegistry};

struct TextSession {
    path: String,
    contents: String,
    dead: bool,
}

impl TextSession {
    fn new(path: &str, contents: &str) -> Self {
        TextSession { path: path.to_string(), contents: contents.to_string(), dead: false }
    }
}

impl Session for TextSession {
    fn mv(&mut self, path: String) -> Result<(), SessionError> {
        self.path = path;
        Ok(())
    }

    fn update(&mut self, code: Option<String>) -> Result<Vec<Message>, SessionError> {
        if self.dead {
            return Err(SessionError::SessionDead);
        }
        if let Some(code) = code {
            self.contents = code;
        }
        if self.contents.contains("crash") {
            return Err(SessionError::CompileFailure("the compiler gave up".to_string()));
        }
        Ok(vec![Message {
            file: Some(self.path.clone()),
            severity: Severity::Info,
            ranges: Vec::new(),
            message: self.contents.clone(),
        }])
    }
}

struct TextInc;

impl Inc for TextInc {
    type Session = TextSession;

    fn name(&self) -> &str {
        "text"
    }

    fn extensions(&self) -> Vec<String> {
        vec!["txt".to_string()]
    }

    fn start_session(&self, path: String) -> Result<TextSession, String> {
        if path.starts_with("missing") {
            Err("no such file on disk".to_string())
        } else {
            Ok(TextSession { path, contents: "initial".to_string(), dead: false })
        }
    }
}

fn text_of(messages: &[Message]) -> String {
    messages[0].message.clone()
}

#[test]
fn a_new_registry_has_issued_nothing() {
    let registry: SessionRegistry<TextSession> = SessionRegistry::new();
    assert_eq!(registry.last_handle(), 0);
    assert_eq!(registry.len(), 0);
    assert_eq!(registry.state(0), HandleState::Unopened);
    assert_eq!(registry.state(1), HandleState::Unopened);
}

#[test]
fn handles_start_at_one_and_grow() {
    let spawner = IncSpawner::new(vec![TextInc]);
    let mut registry = SessionRegistry::new();
    let mut last = 0;
    for i in 1..=5u64 {
        let handle = registry.open(&spawner, "a.txt").unwrap();
        assert_eq!(handle, i);
        assert!(handle > last);
        last = handle;
        assert_eq!(registry.last_handle(), handle);
    }
    assert_eq!(registry.len(), 5);
}

#[test]
fn a_closed_handle_is_never_issued_again() {
    let spawner = IncSpawner::new(vec![TextInc]);
    let mut registry = SessionRegistry::new();
    let first = registry.open(&spawner, "a.txt").unwrap();
    let second = registry.open(&spawner, "b.txt").unwrap();
    assert_eq!(registry.close(second), Ok(()));
    assert_eq!(registry.close(first), Ok(()));
    let third = registry.open(&spawner, "c.txt").unwrap();
    assert_eq!((first, second, third), (1, 2, 3));
    assert_eq!(registry.state(first), HandleState::Closed);
    assert_eq!(registry.state(second), HandleState::Closed);
    assert_eq!(registry.state(third), HandleState::Open);
    assert_eq!(registry.state(4), HandleState::Unopened);
}

#[test]
fn a_failed_open_uses_up_no_handle() {
    let spawner = IncSpawner::new(vec![TextInc]);
    let mut registry = SessionRegistry::new();
    assert_eq!(registry.open(&spawner, "a.rs"), Err(OpenError::Spawn(SpawnError::NoInc)));
    assert_eq!(registry.open(&spawner, "a"), Err(OpenError::Spawn(SpawnError::NoInc)));
    assert_eq!(
        registry.open(&spawner, "missing.txt"),
        Err(OpenError::Spawn(SpawnError::SpawnFailure("no such file on disk".to_string())))
    );
    assert_eq!(registry.last_handle(), 0);
    assert_eq!(registry.len(), 0);
    assert_eq!(registry.open(&spawner, "a.txt"), Ok(1));
}

#[test]
fn enroll_issues_the_next_handle() {
    let mut registry = SessionRegistry::new();
    assert_eq!(registry.enroll(TextSession::new("a", "x")), 1);
    assert_eq!(registry.enroll(TextSession::new("b", "y")), 2);
    assert_eq!(registry.state(1), HandleState::Open);
    assert_eq!(registry.state(2), HandleState::Open);
    assert_eq!(registry.state(3), HandleState::Unopened);
}

#[test]
fn update_reaches_the_session_behind_the_handle() {
    let mut registry = SessionRegistry::new();
    let a = registry.enroll(TextSession::new("a", "first"));
    let b = registry.enroll(TextSession::new("b", "second"));
    assert_eq!(text_of(&registry.dispatch_update(a, None).unwrap()), "first");
    assert_eq!(text_of(&registry.dispatch_update(b, None).unwrap()), "second");
    let messages = registry.dispatch_update(a, Some("new".to_string())).unwrap();
    assert_eq!(
        messages,
        vec![Message {
            file: Some("a".to_string()),
            severity: Severity::Info,
            ranges: Vec::new(),
            message: "new".to_string(),
        }]
    );
}

#[test]
fn an_update_leaves_the_other_sessions_alone() {
    let mut registry = SessionRegistry::new();
    let a = registry.enroll(TextSession::new("a", "first"));
    let b = registry.enroll(TextSession::new("b", "second"));
    registry.dispatch_update(a, Some("changed".to_string())).unwrap();
    assert_eq!(text_of(&registry.dispatch_update(b, None).unwrap()), "second");
    registry.dispatch_update(b, Some("other".to_string())).unwrap();
    assert_eq!(text_of(&registry.dispatch_update(a, None).unwrap()), "changed");
    assert_eq!(text_of(&registry.dispatch_update(b, None).unwrap()), "other");
    assert_eq!(registry.len(), 2);
}

#[test]
fn an_update_without_text_sees_the_text_of_the_update_before() {
    let mut registry = SessionRegistry::new();
    let a = registry.enroll(TextSession::new("a", "old"));
    assert_eq!(text_of(&registry.dispatch_update(a, Some("X".to_string())).unwrap()), "X");
    assert_eq!(text_of(&registry.dispatch_update(a, None).unwrap()), "X");
}

#[test]
fn update_of_an_unknown_handle_is_not_found() {
    let mut registry: SessionRegistry<TextSession> = SessionRegistry::new();
    assert_eq!(registry.dispatch_update(0, None), Err(RegistryError::HandleNotFound));
    assert_eq!(registry.dispatch_update(1, None), Err(RegistryError::HandleNotFound));
    assert_eq!(registry.dispatch_update(u64::MAX, None), Err(RegistryError::HandleNotFound));
}

#[test]
fn update_and_close_after_close_are_not_found() {
    let mut registry = SessionRegistry::new();
    let a = registry.enroll(TextSession::new("a", "first"));
    let b = registry.enroll(TextSession::new("b", "second"));
    assert_eq!(registry.close(a), Ok(()));
    assert_eq!(registry.dispatch_update(a, None), Err(RegistryError::HandleNotFound));
    assert_eq!(
        registry.dispatch_update(a, Some("again".to_string())),
        Err(RegistryError::HandleNotFound)
    );
    assert_eq!(registry.close(a), Err(RegistryError::HandleNotFound));
    let c = registry.enroll(TextSession::new("c", "third"));
    assert_ne!(c, a);
    assert_eq!(registry.dispatch_update(a, None), Err(RegistryError::HandleNotFound));
    assert_eq!(text_of(&registry.dispatch_update(b, None).unwrap()), "second");
    assert_eq!(text_of(&registry.dispatch_update(c, None).unwrap()), "third");
}

#[test]
fn close_of_an_unknown_handle_is_not_found() {
    let mut registry: SessionRegistry<TextSession> = SessionRegistry::new();
    assert_eq!(registry.close(7), Err(RegistryError::HandleNotFound));
    assert_eq!(registry.state(7), HandleState::Unopened);
}

#[test]
fn a_failing_session_keeps_its_handle() {
    let mut registry = SessionRegistry::new();
    let a = registry.enroll(TextSession::new("a", "fine"));
    assert_eq!(
        registry.dispatch_update(a, Some("crash".to_string())),
        Err(RegistryError::Session(SessionError::CompileFailure(
            "the compiler gave up".to_string()
        )))
    );
    assert_eq!(registry.state(a), HandleState::Open);
    assert_eq!(text_of(&registry.dispatch_update(a, Some("fine".to_string())).unwrap()), "fine");
}

#[test]
fn a_dead_session_fails_every_update_and_can_be_closed() {
    let mut registry = SessionRegistry::new();
    let mut session = TextSession::new("a", "x");
    session.dead = true;
    let a = registry.enroll(session);
    assert_eq!(
        registry.dispatch_update(a, None),
        Err(RegistryError::Session(SessionError::SessionDead))
    );
    assert_eq!(
        registry.dispatch_update(a, Some("y".to_string())),
        Err(RegistryError::Session(SessionError::SessionDead))
    );
    assert_eq!(registry.state(a), HandleState::Open);
    assert_eq!(registry.close(a), Ok(()));
    assert_eq!(registry.state(a), HandleState::Closed);
}

#[test]
fn close_all_closes_what_is_open_and_keeps_the_count() {
    let mut registry = SessionRegistry::new();
    let a = registry.enroll(TextSession::new("a", "x"));
    let b = registry.enroll(TextSession::new("b", "y"));
    registry.close(a).unwrap();
    registry.close_all();
    assert_eq!(registry.len(), 0);
    assert_eq!(registry.last_handle(), 2);
    assert_eq!(registry.state(a), HandleState::Closed);
    assert_eq!(registry.state(b), HandleState::Closed);
    assert_eq!(registry.enroll(TextSession::new("c", "z")), 3);
}

#[test]
fn registry_errors_have_messages() {
    assert_eq!(RegistryError::HandleNotFound.message(), "No such file");
    assert_eq!(
        RegistryError::Session(SessionError::CompileFailure("bad".to_string())).message(),
        "bad"
    );
    assert_eq!(RegistryError::Session(SessionError::SessionDead).message(), "Failed to update");
}

#[test]
fn ranges_know_whether_they_are_in_order() {
    let at = |line, col| Index { line, col };
    assert!(Range { start: at(0, 0), end: at(0, 0) }.is_wf());
    assert!(Range { start: at(1, 5), end: at(1, 6) }.is_wf());
    assert!(Range { start: at(1, 5), end: at(2, 0) }.is_wf());
    assert!(!Range { start: at(1, 5), end: at(1, 4) }.is_wf());
    assert!(!Range { start: at(2, 0), end: at(1, 9) }.is_wf());
}

#[test]
fn open_errors_have_messages() {
    assert_eq!(OpenError::Spawn(SpawnError::NoInc).message(), "NoInc");
    assert_eq!(OpenError::Spawn(SpawnError::SpawnFailure("x".to_string())).message(), "x");
    assert_eq!(OpenError::NoHandleLeft.message(), "No handle left");
}
