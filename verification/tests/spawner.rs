use ivygate::inc::clang::ClangInc;
use ivygate::inc::{Inc, IncSpawner, Message, Session, SessionError, Severity, SpawnError};

struct FakeSession {
    host: &'static str,
    path: String,
}

impl Session for FakeSession {
    fn mv(&mut self, path: String) -> Result<(), SessionError> {
        self.path = path;
        Ok(())
    }

    fn update(&mut self, _code: Option<String>) -> Result<Vec<Message>, SessionError> {
        Ok(Vec::new())
    }
}

struct FakeInc {
    name: &'static str,
    extensions: Vec<&'static str>,
    broken: bool,
}

impl FakeInc {
    fn new(name: &'static str, extensions: &[&'static str]) -> Self {
        FakeInc { name, extensions: extensions.to_vec(), broken: false }
    }

    fn broken(name: &'static str, extensions: &[&'static str]) -> Self {
        FakeInc { name, extensions: extensions.to_vec(), broken: true }
    }
}

impl Inc for FakeInc {
    type Session = FakeSession;

    fn name(&self) -> &str {
        self.name
    }

    fn extensions(&self) -> Vec<String> {
        self.extensions.iter().map(|e| e.to_string()).collect()
    }

    fn start_session(&self, path: String) -> Result<FakeSession, String> {
        if self.broken {
            Err(format!("{} cannot open {}", self.name, path))
        } else {
            Ok(FakeSession { host: self.name, path })
        }
    }
}

#[test]
fn spawn_fails_without_a_backend_for_the_extension() {
    let spawner = IncSpawner::new(vec![FakeInc::new("c", &["c", "h"])]);
    assert!(matches!(spawner.spawn("foo.bar"), Err(SpawnError::NoInc)));
}

#[test]
fn spawn_succeeds_with_a_backend_for_the_extension() {
    let spawner = IncSpawner::new(vec![FakeInc::new("c", &["c", "h"])]);
    let session = spawner.spawn("foo.c").unwrap();
    assert_eq!(session.host, "c");
    assert_eq!(session.path, "foo.c");
}

#[test]
fn spawn_fails_without_an_extension() {
    let spawner = IncSpawner::new(vec![FakeInc::new("c", &["c", "h"])]);
    assert!(matches!(spawner.spawn("Makefile"), Err(SpawnError::NoInc)));
    assert!(matches!(spawner.spawn(""), Err(SpawnError::NoInc)));
    assert!(matches!(spawner.spawn("c"), Err(SpawnError::NoInc)));
}

#[test]
fn spawn_fails_with_no_backend_installed() {
    let spawner: IncSpawner<FakeInc> = IncSpawner::new(Vec::new());
    assert_eq!(spawner.len(), 0);
    assert!(matches!(spawner.spawn("foo.c"), Err(SpawnError::NoInc)));
}

#[test]
fn spawn_takes_the_extension_behind_the_last_dot() {
    let spawner = IncSpawner::new(vec![FakeInc::new("tar", &["tar"]), FakeInc::new("gz", &["gz"])]);
    assert_eq!(spawner.spawn("dir.tar/archive.tar.gz").unwrap().host, "gz");
}

#[test]
fn the_first_backend_that_claims_an_extension_wins() {
    let spawner = IncSpawner::new(vec![
        FakeInc::new("first", &["x"]),
        FakeInc::new("second", &["h", "c"]),
        FakeInc::new("third", &["c"]),
    ]);
    assert_eq!(spawner.len(), 3);
    assert_eq!(spawner.get(1).name(), "second");
    assert_eq!(spawner.find("c"), Some(1));
    assert_eq!(spawner.find("x"), Some(0));
    assert_eq!(spawner.find("h"), Some(1));
    assert_eq!(spawner.find("rs"), None);
    assert_eq!(spawner.spawn("main.c").unwrap().host, "second");
}

#[test]
fn an_extension_is_matched_exactly() {
    let spawner = IncSpawner::new(vec![FakeInc::new("c", &["c"])]);
    assert_eq!(spawner.find("C"), None);
    assert_eq!(spawner.find("cc"), None);
    assert_eq!(spawner.find(".c"), None);
    assert_eq!(spawner.find(""), None);
}

#[test]
fn spawn_as_routes_by_the_extension_it_is_given() {
    let spawner = IncSpawner::new(vec![FakeInc::new("c", &["c"]), FakeInc::new("py", &["py"])]);
    assert_eq!(spawner.spawn_as("whatever.c", Some("py")).unwrap().host, "py");
    assert!(matches!(spawner.spawn_as("whatever.c", None), Err(SpawnError::NoInc)));
    assert!(matches!(spawner.spawn_as("whatever.c", Some("rs")), Err(SpawnError::NoInc)));
}

#[test]
fn a_backend_that_fails_gives_a_spawn_failure() {
    let spawner = IncSpawner::new(vec![FakeInc::broken("c", &["c"]), FakeInc::new("c2", &["c"])]);
    match spawner.spawn("a.c") {
        Err(SpawnError::SpawnFailure(text)) => assert_eq!(text, "c cannot open a.c"),
        _ => panic!("expected a spawn failure"),
    }
}

#[test]
fn spawn_errors_have_messages() {
    assert_eq!(SpawnError::NoInc.message(), "NoInc");
    assert_eq!(SpawnError::SpawnFailure("no parser".to_string()).message(), "no parser");
}

#[test]
fn session_errors_have_messages() {
    assert_eq!(SessionError::CompileFailure("bad".to_string()).message(), "bad");
    assert_eq!(SessionError::IoFailure("disk".to_string()).message(), "disk");
    assert_eq!(SessionError::SessionDead.message(), "Failed to update");
}

#[test]
fn clang_claims_the_c_family() {
    let clang = ClangInc {};
    assert_eq!(clang.name(), "clang");
    assert_eq!(clang.extensions(), vec!["c", "cc", "cpp", "cxx", "h", "hh", "hpp", "hxx"]);
}

#[test]
fn severities_are_distinct() {
    assert_ne!(Severity::Error, Severity::Warning);
    assert_ne!(Severity::Warning, Severity::Info);
}

#[test]
fn a_bare_name_has_what_stands_behind_its_last_dot() {
    let spawner = IncSpawner::new(vec![
        FakeInc::new("none", &[""]),
        FakeInc::new("b", &["b"]),
        FakeInc::new("c", &["c"]),
        FakeInc::new("bc", &["b.c"]),
        FakeInc::new("rc", &["bashrc"]),
    ]);
    assert_eq!(spawner.spawn("a.b.c").unwrap().host, "c");
    assert_eq!(spawner.spawn("a.b").unwrap().host, "b");
    assert_eq!(spawner.spawn("..b").unwrap().host, "b");
    assert_eq!(spawner.spawn("foo.").unwrap().host, "none");
    assert_eq!(spawner.spawn("...").unwrap().host, "none");
    assert_eq!(spawner.spawn("a b.c").unwrap().host, "c");
    assert!(matches!(spawner.spawn(".."), Err(SpawnError::NoInc)));
    assert!(matches!(spawner.spawn("."), Err(SpawnError::NoInc)));
    assert!(matches!(spawner.spawn(".bashrc"), Err(SpawnError::NoInc)));
    assert!(matches!(spawner.spawn("a.x"), Err(SpawnError::NoInc)));
}

#[test]
fn an_extension_runs_to_the_end_or_to_a_separator() {
    let spawner = IncSpawner::new(vec![FakeInc::new("c", &["c"]), FakeInc::new("d", &["d"])]);
    assert_eq!(spawner.spawn("src/a.c").unwrap().host, "c");
    assert_eq!(spawner.spawn("src.d/a.c").unwrap().host, "c");
    assert_eq!(spawner.spawn("src/a.c/").unwrap().host, "c");
    assert_eq!(spawner.spawn("/a.d").unwrap().host, "d");
    assert!(matches!(spawner.spawn("src.d/a"), Err(SpawnError::NoInc)));
    assert!(matches!(spawner.spawn("src/a.c/.."), Err(SpawnError::NoInc)));
}
