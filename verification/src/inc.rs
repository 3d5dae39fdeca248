//! The diagnostic model, the contract between the service and a compiler
//! backend, and the spawner that picks a backend for a file.

use vstd::prelude::*;

pub mod clang;

verus! {

/// How serious a diagnostic is.
#[derive(Debug, Clone, Copy, PartialEq, Eq, Structural)]
pub enum Severity {
    Error,
    Warning,
    Info,
}

/// A single point in a text document. Lines and columns count from zero.
#[derive(Debug, Clone, Copy, PartialEq, Eq, Structural)]
pub struct Index {
    /// Line number (starting from 0)
    pub line: usize,
    /// Column offset (starting from 0)
    pub col: usize,
}

impl Index {
    /// Document order: earlier lines first, then earlier columns.
    pub open spec fn at_or_before(self, other: Index) -> bool {
        self.line < other.line || (self.line == other.line && self.col <= other.col)
    }
}

/// A stretch of a text document between two points.
#[derive(Debug, Clone, Copy, PartialEq, Eq, Structural)]
pub struct Range {
    /// Start index of the range
    pub start: Index,
    /// End index of the range
    pub end: Index,
}

impl Range {
    /// A range is well formed when it does not end before it starts. Nothing
    /// enforces this when a range is built: whoever builds one owes it.
    pub open spec fn wf(self) -> bool {
        self.start.at_or_before(self.end)
    }

    /// Whether the range ends at or after its start.
    pub fn is_wf(&self) -> (ok: bool)
        ensures
            ok == self.wf(),
    {
        self.start.line < self.end.line || (self.start.line == self.end.line && self.start.col
            <= self.end.col)
    }
}

/// A message that should be displayed to the user
#[derive(Debug, Clone, PartialEq, Eq)]
pub struct Message {
    /// The file the message is about, where the backend names one
    pub file: Option<String>,
    /// The severity of the message
    pub severity: Severity,
    /// The places in the text the message points at, in the backend's order
    pub ranges: Vec<Range>,
    /// The text of the message
    pub message: String,
}

/// What a [`Message`] holds, as mathematical values.
pub struct MessageView {
    pub file: Option<Seq<char>>,
    pub severity: Severity,
    pub ranges: Seq<Range>,
    pub message: Seq<char>,
}

impl View for Message {
    type V = MessageView;

    open spec fn view(&self) -> MessageView {
        MessageView {
            file: match self.file {
                Some(f) => Some(f@),
                None => None,
            },
            severity: self.severity,
            ranges: self.ranges@,
            message: self.message@,
        }
    }
}

impl DeepView for Message {
    type V = MessageView;

    open spec fn deep_view(&self) -> MessageView {
        self@
    }
}

/// Why an operation on a live session failed.
#[derive(Debug, Clone, PartialEq, Eq)]
pub enum SessionError {
    /// The backend reported an error while it recomputed the diagnostics.
    /// This is not a diagnostic: a successful update may well list errors.
    CompileFailure(String),
    /// The session's worker has stopped, so no reply will ever come.
    SessionDead,
    /// The backing file could not be written or relocated.
    IoFailure(String),
}

impl SessionError {
    /// The text shown to the user for this failure.
    pub open spec fn spec_message(&self) -> Seq<char> {
        match self {
            SessionError::CompileFailure(text) => text@,
            SessionError::SessionDead => "Failed to update"@,
            SessionError::IoFailure(text) => text@,
        }
    }

    /// The text shown to the user for this failure.
    pub fn message(&self) -> (text: String)
        ensures
            text@ == self.spec_message(),
    {
        match self {
            SessionError::CompileFailure(text) => text.clone(),
            SessionError::SessionDead => "Failed to update".to_owned(),
            SessionError::IoFailure(text) => text.clone(),
        }
    }
}

/// The contents a session holds after an update: the new text where the
/// update brings one, the text it held before where it brings none.
pub open spec fn adopted(before: Seq<char>, code: Option<String>) -> Seq<char> {
    match code {
        Some(text) => text@,
        None => before,
    }
}

/// A single incremental-compiler "session". 1 session = 1 file
///
/// A session owns one compiler instance and the live state of one file. The
/// clauses below are what every implementation owes its callers; nothing in
/// this crate can check them for an implementation written elsewhere.
///
/// `path`, `contents`, `reports` and `responds` exist for the contracts
/// alone. They have a body because an implementation in plain Rust cannot
/// give them one. A verified implementation has to say what they are: with
/// the bodies kept as they stand, `contents` is one text for all sessions of
/// the type, and the clauses of `update` cannot be proved of a session that
/// adopts two texts.
pub trait Session: Send + Sync + Sized {
    /// Where the session's file lies.
    open spec fn path(&self) -> Seq<char> {
        arbitrary()
    }

    /// The text the session last adopted as its file's contents.
    open spec fn contents(&self) -> Seq<char> {
        arbitrary()
    }

    /// Whether `messages` is the diagnosis this session gives of `contents`.
    open spec fn reports(&self, contents: Seq<char>, messages: Seq<MessageView>) -> bool {
        arbitrary()
    }

    /// Whether this session, asked to update with `code`, may answer
    /// `outcome` and be `after` afterwards. It covers failure as well as
    /// success.
    open spec fn responds(
        &self,
        code: Option<String>,
        outcome: Result<Vec<Message>, SessionError>,
        after: &Self,
    ) -> bool {
        arbitrary()
    }

    /// Tells the session that its file now lies at `path`. A session that
    /// cannot follow the file fails; it never reports success while still
    /// looking at the old place.
    fn mv(&mut self, path: String) -> (r: Result<(), SessionError>)
        ensures
            r is Ok ==> final(self).path() == path@,
    ;

    /// Recomputes the diagnostics. Where `code` holds a text the session
    /// first adopts it as the file's contents and only then diagnoses;
    /// where it holds none the session diagnoses the contents it last
    /// adopted. The messages come in the backend's own order.
    fn update(&mut self, code: Option<String>) -> (r: Result<Vec<Message>, SessionError>)
        ensures
            old(self).responds(code, r, final(self)),
            r matches Ok(messages) ==> {
                &&& final(self).contents() == adopted(old(self).contents(), code)
                &&& final(self).reports(final(self).contents(), messages.deep_view())
            },
    ;
}

/// What [`Session::update`] promises of the session before and after it:
/// `r` is what the session answered to an update with `code`, whether it
/// succeeded or failed, and where it succeeded the session holds the adopted
/// contents and the messages are its diagnosis of them.
pub open spec fn updated<S: Session>(
    before: S,
    code: Option<String>,
    after: S,
    r: Result<Vec<Message>, SessionError>,
) -> bool {
    &&& before.responds(code, r, &after)
    &&& r matches Ok(messages) ==> {
        &&& after.contents() == adopted(before.contents(), code)
        &&& after.reports(after.contents(), messages.deep_view())
    }
}

/// An update that brings a text, then one that brings none: where both
/// succeed, the messages of the second are the diagnosis of the text that the
/// first one brought, not of anything the session held earlier.
pub proof fn lemma_update_is_write_through<S: Session>(
    s0: S,
    text: String,
    r1: Result<Vec<Message>, SessionError>,
    s1: S,
    r2: Result<Vec<Message>, SessionError>,
    s2: S,
)
    requires
        updated(s0, Some(text), s1, r1),
        updated(s1, None, s2, r2),
        r1 is Ok,
        r2 is Ok,
    ensures
        s2.contents() == text@,
        s2.reports(text@, r2->Ok_0.deep_view()),
{
}

/// Why no session could be started for a file.
#[derive(Debug, Clone, PartialEq, Eq)]
pub enum SpawnError {
    /// The path has no extension, or no installed backend claims it.
    NoInc,
    /// The backend that claims the file could not start a session for it.
    SpawnFailure(String),
}

impl SpawnError {
    /// The text shown to the user for this failure.
    pub open spec fn spec_message(&self) -> Seq<char> {
        match self {
            SpawnError::NoInc => "NoInc"@,
            SpawnError::SpawnFailure(text) => text@,
        }
    }

    /// The text shown to the user for this failure.
    pub fn message(&self) -> (text: String)
        ensures
            text@ == self.spec_message(),
    {
        match self {
            SpawnError::NoInc => "NoInc".to_owned(),
            SpawnError::SpawnFailure(text) => text.clone(),
        }
    }
}

/// Represents an incremental compiler for user code
///
/// The clauses below are what every backend owes its callers; nothing in
/// this crate can check them for a backend written elsewhere. `spec_name`,
/// `spec_extensions` and `starts` exist for the contracts alone. They have a
/// body because a backend in plain Rust cannot give them one; a verified
/// backend has to say what they are.
pub trait Inc: Send + Sync + Sized {
    /// The sessions this backend starts.
    type Session: Session;

    /// The backend's name, as the contracts see it.
    open spec fn spec_name(&self) -> Seq<char> {
        arbitrary()
    }

    /// The extensions the backend claims, as the contracts see them.
    open spec fn spec_extensions(&self) -> Seq<Seq<char>> {
        arbitrary()
    }

    /// Whether `outcome` is something this backend may answer when asked to
    /// start a session for the file at `path`.
    open spec fn starts(&self, path: Seq<char>, outcome: Result<Self::Session, String>) -> bool {
        arbitrary()
    }

    /// Name of the incremental compiler (e.g., clang). It never changes.
    fn name(&self) -> (name: &str)
        ensures
            name@ == self.spec_name(),
    ;

    /// The file extensions this incremental compiler supports.
    /// Must not contain leading dots (e.g., "c", not ".c"). The list never
    /// changes.
    fn extensions(&self) -> (extensions: Vec<String>)
        ensures
            extensions.deep_view() == self.spec_extensions(),
    ;

    /// Create a new session for the file at `path`, fully set up. A backend
    /// that fails hands out no session at all and says why.
    fn start_session(&self, path: String) -> (outcome: Result<Self::Session, String>)
        ensures
            self.starts(path@, outcome),
            outcome matches Ok(session) ==> session.path() == path@,
    ;
}

/// Whether `c` parts the components of a path on some platform.
pub open spec fn is_separator(c: char) -> bool {
    c == '/' || c == '\\'
}

/// Whether `ext` stands in `path` right behind the dot at `i` and runs from
/// there to the end of the path or to a separator.
pub open spec fn stands_behind(path: Seq<char>, ext: Seq<char>, i: int) -> bool {
    &&& 0 <= i < path.len()
    &&& path[i] == '.'
    &&& i + 1 + ext.len() <= path.len()
    &&& path.subrange(i + 1, i + 1 + ext.len()) == ext
    &&& (i + 1 + ext.len() == path.len() || is_separator(path[i + 1 + ext.len()]))
}

/// Whether `path` is a bare file name: it holds no separator and no colon,
/// and is not `..`.
pub open spec fn is_bare_name(path: Seq<char>) -> bool {
    &&& forall|i: int|
        0 <= i < path.len() ==> !is_separator(#[trigger] path[i]) && path[i] != ':'
    &&& !(path.len() == 2 && path[0] == '.' && path[1] == '.')
}

/// Whether `path` has a dot behind its first character.
pub open spec fn has_inner_dot(path: Seq<char>) -> bool {
    exists|i: int| 1 <= i < path.len() && #[trigger] path[i] == '.'
}

/// What holds of the extension of a path wherever the library runs. An
/// extension holds no dot, stands right behind a dot of the path and runs to
/// the end of the path or to a separator. A bare file name with a dot behind
/// its first character has an extension.
pub open spec fn extension_fits(path: Seq<char>, ext: Option<Seq<char>>) -> bool {
    &&& ext matches Some(e) ==> {
        &&& !e.contains('.')
        &&& exists|i: int| #[trigger] stands_behind(path, e, i)
    }
    &&& is_bare_name(path) && has_inner_dot(path) ==> ext is Some
}

/// Whether the dot at `i` is the last dot of `path`.
pub open spec fn is_last_dot(path: Seq<char>, i: int) -> bool {
    &&& 0 <= i < path.len()
    &&& path[i] == '.'
    &&& forall|j: int| i < j < path.len() ==> #[trigger] path[j] != '.'
}

/// What stands behind the last dot of `path`.
pub open spec fn after_last_dot(path: Seq<char>) -> Seq<char> {
    let i = choose|i: int| is_last_dot(path, i);
    path.subrange(i + 1, path.len() as int)
}

/// The extension of a bare file name with a dot behind its first character
/// is what stands behind its last dot, on every platform.
pub proof fn lemma_extension_of_bare_name(path: Seq<char>, ext: Option<Seq<char>>)
    requires
        extension_fits(path, ext),
        is_bare_name(path),
        has_inner_dot(path),
    ensures
        ext == Some(after_last_dot(path)),
{
    let e = ext->Some_0;
    let i = choose|i: int| #[trigger] stands_behind(path, e, i);
    assert(stands_behind(path, e, i));
    assert(i + 1 + e.len() == path.len()) by {
        if i + 1 + e.len() < path.len() {
            assert(!is_separator(path[i + 1 + e.len()]));
        }
    }
    assert forall|j: int| i < j < path.len() implies #[trigger] path[j] != '.' by {
        assert(path.subrange(i + 1, i + 1 + e.len())[j - i - 1] == path[j]);
        assert(e[j - i - 1] == path[j]);
        if path[j] == '.' {
            assert(e.contains('.'));
        }
    }
    assert(is_last_dot(path, i));
    let k = choose|k: int| is_last_dot(path, k);
    assert(is_last_dot(path, k));
    if k < i {
        assert(path[i] != '.');
    }
    if i < k {
        assert(path[k] != '.');
    }
    assert(path.subrange(i + 1, path.len() as int) == e);
}

/// The extension of a path, as `std::path::Path::extension` finds it: the
/// part of the path's last component behind that component's last dot. How
/// a path falls into components differs between platforms, so the contract
/// claims what holds on all of them, [`extension_fits`]: where an extension
/// comes back, it holds no dot and is the piece of the path right behind one
/// of its dots, up to the end of the path or to a `/` or `\`; and for a
/// bare file name with a dot behind its first character one does come back.
#[verifier::external_body]
fn path_extension(path: &str) -> (ext: Option<String>)
    ensures
        extension_fits(
            path@,
            match ext {
                Some(e) => Some(e@),
                None => None,
            },
        ),
{
    std::path::Path::new(path).extension().map(|e| e.to_string_lossy().into_owned())
}

/// Whether `list` holds `ext`.
fn holds(list: &Vec<String>, ext: &String) -> (found: bool)
    ensures
        found == list.deep_view().contains(ext@),
{
    let mut k: usize = 0;
    while k < list.len()
        invariant
            k <= list.len(),
            forall|j: int| 0 <= j < k ==> list.deep_view()[j] != ext@,
        decreases list.len() - k,
    {
        if list[k] == *ext {
            assert(list.deep_view()[k as int] == ext@);
            return true;
        }
        k += 1;
    }
    false
}

/// A factory for creating sessions based on file extension
///
/// It holds the installed backends in the order in which they were given.
/// That order is a priority: where two backends claim one extension, the
/// earlier one gets the file.
pub struct IncSpawner<B: Inc> {
    incs: Vec<B>,
}

impl<B: Inc> IncSpawner<B> {
    /// The installed backends, first priority first.
    pub closed spec fn backends(&self) -> Seq<B> {
        self.incs@
    }

    /// Whether backend `i` is the first one that claims `ext`.
    pub open spec fn is_route(&self, ext: Seq<char>, i: int) -> bool {
        &&& 0 <= i < self.backends().len()
        &&& self.backends()[i].spec_extensions().contains(ext)
        &&& forall|j: int| 0 <= j < i ==> !(#[trigger] self.backends()[j]).spec_extensions().contains(ext)
    }

    /// The backend a file with extension `ext` goes to: the first that
    /// claims the extension, none where there is no extension or nobody
    /// claims it.
    pub open spec fn route(&self, ext: Option<Seq<char>>) -> Option<int> {
        match ext {
            Some(e) => if exists|i: int| self.is_route(e, i) {
                Some(choose|i: int| self.is_route(e, i))
            } else {
                None
            },
            None => None,
        }
    }

    /// What comes of spawning a session for `path` once its extension is
    /// known to be `ext`.
    pub open spec fn spawned(
        &self,
        path: Seq<char>,
        ext: Option<Seq<char>>,
        r: Result<B::Session, SpawnError>,
    ) -> bool {
        match self.route(ext) {
            None => r matches Err(SpawnError::NoInc),
            Some(i) => match r {
                Ok(session) => self.backends()[i].starts(path, Ok(session)) && session.path()
                    == path,
                Err(SpawnError::SpawnFailure(text)) => self.backends()[i].starts(path, Err(text)),
                Err(SpawnError::NoInc) => false,
            },
        }
    }

    /// A spawner over `incs`, the first of them having the first pick.
    pub fn new(incs: Vec<B>) -> (spawner: Self)
        ensures
            spawner.backends() == incs@,
    {
        IncSpawner { incs }
    }

    /// How many backends are installed.
    pub fn len(&self) -> (n: usize)
        ensures
            n == self.backends().len(),
    {
        self.incs.len()
    }

    /// The backend at place `i`.
    pub fn get(&self, i: usize) -> (inc: &B)
        requires
            i < self.backends().len(),
        ensures
            *inc == self.backends()[i as int],
    {
        &self.incs[i]
    }

    /// The place of the backend that a file with extension `ext` goes to.
    pub fn find(&self, ext: &str) -> (place: Option<usize>)
        ensures
            self.route(Some(ext@)) == match place {
                Some(i) => Some(i as int),
                None => None,
            },
            place matches Some(i) ==> self.is_route(ext@, i as int),
    {
        let wanted = ext.to_owned();
        let mut i: usize = 0;
        while i < self.incs.len()
            invariant
                i <= self.incs.len(),
                wanted@ == ext@,
                forall|j: int| 0 <= j < i ==> !(#[trigger] self.backends()[j]).spec_extensions().contains(ext@),
            decreases self.incs.len() - i,
        {
            let list = self.incs[i].extensions();
            if holds(&list, &wanted) {
                proof {
                    self.lemma_route_is_unique(ext@, i as int);
                }
                return Some(i);
            }
            i += 1;
        }
        assert(forall|j: int| !self.is_route(ext@, j));
        None
    }

    /// At most one backend is the first to claim an extension.
    proof fn lemma_route_is_unique(&self, ext: Seq<char>, i: int)
        requires
            self.is_route(ext, i),
        ensures
            self.route(Some(ext)) == Some(i),
    {
        let j = choose|j: int| self.is_route(ext, j);
        assert(self.is_route(ext, j));
        if j < i {
            assert(!self.backends()[j].spec_extensions().contains(ext));
        }
        if i < j {
            assert(!self.backends()[i].spec_extensions().contains(ext));
        }
    }

    /// Starts a session for the file at `path`, whose extension is `ext`.
    /// Without an extension, or with one that no backend claims, this fails
    /// with [`SpawnError::NoInc`] and asks no backend. Otherwise the first
    /// backend that claims the extension is asked for a session, and what it
    /// answers is handed on.
    pub fn spawn_as(&self, path: &str, ext: Option<&str>) -> (r: Result<B::Session, SpawnError>)
        ensures
            self.spawned(
                path@,
                match ext {
                    Some(e) => Some(e@),
                    None => None,
                },
                r,
            ),
    {
        let ext = match ext {
            Some(e) => e,
            None => { return Err(SpawnError::NoInc); },
        };
        match self.find(ext) {
            None => Err(SpawnError::NoInc),
            Some(i) => match self.incs[i].start_session(path.to_owned()) {
                Ok(session) => Ok(session),
                Err(text) => Err(SpawnError::SpawnFailure(text)),
            },
        }
    }

    /// What comes of spawning a session for `path`. The extension is one
    /// that fits the path, and the outcome is that of routing by it; for a
    /// bare file name with a dot behind its first character the extension is
    /// what stands behind the last dot.
    pub open spec fn spawned_for(&self, path: Seq<char>, r: Result<B::Session, SpawnError>) -> bool {
        &&& exists|ext: Option<Seq<char>>|
            extension_fits(path, ext) && #[trigger] self.spawned(path, ext, r)
        &&& is_bare_name(path) && has_inner_dot(path) ==> self.spawned(
            path,
            Some(after_last_dot(path)),
            r,
        )
        &&& !path.contains('.') ==> r matches Err(SpawnError::NoInc)
    }

    /// Starts a session for the file at `path`: finds the path's extension
    /// and goes on as [`IncSpawner::spawn_as`] does. A file named `foo.bar`
    /// goes to the first backend that claims `bar`, and fails with
    /// [`SpawnError::NoInc`] where none does.
    pub fn spawn(&self, path: &str) -> (r: Result<B::Session, SpawnError>)
        ensures
            self.spawned_for(path@, r),
    {
        let ext = path_extension(path);
        let ghost found: Option<Seq<char>> = match &ext {
            Some(e) => Some(e@),
            None => None,
        };
        let r = match &ext {
            Some(e) => self.spawn_as(path, Some(e.as_str())),
            None => self.spawn_as(path, None),
        };
        proof {
            assert(self.spawned(path@, found, r));
            if is_bare_name(path@) && has_inner_dot(path@) {
                lemma_extension_of_bare_name(path@, found);
            }
            if !path@.contains('.') {
                if let Some(e) = found {
                    let i = choose|i: int| #[trigger] stands_behind(path@, e, i);
                    assert(stands_behind(path@, e, i));
                    assert(path@.contains('.'));
                }
            }
        }
        r
    }
}

/// Routing by file name: a bare file name with a dot behind its first
/// character goes by what stands behind its last dot. Where no installed
/// backend claims that, spawning fails with [`SpawnError::NoInc`]; where one
/// does, the outcome is that backend's, a session or its failure to start
/// one, and never [`SpawnError::NoInc`].
pub proof fn lemma_spawn_routes_by_extension<B: Inc>(
    spawner: IncSpawner<B>,
    path: Seq<char>,
    r: Result<B::Session, SpawnError>,
)
    requires
        spawner.spawned_for(path, r),
        is_bare_name(path),
        has_inner_dot(path),
    ensures
        spawner.route(Some(after_last_dot(path))) is None ==> r matches Err(SpawnError::NoInc),
        spawner.route(Some(after_last_dot(path))) matches Some(i) ==> match r {
            Ok(session) => spawner.backends()[i].starts(path, Ok(session)),
            Err(SpawnError::SpawnFailure(text)) => spawner.backends()[i].starts(path, Err(text)),
            Err(SpawnError::NoInc) => false,
        },
{
}

} // verus!
