//! Turns one request into its response.
//!
//! The dispatcher keeps nothing of its own: the installed backends and the
//! connection's sessions are handed to it. Every request about a file gets
//! exactly one response, under the request's id, and a request that fails
//! gets a response that says why: no request ends the connection.

use crate::inc::{updated, Inc, IncSpawner, Session, SessionError, SpawnError};
use crate::proto::{
    CloseFileReq, CloseFileRes, CloseProjectRes, CreateFileRes, DeleteFileRes, ListProjectsRes,
    LoginRes, OpenFileReq, OpenFileRes, OpenProjectRes, Req, ReqKind, Res, ResKind,
    UpdateFileReq, UpdateFileRes,
};
use crate::registry::{HandleState, OpenError, RegistryError, SessionRegistry};
use vstd::prelude::*;

verus! {

/// Whether a request is about a file's session. The other requests are about
/// projects and users, which the keeper of the files answers.
pub open spec fn is_file_request(kind: ReqKind) -> bool {
    kind is OpenFile || kind is UpdateFile || kind is CloseFile
}

/// Whether `error` holds the text `text`.
pub open spec fn says(error: Option<String>, text: Seq<char>) -> bool {
    error matches Some(t) && t@ == text
}

/// What [`open_file`] answers and does: `res` is the answer to `req`, given
/// by a dispatcher whose registry was `before` and is `after`. The answer
/// holds the new handle, or the words of what kept the file from opening.
pub open spec fn opened_as<B: Inc>(
    spawner: &IncSpawner<B>,
    before: &SessionRegistry<B::Session>,
    req: &OpenFileReq,
    after: &SessionRegistry<B::Session>,
    res: OpenFileRes,
) -> bool {
    &&& res.success <==> res.handle is Some
    &&& res.contents is None
    &&& match res.handle {
        Some(handle) => {
            &&& res.error is None
            &&& before.opened(spawner, req.path@, after, Ok(handle))
        },
        None => exists|e: OpenError|
            {
                &&& #[trigger] before.opened(spawner, req.path@, after, Err(e))
                &&& says(res.error, e.spec_message())
            },
    }
}

/// What [`update_file`] answers and does.
pub open spec fn updated_as<S: Session>(
    before: &SessionRegistry<S>,
    req: &UpdateFileReq,
    after: &SessionRegistry<S>,
    res: UpdateFileRes,
) -> bool {
    &&& after.issued() == before.issued()
    &&& after.sessions().dom() == before.sessions().dom()
    &&& forall|other: u64|
        other != req.handle && before.sessions().contains_key(other)
            ==> #[trigger] after.sessions()[other] == before.sessions()[other]
    &&& res.success <==> res.messages is Some
    &&& res.success <==> res.error is None
    &&& match before.state_of(req.handle) {
        HandleState::Open => match res.messages {
            Some(messages) => updated(
                before.sessions()[req.handle],
                req.code,
                after.sessions()[req.handle],
                Ok(messages),
            ),
            None => exists|e: SessionError|
                {
                    &&& #[trigger] updated(
                        before.sessions()[req.handle],
                        req.code,
                        after.sessions()[req.handle],
                        Err(e),
                    )
                    &&& says(res.error, e.spec_message())
                },
        },
        _ => {
            &&& !res.success
            &&& says(res.error, RegistryError::HandleNotFound.spec_message())
            &&& after.sessions() == before.sessions()
        },
    }
}

/// What [`close_file`] answers and does.
pub open spec fn closed_as<S: Session>(
    before: &SessionRegistry<S>,
    req: &CloseFileReq,
    after: &SessionRegistry<S>,
    res: CloseFileRes,
) -> bool {
    &&& after.issued() == before.issued()
    &&& after.sessions() == before.sessions().remove(req.handle)
    &&& after.state_of(req.handle) != HandleState::Open
    &&& res.success <==> before.state_of(req.handle) == HandleState::Open
    &&& res.success ==> res.error is None
    &&& !res.success ==> says(res.error, RegistryError::HandleNotFound.spec_message())
}

/// Opens a file: starts a session through `spawner`, has `registry` issue a
/// handle for it and answers with the handle. The answer carries no
/// contents. Where no session starts, the answer says why and the registry
/// is as it was.
pub fn open_file<B: Inc>(
    spawner: &IncSpawner<B>,
    registry: &mut SessionRegistry<B::Session>,
    req: &OpenFileReq,
) -> (res: OpenFileRes)
    requires
        old(registry).wf(),
    ensures
        final(registry).wf(),
        old(registry).precedes(final(registry)),
        opened_as(spawner, old(registry), req, final(registry), res),
{
    match registry.open(spawner, req.path.as_str()) {
        Ok(handle) => OpenFileRes::opened(handle),
        Err(e) => {
            let res = OpenFileRes::error(e.message());
            assert(old(registry).opened(spawner, req.path@, registry, Err(e)) && says(
                res.error,
                e.spec_message(),
            ));
            res
        },
    }
}

/// Updates an open file and answers with the diagnostics of its session, in
/// the session's order. A handle that is not open is answered with "No such
/// file"; a session that fails, with what it said. No other session is
/// touched.
pub fn update_file<S: Session>(registry: &mut SessionRegistry<S>, req: &UpdateFileReq) -> (res:
    UpdateFileRes)
    requires
        old(registry).wf(),
    ensures
        final(registry).wf(),
        old(registry).precedes(final(registry)),
        updated_as(old(registry), req, final(registry), res),
{
    let code = match &req.code {
        Some(text) => Some(text.clone()),
        None => None,
    };
    assert(code == req.code);
    match registry.dispatch_update(req.handle, code) {
        Ok(messages) => UpdateFileRes::success(messages),
        Err(e) => {
            let res = UpdateFileRes::error(e.message());
            proof {
                if let RegistryError::Session(inner) = e {
                    assert(updated(
                        old(registry).sessions()[req.handle],
                        req.code,
                        registry.sessions()[req.handle],
                        Err(inner),
                    ) && says(res.error, inner.spec_message()));
                }
            }
            res
        },
    }
}

/// Closes an open file. The handle is gone from the registry before its
/// session is let go. A handle that is not open is answered with "No such
/// file".
pub fn close_file<S: Session>(registry: &mut SessionRegistry<S>, req: &CloseFileReq) -> (res:
    CloseFileRes)
    requires
        old(registry).wf(),
    ensures
        final(registry).wf(),
        old(registry).precedes(final(registry)),
        closed_as(old(registry), req, final(registry), res),
{
    match registry.close(req.handle) {
        Ok(()) => CloseFileRes::success(),
        Err(e) => CloseFileRes::error(e.message()),
    }
}

/// What [`dispatch`] answers and does.
pub open spec fn dispatched<B: Inc>(
    spawner: &IncSpawner<B>,
    before: &SessionRegistry<B::Session>,
    req: &Req,
    after: &SessionRegistry<B::Session>,
    res: Option<Res>,
) -> bool {
    match req.kind {
        ReqKind::OpenFile(open) => {
            &&& res matches Some(r)
            &&& r.id == req.id
            &&& r.kind matches ResKind::OpenFile(answer)
            &&& opened_as(spawner, before, &open, after, answer)
        },
        ReqKind::UpdateFile(update) => {
            &&& res matches Some(r)
            &&& r.id == req.id
            &&& r.kind matches ResKind::UpdateFile(answer)
            &&& updated_as(before, &update, after, answer)
        },
        ReqKind::CloseFile(close) => {
            &&& res matches Some(r)
            &&& r.id == req.id
            &&& r.kind matches ResKind::CloseFile(answer)
            &&& closed_as(before, &close, after, answer)
        },
        _ => {
            &&& res is None
            &&& after.issued() == before.issued()
            &&& after.sessions() == before.sessions()
        },
    }
}

/// Answers a request. A request about a file is answered by
/// [`open_file`], [`update_file`] or [`close_file`], and the answer goes out
/// under the request's id. Any other request is not for this dispatcher: it
/// gets no answer here, and nothing changes.
pub fn dispatch<B: Inc>(
    spawner: &IncSpawner<B>,
    registry: &mut SessionRegistry<B::Session>,
    req: &Req,
) -> (res: Option<Res>)
    requires
        old(registry).wf(),
    ensures
        final(registry).wf(),
        old(registry).precedes(final(registry)),
        res is Some <==> is_file_request(req.kind),
        res matches Some(r) ==> r.id == req.id,
        dispatched(spawner, old(registry), req, final(registry), res),
{
    match &req.kind {
        ReqKind::OpenFile(open) => Some(req.reply(open_file(spawner, registry, open))),
        ReqKind::UpdateFile(update) => Some(req.reply(update_file(registry, update))),
        ReqKind::CloseFile(close) => Some(req.reply(close_file(registry, close))),
        ReqKind::LoginReq(_) => None,
        ReqKind::ListProjectsReq(_) => None,
        ReqKind::CreateProject(_) => None,
        ReqKind::DeleteProject(_) => None,
        ReqKind::OpenProject(_) => None,
        ReqKind::CloseProject(_) => None,
        ReqKind::CreateFile(_) => None,
        ReqKind::DeleteFile(_) => None,
    }
}

/// What a request about projects or users is told while no keeper of
/// projects is at hand.
pub open spec fn no_storage() -> Seq<char> {
    "No project storage is installed"@
}

/// What [`decline`] answers: under the request's id, the response of the
/// request's kind, without success, saying [`no_storage`] and carrying
/// nothing else. A request to create or delete a project has no kind of
/// response and gets none; a request about a file is not declined.
pub open spec fn declined(req: &Req, res: Option<Res>) -> bool {
    match req.kind {
        ReqKind::LoginReq(_) => {
            &&& res matches Some(r)
            &&& r.id == req.id
            &&& r.kind matches ResKind::Login(x)
            &&& !x.success
            &&& says(x.error, no_storage())
        },
        ReqKind::ListProjectsReq(_) => {
            &&& res matches Some(r)
            &&& r.id == req.id
            &&& r.kind matches ResKind::ListProjects(x)
            &&& !x.success
            &&& x.projects is None
            &&& says(x.error, no_storage())
        },
        ReqKind::OpenProject(_) => {
            &&& res matches Some(r)
            &&& r.id == req.id
            &&& r.kind matches ResKind::OpenProject(x)
            &&& !x.success
            &&& says(x.error, no_storage())
        },
        ReqKind::CloseProject(_) => {
            &&& res matches Some(r)
            &&& r.id == req.id
            &&& r.kind matches ResKind::CloseProject(x)
            &&& !x.success
            &&& says(x.error, no_storage())
        },
        ReqKind::CreateFile(_) => {
            &&& res matches Some(r)
            &&& r.id == req.id
            &&& r.kind matches ResKind::CreateFile(x)
            &&& !x.success
            &&& x.uuid is None
            &&& says(x.error, no_storage())
        },
        ReqKind::DeleteFile(_) => {
            &&& res matches Some(r)
            &&& r.id == req.id
            &&& r.kind matches ResKind::DeleteFile(x)
            &&& !x.success
            &&& x.contents is None
            &&& says(x.error, no_storage())
        },
        ReqKind::CreateProject(_) => res is None,
        ReqKind::DeleteProject(_) => res is None,
        ReqKind::OpenFile(_) => res is None,
        ReqKind::UpdateFile(_) => res is None,
        ReqKind::CloseFile(_) => res is None,
    }
}

/// Turns down a request about projects or users, for a service that has no
/// keeper of projects: the answer is of the request's kind and under its
/// id, and says that no storage is installed.
pub fn decline(req: &Req) -> (res: Option<Res>)
    ensures
        declined(req, res),
{
    match &req.kind {
        ReqKind::LoginReq(_) => Some(req.reply(LoginRes::error(no_storage_text()))),
        ReqKind::ListProjectsReq(_) => Some(req.reply(ListProjectsRes::error(no_storage_text()))),
        ReqKind::OpenProject(_) => Some(req.reply(OpenProjectRes::error(no_storage_text()))),
        ReqKind::CloseProject(_) => Some(req.reply(CloseProjectRes::error(no_storage_text()))),
        ReqKind::CreateFile(_) => Some(req.reply(CreateFileRes::error(no_storage_text()))),
        ReqKind::DeleteFile(_) => Some(req.reply(DeleteFileRes::error(no_storage_text()))),
        ReqKind::CreateProject(_) => None,
        ReqKind::DeleteProject(_) => None,
        ReqKind::OpenFile(_) => None,
        ReqKind::UpdateFile(_) => None,
        ReqKind::CloseFile(_) => None,
    }
}

/// The text of [`no_storage`].
fn no_storage_text() -> (text: String)
    ensures
        text@ == no_storage(),
{
    "No project storage is installed".to_owned()
}

/// What a connection delivers, by kind.
#[derive(Debug, Clone, PartialEq, Eq)]
pub enum Frame {
    Text(String),
    Binary(Vec<u8>),
    Ping(Vec<u8>),
    Pong(Vec<u8>),
    Close,
}

/// The text in which a frame carries a request. Only a text frame carries
/// one; every other frame is dropped.
pub fn request_text(frame: &Frame) -> (text: Option<&str>)
    ensures
        match frame {
            Frame::Text(t) => text matches Some(s) && s@ == t@,
            _ => text is None,
        },
{
    match frame {
        Frame::Text(t) => Some(t.as_str()),
        Frame::Binary(_) => None,
        Frame::Ping(_) => None,
        Frame::Pong(_) => None,
        Frame::Close => None,
    }
}

/// Takes what the transport delivered. Input that could not be read as a
/// request (`None`) is dropped: it gets no answer, nothing changes and the
/// connection goes on. A request goes to [`dispatch`].
pub fn receive<B: Inc>(
    spawner: &IncSpawner<B>,
    registry: &mut SessionRegistry<B::Session>,
    input: Option<Req>,
) -> (res: Option<Res>)
    requires
        old(registry).wf(),
    ensures
        final(registry).wf(),
        old(registry).precedes(final(registry)),
        match input {
            Some(req) => dispatched(spawner, old(registry), &req, final(registry), res),
            None => {
                &&& res is None
                &&& final(registry).issued() == old(registry).issued()
                &&& final(registry).sessions() == old(registry).sessions()
            },
        },
{
    match input {
        Some(req) => dispatch(spawner, registry, &req),
        None => None,
    }
}

/// Handles grow: a file opened later on a connection gets a greater handle
/// than any file opened before, whatever happened in between.
pub proof fn lemma_handles_increase<B: Inc>(
    spawner: &IncSpawner<B>,
    r0: &SessionRegistry<B::Session>,
    first: &OpenFileReq,
    r1: &SessionRegistry<B::Session>,
    res1: OpenFileRes,
    r2: &SessionRegistry<B::Session>,
    second: &OpenFileReq,
    r3: &SessionRegistry<B::Session>,
    res2: OpenFileRes,
)
    requires
        opened_as(spawner, r0, first, r1, res1),
        r1.precedes(r2),
        opened_as(spawner, r2, second, r3, res2),
        res1.success,
        res2.success,
    ensures
        res1.handle->Some_0 < res2.handle->Some_0,
{
}

/// Once a handle is closed, an update that names it is answered with "No
/// such file" and changes no session, whatever happened to the registry
/// since the handle was closed.
pub proof fn lemma_update_after_close_is_not_found<S: Session>(
    closed: &SessionRegistry<S>,
    before: &SessionRegistry<S>,
    req: &UpdateFileReq,
    after: &SessionRegistry<S>,
    res: UpdateFileRes,
)
    requires
        closed.state_of(req.handle) == HandleState::Closed,
        closed.precedes(before),
        updated_as(before, req, after, res),
    ensures
        !res.success,
        res.messages is None,
        says(res.error, RegistryError::HandleNotFound.spec_message()),
        after.sessions() == before.sessions(),
        after.state_of(req.handle) == HandleState::Closed,
{
    crate::registry::lemma_closed_is_terminal(*closed, *before, req.handle);
}

/// Once a handle is closed, a close that names it is answered with "No such
/// file" and changes no session, whatever happened to the registry since the
/// handle was closed.
pub proof fn lemma_close_after_close_is_not_found<S: Session>(
    closed: &SessionRegistry<S>,
    before: &SessionRegistry<S>,
    req: &CloseFileReq,
    after: &SessionRegistry<S>,
    res: CloseFileRes,
)
    requires
        closed.state_of(req.handle) == HandleState::Closed,
        closed.precedes(before),
        closed_as(before, req, after, res),
    ensures
        !res.success,
        says(res.error, RegistryError::HandleNotFound.spec_message()),
        after.sessions() == before.sessions(),
        after.state_of(req.handle) == HandleState::Closed,
{
    crate::registry::lemma_closed_is_terminal(*closed, *before, req.handle);
    assert(after.sessions() =~= before.sessions());
}

/// A close closes: the handle it names is closed afterwards if it was open
/// or closed before, and stays unopened if it was never issued.
pub proof fn lemma_close_closes<S: Session>(
    before: &SessionRegistry<S>,
    req: &CloseFileReq,
    after: &SessionRegistry<S>,
    res: CloseFileRes,
)
    requires
        before.wf(),
        closed_as(before, req, after, res),
    ensures
        res.success ==> after.state_of(req.handle) == HandleState::Closed,
        before.state_of(req.handle) == HandleState::Unopened ==> after.state_of(req.handle)
            == HandleState::Unopened,
{
}

/// An update with a text, then at once one without, on an open file: where
/// both succeed, the messages of the second are the session's diagnosis of
/// the text that the first brought.
pub proof fn lemma_update_file_is_write_through<S: Session>(
    r0: &SessionRegistry<S>,
    first: &UpdateFileReq,
    r1: &SessionRegistry<S>,
    res1: UpdateFileRes,
    second: &UpdateFileReq,
    r2: &SessionRegistry<S>,
    res2: UpdateFileRes,
)
    requires
        first.handle == second.handle,
        first.code is Some,
        second.code is None,
        updated_as(r0, first, r1, res1),
        updated_as(r1, second, r2, res2),
        res1.success,
        res2.success,
    ensures
        r0.state_of(first.handle) == HandleState::Open,
        r2.sessions()[second.handle].contents() == first.code->Some_0@,
        r2.sessions()[second.handle].reports(
            first.code->Some_0@,
            res2.messages->Some_0.deep_view(),
        ),
{
    assert(r1.sessions().dom().contains(first.handle) <==> r0.sessions().dom().contains(
        first.handle,
    ));
}

/// Sessions do not reach each other: an update of one file leaves every
/// other open file open, with its session as it was.
pub proof fn lemma_update_leaves_the_others<S: Session>(
    before: &SessionRegistry<S>,
    req: &UpdateFileReq,
    after: &SessionRegistry<S>,
    res: UpdateFileRes,
    other: u64,
)
    requires
        updated_as(before, req, after, res),
        other != req.handle,
        before.state_of(other) == HandleState::Open,
    ensures
        after.state_of(other) == HandleState::Open,
        after.sessions()[other] == before.sessions()[other],
{
    assert(before.sessions().dom().contains(other));
}

/// The answer to a request carries the request's id.
pub proof fn lemma_answer_keeps_id<B: Inc>(
    spawner: &IncSpawner<B>,
    before: &SessionRegistry<B::Session>,
    req: &Req,
    after: &SessionRegistry<B::Session>,
    res: Option<Res>,
)
    requires
        dispatched(spawner, before, req, after, res),
    ensures
        res matches Some(r) ==> r.id == req.id,
        res is Some <==> is_file_request(req.kind),
{
}

} // verus!
