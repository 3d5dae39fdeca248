//! The messages a client and the service exchange.
//!
//! A request carries an id that the client picks; the response to it carries
//! the same id. Beyond that the service gives the id no meaning.

use crate::inc::Message;
use uuid::Uuid;
use vstd::prelude::*;
use vstd::std_specs::convert::{FromSpecImpl, IntoSpec};

verus! {

/// The identifier of a project, `uuid::Uuid`. The library hands such a value
/// on and never looks inside.
#[verifier::external_type_specification]
#[verifier::external_body]
pub struct ExUuid(Uuid);

/// How a user names themselves when logging in.
#[derive(Debug, PartialEq, Eq)]
pub enum Ident {
    Username(String),
    Email(String),
}

impl Ident {
    pub fn username(username: String) -> (ident: Self)
        ensures
            ident == Ident::Username(username),
    {
        Self::Username(username)
    }

    pub fn email(email: String) -> (ident: Self)
        ensures
            ident == Ident::Email(email),
    {
        Self::Email(email)
    }
}

#[derive(Debug, PartialEq, Eq)]
pub struct User {
    pub ident: Ident,
    pub password: String,
}

#[derive(Debug, PartialEq, Eq)]
pub struct ProjectBrief {
    pub uuid: Uuid,
    pub name: String,
}

#[derive(Debug, PartialEq, Eq)]
pub struct LoginReq {
    pub user: User,
}

#[derive(Debug, PartialEq, Eq)]
pub struct ListProjectsReq {}

#[derive(Debug, PartialEq, Eq)]
pub struct CreateProjectReq {
    pub name: String,
}

#[derive(Debug, PartialEq, Eq)]
pub struct DeleteProjectReq {
    pub uuid: Uuid,
}

#[derive(Debug, PartialEq, Eq)]
pub struct OpenProjectReq {
    pub uuid: Uuid,
}

#[derive(Debug, PartialEq, Eq)]
pub struct CloseProjectReq {
    pub uuid: Uuid,
}

#[derive(Debug, PartialEq, Eq)]
pub struct CreateFileReq {
    pub project: Uuid,
    pub path: String,
    pub contents: Option<String>,
}

#[derive(Debug, PartialEq, Eq)]
pub struct DeleteFileReq {
    pub project: Uuid,
    pub path: String,
}

/// Asks for a session on the file at `path`. The project may be left out.
#[derive(Debug, PartialEq, Eq)]
pub struct OpenFileReq {
    pub project: Option<Uuid>,
    pub path: String,
}

/// Asks for fresh diagnostics of an open file, after adopting `code` as its
/// contents where `code` is given.
#[derive(Debug, PartialEq, Eq)]
pub struct UpdateFileReq {
    pub handle: u64,
    pub code: Option<String>,
}

/// Asks to end the session behind `handle`.
#[derive(Debug, PartialEq, Eq)]
pub struct CloseFileReq {
    pub handle: u64,
}

/// What a request asks for.
#[derive(Debug, PartialEq, Eq)]
pub enum ReqKind {
    LoginReq(LoginReq),
    ListProjectsReq(ListProjectsReq),
    CreateProject(CreateProjectReq),
    DeleteProject(DeleteProjectReq),
    OpenProject(OpenProjectReq),
    CloseProject(CloseProjectReq),
    CreateFile(CreateFileReq),
    DeleteFile(DeleteFileReq),
    OpenFile(OpenFileReq),
    UpdateFile(UpdateFileReq),
    CloseFile(CloseFileReq),
}

impl From<LoginReq> for ReqKind {
    fn from(v: LoginReq) -> (kind: ReqKind) {
        ReqKind::LoginReq(v)
    }
}

impl FromSpecImpl<LoginReq> for ReqKind {
    open spec fn obeys_from_spec() -> bool {
        true
    }

    open spec fn from_spec(v: LoginReq) -> ReqKind {
        ReqKind::LoginReq(v)
    }
}

impl From<ListProjectsReq> for ReqKind {
    fn from(v: ListProjectsReq) -> (kind: ReqKind) {
        ReqKind::ListProjectsReq(v)
    }
}

impl FromSpecImpl<ListProjectsReq> for ReqKind {
    open spec fn obeys_from_spec() -> bool {
        true
    }

    open spec fn from_spec(v: ListProjectsReq) -> ReqKind {
        ReqKind::ListProjectsReq(v)
    }
}

impl From<CreateProjectReq> for ReqKind {
    fn from(v: CreateProjectReq) -> (kind: ReqKind) {
        ReqKind::CreateProject(v)
    }
}

impl FromSpecImpl<CreateProjectReq> for ReqKind {
    open spec fn obeys_from_spec() -> bool {
        true
    }

    open spec fn from_spec(v: CreateProjectReq) -> ReqKind {
        ReqKind::CreateProject(v)
    }
}

impl From<DeleteProjectReq> for ReqKind {
    fn from(v: DeleteProjectReq) -> (kind: ReqKind) {
        ReqKind::DeleteProject(v)
    }
}

impl FromSpecImpl<DeleteProjectReq> for ReqKind {
    open spec fn obeys_from_spec() -> bool {
        true
    }

    open spec fn from_spec(v: DeleteProjectReq) -> ReqKind {
        ReqKind::DeleteProject(v)
    }
}

impl From<OpenProjectReq> for ReqKind {
    fn from(v: OpenProjectReq) -> (kind: ReqKind) {
        ReqKind::OpenProject(v)
    }
}

impl FromSpecImpl<OpenProjectReq> for ReqKind {
    open spec fn obeys_from_spec() -> bool {
        true
    }

    open spec fn from_spec(v: OpenProjectReq) -> ReqKind {
        ReqKind::OpenProject(v)
    }
}

impl From<CloseProjectReq> for ReqKind {
    fn from(v: CloseProjectReq) -> (kind: ReqKind) {
        ReqKind::CloseProject(v)
    }
}

impl FromSpecImpl<CloseProjectReq> for ReqKind {
    open spec fn obeys_from_spec() -> bool {
        true
    }

    open spec fn from_spec(v: CloseProjectReq) -> ReqKind {
        ReqKind::CloseProject(v)
    }
}

impl From<CreateFileReq> for ReqKind {
    fn from(v: CreateFileReq) -> (kind: ReqKind) {
        ReqKind::CreateFile(v)
    }
}

impl FromSpecImpl<CreateFileReq> for ReqKind {
    open spec fn obeys_from_spec() -> bool {
        true
    }

    open spec fn from_spec(v: CreateFileReq) -> ReqKind {
        ReqKind::CreateFile(v)
    }
}

impl From<DeleteFileReq> for ReqKind {
    fn from(v: DeleteFileReq) -> (kind: ReqKind) {
        ReqKind::DeleteFile(v)
    }
}

impl FromSpecImpl<DeleteFileReq> for ReqKind {
    open spec fn obeys_from_spec() -> bool {
        true
    }

    open spec fn from_spec(v: DeleteFileReq) -> ReqKind {
        ReqKind::DeleteFile(v)
    }
}

impl From<OpenFileReq> for ReqKind {
    fn from(v: OpenFileReq) -> (kind: ReqKind) {
        ReqKind::OpenFile(v)
    }
}

impl FromSpecImpl<OpenFileReq> for ReqKind {
    open spec fn obeys_from_spec() -> bool {
        true
    }

    open spec fn from_spec(v: OpenFileReq) -> ReqKind {
        ReqKind::OpenFile(v)
    }
}

impl From<UpdateFileReq> for ReqKind {
    fn from(v: UpdateFileReq) -> (kind: ReqKind) {
        ReqKind::UpdateFile(v)
    }
}

impl FromSpecImpl<UpdateFileReq> for ReqKind {
    open spec fn obeys_from_spec() -> bool {
        true
    }

    open spec fn from_spec(v: UpdateFileReq) -> ReqKind {
        ReqKind::UpdateFile(v)
    }
}

impl From<CloseFileReq> for ReqKind {
    fn from(v: CloseFileReq) -> (kind: ReqKind) {
        ReqKind::CloseFile(v)
    }
}

impl FromSpecImpl<CloseFileReq> for ReqKind {
    open spec fn obeys_from_spec() -> bool {
        true
    }

    open spec fn from_spec(v: CloseFileReq) -> ReqKind {
        ReqKind::CloseFile(v)
    }
}

/// A request: what is asked, under the id the client gave it.
#[derive(Debug, PartialEq, Eq)]
pub struct Req {
    pub id: u64,
    pub kind: ReqKind,
}

impl Req {
    /// The response to this request that says `kind`. It carries the
    /// request's id.
    pub fn reply<K: Into<ResKind>>(&self, kind: K) -> (res: Res)
        ensures
            res.id == self.id,
            K::obeys_into_spec() ==> res.kind == kind.into_spec(),
    {
        Res { id: self.id, kind: kind.into() }
    }
}

#[derive(Debug, PartialEq, Eq)]
pub struct LoginRes {
    pub success: bool,
    pub error: Option<String>,
}

impl LoginRes {
    pub fn success() -> (res: Self)
        ensures
            res == (LoginRes { success: true, error: None }),
    {
        Self { success: true, error: None }
    }

    pub fn error(error: String) -> (res: Self)
        ensures
            res == (LoginRes { success: false, error: Some(error) }),
    {
        Self { success: false, error: Some(error) }
    }
}

#[derive(Debug, PartialEq, Eq)]
pub struct ListProjectsRes {
    pub success: bool,
    pub projects: Option<Vec<ProjectBrief>>,
    pub error: Option<String>,
}

impl ListProjectsRes {
    pub fn success(projects: Vec<ProjectBrief>) -> (res: Self)
        ensures
            res == (ListProjectsRes { success: true, projects: Some(projects), error: None }),
    {
        Self { success: true, projects: Some(projects), error: None }
    }

    pub fn error(error: String) -> (res: Self)
        ensures
            res == (ListProjectsRes { success: false, projects: None, error: Some(error) }),
    {
        Self { success: false, projects: None, error: Some(error) }
    }
}

#[derive(Debug, PartialEq, Eq)]
pub struct CreateFileRes {
    pub success: bool,
    pub uuid: Option<Uuid>,
    pub error: Option<String>,
}

impl CreateFileRes {
    pub fn success(uuid: Uuid) -> (res: Self)
        ensures
            res == (CreateFileRes { success: true, uuid: Some(uuid), error: None }),
    {
        Self { success: true, uuid: Some(uuid), error: None }
    }

    pub fn error(error: String) -> (res: Self)
        ensures
            res == (CreateFileRes { success: false, uuid: None, error: Some(error) }),
    {
        Self { success: false, uuid: None, error: Some(error) }
    }
}

#[derive(Debug, PartialEq, Eq)]
pub struct DeleteFileRes {
    pub success: bool,
    pub contents: Option<String>,
    pub error: Option<String>,
}

impl DeleteFileRes {
    pub fn success(contents: String) -> (res: Self)
        ensures
            res == (DeleteFileRes { success: true, contents: Some(contents), error: None }),
    {
        Self { success: true, contents: Some(contents), error: None }
    }

    pub fn error(error: String) -> (res: Self)
        ensures
            res == (DeleteFileRes { success: false, contents: None, error: Some(error) }),
    {
        Self { success: false, contents: None, error: Some(error) }
    }
}

#[derive(Debug, PartialEq, Eq)]
pub struct OpenProjectRes {
    pub success: bool,
    pub error: Option<String>,
}

impl OpenProjectRes {
    pub fn success() -> (res: Self)
        ensures
            res == (OpenProjectRes { success: true, error: None }),
    {
        Self { success: true, error: None }
    }

    pub fn error(error: String) -> (res: Self)
        ensures
            res == (OpenProjectRes { success: false, error: Some(error) }),
    {
        Self { success: false, error: Some(error) }
    }
}

#[derive(Debug, PartialEq, Eq)]
pub struct CloseProjectRes {
    pub success: bool,
    pub error: Option<String>,
}

impl CloseProjectRes {
    pub fn success() -> (res: Self)
        ensures
            res == (CloseProjectRes { success: true, error: None }),
    {
        Self { success: true, error: None }
    }

    pub fn error(error: String) -> (res: Self)
        ensures
            res == (CloseProjectRes { success: false, error: Some(error) }),
    {
        Self { success: false, error: Some(error) }
    }
}

/// The answer to a request to open a file: the handle of the new session
/// and the file's contents, or why no session was opened.
#[derive(Debug, PartialEq, Eq)]
pub struct OpenFileRes {
    pub success: bool,
    pub error: Option<String>,
    pub contents: Option<String>,
    pub handle: Option<u64>,
}

impl OpenFileRes {
    pub fn success(handle: u64, contents: String) -> (res: Self)
        ensures
            res == (OpenFileRes {
                success: true,
                error: None,
                contents: Some(contents),
                handle: Some(handle),
            }),
    {
        Self { success: true, error: None, contents: Some(contents), handle: Some(handle) }
    }

    /// A success that carries the handle alone: the contents are for
    /// whoever keeps the files to add.
    pub fn opened(handle: u64) -> (res: Self)
        ensures
            res == (OpenFileRes {
                success: true,
                error: None,
                contents: None,
                handle: Some(handle),
            }),
    {
        Self { success: true, error: None, contents: None, handle: Some(handle) }
    }

    pub fn error(error: String) -> (res: Self)
        ensures
            res == (OpenFileRes {
                success: false,
                error: Some(error),
                contents: None,
                handle: None,
            }),
    {
        Self { success: false, error: Some(error), contents: None, handle: None }
    }
}

/// The answer to an update: the diagnostics in the backend's order, or why
/// there are none.
#[derive(Debug, PartialEq, Eq)]
pub struct UpdateFileRes {
    pub success: bool,
    pub error: Option<String>,
    pub messages: Option<Vec<Message>>,
}

impl UpdateFileRes {
    pub fn success(messages: Vec<Message>) -> (res: Self)
        ensures
            res == (UpdateFileRes { success: true, error: None, messages: Some(messages) }),
    {
        Self { success: true, error: None, messages: Some(messages) }
    }

    pub fn error(error: String) -> (res: Self)
        ensures
            res == (UpdateFileRes { success: false, error: Some(error), messages: None }),
    {
        Self { success: false, error: Some(error), messages: None }
    }
}

#[derive(Debug, PartialEq, Eq)]
pub struct CloseFileRes {
    pub success: bool,
    pub error: Option<String>,
}

impl CloseFileRes {
    pub fn success() -> (res: Self)
        ensures
            res == (CloseFileRes { success: true, error: None }),
    {
        Self { success: true, error: None }
    }

    pub fn error(error: String) -> (res: Self)
        ensures
            res == (CloseFileRes { success: false, error: Some(error) }),
    {
        Self { success: false, error: Some(error) }
    }
}

/// What a response says.
#[derive(Debug, PartialEq, Eq)]
pub enum ResKind {
    Login(LoginRes),
    ListProjects(ListProjectsRes),
    OpenProject(OpenProjectRes),
    CloseProject(CloseProjectRes),
    CreateFile(CreateFileRes),
    DeleteFile(DeleteFileRes),
    OpenFile(OpenFileRes),
    UpdateFile(UpdateFileRes),
    CloseFile(CloseFileRes),
}

impl From<LoginRes> for ResKind {
    fn from(v: LoginRes) -> (kind: ResKind) {
        ResKind::Login(v)
    }
}

impl FromSpecImpl<LoginRes> for ResKind {
    open spec fn obeys_from_spec() -> bool {
        true
    }

    open spec fn from_spec(v: LoginRes) -> ResKind {
        ResKind::Login(v)
    }
}

impl From<ListProjectsRes> for ResKind {
    fn from(v: ListProjectsRes) -> (kind: ResKind) {
        ResKind::ListProjects(v)
    }
}

impl FromSpecImpl<ListProjectsRes> for ResKind {
    open spec fn obeys_from_spec() -> bool {
        true
    }

    open spec fn from_spec(v: ListProjectsRes) -> ResKind {
        ResKind::ListProjects(v)
    }
}

impl From<OpenProjectRes> for ResKind {
    fn from(v: OpenProjectRes) -> (kind: ResKind) {
        ResKind::OpenProject(v)
    }
}

impl FromSpecImpl<OpenProjectRes> for ResKind {
    open spec fn obeys_from_spec() -> bool {
        true
    }

    open spec fn from_spec(v: OpenProjectRes) -> ResKind {
        ResKind::OpenProject(v)
    }
}

impl From<CloseProjectRes> for ResKind {
    fn from(v: CloseProjectRes) -> (kind: ResKind) {
        ResKind::CloseProject(v)
    }
}

impl FromSpecImpl<CloseProjectRes> for ResKind {
    open spec fn obeys_from_spec() -> bool {
        true
    }

    open spec fn from_spec(v: CloseProjectRes) -> ResKind {
        ResKind::CloseProject(v)
    }
}

impl From<CreateFileRes> for ResKind {
    fn from(v: CreateFileRes) -> (kind: ResKind) {
        ResKind::CreateFile(v)
    }
}

impl FromSpecImpl<CreateFileRes> for ResKind {
    open spec fn obeys_from_spec() -> bool {
        true
    }

    open spec fn from_spec(v: CreateFileRes) -> ResKind {
        ResKind::CreateFile(v)
    }
}

impl From<DeleteFileRes> for ResKind {
    fn from(v: DeleteFileRes) -> (kind: ResKind) {
        ResKind::DeleteFile(v)
    }
}

impl FromSpecImpl<DeleteFileRes> for ResKind {
    open spec fn obeys_from_spec() -> bool {
        true
    }

    open spec fn from_spec(v: DeleteFileRes) -> ResKind {
        ResKind::DeleteFile(v)
    }
}

impl From<OpenFileRes> for ResKind {
    fn from(v: OpenFileRes) -> (kind: ResKind) {
        ResKind::OpenFile(v)
    }
}

impl FromSpecImpl<OpenFileRes> for ResKind {
    open spec fn obeys_from_spec() -> bool {
        true
    }

    open spec fn from_spec(v: OpenFileRes) -> ResKind {
        ResKind::OpenFile(v)
    }
}

impl From<UpdateFileRes> for ResKind {
    fn from(v: UpdateFileRes) -> (kind: ResKind) {
        ResKind::UpdateFile(v)
    }
}

impl FromSpecImpl<UpdateFileRes> for ResKind {
    open spec fn obeys_from_spec() -> bool {
        true
    }

    open spec fn from_spec(v: UpdateFileRes) -> ResKind {
        ResKind::UpdateFile(v)
    }
}

impl From<CloseFileRes> for ResKind {
    fn from(v: CloseFileRes) -> (kind: ResKind) {
        ResKind::CloseFile(v)
    }
}

impl FromSpecImpl<CloseFileRes> for ResKind {
    open spec fn obeys_from_spec() -> bool {
        true
    }

    open spec fn from_spec(v: CloseFileRes) -> ResKind {
        ResKind::CloseFile(v)
    }
}

/// A response: what is said, under the id of the request it answers.
#[derive(Debug, PartialEq, Eq)]
pub struct Res {
    pub id: u64,
    pub kind: ResKind,
}

/// Anything that travels between a client and the service.
#[derive(Debug, PartialEq, Eq)]
pub enum Msg {
    Req(Req),
    Res(Res),
}

} // verus!
