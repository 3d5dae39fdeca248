use ivygate::inc::{Index, Message, Range, Severity};
use ivygate::proto::{
    CloseFileReq, CloseFileRes, CloseProjectReq, CloseProjectRes, CreateFileReq, CreateFileRes,
    CreateProjectReq, DeleteFileReq, DeleteFileRes, DeleteProjectReq, Ident, ListProjectsReq,
    ListProjectsRes, LoginReq, LoginRes, Msg, OpenFileReq, OpenFileRes, OpenProjectReq,
    OpenProjectRes, ProjectBrief, Req, ReqKind, Res, ResKind, UpdateFileReq, UpdateFileRes, User,
};
use uuid::Uuid;

fn some_id() -> Uuid {
    Uuid::parse_str("67e55044-10b1-426f-9247-bb680e5fe0c8").unwrap()
}

#[test]
fn idents_keep_what_they_are_given() {
    assert_eq!(Ident::username("ann".to_string()), Ident::Username("ann".to_string()));
    assert_eq!(Ident::email("ann@example.org".to_string()), Ident::Email("ann@example.org".to_string()));
    assert_ne!(Ident::username("ann".to_string()), Ident::email("ann".to_string()));
}

#[test]
fn reply_keeps_the_id_and_wraps_the_kind() {
    let req = Req { id: 42, kind: ReqKind::CloseFile(CloseFileReq { handle: 3 }) };
    assert_eq!(
        req.reply(CloseFileRes::success()),
        Res { id: 42, kind: ResKind::CloseFile(CloseFileRes { success: true, error: None }) }
    );
    assert_eq!(
        req.reply(UpdateFileRes::error("No such file".to_string())),
        Res {
            id: 42,
            kind: ResKind::UpdateFile(UpdateFileRes {
                success: false,
                error: Some("No such file".to_string()),
                messages: None,
            }),
        }
    );
    let kind = ResKind::Login(LoginRes::success());
    assert_eq!(req.reply(kind).id, 42);
    let req = Req { id: u64::MAX, kind: ReqKind::ListProjectsReq(ListProjectsReq {}) };
    assert_eq!(req.reply(LoginRes::success()).id, u64::MAX);
}

#[test]
fn plain_responses_succeed_or_say_why() {
    assert_eq!(LoginRes::success(), LoginRes { success: true, error: None });
    assert_eq!(LoginRes::error("no".to_string()), LoginRes { success: false, error: Some("no".to_string()) });
    assert_eq!(OpenProjectRes::success(), OpenProjectRes { success: true, error: None });
    assert_eq!(
        OpenProjectRes::error("no".to_string()),
        OpenProjectRes { success: false, error: Some("no".to_string()) }
    );
    assert_eq!(CloseProjectRes::success(), CloseProjectRes { success: true, error: None });
    assert_eq!(
        CloseProjectRes::error("no".to_string()),
        CloseProjectRes { success: false, error: Some("no".to_string()) }
    );
    assert_eq!(CloseFileRes::success(), CloseFileRes { success: true, error: None });
    assert_eq!(
        CloseFileRes::error("no".to_string()),
        CloseFileRes { success: false, error: Some("no".to_string()) }
    );
}

#[test]
fn list_projects_responses_carry_the_projects() {
    let briefs = || vec![ProjectBrief { uuid: some_id(), name: "one".to_string() }];
    assert_eq!(
        ListProjectsRes::success(briefs()),
        ListProjectsRes { success: true, projects: Some(briefs()), error: None }
    );
    assert_eq!(
        ListProjectsRes::success(Vec::new()),
        ListProjectsRes { success: true, projects: Some(Vec::new()), error: None }
    );
    assert_eq!(
        ListProjectsRes::error("down".to_string()),
        ListProjectsRes { success: false, projects: None, error: Some("down".to_string()) }
    );
}

#[test]
fn file_responses_carry_their_payload() {
    assert_eq!(
        CreateFileRes::success(some_id()),
        CreateFileRes { success: true, uuid: Some(some_id()), error: None }
    );
    assert_eq!(
        CreateFileRes::error("full".to_string()),
        CreateFileRes { success: false, uuid: None, error: Some("full".to_string()) }
    );
    assert_eq!(
        DeleteFileRes::success("text".to_string()),
        DeleteFileRes { success: true, contents: Some("text".to_string()), error: None }
    );
    assert_eq!(
        DeleteFileRes::error("gone".to_string()),
        DeleteFileRes { success: false, contents: None, error: Some("gone".to_string()) }
    );
    assert_eq!(
        OpenFileRes::success(7, "int x;".to_string()),
        OpenFileRes { success: true, error: None, contents: Some("int x;".to_string()), handle: Some(7) }
    );
    assert_eq!(
        OpenFileRes::opened(7),
        OpenFileRes { success: true, error: None, contents: None, handle: Some(7) }
    );
    assert_eq!(
        OpenFileRes::error("NoInc".to_string()),
        OpenFileRes { success: false, error: Some("NoInc".to_string()), contents: None, handle: None }
    );
}

#[test]
fn update_responses_carry_the_messages_in_order() {
    let message = |text: &str, severity| Message {
        file: None,
        severity,
        ranges: vec![Range { start: Index { line: 1, col: 2 }, end: Index { line: 1, col: 9 } }],
        message: text.to_string(),
    };
    let messages = || vec![message("b", Severity::Warning), message("a", Severity::Error)];
    let res = UpdateFileRes::success(messages());
    assert_eq!(res, UpdateFileRes { success: true, error: None, messages: Some(messages()) });
    assert_eq!(res.messages.unwrap()[0].message, "b");
    assert_eq!(
        UpdateFileRes::error("dead".to_string()),
        UpdateFileRes { success: false, error: Some("dead".to_string()), messages: None }
    );
}

#[test]
fn each_request_becomes_its_kind() {
    let id = some_id();
    let user = || User { ident: Ident::Username("ann".to_string()), password: "pw".to_string() };
    assert_eq!(ReqKind::from(LoginReq { user: user() }), ReqKind::LoginReq(LoginReq { user: user() }));
    assert_eq!(ReqKind::from(ListProjectsReq {}), ReqKind::ListProjectsReq(ListProjectsReq {}));
    assert_eq!(
        ReqKind::from(CreateProjectReq { name: "p".to_string() }),
        ReqKind::CreateProject(CreateProjectReq { name: "p".to_string() })
    );
    assert_eq!(ReqKind::from(DeleteProjectReq { uuid: id }), ReqKind::DeleteProject(DeleteProjectReq { uuid: id }));
    assert_eq!(ReqKind::from(OpenProjectReq { uuid: id }), ReqKind::OpenProject(OpenProjectReq { uuid: id }));
    assert_eq!(ReqKind::from(CloseProjectReq { uuid: id }), ReqKind::CloseProject(CloseProjectReq { uuid: id }));
    let create = || CreateFileReq { project: id, path: "a.c".to_string(), contents: Some("x".to_string()) };
    assert_eq!(ReqKind::from(create()), ReqKind::CreateFile(create()));
    let delete = || DeleteFileReq { project: id, path: "a.c".to_string() };
    assert_eq!(ReqKind::from(delete()), ReqKind::DeleteFile(delete()));
    let open = || OpenFileReq { project: Some(id), path: "a.c".to_string() };
    assert_eq!(ReqKind::from(open()), ReqKind::OpenFile(open()));
    let update = || UpdateFileReq { handle: 1, code: None };
    assert_eq!(ReqKind::from(update()), ReqKind::UpdateFile(update()));
    let kind: ReqKind = CloseFileReq { handle: 1 }.into();
    assert_eq!(kind, ReqKind::CloseFile(CloseFileReq { handle: 1 }));
}

#[test]
fn each_response_becomes_its_kind() {
    assert_eq!(ResKind::from(LoginRes::success()), ResKind::Login(LoginRes::success()));
    assert_eq!(
        ResKind::from(ListProjectsRes::success(Vec::new())),
        ResKind::ListProjects(ListProjectsRes::success(Vec::new()))
    );
    assert_eq!(ResKind::from(OpenProjectRes::success()), ResKind::OpenProject(OpenProjectRes::success()));
    assert_eq!(ResKind::from(CloseProjectRes::success()), ResKind::CloseProject(CloseProjectRes::success()));
    assert_eq!(
        ResKind::from(CreateFileRes::success(some_id())),
        ResKind::CreateFile(CreateFileRes::success(some_id()))
    );
    assert_eq!(
        ResKind::from(DeleteFileRes::success("t".to_string())),
        ResKind::DeleteFile(DeleteFileRes::success("t".to_string()))
    );
    assert_eq!(ResKind::from(OpenFileRes::opened(1)), ResKind::OpenFile(OpenFileRes::opened(1)));
    assert_eq!(
        ResKind::from(UpdateFileRes::success(Vec::new())),
        ResKind::UpdateFile(UpdateFileRes::success(Vec::new()))
    );
    let kind: ResKind = CloseFileRes::success().into();
    assert_eq!(kind, ResKind::CloseFile(CloseFileRes::success()));
}

#[test]
fn messages_are_requests_or_responses() {
    let req = Msg::Req(Req { id: 1, kind: ReqKind::CloseFile(CloseFileReq { handle: 1 }) });
    let res = Msg::Res(Res { id: 1, kind: ResKind::CloseFile(CloseFileRes::success()) });
    assert_ne!(req, res);
}
