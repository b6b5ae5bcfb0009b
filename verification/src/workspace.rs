//! Workspaces: what a user is shown of the workspaces that they belong to.

use vstd::prelude::*;
use crate::gateway::{Query, QueryView, Reply, ReplyView, Step, StepView};
use crate::models::{Project, ProjectView, User, UserView, Video, VideoView, Workspace, WorkspaceMember, WorkspaceView};
use crate::project::{project_info, spec_project_info, ProjectInfo, ProjectInfoView};
use crate::status::Status;

verus! {

/// What a client is shown of a member of a workspace.
#[derive(Clone, Debug, PartialEq, Eq)]
pub struct WorkspaceMemberInfo {
    pub name: String,
    pub role: i32,
}

/// What a [`WorkspaceMemberInfo`] is to a contract.
pub struct WorkspaceMemberInfoView {
    pub name: Seq<char>,
    pub role: i32,
}

impl DeepView for WorkspaceMemberInfo {
    type V = WorkspaceMemberInfoView;

    open spec fn deep_view(&self) -> WorkspaceMemberInfoView {
        WorkspaceMemberInfoView { name: self.name@, role: self.role }
    }
}

impl View for WorkspaceMemberInfo {
    type V = WorkspaceMemberInfoView;

    open spec fn view(&self) -> WorkspaceMemberInfoView {
        self.deep_view()
    }
}

/// What a client is shown of a workspace.
#[derive(Clone, Debug, PartialEq, Eq)]
pub struct WorkspaceInfo {
    pub id: i32,
    pub name: String,
    pub shared: i32,
    pub members: Vec<WorkspaceMemberInfo>,
    pub projects: Vec<ProjectInfo>,
}

/// What a [`WorkspaceInfo`] is to a contract.
pub struct WorkspaceInfoView {
    pub id: i32,
    pub name: Seq<char>,
    pub shared: i32,
    pub members: Seq<WorkspaceMemberInfoView>,
    pub projects: Seq<ProjectInfoView>,
}

impl DeepView for WorkspaceInfo {
    type V = WorkspaceInfoView;

    open spec fn deep_view(&self) -> WorkspaceInfoView {
        WorkspaceInfoView {
            id: self.id,
            name: self.name@,
            shared: self.shared,
            members: self.members.deep_view(),
            projects: self.projects.deep_view(),
        }
    }
}

impl View for WorkspaceInfo {
    type V = WorkspaceInfoView;

    open spec fn view(&self) -> WorkspaceInfoView {
        self.deep_view()
    }
}

/// A member is shown under the display name, and under the user name where there is none.
pub open spec fn spec_member_info(row: (WorkspaceMember, UserView)) -> WorkspaceMemberInfoView {
    WorkspaceMemberInfoView {
        name: match row.1.display_name {
            Some(display_name) => display_name,
            None => row.1.username,
        },
        role: row.0.role,
    }
}

/// What is shown of each member, in the order of the rows.
pub open spec fn spec_member_infos(rows: Seq<(WorkspaceMember, UserView)>) -> Seq<
    WorkspaceMemberInfoView,
> {
    rows.map_values(|row: (WorkspaceMember, UserView)| spec_member_info(row))
}

/// What is shown of each project, in the order of the rows.
pub open spec fn spec_project_infos(rows: Seq<(ProjectView, VideoView)>) -> Seq<ProjectInfoView> {
    rows.map_values(|row: (ProjectView, VideoView)| spec_project_info(row.0, row.1))
}

/// What is shown of a member of a workspace.
pub fn member_info(member: &WorkspaceMember, user: &User) -> (info: WorkspaceMemberInfo)
    ensures
        info@ == spec_member_info((*member, user@)),
{
    let name = match &user.display_name {
        Some(display_name) => display_name.clone(),
        None => user.username.clone(),
    };
    WorkspaceMemberInfo { name, role: member.role }
}

/// What is shown of each member, in the order of the rows.
pub fn member_infos(rows: &Vec<(WorkspaceMember, User)>) -> (infos: Vec<WorkspaceMemberInfo>)
    ensures
        infos.deep_view() == spec_member_infos(rows.deep_view()),
{
    let mut infos: Vec<WorkspaceMemberInfo> = Vec::new();
    let mut i: usize = 0;
    while i < rows.len()
        invariant
            i <= rows.len(),
            infos.len() == i,
            forall|j: int| 0 <= j < i ==> (#[trigger] infos[j])@ == spec_member_info(rows.deep_view()[j]),
        decreases rows.len() - i,
    {
        let info = member_info(&rows[i].0, &rows[i].1);
        infos.push(info);
        i = i + 1;
    }
    assert(infos.deep_view() =~= spec_member_infos(rows.deep_view()));
    infos
}

/// What is shown of each project, in the order of the rows.
pub fn project_infos(rows: &Vec<(Project, Video)>) -> (infos: Vec<ProjectInfo>)
    ensures
        infos.deep_view() == spec_project_infos(rows.deep_view()),
{
    let mut infos: Vec<ProjectInfo> = Vec::new();
    let mut i: usize = 0;
    while i < rows.len()
        invariant
            i <= rows.len(),
            infos.len() == i,
            forall|j: int|
                0 <= j < i ==> (#[trigger] infos[j])@ == spec_project_info(
                    rows.deep_view()[j].0,
                    rows.deep_view()[j].1,
                ),
        decreases rows.len() - i,
    {
        let info = project_info(&rows[i].0, &rows[i].1);
        infos.push(info);
        i = i + 1;
    }
    assert(infos.deep_view() =~= spec_project_infos(rows.deep_view()));
    infos
}

/// How far a request to list a user's workspaces has come.
#[derive(Debug, PartialEq, Eq)]
pub enum ListWorkspaces {
    /// Nothing has been asked yet.
    Requested { user: i32 },
    /// The store is listing the user's workspaces.
    Listing,
    /// The store is listing the members of `current`. The workspaces in `pending` come
    /// after it, and `shown` is what has been made of those before it.
    Members { current: Workspace, pending: Vec<Workspace>, shown: Vec<WorkspaceInfo> },
    /// The store is listing the projects of `current`, whose members are known.
    Projects {
        current: Workspace,
        members: Vec<WorkspaceMemberInfo>,
        pending: Vec<Workspace>,
        shown: Vec<WorkspaceInfo>,
    },
}

/// What a [`ListWorkspaces`] is to a contract.
pub enum ListWorkspacesView {
    Requested { user: i32 },
    Listing,
    Members { current: WorkspaceView, pending: Seq<WorkspaceView>, shown: Seq<WorkspaceInfoView> },
    Projects {
        current: WorkspaceView,
        members: Seq<WorkspaceMemberInfoView>,
        pending: Seq<WorkspaceView>,
        shown: Seq<WorkspaceInfoView>,
    },
}

impl DeepView for ListWorkspaces {
    type V = ListWorkspacesView;

    open spec fn deep_view(&self) -> ListWorkspacesView {
        match self {
            ListWorkspaces::Requested { user } => ListWorkspacesView::Requested { user: *user },
            ListWorkspaces::Listing => ListWorkspacesView::Listing,
            ListWorkspaces::Members { current, pending, shown } => ListWorkspacesView::Members {
                current: current@,
                pending: pending.deep_view(),
                shown: shown.deep_view(),
            },
            ListWorkspaces::Projects {
                current,
                members,
                pending,
                shown,
            } => ListWorkspacesView::Projects {
                current: current@,
                members: members.deep_view(),
                pending: pending.deep_view(),
                shown: shown.deep_view(),
            },
        }
    }
}

impl View for ListWorkspaces {
    type V = ListWorkspacesView;

    open spec fn view(&self) -> ListWorkspacesView {
        self.deep_view()
    }
}

/// With the workspaces in `shown` done and those in `pending` still to do: ask for the
/// members of the first that is pending, or be done where none is.
pub open spec fn spec_turn_to_next(
    pending: Seq<WorkspaceView>,
    shown: Seq<WorkspaceInfoView>,
) -> StepView<ListWorkspacesView, Seq<WorkspaceInfoView>, Status> {
    if pending.len() == 0 {
        StepView::Done(Ok(shown))
    } else {
        StepView::Ask(
            ListWorkspacesView::Members {
                current: pending.first(),
                pending: pending.drop_first(),
                shown,
            },
            QueryView::MembersOf { workspace: pending.first().id },
        )
    }
}

/// The step that [`list_workspaces`] takes.
pub open spec fn spec_list_workspaces(state: ListWorkspacesView, reply: Option<ReplyView>) -> StepView<
    ListWorkspacesView,
    Seq<WorkspaceInfoView>,
    Status,
> {
    match state {
        ListWorkspacesView::Requested { user } => StepView::Ask(
            ListWorkspacesView::Listing,
            QueryView::WorkspacesOf { user },
        ),
        ListWorkspacesView::Listing => match reply {
            Some(ReplyView::Workspaces(workspaces)) => spec_turn_to_next(workspaces, Seq::empty()),
            _ => StepView::Done(Err(Status::InternalServerError)),
        },
        ListWorkspacesView::Members { current, pending, shown } => match reply {
            Some(ReplyView::Members(rows)) => StepView::Ask(
                ListWorkspacesView::Projects {
                    current,
                    members: spec_member_infos(rows),
                    pending,
                    shown,
                },
                QueryView::ProjectsOf { workspace: current.id },
            ),
            _ => StepView::Done(Err(Status::InternalServerError)),
        },
        ListWorkspacesView::Projects { current, members, pending, shown } => match reply {
            Some(ReplyView::Projects(rows)) => spec_turn_to_next(
                pending,
                shown.push(
                    WorkspaceInfoView {
                        id: current.id,
                        name: current.name,
                        shared: current.shared,
                        members,
                        projects: spec_project_infos(rows),
                    },
                ),
            ),
            _ => StepView::Done(Err(Status::InternalServerError)),
        },
    }
}

/// Asks for the members of the first workspace that is pending, or ends the flow.
fn turn_to_next(pending: Vec<Workspace>, shown: Vec<WorkspaceInfo>) -> (step: Step<
    ListWorkspaces,
    Vec<WorkspaceInfo>,
    Status,
>)
    ensures
        step@ == spec_turn_to_next(pending.deep_view(), shown.deep_view()),
{
    let mut pending = pending;
    if pending.len() == 0 {
        Step::Done(Ok(shown))
    } else {
        let ghost before = pending.deep_view();
        let current = pending.remove(0);
        assert(pending.deep_view() =~= before.drop_first());
        let workspace = current.id;
        Step::Ask(
            ListWorkspaces::Members { current, pending, shown },
            Query::MembersOf { workspace },
        )
    }
}

/// Lists the workspaces that a user is a member of, each with its members and its
/// projects, in the order in which the store gives them.
pub fn list_workspaces(state: ListWorkspaces, reply: Option<Reply>) -> (step: Step<
    ListWorkspaces,
    Vec<WorkspaceInfo>,
    Status,
>)
    ensures
        step@ == spec_list_workspaces(state@, reply.deep_view()),
{
    match state {
        ListWorkspaces::Requested { user } => Step::Ask(
            ListWorkspaces::Listing,
            Query::WorkspacesOf { user },
        ),
        ListWorkspaces::Listing => match reply {
            Some(Reply::Workspaces(workspaces)) => {
                let shown: Vec<WorkspaceInfo> = Vec::new();
                assert(shown.deep_view() =~= Seq::empty());
                turn_to_next(workspaces, shown)
            },
            _ => Step::Done(Err(Status::InternalServerError)),
        },
        ListWorkspaces::Members { current, pending, shown } => match reply {
            Some(Reply::Members(rows)) => {
                let members = member_infos(&rows);
                let workspace = current.id;
                Step::Ask(
                    ListWorkspaces::Projects { current, members, pending, shown },
                    Query::ProjectsOf { workspace },
                )
            },
            _ => Step::Done(Err(Status::InternalServerError)),
        },
        ListWorkspaces::Projects { current, members, pending, shown } => match reply {
            Some(Reply::Projects(rows)) => {
                let mut shown = shown;
                let ghost before = shown.deep_view();
                let info = WorkspaceInfo {
                    id: current.id,
                    name: current.name,
                    shared: current.shared,
                    members,
                    projects: project_infos(&rows),
                };
                let ghost pushed = info@;
                shown.push(info);
                assert(shown.deep_view() =~= before.push(pushed));
                turn_to_next(pending, shown)
            },
            _ => Step::Done(Err(Status::InternalServerError)),
        },
    }
}

/// What a store answers that holds `members` and `projects` for each workspace.
pub open spec fn spec_answer(
    asked: QueryView,
    members: spec_fn(i32) -> Seq<(WorkspaceMember, UserView)>,
    projects: spec_fn(i32) -> Seq<(ProjectView, VideoView)>,
) -> Option<ReplyView> {
    match asked {
        QueryView::MembersOf { workspace } => Some(ReplyView::Members(members(workspace))),
        QueryView::ProjectsOf { workspace } => Some(ReplyView::Projects(projects(workspace))),
        _ => None,
    }
}

/// Where the listing stands after at most `questions` more questions, each answered by
/// that store.
pub open spec fn spec_listed_after(
    step: StepView<ListWorkspacesView, Seq<WorkspaceInfoView>, Status>,
    members: spec_fn(i32) -> Seq<(WorkspaceMember, UserView)>,
    projects: spec_fn(i32) -> Seq<(ProjectView, VideoView)>,
    questions: nat,
) -> StepView<ListWorkspacesView, Seq<WorkspaceInfoView>, Status>
    decreases questions,
{
    if questions == 0 {
        step
    } else {
        match step {
            StepView::Ask(state, asked) => spec_listed_after(
                spec_list_workspaces(state, spec_answer(asked, members, projects)),
                members,
                projects,
                (questions - 1) as nat,
            ),
            StepView::Done(_) => step,
        }
    }
}

/// What is shown of a workspace in that store.
pub open spec fn spec_workspace_info(
    workspace: WorkspaceView,
    members: spec_fn(i32) -> Seq<(WorkspaceMember, UserView)>,
    projects: spec_fn(i32) -> Seq<(ProjectView, VideoView)>,
) -> WorkspaceInfoView {
    WorkspaceInfoView {
        id: workspace.id,
        name: workspace.name,
        shared: workspace.shared,
        members: spec_member_infos(members(workspace.id)),
        projects: spec_project_infos(projects(workspace.id)),
    }
}

/// With `shown` done and `pending` to do, two questions for each pending workspace bring
/// the listing to its end, with one more entry for each of them, in their order.
proof fn lemma_listing_goes_through(
    pending: Seq<WorkspaceView>,
    shown: Seq<WorkspaceInfoView>,
    members: spec_fn(i32) -> Seq<(WorkspaceMember, UserView)>,
    projects: spec_fn(i32) -> Seq<(ProjectView, VideoView)>,
)
    ensures
        spec_listed_after(
            spec_turn_to_next(pending, shown),
            members,
            projects,
            2 * pending.len(),
        ) == StepView::<ListWorkspacesView, Seq<WorkspaceInfoView>, Status>::Done(
            Ok(
                shown + pending.map_values(
                    |workspace: WorkspaceView| spec_workspace_info(workspace, members, projects),
                ),
            ),
        ),
    decreases pending.len(),
{
    let info = |workspace: WorkspaceView| spec_workspace_info(workspace, members, projects);
    reveal_with_fuel(spec_listed_after, 3);
    if pending.len() == 0 {
        assert(shown + pending.map_values(info) =~= shown);
    } else {
        let current = pending.first();
        let rest = pending.drop_first();
        let start = spec_turn_to_next(pending, shown);
        let with_projects = spec_list_workspaces(
            ListWorkspacesView::Projects {
                current,
                members: spec_member_infos(members(current.id)),
                pending: rest,
                shown,
            },
            Some(ReplyView::Projects(projects(current.id))),
        );
        assert(with_projects == spec_turn_to_next(rest, shown.push(info(current))));
        lemma_listing_goes_through(rest, shown.push(info(current)), members, projects);
        assert(spec_listed_after(start, members, projects, 2 * pending.len())
            == spec_listed_after(with_projects, members, projects, 2 * rest.len()));
        assert(shown.push(info(current)) + rest.map_values(info) =~= shown + pending.map_values(
            info,
        ));
    }
}

/// A whole listing gives one entry for each of the user's workspaces, in the order in
/// which the store listed them, and each entry holds the members and the projects that the
/// store holds for that workspace. It asks for the members and then the projects of each
/// workspace, and for nothing else.
pub proof fn lemma_listing_shows_every_workspace_in_order(
    workspaces: Seq<WorkspaceView>,
    members: spec_fn(i32) -> Seq<(WorkspaceMember, UserView)>,
    projects: spec_fn(i32) -> Seq<(ProjectView, VideoView)>,
)
    ensures
        spec_listed_after(
            spec_list_workspaces(
                ListWorkspacesView::Listing,
                Some(ReplyView::Workspaces(workspaces)),
            ),
            members,
            projects,
            2 * workspaces.len(),
        ) == StepView::<ListWorkspacesView, Seq<WorkspaceInfoView>, Status>::Done(
            Ok(
                workspaces.map_values(
                    |workspace: WorkspaceView| spec_workspace_info(workspace, members, projects),
                ),
            ),
        ),
{
    let info = |workspace: WorkspaceView| spec_workspace_info(workspace, members, projects);
    lemma_listing_goes_through(workspaces, Seq::empty(), members, projects);
    assert(Seq::<WorkspaceInfoView>::empty() + workspaces.map_values(info)
        =~= workspaces.map_values(info));
}

} // verus!
