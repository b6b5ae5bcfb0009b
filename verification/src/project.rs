//! Projects: what a client is shown of one, and how one is created.

use vstd::prelude::*;
use crate::gateway::{Query, QueryView, Reply, ReplyView, Step, StepView};
use crate::media::{listing_url, spec_listing_url, youtube_video_exists};
use crate::models::{NewProject, NewProjectView, NewVideo, NewVideoView, Project, ProjectView, Video, VideoView};
use crate::status::Status;
use crate::text::{decimal, decimal_digits};

verus! {

/// What a client is shown of a project's video.
#[derive(Clone, Debug, PartialEq, Eq)]
pub struct VideoInfo {
    pub id: String,
    pub duration: i32,
}

/// What a [`VideoInfo`] is to a contract.
pub struct VideoInfoView {
    pub id: Seq<char>,
    pub duration: i32,
}

impl DeepView for VideoInfo {
    type V = VideoInfoView;

    open spec fn deep_view(&self) -> VideoInfoView {
        VideoInfoView { id: self.id@, duration: self.duration }
    }
}

impl View for VideoInfo {
    type V = VideoInfoView;

    open spec fn view(&self) -> VideoInfoView {
        self.deep_view()
    }
}

/// What a client is shown of a project.
#[derive(Clone, Debug, PartialEq, Eq)]
pub struct ProjectInfo {
    pub id: i32,
    pub workspace: i32,
    pub name: String,
    pub source: String,
    pub video: Option<VideoInfo>,
    pub thumbnail: String,
    pub duration: i32,
}

/// What a [`ProjectInfo`] is to a contract.
pub struct ProjectInfoView {
    pub id: i32,
    pub workspace: i32,
    pub name: Seq<char>,
    pub source: Seq<char>,
    pub video: Option<VideoInfoView>,
    pub thumbnail: Seq<char>,
    pub duration: i32,
}

impl DeepView for ProjectInfo {
    type V = ProjectInfoView;

    open spec fn deep_view(&self) -> ProjectInfoView {
        ProjectInfoView {
            id: self.id,
            workspace: self.workspace,
            name: self.name@,
            source: self.source@,
            video: self.video.deep_view(),
            thumbnail: self.thumbnail@,
            duration: self.duration,
        }
    }
}

impl View for ProjectInfo {
    type V = ProjectInfoView;

    open spec fn view(&self) -> ProjectInfoView {
        self.deep_view()
    }
}

/// Where the preview picture of the video `identifier` is found.
pub open spec fn spec_thumbnail_url(identifier: Seq<char>) -> Seq<char> {
    "https://i.ytimg.com/vi/"@ + identifier + "/mqdefault.jpg"@
}

/// A duration that is not known yet is shown as zero.
pub open spec fn spec_shown_duration(duration: Option<i32>) -> i32 {
    match duration {
        Some(millis) => millis,
        None => 0,
    }
}

/// What a client is shown of a project and its video.
pub open spec fn spec_project_info(project: ProjectView, video: VideoView) -> ProjectInfoView {
    ProjectInfoView {
        id: project.id,
        workspace: project.workspace,
        name: project.name,
        source: video.source,
        video: Some(
            VideoInfoView { id: video.identifier, duration: spec_shown_duration(video.duration) },
        ),
        thumbnail: spec_thumbnail_url(video.identifier),
        duration: spec_shown_duration(video.duration),
    }
}

/// Where the preview picture of the video `identifier` is found.
pub fn thumbnail_url(identifier: &str) -> (url: String)
    ensures
        url@ == spec_thumbnail_url(identifier@),
{
    let mut url = String::from_str("https://i.ytimg.com/vi/");
    url.append(identifier);
    url.append("/mqdefault.jpg");
    url
}

/// What a client is shown of a project and its video.
pub fn project_info(project: &Project, video: &Video) -> (info: ProjectInfo)
    ensures
        info@ == spec_project_info(project@, video@),
{
    let duration = match video.duration {
        Some(millis) => millis,
        None => 0,
    };
    ProjectInfo {
        id: project.id,
        workspace: project.workspace,
        name: project.name.clone(),
        source: video.source.clone(),
        video: Some(VideoInfo { id: video.identifier.clone(), duration }),
        thumbnail: thumbnail_url(video.identifier.as_str()),
        duration,
    }
}

/// How far a request to see one project has come.
#[derive(Clone, Copy, Debug, PartialEq, Eq)]
pub enum GetProject {
    /// Nothing has been asked yet.
    Requested { id: i32, user: i32 },
    /// The store is looking for the project.
    Finding,
}

impl DeepView for GetProject {
    type V = GetProject;

    open spec fn deep_view(&self) -> GetProject {
        *self
    }
}

impl View for GetProject {
    type V = GetProject;

    open spec fn view(&self) -> GetProject {
        *self
    }
}

/// The step that [`get_project`] takes.
pub open spec fn spec_get_project(state: GetProject, reply: Option<ReplyView>) -> StepView<
    GetProject,
    ProjectInfoView,
    Status,
> {
    match state {
        GetProject::Requested { id, user } => StepView::Ask(
            GetProject::Finding,
            QueryView::ProjectWithVideo { user, project: id },
        ),
        GetProject::Finding => match reply {
            Some(ReplyView::ProjectWithVideo(project, video)) => StepView::Done(
                Ok(spec_project_info(project, video)),
            ),
            _ => StepView::Done(Err(Status::NotFound)),
        },
    }
}

/// Shows a user one project: the project is looked up among those of the user's
/// workspaces, and is not found where it is not one of them.
pub fn get_project(state: GetProject, reply: Option<Reply>) -> (step: Step<
    GetProject,
    ProjectInfo,
    Status,
>)
    ensures
        step@ == spec_get_project(state@, reply.deep_view()),
{
    match state {
        GetProject::Requested { id, user } => Step::Ask(
            GetProject::Finding,
            Query::ProjectWithVideo { user, project: id },
        ),
        GetProject::Finding => match reply {
            Some(Reply::ProjectWithVideo(project, video)) => Step::Done(
                Ok(project_info(&project, &video)),
            ),
            _ => Step::Done(Err(Status::NotFound)),
        },
    }
}

/// What a client sends to have a project created.
#[derive(Clone, Debug, PartialEq, Eq)]
pub struct ProjectCreationInfo {
    pub name: String,
    pub workspace: i32,
    pub video: String,
}

/// What a [`ProjectCreationInfo`] is to a contract.
pub struct ProjectCreationInfoView {
    pub name: Seq<char>,
    pub workspace: i32,
    pub video: Seq<char>,
}

impl DeepView for ProjectCreationInfo {
    type V = ProjectCreationInfoView;

    open spec fn deep_view(&self) -> ProjectCreationInfoView {
        ProjectCreationInfoView { name: self.name@, workspace: self.workspace, video: self.video@ }
    }
}

impl View for ProjectCreationInfo {
    type V = ProjectCreationInfoView;

    open spec fn view(&self) -> ProjectCreationInfoView {
        self.deep_view()
    }
}

/// A video that is to be ingested in the background, and the project that waits for it.
#[derive(Clone, Debug, PartialEq, Eq)]
pub struct Ingestion {
    pub video: String,
    pub project: i32,
}

/// What an [`Ingestion`] is to a contract.
pub struct IngestionView {
    pub video: Seq<char>,
    pub project: i32,
}

impl DeepView for Ingestion {
    type V = IngestionView;

    open spec fn deep_view(&self) -> IngestionView {
        IngestionView { video: self.video@, project: self.project }
    }
}

impl View for Ingestion {
    type V = IngestionView;

    open spec fn view(&self) -> IngestionView {
        self.deep_view()
    }
}

/// A project has been created: the text that answers the request, and the ingestion that
/// is to be started without waiting for it.
#[derive(Clone, Debug, PartialEq, Eq)]
pub struct ProjectCreated {
    pub body: String,
    pub ingestion: Ingestion,
}

/// What a [`ProjectCreated`] is to a contract.
pub struct ProjectCreatedView {
    pub body: Seq<char>,
    pub ingestion: IngestionView,
}

impl DeepView for ProjectCreated {
    type V = ProjectCreatedView;

    open spec fn deep_view(&self) -> ProjectCreatedView {
        ProjectCreatedView { body: self.body@, ingestion: self.ingestion@ }
    }
}

impl View for ProjectCreated {
    type V = ProjectCreatedView;

    open spec fn view(&self) -> ProjectCreatedView {
        self.deep_view()
    }
}

/// How far the creation of a project has come.
#[derive(Debug, PartialEq, Eq)]
pub enum CreateProject {
    /// Nothing has been asked yet.
    Requested { info: ProjectCreationInfo, user: i32 },
    /// The store is looking for the user's membership in the workspace.
    CheckingMembership { info: ProjectCreationInfo },
    /// The credential for the media source is fetched.
    FetchingCredential { info: ProjectCreationInfo },
    /// The media source is asked whether it has the video.
    CheckingVideo { info: ProjectCreationInfo },
    /// The store is taking the video.
    InsertingVideo { info: ProjectCreationInfo },
    /// The store is taking the project.
    InsertingProject { video: String },
}

/// What a [`CreateProject`] is to a contract.
pub enum CreateProjectView {
    Requested { info: ProjectCreationInfoView, user: i32 },
    CheckingMembership { info: ProjectCreationInfoView },
    FetchingCredential { info: ProjectCreationInfoView },
    CheckingVideo { info: ProjectCreationInfoView },
    InsertingVideo { info: ProjectCreationInfoView },
    InsertingProject { video: Seq<char> },
}

impl DeepView for CreateProject {
    type V = CreateProjectView;

    open spec fn deep_view(&self) -> CreateProjectView {
        match self {
            CreateProject::Requested { info, user } => CreateProjectView::Requested {
                info: info@,
                user: *user,
            },
            CreateProject::CheckingMembership { info } => CreateProjectView::CheckingMembership {
                info: info@,
            },
            CreateProject::FetchingCredential { info } => CreateProjectView::FetchingCredential {
                info: info@,
            },
            CreateProject::CheckingVideo { info } => CreateProjectView::CheckingVideo {
                info: info@,
            },
            CreateProject::InsertingVideo { info } => CreateProjectView::InsertingVideo {
                info: info@,
            },
            CreateProject::InsertingProject { video } => CreateProjectView::InsertingProject {
                video: video@,
            },
        }
    }
}

impl View for CreateProject {
    type V = CreateProjectView;

    open spec fn view(&self) -> CreateProjectView {
        self.deep_view()
    }
}

/// The step that [`create_project`] takes.
pub open spec fn spec_create_project(state: CreateProjectView, reply: Option<ReplyView>) -> StepView<
    CreateProjectView,
    ProjectCreatedView,
    Status,
> {
    match state {
        CreateProjectView::Requested { info, user } => StepView::Ask(
            CreateProjectView::CheckingMembership { info },
            QueryView::Membership { user, workspace: info.workspace },
        ),
        CreateProjectView::CheckingMembership { info } => match reply {
            Some(ReplyView::Membership(_)) => StepView::Ask(
                CreateProjectView::FetchingCredential { info },
                QueryView::Credential,
            ),
            _ => StepView::Done(Err(Status::Forbidden)),
        },
        CreateProjectView::FetchingCredential { info } => match reply {
            Some(ReplyView::Text(api_key)) => StepView::Ask(
                CreateProjectView::CheckingVideo { info },
                QueryView::VideoListing { url: spec_listing_url(info.video, api_key) },
            ),
            _ => StepView::Done(Err(Status::InternalServerError)),
        },
        CreateProjectView::CheckingVideo { info } => match reply {
            Some(ReplyView::Listing(total_results)) if total_results > 0 => StepView::Ask(
                CreateProjectView::InsertingVideo { info },
                QueryView::InsertVideo(
                    NewVideoView {
                        source: "youtube"@,
                        identifier: info.video,
                        duration: None,
                        waveform: None,
                    },
                ),
            ),
            _ => StepView::Done(Err(Status::NotFound)),
        },
        CreateProjectView::InsertingVideo { info } => match reply {
            Some(ReplyView::Inserted(video_id)) => StepView::Ask(
                CreateProjectView::InsertingProject { video: info.video },
                QueryView::InsertProject(
                    NewProjectView {
                        workspace: info.workspace,
                        name: info.name,
                        video: Some(video_id),
                    },
                ),
            ),
            _ => StepView::Done(Err(Status::InternalServerError)),
        },
        CreateProjectView::InsertingProject { video } => match reply {
            Some(ReplyView::Inserted(project_id)) => StepView::Done(
                Ok(
                    ProjectCreatedView {
                        body: decimal_digits(project_id as int),
                        ingestion: IngestionView { video, project: project_id },
                    },
                ),
            ),
            _ => StepView::Done(Err(Status::InternalServerError)),
        },
    }
}

/// Creates a project for a video of the media source.
///
/// The user must be a member of the workspace, and the media source, asked with the
/// service's credential, must have the video; a source that cannot be asked counts as one
/// that does not have it. Video and project are
/// then stored, and the request is answered with the project's id at once, while the
/// ingestion of the video is handed on to be run in the background.
pub fn create_project(state: CreateProject, reply: Option<Reply>) -> (step: Step<
    CreateProject,
    ProjectCreated,
    Status,
>)
    ensures
        step@ == spec_create_project(state@, reply.deep_view()),
{
    match state {
        CreateProject::Requested { info, user } => {
            let workspace = info.workspace;
            Step::Ask(
                CreateProject::CheckingMembership { info },
                Query::Membership { user, workspace },
            )
        },
        CreateProject::CheckingMembership { info } => match reply {
            Some(Reply::Membership(_)) => Step::Ask(
                CreateProject::FetchingCredential { info },
                Query::Credential,
            ),
            _ => Step::Done(Err(Status::Forbidden)),
        },
        CreateProject::FetchingCredential { info } => match reply {
            Some(Reply::Text(api_key)) => {
                let url = listing_url(info.video.as_str(), api_key.as_str());
                Step::Ask(CreateProject::CheckingVideo { info }, Query::VideoListing { url })
            },
            _ => Step::Done(Err(Status::InternalServerError)),
        },
        CreateProject::CheckingVideo { info } => {
            let listing = match reply {
                Some(Reply::Listing(total_results)) => Some(total_results),
                _ => None,
            };
            match youtube_video_exists(listing) {
                Ok(true) => {
                    let new_video = NewVideo {
                        source: String::from_str("youtube"),
                        identifier: info.video.clone(),
                        duration: None,
                        waveform: None,
                    };
                    Step::Ask(
                        CreateProject::InsertingVideo { info },
                        Query::InsertVideo(new_video),
                    )
                },
                _ => Step::Done(Err(Status::NotFound)),
            }
        },
        CreateProject::InsertingVideo { info } => match reply {
            Some(Reply::Inserted(video_id)) => {
                let new_project = NewProject {
                    workspace: info.workspace,
                    name: info.name,
                    video: Some(video_id),
                };
                Step::Ask(
                    CreateProject::InsertingProject { video: info.video },
                    Query::InsertProject(new_project),
                )
            },
            _ => Step::Done(Err(Status::InternalServerError)),
        },
        CreateProject::InsertingProject { video } => match reply {
            Some(Reply::Inserted(project_id)) => Step::Done(
                Ok(
                    ProjectCreated {
                        body: decimal(project_id),
                        ingestion: Ingestion { video, project: project_id },
                    },
                ),
            ),
            _ => Step::Done(Err(Status::InternalServerError)),
        },
    }
}

} // verus!
