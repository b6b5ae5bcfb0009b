//! The questions that the request flows put to the collaborators outside (the store, the
//! media source, the transcoder, the snapshot codec, the clock) and the answers they take.
//!
//! A flow never performs a question itself. It hands it out in a [`Step::Ask`], and whoever
//! drives the flow performs it and comes back with the [`Reply`].

use vstd::prelude::*;
use crate::media::{StreamInfo, StreamInfoView};
use crate::models::{
    NewProject, NewProjectView, NewSubtitle, NewSubtitleView, NewUser, NewUserView, NewVideo,
    NewVideoView, Project, ProjectView, Snapshot, SnapshotView, Subtitle, SubtitleView, User,
    UserView, Video, VideoView, Workspace, WorkspaceMember, WorkspaceView,
};

verus! {

/// One question to a collaborator.
#[derive(Debug, PartialEq, Eq)]
pub enum Query {
    /// The workspaces that `user` is a member of.
    WorkspacesOf { user: i32 },
    /// The members of `workspace`, each with its user.
    MembersOf { workspace: i32 },
    /// The projects of `workspace`, each with its video.
    ProjectsOf { workspace: i32 },
    /// The membership of `user` in `workspace`.
    Membership { user: i32, workspace: i32 },
    /// The project `project`, if it lies in a workspace that `user` is a member of.
    ProjectOf { user: i32, project: i32 },
    /// As [`Query::ProjectOf`], with the project's video.
    ProjectWithVideo { user: i32, project: i32 },
    /// Store the video and say which id it got.
    InsertVideo(NewVideo),
    /// Store the project and say which id it got.
    InsertProject(NewProject),
    /// The credential that the service holds for the media source.
    Credential,
    /// Fetch `url` from the media source and say how many items it lists.
    VideoListing { url: String },
    /// The streams that the media source offers for the video `identifier`.
    Streams { identifier: String },
    /// Run the decoder into the waveform generator, wait for both to exit, then read the
    /// file at `artifact`.
    Transcode { decoder: Vec<String>, waveformer: Vec<String>, artifact: String },
    /// Set the waveform and the duration of the video `identifier`.
    StoreWaveform { identifier: String, waveform: Vec<u8>, duration: i32 },
    /// Delete the file at `path`.
    RemoveArtifact { path: String },
    /// The waveform of the video `identifier`.
    WaveformOf { identifier: String },
    /// The subtitles of `project`, earliest start first.
    SubtitlesOf { project: i32 },
    /// The subtitle `id`, if it belongs to `project`.
    SubtitleOf { id: i32, project: i32 },
    /// Store the subtitle and say which id it got.
    InsertSubtitle(NewSubtitle),
    /// Set the three fields of the subtitle `id`, if it belongs to `project`.
    UpdateSubtitle { id: i32, project: i32, start: i32, end: i32, text: String },
    /// Delete the subtitle `id`, if it belongs to `project`.
    DeleteSubtitle { id: i32, project: i32 },
    /// Write the subtitles down as one text.
    Encode { subtitles: Vec<Subtitle> },
    /// Read subtitles back from a text that [`Query::Encode`] gave.
    Decode { text: String },
    /// The seconds that have passed since the epoch.
    Now,
    /// Store the snapshot, in place of the one that its project has at its timestamp, if
    /// there is one.
    InsertSnapshot(Snapshot),
    /// Project, timestamp and label of each snapshot of `project`, latest first.
    SnapshotsOf { project: i32 },
    /// The snapshot that `project` has at `timestamp`.
    SnapshotAt { project: i32, timestamp: i64 },
    /// Label the snapshot that `project` has at `timestamp`.
    RenameSnapshot { project: i32, timestamp: i64, name: String },
    /// The user `id`.
    UserById { id: i32 },
    /// The user called `username`.
    UserByName { username: String },
    /// How many users are called `username`.
    CountUsersNamed { username: String },
    /// Store the user and say which id it got.
    InsertUser(NewUser),
}

/// What a [`Query`] is to a contract.
pub enum QueryView {
    WorkspacesOf { user: i32 },
    MembersOf { workspace: i32 },
    ProjectsOf { workspace: i32 },
    Membership { user: i32, workspace: i32 },
    ProjectOf { user: i32, project: i32 },
    ProjectWithVideo { user: i32, project: i32 },
    InsertVideo(NewVideoView),
    InsertProject(NewProjectView),
    Credential,
    VideoListing { url: Seq<char> },
    Streams { identifier: Seq<char> },
    Transcode { decoder: Seq<Seq<char>>, waveformer: Seq<Seq<char>>, artifact: Seq<char> },
    StoreWaveform { identifier: Seq<char>, waveform: Seq<u8>, duration: i32 },
    RemoveArtifact { path: Seq<char> },
    WaveformOf { identifier: Seq<char> },
    SubtitlesOf { project: i32 },
    SubtitleOf { id: i32, project: i32 },
    InsertSubtitle(NewSubtitleView),
    UpdateSubtitle { id: i32, project: i32, start: i32, end: i32, text: Seq<char> },
    DeleteSubtitle { id: i32, project: i32 },
    Encode { subtitles: Seq<SubtitleView> },
    Decode { text: Seq<char> },
    Now,
    InsertSnapshot(SnapshotView),
    SnapshotsOf { project: i32 },
    SnapshotAt { project: i32, timestamp: i64 },
    RenameSnapshot { project: i32, timestamp: i64, name: Seq<char> },
    UserById { id: i32 },
    UserByName { username: Seq<char> },
    CountUsersNamed { username: Seq<char> },
    InsertUser(NewUserView),
}

impl DeepView for Query {
    type V = QueryView;

    open spec fn deep_view(&self) -> QueryView {
        match self {
            Query::WorkspacesOf { user } => QueryView::WorkspacesOf { user: *user },
            Query::MembersOf { workspace } => QueryView::MembersOf { workspace: *workspace },
            Query::ProjectsOf { workspace } => QueryView::ProjectsOf { workspace: *workspace },
            Query::Membership { user, workspace } => QueryView::Membership {
                user: *user,
                workspace: *workspace,
            },
            Query::ProjectOf { user, project } => QueryView::ProjectOf {
                user: *user,
                project: *project,
            },
            Query::ProjectWithVideo { user, project } => QueryView::ProjectWithVideo {
                user: *user,
                project: *project,
            },
            Query::InsertVideo(video) => QueryView::InsertVideo(video@),
            Query::InsertProject(project) => QueryView::InsertProject(project@),
            Query::Credential => QueryView::Credential,
            Query::VideoListing { url } => QueryView::VideoListing { url: url@ },
            Query::Streams { identifier } => QueryView::Streams { identifier: identifier@ },
            Query::Transcode { decoder, waveformer, artifact } => QueryView::Transcode {
                decoder: decoder.deep_view(),
                waveformer: waveformer.deep_view(),
                artifact: artifact@,
            },
            Query::StoreWaveform { identifier, waveform, duration } => QueryView::StoreWaveform {
                identifier: identifier@,
                waveform: waveform@,
                duration: *duration,
            },
            Query::RemoveArtifact { path } => QueryView::RemoveArtifact { path: path@ },
            Query::WaveformOf { identifier } => QueryView::WaveformOf { identifier: identifier@ },
            Query::SubtitlesOf { project } => QueryView::SubtitlesOf { project: *project },
            Query::SubtitleOf { id, project } => QueryView::SubtitleOf { id: *id, project: *project },
            Query::InsertSubtitle(subtitle) => QueryView::InsertSubtitle(subtitle@),
            Query::UpdateSubtitle { id, project, start, end, text } => QueryView::UpdateSubtitle {
                id: *id,
                project: *project,
                start: *start,
                end: *end,
                text: text@,
            },
            Query::DeleteSubtitle { id, project } => QueryView::DeleteSubtitle {
                id: *id,
                project: *project,
            },
            Query::Encode { subtitles } => QueryView::Encode { subtitles: subtitles.deep_view() },
            Query::Decode { text } => QueryView::Decode { text: text@ },
            Query::Now => QueryView::Now,
            Query::InsertSnapshot(snapshot) => QueryView::InsertSnapshot(snapshot@),
            Query::SnapshotsOf { project } => QueryView::SnapshotsOf { project: *project },
            Query::SnapshotAt { project, timestamp } => QueryView::SnapshotAt {
                project: *project,
                timestamp: *timestamp,
            },
            Query::RenameSnapshot { project, timestamp, name } => QueryView::RenameSnapshot {
                project: *project,
                timestamp: *timestamp,
                name: name@,
            },
            Query::UserById { id } => QueryView::UserById { id: *id },
            Query::UserByName { username } => QueryView::UserByName { username: username@ },
            Query::CountUsersNamed { username } => QueryView::CountUsersNamed {
                username: username@,
            },
            Query::InsertUser(user) => QueryView::InsertUser(user@),
        }
    }
}

impl View for Query {
    type V = QueryView;

    open spec fn view(&self) -> QueryView {
        self.deep_view()
    }
}

/// What came back for a [`Query`].
///
/// Each query has one kind of reply that answers it. A flow takes any other reply to its
/// query, [`Reply::Failed`] among them, as the failure of that query.
#[derive(Debug, PartialEq, Eq)]
pub enum Reply {
    /// The collaborator could not do what was asked, or found nothing.
    Failed,
    /// Answers [`Query::WorkspacesOf`].
    Workspaces(Vec<Workspace>),
    /// Answers [`Query::MembersOf`].
    Members(Vec<(WorkspaceMember, User)>),
    /// Answers [`Query::ProjectsOf`].
    Projects(Vec<(Project, Video)>),
    /// Answers [`Query::Membership`].
    Membership(WorkspaceMember),
    /// Answers [`Query::ProjectOf`].
    Project(Project),
    /// Answers [`Query::ProjectWithVideo`].
    ProjectWithVideo(Project, Video),
    /// Answers an insertion: the id that the new row got.
    Inserted(i32),
    /// Answers [`Query::VideoListing`]: how many items the source lists.
    Listing(u32),
    /// Answers [`Query::Streams`].
    Streams(Vec<StreamInfo>),
    /// Answers [`Query::Transcode`]: the exit code of each process, where it ran and exited
    /// by itself, and what the file holds, where it could be read.
    Transcoded { decoder: Option<i32>, waveformer: Option<i32>, artifact: Option<Vec<u8>> },
    /// Answers an update or a deletion: how many rows it touched.
    Affected(usize),
    /// Answers [`Query::RemoveArtifact`].
    Removed,
    /// Answers [`Query::WaveformOf`]: the waveform, if the video has one yet.
    Waveform(Option<Vec<u8>>),
    /// Answers [`Query::SubtitlesOf`] and [`Query::Decode`].
    Subtitles(Vec<Subtitle>),
    /// Answers [`Query::SubtitleOf`].
    Subtitle(Subtitle),
    /// Answers [`Query::Encode`] and [`Query::Credential`].
    Text(String),
    /// Answers [`Query::Now`].
    Seconds(u64),
    /// Answers [`Query::SnapshotsOf`].
    SnapshotHeads(Vec<(i32, i64, Option<String>)>),
    /// Answers [`Query::SnapshotAt`].
    Snapshot(Snapshot),
    /// Answers [`Query::UserById`] and [`Query::UserByName`].
    User(User),
    /// Answers [`Query::CountUsersNamed`].
    Count(i64),
}

/// What a [`Reply`] is to a contract.
pub enum ReplyView {
    Failed,
    Workspaces(Seq<WorkspaceView>),
    Members(Seq<(WorkspaceMember, UserView)>),
    Projects(Seq<(ProjectView, VideoView)>),
    Membership(WorkspaceMember),
    Project(ProjectView),
    ProjectWithVideo(ProjectView, VideoView),
    Inserted(i32),
    Listing(u32),
    Streams(Seq<StreamInfoView>),
    Transcoded { decoder: Option<i32>, waveformer: Option<i32>, artifact: Option<Seq<u8>> },
    Affected(usize),
    Removed,
    Waveform(Option<Seq<u8>>),
    Subtitles(Seq<SubtitleView>),
    Subtitle(SubtitleView),
    Text(Seq<char>),
    Seconds(u64),
    SnapshotHeads(Seq<(i32, i64, Option<Seq<char>>)>),
    Snapshot(SnapshotView),
    User(UserView),
    Count(i64),
}

impl DeepView for Reply {
    type V = ReplyView;

    open spec fn deep_view(&self) -> ReplyView {
        match self {
            Reply::Failed => ReplyView::Failed,
            Reply::Workspaces(rows) => ReplyView::Workspaces(rows.deep_view()),
            Reply::Members(rows) => ReplyView::Members(rows.deep_view()),
            Reply::Projects(rows) => ReplyView::Projects(rows.deep_view()),
            Reply::Membership(row) => ReplyView::Membership(*row),
            Reply::Project(row) => ReplyView::Project(row@),
            Reply::ProjectWithVideo(project, video) => ReplyView::ProjectWithVideo(
                project@,
                video@,
            ),
            Reply::Inserted(id) => ReplyView::Inserted(*id),
            Reply::Listing(total) => ReplyView::Listing(*total),
            Reply::Streams(streams) => ReplyView::Streams(streams.deep_view()),
            Reply::Transcoded { decoder, waveformer, artifact } => ReplyView::Transcoded {
                decoder: *decoder,
                waveformer: *waveformer,
                artifact: match artifact {
                    Some(bytes) => Some(bytes@),
                    None => None,
                },
            },
            Reply::Affected(rows) => ReplyView::Affected(*rows),
            Reply::Removed => ReplyView::Removed,
            Reply::Waveform(waveform) => ReplyView::Waveform(waveform.deep_view()),
            Reply::Subtitles(rows) => ReplyView::Subtitles(rows.deep_view()),
            Reply::Subtitle(row) => ReplyView::Subtitle(row@),
            Reply::Text(text) => ReplyView::Text(text@),
            Reply::Seconds(seconds) => ReplyView::Seconds(*seconds),
            Reply::SnapshotHeads(rows) => ReplyView::SnapshotHeads(rows.deep_view()),
            Reply::Snapshot(row) => ReplyView::Snapshot(row@),
            Reply::User(row) => ReplyView::User(row@),
            Reply::Count(count) => ReplyView::Count(*count),
        }
    }
}

impl View for Reply {
    type V = ReplyView;

    open spec fn view(&self) -> ReplyView {
        self.deep_view()
    }
}

/// Where a flow stands after it has taken a reply.
#[derive(Debug, PartialEq, Eq)]
pub enum Step<S, T, E> {
    /// The flow waits in state `S` for the reply to this query.
    Ask(S, Query),
    /// The flow is over, with this result.
    Done(Result<T, E>),
}

/// What a [`Step`] is to a contract.
pub enum StepView<S, T, E> {
    Ask(S, QueryView),
    Done(Result<T, E>),
}

impl<S: DeepView, T: DeepView, E: DeepView> DeepView for Step<S, T, E> {
    type V = StepView<S::V, T::V, E::V>;

    open spec fn deep_view(&self) -> StepView<S::V, T::V, E::V> {
        match self {
            Step::Ask(state, query) => StepView::Ask(state.deep_view(), query@),
            Step::Done(Ok(value)) => StepView::Done(Ok(value.deep_view())),
            Step::Done(Err(error)) => StepView::Done(Err(error.deep_view())),
        }
    }
}

impl<S: DeepView, T: DeepView, E: DeepView> View for Step<S, T, E> {
    type V = StepView<S::V, T::V, E::V>;

    open spec fn view(&self) -> StepView<S::V, T::V, E::V> {
        self.deep_view()
    }
}

} // verus!
