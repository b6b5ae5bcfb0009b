//! The rows of the store, each with the mathematical value that contracts speak of.

use vstd::prelude::*;

verus! {

/// A registered user.
#[derive(Clone, Debug, PartialEq, Eq)]
pub struct User {
    pub id: i32,
    pub username: String,
    pub password: String,
    pub email: Option<String>,
    pub display_name: Option<String>,
}

/// What a [`User`] is to a contract.
pub struct UserView {
    pub id: i32,
    pub username: Seq<char>,
    pub password: Seq<char>,
    pub email: Option<Seq<char>>,
    pub display_name: Option<Seq<char>>,
}

impl DeepView for User {
    type V = UserView;

    open spec fn deep_view(&self) -> UserView {
        UserView {
            id: self.id,
            username: self.username@,
            password: self.password@,
            email: self.email.deep_view(),
            display_name: self.display_name.deep_view(),
        }
    }
}

impl View for User {
    type V = UserView;

    open spec fn view(&self) -> UserView {
        self.deep_view()
    }
}

/// A user that is about to be stored: the name and the password's hash.
#[derive(Clone, Debug, PartialEq, Eq)]
pub struct NewUser {
    pub username: String,
    pub password: String,
}

/// What a [`NewUser`] is to a contract.
pub struct NewUserView {
    pub username: Seq<char>,
    pub password: Seq<char>,
}

impl DeepView for NewUser {
    type V = NewUserView;

    open spec fn deep_view(&self) -> NewUserView {
        NewUserView { username: self.username@, password: self.password@ }
    }
}

impl View for NewUser {
    type V = NewUserView;

    open spec fn view(&self) -> NewUserView {
        self.deep_view()
    }
}

/// A group of collaborators and the projects they share.
#[derive(Clone, Debug, PartialEq, Eq)]
pub struct Workspace {
    pub id: i32,
    pub name: String,
    pub owner: i32,
    pub shared: i32,
}

/// What a [`Workspace`] is to a contract.
pub struct WorkspaceView {
    pub id: i32,
    pub name: Seq<char>,
    pub owner: i32,
    pub shared: i32,
}

impl DeepView for Workspace {
    type V = WorkspaceView;

    open spec fn deep_view(&self) -> WorkspaceView {
        WorkspaceView { id: self.id, name: self.name@, owner: self.owner, shared: self.shared }
    }
}

impl View for Workspace {
    type V = WorkspaceView;

    open spec fn view(&self) -> WorkspaceView {
        self.deep_view()
    }
}

/// That a user belongs to a workspace, and in which role.
#[derive(Clone, Copy, Debug, PartialEq, Eq)]
pub struct WorkspaceMember {
    pub workspace: i32,
    pub user: i32,
    pub role: i32,
}

impl DeepView for WorkspaceMember {
    type V = WorkspaceMember;

    open spec fn deep_view(&self) -> WorkspaceMember {
        *self
    }
}

impl View for WorkspaceMember {
    type V = WorkspaceMember;

    open spec fn view(&self) -> WorkspaceMember {
        *self
    }
}

/// An external media item, with the duration and the waveform once they are known.
#[derive(Debug, PartialEq, Eq)]
pub struct Video {
    pub id: i32,
    pub source: String,
    pub identifier: String,
    pub duration: Option<i32>,
    pub waveform: Option<Vec<u8>>,
}

/// What a [`Video`] is to a contract.
pub struct VideoView {
    pub id: i32,
    pub source: Seq<char>,
    pub identifier: Seq<char>,
    pub duration: Option<i32>,
    pub waveform: Option<Seq<u8>>,
}

impl DeepView for Video {
    type V = VideoView;

    open spec fn deep_view(&self) -> VideoView {
        VideoView {
            id: self.id,
            source: self.source@,
            identifier: self.identifier@,
            duration: self.duration,
            waveform: self.waveform.deep_view(),
        }
    }
}

impl View for Video {
    type V = VideoView;

    open spec fn view(&self) -> VideoView {
        self.deep_view()
    }
}

/// A media item that is about to be stored.
#[derive(Debug, PartialEq, Eq)]
pub struct NewVideo {
    pub source: String,
    pub identifier: String,
    pub duration: Option<i32>,
    pub waveform: Option<Vec<u8>>,
}

/// What a [`NewVideo`] is to a contract.
pub struct NewVideoView {
    pub source: Seq<char>,
    pub identifier: Seq<char>,
    pub duration: Option<i32>,
    pub waveform: Option<Seq<u8>>,
}

impl DeepView for NewVideo {
    type V = NewVideoView;

    open spec fn deep_view(&self) -> NewVideoView {
        NewVideoView {
            source: self.source@,
            identifier: self.identifier@,
            duration: self.duration,
            waveform: self.waveform.deep_view(),
        }
    }
}

impl View for NewVideo {
    type V = NewVideoView;

    open spec fn view(&self) -> NewVideoView {
        self.deep_view()
    }
}

/// A unit of subtitle work, bound to one media item.
#[derive(Clone, Debug, PartialEq, Eq)]
pub struct Project {
    pub id: i32,
    pub workspace: i32,
    pub name: String,
    pub video: Option<i32>,
}

/// What a [`Project`] is to a contract.
pub struct ProjectView {
    pub id: i32,
    pub workspace: i32,
    pub name: Seq<char>,
    pub video: Option<i32>,
}

impl DeepView for Project {
    type V = ProjectView;

    open spec fn deep_view(&self) -> ProjectView {
        ProjectView { id: self.id, workspace: self.workspace, name: self.name@, video: self.video }
    }
}

impl View for Project {
    type V = ProjectView;

    open spec fn view(&self) -> ProjectView {
        self.deep_view()
    }
}

/// A project that is about to be stored.
#[derive(Clone, Debug, PartialEq, Eq)]
pub struct NewProject {
    pub workspace: i32,
    pub name: String,
    pub video: Option<i32>,
}

/// What a [`NewProject`] is to a contract.
pub struct NewProjectView {
    pub workspace: i32,
    pub name: Seq<char>,
    pub video: Option<i32>,
}

impl DeepView for NewProject {
    type V = NewProjectView;

    open spec fn deep_view(&self) -> NewProjectView {
        NewProjectView { workspace: self.workspace, name: self.name@, video: self.video }
    }
}

impl View for NewProject {
    type V = NewProjectView;

    open spec fn view(&self) -> NewProjectView {
        self.deep_view()
    }
}

/// One line of text, shown from `start` to `end` (milliseconds).
#[derive(Clone, Debug, PartialEq, Eq)]
pub struct Subtitle {
    pub id: i32,
    pub project: i32,
    pub start: i32,
    pub end: i32,
    pub text: String,
}

/// What a [`Subtitle`] is to a contract.
pub struct SubtitleView {
    pub id: i32,
    pub project: i32,
    pub start: i32,
    pub end: i32,
    pub text: Seq<char>,
}

impl DeepView for Subtitle {
    type V = SubtitleView;

    open spec fn deep_view(&self) -> SubtitleView {
        SubtitleView {
            id: self.id,
            project: self.project,
            start: self.start,
            end: self.end,
            text: self.text@,
        }
    }
}

impl View for Subtitle {
    type V = SubtitleView;

    open spec fn view(&self) -> SubtitleView {
        self.deep_view()
    }
}

/// A subtitle that is about to be stored.
#[derive(Clone, Debug, PartialEq, Eq)]
pub struct NewSubtitle {
    pub project: i32,
    pub start: i32,
    pub end: i32,
    pub text: String,
}

/// What a [`NewSubtitle`] is to a contract.
pub struct NewSubtitleView {
    pub project: i32,
    pub start: i32,
    pub end: i32,
    pub text: Seq<char>,
}

impl DeepView for NewSubtitle {
    type V = NewSubtitleView;

    open spec fn deep_view(&self) -> NewSubtitleView {
        NewSubtitleView { project: self.project, start: self.start, end: self.end, text: self.text@ }
    }
}

impl View for NewSubtitle {
    type V = NewSubtitleView;

    open spec fn view(&self) -> NewSubtitleView {
        self.deep_view()
    }
}

/// A project's subtitles as they were at `timestamp` (seconds), serialised.
#[derive(Clone, Debug, PartialEq, Eq)]
pub struct Snapshot {
    pub project: i32,
    pub timestamp: i64,
    pub name: Option<String>,
    pub subtitles: String,
}

/// What a [`Snapshot`] is to a contract.
pub struct SnapshotView {
    pub project: i32,
    pub timestamp: i64,
    pub name: Option<Seq<char>>,
    pub subtitles: Seq<char>,
}

impl DeepView for Snapshot {
    type V = SnapshotView;

    open spec fn deep_view(&self) -> SnapshotView {
        SnapshotView {
            project: self.project,
            timestamp: self.timestamp,
            name: self.name.deep_view(),
            subtitles: self.subtitles@,
        }
    }
}

impl View for Snapshot {
    type V = SnapshotView;

    open spec fn view(&self) -> SnapshotView {
        self.deep_view()
    }
}

} // verus!
