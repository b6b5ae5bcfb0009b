//! Subtitles: how they are listed, created, edited and deleted, and what the bus is told.
//!
//! The bus is told of a change only when the store has confirmed it.

use vstd::prelude::*;
use crate::events::{
    CreateEventData, CreateEventDataView, DeleteEventData, EditEventData, EditEventDataView,
    SubtitleEvent, SubtitleEventType, SubtitleEventTypeView, SubtitleEventView,
};
use crate::gateway::{Query, QueryView, Reply, ReplyView, Step, StepView};
use crate::models::{NewSubtitle, NewSubtitleView, Subtitle, SubtitleView};
use crate::status::Status;
use crate::text::{decimal, decimal_digits};

verus! {

/// How far a request to list a project's subtitles has come.
#[derive(Clone, Copy, Debug, PartialEq, Eq)]
pub enum GetSubtitleList {
    /// Nothing has been asked yet.
    Requested { id: i32, user: i32 },
    /// The store is looking for the project.
    Finding,
    /// The store is listing the subtitles.
    Listing,
}

impl DeepView for GetSubtitleList {
    type V = GetSubtitleList;

    open spec fn deep_view(&self) -> GetSubtitleList {
        *self
    }
}

impl View for GetSubtitleList {
    type V = GetSubtitleList;

    open spec fn view(&self) -> GetSubtitleList {
        *self
    }
}

/// The step that [`get_subtitle_list`] takes.
pub open spec fn spec_get_subtitle_list(state: GetSubtitleList, reply: Option<ReplyView>) -> StepView<
    GetSubtitleList,
    Seq<SubtitleView>,
    Status,
> {
    match state {
        GetSubtitleList::Requested { id, user } => StepView::Ask(
            GetSubtitleList::Finding,
            QueryView::ProjectOf { user, project: id },
        ),
        GetSubtitleList::Finding => match reply {
            Some(ReplyView::Project(project)) => StepView::Ask(
                GetSubtitleList::Listing,
                QueryView::SubtitlesOf { project: project.id },
            ),
            _ => StepView::Done(Err(Status::NotFound)),
        },
        GetSubtitleList::Listing => match reply {
            Some(ReplyView::Subtitles(rows)) => StepView::Done(Ok(rows)),
            _ => StepView::Done(Err(Status::InternalServerError)),
        },
    }
}

/// Lists the subtitles of a project of the user's, earliest start first.
pub fn get_subtitle_list(state: GetSubtitleList, reply: Option<Reply>) -> (step: Step<
    GetSubtitleList,
    Vec<Subtitle>,
    Status,
>)
    ensures
        step@ == spec_get_subtitle_list(state@, reply.deep_view()),
{
    match state {
        GetSubtitleList::Requested { id, user } => Step::Ask(
            GetSubtitleList::Finding,
            Query::ProjectOf { user, project: id },
        ),
        GetSubtitleList::Finding => match reply {
            Some(Reply::Project(project)) => Step::Ask(
                GetSubtitleList::Listing,
                Query::SubtitlesOf { project: project.id },
            ),
            _ => Step::Done(Err(Status::NotFound)),
        },
        GetSubtitleList::Listing => match reply {
            Some(Reply::Subtitles(rows)) => Step::Done(Ok(rows)),
            _ => Step::Done(Err(Status::InternalServerError)),
        },
    }
}

/// What a client sends to have a subtitle created.
#[derive(Clone, Debug, PartialEq, Eq)]
pub struct SubtitleCreationInfo {
    pub start: i32,
    pub end: i32,
    pub text: String,
}

/// What a [`SubtitleCreationInfo`] is to a contract.
pub struct SubtitleCreationInfoView {
    pub start: i32,
    pub end: i32,
    pub text: Seq<char>,
}

impl DeepView for SubtitleCreationInfo {
    type V = SubtitleCreationInfoView;

    open spec fn deep_view(&self) -> SubtitleCreationInfoView {
        SubtitleCreationInfoView { start: self.start, end: self.end, text: self.text@ }
    }
}

impl View for SubtitleCreationInfo {
    type V = SubtitleCreationInfoView;

    open spec fn view(&self) -> SubtitleCreationInfoView {
        self.deep_view()
    }
}

/// A subtitle has been created: the text that answers the request, and what the bus is
/// told.
#[derive(Clone, Debug, PartialEq, Eq)]
pub struct SubtitleCreated {
    pub body: String,
    pub event: SubtitleEvent,
}

/// What a [`SubtitleCreated`] is to a contract.
pub struct SubtitleCreatedView {
    pub body: Seq<char>,
    pub event: SubtitleEventView,
}

impl DeepView for SubtitleCreated {
    type V = SubtitleCreatedView;

    open spec fn deep_view(&self) -> SubtitleCreatedView {
        SubtitleCreatedView { body: self.body@, event: self.event@ }
    }
}

impl View for SubtitleCreated {
    type V = SubtitleCreatedView;

    open spec fn view(&self) -> SubtitleCreatedView {
        self.deep_view()
    }
}

/// How far the creation of a subtitle has come.
#[derive(Debug, PartialEq, Eq)]
pub enum CreateSubtitle {
    /// Nothing has been asked yet.
    Requested { id: i32, user: i32, info: SubtitleCreationInfo },
    /// The store is looking for the project.
    Finding { info: SubtitleCreationInfo },
    /// The store is taking the subtitle for `project`.
    Inserting { project: i32 },
    /// The store is reading back the subtitle that got the id `id`.
    Reading { id: i32, project: i32 },
}

impl DeepView for CreateSubtitle {
    type V = CreateSubtitleView;

    open spec fn deep_view(&self) -> CreateSubtitleView {
        match self {
            CreateSubtitle::Requested { id, user, info } => CreateSubtitleView::Requested {
                id: *id,
                user: *user,
                info: info@,
            },
            CreateSubtitle::Finding { info } => CreateSubtitleView::Finding { info: info@ },
            CreateSubtitle::Inserting { project } => CreateSubtitleView::Inserting {
                project: *project,
            },
            CreateSubtitle::Reading { id, project } => CreateSubtitleView::Reading {
                id: *id,
                project: *project,
            },
        }
    }
}

/// What a [`CreateSubtitle`] is to a contract.
pub enum CreateSubtitleView {
    Requested { id: i32, user: i32, info: SubtitleCreationInfoView },
    Finding { info: SubtitleCreationInfoView },
    Inserting { project: i32 },
    Reading { id: i32, project: i32 },
}

impl View for CreateSubtitle {
    type V = CreateSubtitleView;

    open spec fn view(&self) -> CreateSubtitleView {
        self.deep_view()
    }
}

/// What the bus is told of a subtitle that has been created: the row as the store holds it.
pub open spec fn spec_created_event(stored: SubtitleView) -> SubtitleEventView {
    SubtitleEventView {
        info: SubtitleEventTypeView::SubtitleCreate(
            CreateEventDataView {
                subtitle: stored.id,
                text: stored.text,
                start: stored.start,
                end: stored.end,
            },
        ),
        project: stored.project,
    }
}

/// The step that [`create_subtitle`] takes.
pub open spec fn spec_create_subtitle(state: CreateSubtitleView, reply: Option<ReplyView>) -> StepView<
    CreateSubtitleView,
    SubtitleCreatedView,
    Status,
> {
    match state {
        CreateSubtitleView::Requested { id, user, info } => StepView::Ask(
            CreateSubtitleView::Finding { info },
            QueryView::ProjectOf { user, project: id },
        ),
        CreateSubtitleView::Finding { info } => match reply {
            Some(ReplyView::Project(project)) => StepView::Ask(
                CreateSubtitleView::Inserting { project: project.id },
                QueryView::InsertSubtitle(
                    NewSubtitleView {
                        project: project.id,
                        start: info.start,
                        end: info.end,
                        text: info.text,
                    },
                ),
            ),
            _ => StepView::Done(Err(Status::NotFound)),
        },
        CreateSubtitleView::Inserting { project } => match reply {
            Some(ReplyView::Inserted(id)) => StepView::Ask(
                CreateSubtitleView::Reading { id, project },
                QueryView::SubtitleOf { id, project },
            ),
            _ => StepView::Done(Err(Status::InternalServerError)),
        },
        CreateSubtitleView::Reading { id, project } => match reply {
            Some(ReplyView::Subtitle(stored)) => StepView::Done(
                Ok(
                    SubtitleCreatedView {
                        body: decimal_digits(id as int),
                        event: spec_created_event(stored),
                    },
                ),
            ),
            _ => StepView::Done(Err(Status::InternalServerError)),
        },
    }
}

/// Creates a subtitle in a project of the user's.
///
/// The subtitle is stored, and then read back by the id that it got. Only when that has
/// succeeded is the request answered with the id, and the bus told of the subtitle, as the
/// store holds it. Where the subtitle cannot be read back, the request fails and the bus is
/// told nothing.
pub fn create_subtitle(state: CreateSubtitle, reply: Option<Reply>) -> (step: Step<
    CreateSubtitle,
    SubtitleCreated,
    Status,
>)
    ensures
        step@ == spec_create_subtitle(state@, reply.deep_view()),
{
    match state {
        CreateSubtitle::Requested { id, user, info } => Step::Ask(
            CreateSubtitle::Finding { info },
            Query::ProjectOf { user, project: id },
        ),
        CreateSubtitle::Finding { info } => match reply {
            Some(Reply::Project(project)) => Step::Ask(
                CreateSubtitle::Inserting { project: project.id },
                Query::InsertSubtitle(
                    NewSubtitle {
                        project: project.id,
                        start: info.start,
                        end: info.end,
                        text: info.text,
                    },
                ),
            ),
            _ => Step::Done(Err(Status::NotFound)),
        },
        CreateSubtitle::Inserting { project } => match reply {
            Some(Reply::Inserted(id)) => Step::Ask(
                CreateSubtitle::Reading { id, project },
                Query::SubtitleOf { id, project },
            ),
            _ => Step::Done(Err(Status::InternalServerError)),
        },
        CreateSubtitle::Reading { id, project } => match reply {
            Some(Reply::Subtitle(stored)) => Step::Done(
                Ok(
                    SubtitleCreated {
                        body: decimal(id),
                        event: SubtitleEvent {
                            info: SubtitleEventType::SubtitleCreate(
                                CreateEventData {
                                    subtitle: stored.id,
                                    text: stored.text,
                                    start: stored.start,
                                    end: stored.end,
                                },
                            ),
                            project: stored.project,
                        },
                    },
                ),
            ),
            _ => Step::Done(Err(Status::InternalServerError)),
        },
    }
}

/// The bus is told of a new subtitle only by the step that takes the row that the store
/// has read back, and it is told that row: its id, its start, its end, its text and its
/// project. The row is asked for by the id that the insertion gave, in the project that was
/// found, and the insertion handed the store the start, the end and the text that the client
/// sent. A step that takes anything but the row read back tells the bus nothing.
pub proof fn lemma_created_event_tells_what_was_stored(
    state: CreateSubtitleView,
    reply: Option<ReplyView>,
)
    ensures
        match spec_create_subtitle(state, reply) {
            StepView::Done(Ok(created)) => {
                &&& state matches CreateSubtitleView::Reading { id, .. }
                &&& reply matches Some(ReplyView::Subtitle(stored))
                &&& created.event == spec_created_event(stored)
                &&& created.body == decimal_digits(id as int)
            },
            StepView::Done(Err(_)) => !(state is Requested),
            StepView::Ask(next, asked) => match next {
                CreateSubtitleView::Requested { .. } => false,
                CreateSubtitleView::Finding { info } => state
                    matches CreateSubtitleView::Requested { info: sent, .. } && info == sent,
                CreateSubtitleView::Inserting { project } => {
                    &&& state matches CreateSubtitleView::Finding { info }
                    &&& reply matches Some(ReplyView::Project(found))
                    &&& project == found.id
                    &&& asked == QueryView::InsertSubtitle(
                        NewSubtitleView {
                            project: found.id,
                            start: info.start,
                            end: info.end,
                            text: info.text,
                        },
                    )
                },
                CreateSubtitleView::Reading { id, project } => {
                    &&& state matches CreateSubtitleView::Inserting { project: found }
                    &&& reply matches Some(ReplyView::Inserted(inserted))
                    &&& id == inserted
                    &&& project == found
                    &&& asked == (QueryView::SubtitleOf { id: inserted, project: found })
                },
            },
        },
{
}

/// How far the deletion of a subtitle has come.
#[derive(Clone, Copy, Debug, PartialEq, Eq)]
pub enum DeleteSubtitle {
    /// Nothing has been asked yet.
    Requested { project_id: i32, subtitle_id: i32, user: i32 },
    /// The store is looking for the project.
    Finding { subtitle_id: i32 },
    /// The store is deleting the subtitle from the project that was found.
    Deleting { subtitle_id: i32, project: i32 },
}

impl DeepView for DeleteSubtitle {
    type V = DeleteSubtitle;

    open spec fn deep_view(&self) -> DeleteSubtitle {
        *self
    }
}

impl View for DeleteSubtitle {
    type V = DeleteSubtitle;

    open spec fn view(&self) -> DeleteSubtitle {
        *self
    }
}

/// What the bus is told of the deletion of a subtitle.
pub open spec fn spec_deleted_event(subtitle_id: i32, project: i32) -> SubtitleEventView {
    SubtitleEventView {
        info: SubtitleEventTypeView::SubtitleDelete(DeleteEventData { subtitle: subtitle_id }),
        project,
    }
}

/// The step that [`delete_subtitle`] takes.
pub open spec fn spec_delete_subtitle(state: DeleteSubtitle, reply: Option<ReplyView>) -> StepView<
    DeleteSubtitle,
    SubtitleEventView,
    Status,
> {
    match state {
        DeleteSubtitle::Requested { project_id, subtitle_id, user } => StepView::Ask(
            DeleteSubtitle::Finding { subtitle_id },
            QueryView::ProjectOf { user, project: project_id },
        ),
        DeleteSubtitle::Finding { subtitle_id } => match reply {
            Some(ReplyView::Project(project)) => StepView::Ask(
                DeleteSubtitle::Deleting { subtitle_id, project: project.id },
                QueryView::DeleteSubtitle { id: subtitle_id, project: project.id },
            ),
            _ => StepView::Done(Err(Status::NotFound)),
        },
        DeleteSubtitle::Deleting { subtitle_id, project } => match reply {
            Some(ReplyView::Affected(rows)) => if rows == 0 {
                StepView::Done(Err(Status::NotFound))
            } else {
                StepView::Done(Ok(spec_deleted_event(subtitle_id, project)))
            },
            _ => StepView::Done(Err(Status::InternalServerError)),
        },
    }
}

/// Deletes a subtitle from a project of the user's, and tells the bus. Where the store
/// has deleted nothing, the subtitle is not found and the bus is told nothing.
pub fn delete_subtitle(state: DeleteSubtitle, reply: Option<Reply>) -> (step: Step<
    DeleteSubtitle,
    SubtitleEvent,
    Status,
>)
    ensures
        step@ == spec_delete_subtitle(state@, reply.deep_view()),
{
    match state {
        DeleteSubtitle::Requested { project_id, subtitle_id, user } => Step::Ask(
            DeleteSubtitle::Finding { subtitle_id },
            Query::ProjectOf { user, project: project_id },
        ),
        DeleteSubtitle::Finding { subtitle_id } => match reply {
            Some(Reply::Project(project)) => Step::Ask(
                DeleteSubtitle::Deleting { subtitle_id, project: project.id },
                Query::DeleteSubtitle { id: subtitle_id, project: project.id },
            ),
            _ => Step::Done(Err(Status::NotFound)),
        },
        DeleteSubtitle::Deleting { subtitle_id, project } => match reply {
            Some(Reply::Affected(rows)) => if rows == 0 {
                Step::Done(Err(Status::NotFound))
            } else {
                Step::Done(
                    Ok(
                        SubtitleEvent {
                            info: SubtitleEventType::SubtitleDelete(
                                DeleteEventData { subtitle: subtitle_id },
                            ),
                            project,
                        },
                    ),
                )
            },
            _ => Step::Done(Err(Status::InternalServerError)),
        },
    }
}

/// The rows of `subtitles` that a deletion of the subtitle `id` of `project` removes.
pub open spec fn spec_deleted_rows(subtitles: Seq<SubtitleView>, id: i32, project: i32) -> Seq<
    SubtitleView,
> {
    subtitles.filter(|row: SubtitleView| row.id == id && row.project == project)
}

/// A deletion is asked of the store for the project that was found, and for no other. So
/// where no subtitle with the id belongs to that project, because there is none with the
/// id or because the one there is belongs to another project, the store deletes nothing,
/// and the request ends as not found.
pub proof fn lemma_no_deletion_outside_the_project(
    subtitles: Seq<SubtitleView>,
    subtitle_id: i32,
    found: crate::models::ProjectView,
    affected: usize,
)
    requires
        forall|k: int|
            0 <= k < subtitles.len() && (#[trigger] subtitles[k]).id == subtitle_id
                ==> subtitles[k].project != found.id,
        affected == spec_deleted_rows(subtitles, subtitle_id, found.id).len(),
    ensures
        spec_delete_subtitle(
            DeleteSubtitle::Finding { subtitle_id },
            Some(ReplyView::Project(found)),
        ) == StepView::<DeleteSubtitle, SubtitleEventView, Status>::Ask(
            DeleteSubtitle::Deleting { subtitle_id, project: found.id },
            QueryView::DeleteSubtitle { id: subtitle_id, project: found.id },
        ),
        spec_delete_subtitle(
            DeleteSubtitle::Deleting { subtitle_id, project: found.id },
            Some(ReplyView::Affected(affected)),
        ) == StepView::<DeleteSubtitle, SubtitleEventView, Status>::Done(Err(Status::NotFound)),
{
    let removed = spec_deleted_rows(subtitles, subtitle_id, found.id);
    let wanted = |row: SubtitleView| row.id == subtitle_id && row.project == found.id;
    if removed.len() > 0 {
        subtitles.lemma_filter_contains_rev(wanted, removed[0]);
        assert(false);
    }
}

/// What a client sends to have a subtitle changed; a field that is absent stays as it is.
#[derive(Clone, Debug, PartialEq, Eq)]
pub struct SubtitleEditInfo {
    pub start: Option<i32>,
    pub end: Option<i32>,
    pub text: Option<String>,
}

/// What a [`SubtitleEditInfo`] is to a contract.
pub struct SubtitleEditInfoView {
    pub start: Option<i32>,
    pub end: Option<i32>,
    pub text: Option<Seq<char>>,
}

impl DeepView for SubtitleEditInfo {
    type V = SubtitleEditInfoView;

    open spec fn deep_view(&self) -> SubtitleEditInfoView {
        SubtitleEditInfoView { start: self.start, end: self.end, text: self.text.deep_view() }
    }
}

impl View for SubtitleEditInfo {
    type V = SubtitleEditInfoView;

    open spec fn view(&self) -> SubtitleEditInfoView {
        self.deep_view()
    }
}

/// The subtitle with the fields that the edit names set to the edit's values.
pub open spec fn spec_apply_edit(subtitle: SubtitleView, info: SubtitleEditInfoView) -> SubtitleView {
    SubtitleView {
        id: subtitle.id,
        project: subtitle.project,
        start: match info.start {
            Some(start) => start,
            None => subtitle.start,
        },
        end: match info.end {
            Some(end) => end,
            None => subtitle.end,
        },
        text: match info.text {
            Some(text) => text,
            None => subtitle.text,
        },
    }
}

/// Sets the fields that the edit names to the edit's values, and leaves the others.
pub fn apply_edit(subtitle: Subtitle, info: &SubtitleEditInfo) -> (edited: Subtitle)
    ensures
        edited@ == spec_apply_edit(subtitle@, info@),
{
    let mut subtitle = subtitle;
    if let Some(start) = info.start {
        subtitle.start = start;
    }
    if let Some(end) = info.end {
        subtitle.end = end;
    }
    if let Some(text) = &info.text {
        subtitle.text = text.clone();
    }
    subtitle
}

/// How far the edit of a subtitle has come.
#[derive(Debug, PartialEq, Eq)]
pub enum EditSubtitle {
    /// Nothing has been asked yet.
    Requested { project_id: i32, subtitle_id: i32, info: SubtitleEditInfo, user: i32 },
    /// The store is looking for the project.
    FindingProject { subtitle_id: i32, info: SubtitleEditInfo },
    /// The store is looking for the subtitle in the project that was found.
    FindingSubtitle { subtitle_id: i32, project: i32, info: SubtitleEditInfo },
    /// The store is taking the subtitle as edited.
    Updating { subtitle_id: i32, project: i32, info: SubtitleEditInfo },
}

/// What an [`EditSubtitle`] is to a contract.
pub enum EditSubtitleView {
    Requested { project_id: i32, subtitle_id: i32, info: SubtitleEditInfoView, user: i32 },
    FindingProject { subtitle_id: i32, info: SubtitleEditInfoView },
    FindingSubtitle { subtitle_id: i32, project: i32, info: SubtitleEditInfoView },
    Updating { subtitle_id: i32, project: i32, info: SubtitleEditInfoView },
}

impl DeepView for EditSubtitle {
    type V = EditSubtitleView;

    open spec fn deep_view(&self) -> EditSubtitleView {
        match self {
            EditSubtitle::Requested {
                project_id,
                subtitle_id,
                info,
                user,
            } => EditSubtitleView::Requested {
                project_id: *project_id,
                subtitle_id: *subtitle_id,
                info: info@,
                user: *user,
            },
            EditSubtitle::FindingProject { subtitle_id, info } => EditSubtitleView::FindingProject {
                subtitle_id: *subtitle_id,
                info: info@,
            },
            EditSubtitle::FindingSubtitle {
                subtitle_id,
                project,
                info,
            } => EditSubtitleView::FindingSubtitle {
                subtitle_id: *subtitle_id,
                project: *project,
                info: info@,
            },
            EditSubtitle::Updating { subtitle_id, project, info } => EditSubtitleView::Updating {
                subtitle_id: *subtitle_id,
                project: *project,
                info: info@,
            },
        }
    }
}

impl View for EditSubtitle {
    type V = EditSubtitleView;

    open spec fn view(&self) -> EditSubtitleView {
        self.deep_view()
    }
}

/// What the bus is told of an edit: the fields that the edit named, and no others.
pub open spec fn spec_edited_event(
    subtitle_id: i32,
    project: i32,
    info: SubtitleEditInfoView,
) -> SubtitleEventView {
    SubtitleEventView {
        info: SubtitleEventTypeView::SubtitleEdit(
            EditEventDataView {
                subtitle: subtitle_id,
                text: info.text,
                start: info.start,
                end: info.end,
            },
        ),
        project,
    }
}

/// The step that [`edit_subtitle`] takes.
pub open spec fn spec_edit_subtitle(state: EditSubtitleView, reply: Option<ReplyView>) -> StepView<
    EditSubtitleView,
    SubtitleEventView,
    Status,
> {
    match state {
        EditSubtitleView::Requested { project_id, subtitle_id, info, user } => StepView::Ask(
            EditSubtitleView::FindingProject { subtitle_id, info },
            QueryView::ProjectOf { user, project: project_id },
        ),
        EditSubtitleView::FindingProject { subtitle_id, info } => match reply {
            Some(ReplyView::Project(project)) => StepView::Ask(
                EditSubtitleView::FindingSubtitle { subtitle_id, project: project.id, info },
                QueryView::SubtitleOf { id: subtitle_id, project: project.id },
            ),
            _ => StepView::Done(Err(Status::NotFound)),
        },
        EditSubtitleView::FindingSubtitle { subtitle_id, project, info } => match reply {
            Some(ReplyView::Subtitle(subtitle)) => {
                let edited = spec_apply_edit(subtitle, info);
                StepView::Ask(
                    EditSubtitleView::Updating { subtitle_id, project, info },
                    QueryView::UpdateSubtitle {
                        id: subtitle_id,
                        project,
                        start: edited.start,
                        end: edited.end,
                        text: edited.text,
                    },
                )
            },
            _ => StepView::Done(Err(Status::NotFound)),
        },
        EditSubtitleView::Updating { subtitle_id, project, info } => match reply {
            Some(ReplyView::Affected(rows)) => if rows == 0 {
                StepView::Done(Err(Status::NotFound))
            } else {
                StepView::Done(Ok(spec_edited_event(subtitle_id, project, info)))
            },
            _ => StepView::Done(Err(Status::InternalServerError)),
        },
    }
}

/// Changes a subtitle of a project of the user's, and tells the bus which fields were set.
/// The subtitle is read, the fields that the edit names are set, and all three fields are
/// written back.
pub fn edit_subtitle(state: EditSubtitle, reply: Option<Reply>) -> (step: Step<
    EditSubtitle,
    SubtitleEvent,
    Status,
>)
    ensures
        step@ == spec_edit_subtitle(state@, reply.deep_view()),
{
    match state {
        EditSubtitle::Requested { project_id, subtitle_id, info, user } => Step::Ask(
            EditSubtitle::FindingProject { subtitle_id, info },
            Query::ProjectOf { user, project: project_id },
        ),
        EditSubtitle::FindingProject { subtitle_id, info } => match reply {
            Some(Reply::Project(project)) => Step::Ask(
                EditSubtitle::FindingSubtitle { subtitle_id, project: project.id, info },
                Query::SubtitleOf { id: subtitle_id, project: project.id },
            ),
            _ => Step::Done(Err(Status::NotFound)),
        },
        EditSubtitle::FindingSubtitle { subtitle_id, project, info } => match reply {
            Some(Reply::Subtitle(subtitle)) => {
                let edited = apply_edit(subtitle, &info);
                Step::Ask(
                    EditSubtitle::Updating { subtitle_id, project, info },
                    Query::UpdateSubtitle {
                        id: subtitle_id,
                        project,
                        start: edited.start,
                        end: edited.end,
                        text: edited.text,
                    },
                )
            },
            _ => Step::Done(Err(Status::NotFound)),
        },
        EditSubtitle::Updating { subtitle_id, project, info } => match reply {
            Some(Reply::Affected(rows)) => if rows == 0 {
                Step::Done(Err(Status::NotFound))
            } else {
                Step::Done(
                    Ok(
                        SubtitleEvent {
                            info: SubtitleEventType::SubtitleEdit(
                                EditEventData {
                                    subtitle: subtitle_id,
                                    text: info.text,
                                    start: info.start,
                                    end: info.end,
                                },
                            ),
                            project,
                        },
                    ),
                )
            },
            _ => Step::Done(Err(Status::InternalServerError)),
        },
    }
}

/// The bus is told of a change to a subtitle only by the step that takes the store's
/// confirmation of that change: the row read back after an insertion, or a count of rows
/// that is not zero for an edit or a deletion. No earlier step, and no step that takes a
/// failure, tells the bus anything.
pub proof fn lemma_bus_is_told_only_of_confirmed_changes(
    creating: CreateSubtitleView,
    editing: EditSubtitleView,
    deleting: DeleteSubtitle,
    reply: Option<ReplyView>,
)
    ensures
        spec_create_subtitle(creating, reply) matches StepView::Done(Ok(_)) ==> creating
            is Reading && reply matches Some(ReplyView::Subtitle(_)),
        spec_edit_subtitle(editing, reply) matches StepView::Done(Ok(_)) ==> {
            &&& editing is Updating
            &&& reply matches Some(ReplyView::Affected(rows))
            &&& rows > 0
        },
        spec_delete_subtitle(deleting, reply) matches StepView::Done(Ok(_)) ==> {
            &&& deleting is Deleting
            &&& reply matches Some(ReplyView::Affected(rows))
            &&& rows > 0
        },
{
}

} // verus!
