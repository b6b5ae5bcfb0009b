//! Snapshots: a project's subtitles as they were at one second, kept for good.
//!
//! A snapshot is found by its project and its timestamp. Once stored, only its label
//! changes.

use vstd::prelude::*;
use crate::gateway::{Query, QueryView, Reply, ReplyView, Step, StepView};
use crate::models::{ProjectView, Snapshot, SnapshotView, Subtitle, SubtitleView};
use crate::status::Status;

verus! {

/// How far the capture of a snapshot has come.
#[derive(Debug, PartialEq, Eq)]
pub enum CreateSnapshot {
    /// Nothing has been asked yet.
    Requested { project_id: i32, user: i32 },
    /// The store is looking for the project.
    Finding,
    /// The store is listing the subtitles of the project that was found.
    Listing { project: i32 },
    /// The codec is writing the subtitles down.
    Encoding { project: i32 },
    /// The clock is read.
    Timing { project: i32, subtitles: String },
    /// The store is taking the snapshot.
    Inserting,
}

/// What a [`CreateSnapshot`] is to a contract.
pub enum CreateSnapshotView {
    Requested { project_id: i32, user: i32 },
    Finding,
    Listing { project: i32 },
    Encoding { project: i32 },
    Timing { project: i32, subtitles: Seq<char> },
    Inserting,
}

impl DeepView for CreateSnapshot {
    type V = CreateSnapshotView;

    open spec fn deep_view(&self) -> CreateSnapshotView {
        match self {
            CreateSnapshot::Requested { project_id, user } => CreateSnapshotView::Requested {
                project_id: *project_id,
                user: *user,
            },
            CreateSnapshot::Finding => CreateSnapshotView::Finding,
            CreateSnapshot::Listing { project } => CreateSnapshotView::Listing {
                project: *project,
            },
            CreateSnapshot::Encoding { project } => CreateSnapshotView::Encoding {
                project: *project,
            },
            CreateSnapshot::Timing { project, subtitles } => CreateSnapshotView::Timing {
                project: *project,
                subtitles: subtitles@,
            },
            CreateSnapshot::Inserting => CreateSnapshotView::Inserting,
        }
    }
}

impl View for CreateSnapshot {
    type V = CreateSnapshotView;

    open spec fn view(&self) -> CreateSnapshotView {
        self.deep_view()
    }
}

/// The seconds since the epoch as a snapshot's timestamp: the same number, where the
/// store's signed 64 bits can say it.
pub open spec fn spec_timestamp(seconds: u64) -> Option<i64> {
    if seconds <= i64::MAX {
        Some(seconds as i64)
    } else {
        None
    }
}

/// The snapshot that a capture stores: without a label.
pub open spec fn spec_captured(project: i32, timestamp: i64, subtitles: Seq<char>) -> SnapshotView {
    SnapshotView { project, timestamp, name: None, subtitles }
}

/// The step that [`create_snapshot`] takes.
pub open spec fn spec_create_snapshot(state: CreateSnapshotView, reply: Option<ReplyView>) -> StepView<
    CreateSnapshotView,
    Seq<char>,
    Status,
> {
    match state {
        CreateSnapshotView::Requested { project_id, user } => StepView::Ask(
            CreateSnapshotView::Finding,
            QueryView::ProjectOf { user, project: project_id },
        ),
        CreateSnapshotView::Finding => match reply {
            Some(ReplyView::Project(project)) => StepView::Ask(
                CreateSnapshotView::Listing { project: project.id },
                QueryView::SubtitlesOf { project: project.id },
            ),
            _ => StepView::Done(Err(Status::NotFound)),
        },
        CreateSnapshotView::Listing { project } => match reply {
            Some(ReplyView::Subtitles(subtitles)) => StepView::Ask(
                CreateSnapshotView::Encoding { project },
                QueryView::Encode { subtitles },
            ),
            _ => StepView::Done(Err(Status::InternalServerError)),
        },
        CreateSnapshotView::Encoding { project } => match reply {
            Some(ReplyView::Text(subtitles)) => StepView::Ask(
                CreateSnapshotView::Timing { project, subtitles },
                QueryView::Now,
            ),
            _ => StepView::Done(Err(Status::InternalServerError)),
        },
        CreateSnapshotView::Timing { project, subtitles } => match reply {
            Some(ReplyView::Seconds(seconds)) => match spec_timestamp(seconds) {
                Some(timestamp) => StepView::Ask(
                    CreateSnapshotView::Inserting,
                    QueryView::InsertSnapshot(spec_captured(project, timestamp, subtitles)),
                ),
                None => StepView::Done(Err(Status::InternalServerError)),
            },
            _ => StepView::Done(Err(Status::InternalServerError)),
        },
        CreateSnapshotView::Inserting => match reply {
            Some(ReplyView::Affected(_)) => StepView::Done(Ok("done"@)),
            _ => StepView::Done(Err(Status::InternalServerError)),
        },
    }
}

/// The seconds since the epoch as a snapshot's timestamp, where they can be one.
pub fn timestamp(seconds: u64) -> (stamp: Option<i64>)
    ensures
        stamp == spec_timestamp(seconds),
        stamp matches Some(timestamp) ==> timestamp == seconds,
{
    if seconds <= 9223372036854775807 {
        Some(seconds as i64)
    } else {
        None
    }
}

/// Captures the subtitles of a project of the user's: they are listed, earliest start
/// first, written down as one text, and stored under the project and the second at which the
/// clock was read, in place of a snapshot that the project has at that second already. The
/// bus is told nothing.
pub fn create_snapshot(state: CreateSnapshot, reply: Option<Reply>) -> (step: Step<
    CreateSnapshot,
    String,
    Status,
>)
    ensures
        step@ == spec_create_snapshot(state@, reply.deep_view()),
{
    match state {
        CreateSnapshot::Requested { project_id, user } => Step::Ask(
            CreateSnapshot::Finding,
            Query::ProjectOf { user, project: project_id },
        ),
        CreateSnapshot::Finding => match reply {
            Some(Reply::Project(project)) => Step::Ask(
                CreateSnapshot::Listing { project: project.id },
                Query::SubtitlesOf { project: project.id },
            ),
            _ => Step::Done(Err(Status::NotFound)),
        },
        CreateSnapshot::Listing { project } => match reply {
            Some(Reply::Subtitles(subtitles)) => Step::Ask(
                CreateSnapshot::Encoding { project },
                Query::Encode { subtitles },
            ),
            _ => Step::Done(Err(Status::InternalServerError)),
        },
        CreateSnapshot::Encoding { project } => match reply {
            Some(Reply::Text(subtitles)) => Step::Ask(
                CreateSnapshot::Timing { project, subtitles },
                Query::Now,
            ),
            _ => Step::Done(Err(Status::InternalServerError)),
        },
        CreateSnapshot::Timing { project, subtitles } => match reply {
            Some(Reply::Seconds(seconds)) => match timestamp(seconds) {
                Some(timestamp) => Step::Ask(
                    CreateSnapshot::Inserting,
                    Query::InsertSnapshot(Snapshot { project, timestamp, name: None, subtitles }),
                ),
                None => Step::Done(Err(Status::InternalServerError)),
            },
            _ => Step::Done(Err(Status::InternalServerError)),
        },
        CreateSnapshot::Inserting => match reply {
            Some(Reply::Affected(_)) => Step::Done(Ok(String::from_str("done"))),
            _ => Step::Done(Err(Status::InternalServerError)),
        },
    }
}

/// What a client is shown of a snapshot in a list.
#[derive(Clone, Debug, PartialEq, Eq)]
pub struct SnapshotInfo {
    pub project: i32,
    pub timestamp: i64,
    pub name: Option<String>,
}

/// What a [`SnapshotInfo`] is to a contract.
pub struct SnapshotInfoView {
    pub project: i32,
    pub timestamp: i64,
    pub name: Option<Seq<char>>,
}

impl DeepView for SnapshotInfo {
    type V = SnapshotInfoView;

    open spec fn deep_view(&self) -> SnapshotInfoView {
        SnapshotInfoView {
            project: self.project,
            timestamp: self.timestamp,
            name: self.name.deep_view(),
        }
    }
}

impl View for SnapshotInfo {
    type V = SnapshotInfoView;

    open spec fn view(&self) -> SnapshotInfoView {
        self.deep_view()
    }
}

/// What is shown of each snapshot, in the order of the rows.
pub open spec fn spec_snapshot_infos(rows: Seq<(i32, i64, Option<Seq<char>>)>) -> Seq<
    SnapshotInfoView,
> {
    rows.map_values(
        |row: (i32, i64, Option<Seq<char>>)|
            SnapshotInfoView { project: row.0, timestamp: row.1, name: row.2 },
    )
}

/// What is shown of each snapshot, in the order of the rows.
pub fn snapshot_infos(rows: Vec<(i32, i64, Option<String>)>) -> (infos: Vec<SnapshotInfo>)
    ensures
        infos.deep_view() == spec_snapshot_infos(rows.deep_view()),
{
    let ghost all = rows.deep_view();
    let mut rows = rows;
    let mut infos: Vec<SnapshotInfo> = Vec::new();
    while rows.len() > 0
        invariant
            infos.len() + rows.len() == all.len(),
            forall|j: int|
                0 <= j < infos.len() ==> (#[trigger] infos[j])@ == (SnapshotInfoView {
                    project: all[j].0,
                    timestamp: all[j].1,
                    name: all[j].2,
                }),
            forall|j: int|
                0 <= j < rows.len() ==> (#[trigger] rows[j]).deep_view() == all[infos.len() + j],
        decreases rows.len(),
    {
        let ghost before = rows@;
        let (project, timestamp, name) = rows.remove(0);
        assert(before[0].deep_view() == all[infos.len() as int]);
        assert forall|j: int| 0 <= j < rows.len() implies (#[trigger] rows[j]).deep_view()
            == all[infos.len() + 1 + j] by {
            assert(rows[j] == before[j + 1]);
        }
        infos.push(SnapshotInfo { project, timestamp, name });
    }
    assert(infos.deep_view() =~= spec_snapshot_infos(all));
    infos
}

/// How far a request to list a project's snapshots has come.
#[derive(Clone, Copy, Debug, PartialEq, Eq)]
pub enum ListSnapshots {
    /// Nothing has been asked yet.
    Requested { project_id: i32, user: i32 },
    /// The store is looking for the project.
    Finding,
    /// The store is listing the snapshots.
    Listing,
}

impl DeepView for ListSnapshots {
    type V = ListSnapshots;

    open spec fn deep_view(&self) -> ListSnapshots {
        *self
    }
}

impl View for ListSnapshots {
    type V = ListSnapshots;

    open spec fn view(&self) -> ListSnapshots {
        *self
    }
}

/// The step that [`list_snapshots`] takes.
pub open spec fn spec_list_snapshots(state: ListSnapshots, reply: Option<ReplyView>) -> StepView<
    ListSnapshots,
    Seq<SnapshotInfoView>,
    Status,
> {
    match state {
        ListSnapshots::Requested { project_id, user } => StepView::Ask(
            ListSnapshots::Finding,
            QueryView::ProjectOf { user, project: project_id },
        ),
        ListSnapshots::Finding => match reply {
            Some(ReplyView::Project(project)) => StepView::Ask(
                ListSnapshots::Listing,
                QueryView::SnapshotsOf { project: project.id },
            ),
            _ => StepView::Done(Err(Status::NotFound)),
        },
        ListSnapshots::Listing => match reply {
            Some(ReplyView::SnapshotHeads(rows)) => StepView::Done(Ok(spec_snapshot_infos(rows))),
            _ => StepView::Done(Err(Status::InternalServerError)),
        },
    }
}

/// Lists the snapshots of a project of the user's, latest first: of each its project, its
/// timestamp and its label.
pub fn list_snapshots(state: ListSnapshots, reply: Option<Reply>) -> (step: Step<
    ListSnapshots,
    Vec<SnapshotInfo>,
    Status,
>)
    ensures
        step@ == spec_list_snapshots(state@, reply.deep_view()),
{
    match state {
        ListSnapshots::Requested { project_id, user } => Step::Ask(
            ListSnapshots::Finding,
            Query::ProjectOf { user, project: project_id },
        ),
        ListSnapshots::Finding => match reply {
            Some(Reply::Project(project)) => Step::Ask(
                ListSnapshots::Listing,
                Query::SnapshotsOf { project: project.id },
            ),
            _ => Step::Done(Err(Status::NotFound)),
        },
        ListSnapshots::Listing => match reply {
            Some(Reply::SnapshotHeads(rows)) => Step::Done(Ok(snapshot_infos(rows))),
            _ => Step::Done(Err(Status::InternalServerError)),
        },
    }
}

/// A snapshot as a client is shown it: its label and the subtitles it holds.
#[derive(Clone, Debug, PartialEq, Eq)]
pub struct SnapshotResponse {
    pub name: Option<String>,
    pub subtitles: Vec<Subtitle>,
}

/// What a [`SnapshotResponse`] is to a contract.
pub struct SnapshotResponseView {
    pub name: Option<Seq<char>>,
    pub subtitles: Seq<SubtitleView>,
}

impl DeepView for SnapshotResponse {
    type V = SnapshotResponseView;

    open spec fn deep_view(&self) -> SnapshotResponseView {
        SnapshotResponseView {
            name: self.name.deep_view(),
            subtitles: self.subtitles.deep_view(),
        }
    }
}

impl View for SnapshotResponse {
    type V = SnapshotResponseView;

    open spec fn view(&self) -> SnapshotResponseView {
        self.deep_view()
    }
}

/// How far a request to see one snapshot has come.
#[derive(Debug, PartialEq, Eq)]
pub enum GetSnapshot {
    /// Nothing has been asked yet.
    Requested { project_id: i32, timestamp: i64, user: i32 },
    /// The store is looking for the project.
    Finding { timestamp: i64 },
    /// The store is looking for the snapshot.
    Fetching,
    /// The codec is reading the subtitles of the snapshot labelled `name`.
    Decoding { name: Option<String> },
}

/// What a [`GetSnapshot`] is to a contract.
pub enum GetSnapshotView {
    Requested { project_id: i32, timestamp: i64, user: i32 },
    Finding { timestamp: i64 },
    Fetching,
    Decoding { name: Option<Seq<char>> },
}

impl DeepView for GetSnapshot {
    type V = GetSnapshotView;

    open spec fn deep_view(&self) -> GetSnapshotView {
        match self {
            GetSnapshot::Requested { project_id, timestamp, user } => GetSnapshotView::Requested {
                project_id: *project_id,
                timestamp: *timestamp,
                user: *user,
            },
            GetSnapshot::Finding { timestamp } => GetSnapshotView::Finding {
                timestamp: *timestamp,
            },
            GetSnapshot::Fetching => GetSnapshotView::Fetching,
            GetSnapshot::Decoding { name } => GetSnapshotView::Decoding { name: name.deep_view() },
        }
    }
}

impl View for GetSnapshot {
    type V = GetSnapshotView;

    open spec fn view(&self) -> GetSnapshotView {
        self.deep_view()
    }
}

/// The step that [`get_snapshot`] takes.
pub open spec fn spec_get_snapshot(state: GetSnapshotView, reply: Option<ReplyView>) -> StepView<
    GetSnapshotView,
    SnapshotResponseView,
    Status,
> {
    match state {
        GetSnapshotView::Requested { project_id, timestamp, user } => StepView::Ask(
            GetSnapshotView::Finding { timestamp },
            QueryView::ProjectOf { user, project: project_id },
        ),
        GetSnapshotView::Finding { timestamp } => match reply {
            Some(ReplyView::Project(project)) => StepView::Ask(
                GetSnapshotView::Fetching,
                QueryView::SnapshotAt { project: project.id, timestamp },
            ),
            _ => StepView::Done(Err(Status::NotFound)),
        },
        GetSnapshotView::Fetching => match reply {
            Some(ReplyView::Snapshot(snapshot)) => StepView::Ask(
                GetSnapshotView::Decoding { name: snapshot.name },
                QueryView::Decode { text: snapshot.subtitles },
            ),
            _ => StepView::Done(Err(Status::NotFound)),
        },
        GetSnapshotView::Decoding { name } => match reply {
            Some(ReplyView::Subtitles(subtitles)) => StepView::Done(
                Ok(SnapshotResponseView { name, subtitles }),
            ),
            _ => StepView::Done(Err(Status::InternalServerError)),
        },
    }
}

/// Shows the snapshot that a project of the user's has at a timestamp: its label, and the
/// subtitles read back from its text. Where the project has no snapshot at exactly that
/// timestamp, it is not found.
pub fn get_snapshot(state: GetSnapshot, reply: Option<Reply>) -> (step: Step<
    GetSnapshot,
    SnapshotResponse,
    Status,
>)
    ensures
        step@ == spec_get_snapshot(state@, reply.deep_view()),
{
    match state {
        GetSnapshot::Requested { project_id, timestamp, user } => Step::Ask(
            GetSnapshot::Finding { timestamp },
            Query::ProjectOf { user, project: project_id },
        ),
        GetSnapshot::Finding { timestamp } => match reply {
            Some(Reply::Project(project)) => Step::Ask(
                GetSnapshot::Fetching,
                Query::SnapshotAt { project: project.id, timestamp },
            ),
            _ => Step::Done(Err(Status::NotFound)),
        },
        GetSnapshot::Fetching => match reply {
            Some(Reply::Snapshot(snapshot)) => Step::Ask(
                GetSnapshot::Decoding { name: snapshot.name },
                Query::Decode { text: snapshot.subtitles },
            ),
            _ => Step::Done(Err(Status::NotFound)),
        },
        GetSnapshot::Decoding { name } => match reply {
            Some(Reply::Subtitles(subtitles)) => Step::Done(
                Ok(SnapshotResponse { name, subtitles }),
            ),
            _ => Step::Done(Err(Status::InternalServerError)),
        },
    }
}

/// What a client sends to have a snapshot labelled.
#[derive(Clone, Debug, PartialEq, Eq)]
pub struct SnapshotPatchInfo {
    pub name: String,
}

/// What a [`SnapshotPatchInfo`] is to a contract.
pub struct SnapshotPatchInfoView {
    pub name: Seq<char>,
}

impl DeepView for SnapshotPatchInfo {
    type V = SnapshotPatchInfoView;

    open spec fn deep_view(&self) -> SnapshotPatchInfoView {
        SnapshotPatchInfoView { name: self.name@ }
    }
}

impl View for SnapshotPatchInfo {
    type V = SnapshotPatchInfoView;

    open spec fn view(&self) -> SnapshotPatchInfoView {
        self.deep_view()
    }
}

/// How far the labelling of a snapshot has come.
#[derive(Debug, PartialEq, Eq)]
pub enum EditSnapshot {
    /// Nothing has been asked yet.
    Requested { project_id: i32, timestamp: i64, info: SnapshotPatchInfo, user: i32 },
    /// The store is looking for the project.
    Finding { timestamp: i64, info: SnapshotPatchInfo },
    /// The store is setting the label.
    Renaming,
}

/// What an [`EditSnapshot`] is to a contract.
pub enum EditSnapshotView {
    Requested { project_id: i32, timestamp: i64, info: SnapshotPatchInfoView, user: i32 },
    Finding { timestamp: i64, info: SnapshotPatchInfoView },
    Renaming,
}

impl DeepView for EditSnapshot {
    type V = EditSnapshotView;

    open spec fn deep_view(&self) -> EditSnapshotView {
        match self {
            EditSnapshot::Requested {
                project_id,
                timestamp,
                info,
                user,
            } => EditSnapshotView::Requested {
                project_id: *project_id,
                timestamp: *timestamp,
                info: info@,
                user: *user,
            },
            EditSnapshot::Finding { timestamp, info } => EditSnapshotView::Finding {
                timestamp: *timestamp,
                info: info@,
            },
            EditSnapshot::Renaming => EditSnapshotView::Renaming,
        }
    }
}

impl View for EditSnapshot {
    type V = EditSnapshotView;

    open spec fn view(&self) -> EditSnapshotView {
        self.deep_view()
    }
}

/// The step that [`edit_snapshot`] takes.
pub open spec fn spec_edit_snapshot(state: EditSnapshotView, reply: Option<ReplyView>) -> StepView<
    EditSnapshotView,
    (),
    Status,
> {
    match state {
        EditSnapshotView::Requested { project_id, timestamp, info, user } => StepView::Ask(
            EditSnapshotView::Finding { timestamp, info },
            QueryView::ProjectOf { user, project: project_id },
        ),
        EditSnapshotView::Finding { timestamp, info } => match reply {
            Some(ReplyView::Project(project)) => StepView::Ask(
                EditSnapshotView::Renaming,
                QueryView::RenameSnapshot { project: project.id, timestamp, name: info.name },
            ),
            _ => StepView::Done(Err(Status::NotFound)),
        },
        EditSnapshotView::Renaming => match reply {
            Some(ReplyView::Affected(_)) => StepView::Done(Ok(())),
            _ => StepView::Done(Err(Status::InternalServerError)),
        },
    }
}

/// Labels the snapshot that a project of the user's has at a timestamp. Nothing but the
/// label is written, and the request succeeds also where the project has no snapshot at
/// that timestamp.
pub fn edit_snapshot(state: EditSnapshot, reply: Option<Reply>) -> (step: Step<
    EditSnapshot,
    (),
    Status,
>)
    ensures
        step@ == spec_edit_snapshot(state@, reply.deep_view()),
{
    match state {
        EditSnapshot::Requested { project_id, timestamp, info, user } => Step::Ask(
            EditSnapshot::Finding { timestamp, info },
            Query::ProjectOf { user, project: project_id },
        ),
        EditSnapshot::Finding { timestamp, info } => match reply {
            Some(Reply::Project(project)) => Step::Ask(
                EditSnapshot::Renaming,
                Query::RenameSnapshot { project: project.id, timestamp, name: info.name },
            ),
            _ => Step::Done(Err(Status::NotFound)),
        },
        EditSnapshot::Renaming => match reply {
            Some(Reply::Affected(_)) => Step::Done(Ok(())),
            _ => Step::Done(Err(Status::InternalServerError)),
        },
    }
}

/// What is read from a snapshot is what was captured into it, as far as the codec reads
/// back what it wrote.
///
/// A capture hands the codec the subtitles as the store listed them, and stores the text
/// that the codec made of them, unlabelled, under the project and the second of the clock.
/// A retrieval at that project and timestamp hands the codec that same text, and shows
/// the subtitles that the codec reads from it, in the codec's order, without a label.
pub proof fn lemma_snapshot_gives_back_what_was_captured(
    project: ProjectView,
    listed: Seq<SubtitleView>,
    text: Seq<char>,
    seconds: u64,
    read_back: Seq<SubtitleView>,
)
    requires
        seconds <= i64::MAX,
    ensures
        spec_create_snapshot(
            CreateSnapshotView::Listing { project: project.id },
            Some(ReplyView::Subtitles(listed)),
        ) == StepView::<CreateSnapshotView, Seq<char>, Status>::Ask(
            CreateSnapshotView::Encoding { project: project.id },
            QueryView::Encode { subtitles: listed },
        ),
        spec_create_snapshot(
            CreateSnapshotView::Encoding { project: project.id },
            Some(ReplyView::Text(text)),
        ) == StepView::<CreateSnapshotView, Seq<char>, Status>::Ask(
            CreateSnapshotView::Timing { project: project.id, subtitles: text },
            QueryView::Now,
        ),
        spec_create_snapshot(
            CreateSnapshotView::Timing { project: project.id, subtitles: text },
            Some(ReplyView::Seconds(seconds)),
        ) == StepView::<CreateSnapshotView, Seq<char>, Status>::Ask(
            CreateSnapshotView::Inserting,
            QueryView::InsertSnapshot(spec_captured(project.id, seconds as i64, text)),
        ),
        spec_get_snapshot(
            GetSnapshotView::Finding { timestamp: seconds as i64 },
            Some(ReplyView::Project(project)),
        ) == StepView::<GetSnapshotView, SnapshotResponseView, Status>::Ask(
            GetSnapshotView::Fetching,
            QueryView::SnapshotAt {
                project: spec_captured(project.id, seconds as i64, text).project,
                timestamp: spec_captured(project.id, seconds as i64, text).timestamp,
            },
        ),
        spec_get_snapshot(
            GetSnapshotView::Fetching,
            Some(ReplyView::Snapshot(spec_captured(project.id, seconds as i64, text))),
        ) == StepView::<GetSnapshotView, SnapshotResponseView, Status>::Ask(
            GetSnapshotView::Decoding { name: None },
            QueryView::Decode { text },
        ),
        spec_get_snapshot(
            GetSnapshotView::Decoding { name: None },
            Some(ReplyView::Subtitles(read_back)),
        ) == StepView::<GetSnapshotView, SnapshotResponseView, Status>::Done(
            Ok(SnapshotResponseView { name: None, subtitles: read_back }),
        ),
{
}

/// The codec reads back from a text that it wrote the subtitles that it wrote down.
pub open spec fn spec_reads_back(
    encode: spec_fn(Seq<SubtitleView>) -> Seq<char>,
    decode: spec_fn(Seq<char>) -> Option<Seq<SubtitleView>>,
) -> bool {
    forall|subtitles: Seq<SubtitleView>|
        decode(#[trigger] encode(subtitles)) == Some(subtitles)
}

/// What the codec `decode` answers when it is asked to read `text`.
pub open spec fn spec_decoded(
    decode: spec_fn(Seq<char>) -> Option<Seq<SubtitleView>>,
    text: Seq<char>,
) -> Option<ReplyView> {
    match decode(text) {
        Some(subtitles) => Some(ReplyView::Subtitles(subtitles)),
        None => Some(ReplyView::Failed),
    }
}

/// With a codec that reads back what it wrote, a snapshot shows the subtitles that the
/// project had when it was captured: the same rows in the same order, whatever has been
/// done to the project's subtitles since.
///
/// The capture stores the text that the codec made of the rows that the store listed. The
/// retrieval of the snapshot that was stored has the codec read that text, and shows what
/// it reads, which is those rows. No step of a retrieval asks for the subtitles that the
/// project has now. That the codec in use reads back what it wrote is not shown here.
pub proof fn lemma_snapshot_shows_what_the_project_had(
    project: ProjectView,
    listed: Seq<SubtitleView>,
    seconds: u64,
    encode: spec_fn(Seq<SubtitleView>) -> Seq<char>,
    decode: spec_fn(Seq<char>) -> Option<Seq<SubtitleView>>,
    state: GetSnapshotView,
    reply: Option<ReplyView>,
)
    requires
        spec_reads_back(encode, decode),
        seconds <= i64::MAX,
    ensures
        ({
            &&& spec_create_snapshot(
                CreateSnapshotView::Listing { project: project.id },
                Some(ReplyView::Subtitles(listed)),
            ) matches StepView::Ask(encoding, QueryView::Encode { subtitles })
            &&& subtitles == listed
            &&& spec_create_snapshot(encoding, Some(ReplyView::Text(encode(subtitles))))
                matches StepView::Ask(timing, QueryView::Now)
            &&& spec_create_snapshot(timing, Some(ReplyView::Seconds(seconds)))
                matches StepView::Ask(_, QueryView::InsertSnapshot(stored))
            &&& stored == spec_captured(project.id, seconds as i64, encode(listed))
            &&& spec_get_snapshot(GetSnapshotView::Fetching, Some(ReplyView::Snapshot(stored)))
                matches StepView::Ask(decoding, QueryView::Decode { text })
            &&& spec_get_snapshot(decoding, spec_decoded(decode, text)) == StepView::<
                GetSnapshotView,
                SnapshotResponseView,
                Status,
            >::Done(Ok(SnapshotResponseView { name: None, subtitles: listed }))
        }),
        spec_get_snapshot(state, reply) matches StepView::Ask(_, asked) ==> !(asked
            is SubtitlesOf),
{
    assert(decode(encode(listed)) == Some(listed));
}

} // verus!
