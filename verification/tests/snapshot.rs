use uptitle::gateway::{Query, Reply, Step};
use uptitle::models::{Project, Snapshot, Subtitle};
use uptitle::snapshot::{
    create_snapshot, edit_snapshot, get_snapshot, list_snapshots, snapshot_infos, timestamp,
    CreateSnapshot, EditSnapshot, GetSnapshot, ListSnapshots, SnapshotInfo, SnapshotPatchInfo,
    SnapshotResponse,
};
use uptitle::status::Status;

fn project(id: i32) -> Project {
    Project { id, workspace: 1, name: "Talk".to_string(), video: Some(4) }
}

fn subtitle(id: i32, start: i32, text: &str) -> Subtitle {
    Subtitle { id, project: 5, start, end: start + 10, text: text.to_string() }
}

/// A codec for the tests: one line for each subtitle, fields parted by tabs.
fn encode(subtitles: &[Subtitle]) -> String {
    subtitles
        .iter()
        .map(|s| format!("{}\t{}\t{}\t{}\t{}\n", s.id, s.project, s.start, s.end, s.text))
        .collect()
}

fn decode(text: &str) -> Vec<Subtitle> {
    text.lines()
        .map(|line| {
            let fields: Vec<&str> = line.splitn(5, '\t').collect();
            Subtitle {
                id: fields[0].parse().unwrap(),
                project: fields[1].parse().unwrap(),
                start: fields[2].parse().unwrap(),
                end: fields[3].parse().unwrap(),
                text: fields[4].to_string(),
            }
        })
        .collect()
}

#[test]
fn timestamp_keeps_the_seconds() {
    assert_eq!(timestamp(0), Some(0));
    assert_eq!(timestamp(1_700_000_000), Some(1_700_000_000));
    assert_eq!(timestamp(i64::MAX as u64), Some(i64::MAX));
}

#[test]
fn timestamp_has_nothing_for_seconds_that_do_not_fit() {
    assert_eq!(timestamp(i64::MAX as u64 + 1), None);
    assert_eq!(timestamp(u64::MAX), None);
    assert_eq!(
        create_snapshot(
            CreateSnapshot::Timing { project: 5, subtitles: "[]".to_string() },
            Some(Reply::Seconds(u64::MAX))
        ),
        Step::Done(Err(Status::InternalServerError))
    );
}

#[test]
fn capture_walks_through_its_questions() {
    assert_eq!(
        create_snapshot(CreateSnapshot::Requested { project_id: 5, user: 2 }, None),
        Step::Ask(CreateSnapshot::Finding, Query::ProjectOf { user: 2, project: 5 })
    );
    assert_eq!(
        create_snapshot(CreateSnapshot::Finding, Some(Reply::Project(project(5)))),
        Step::Ask(CreateSnapshot::Listing { project: 5 }, Query::SubtitlesOf { project: 5 })
    );
    let rows = vec![subtitle(1, 0, "a"), subtitle(2, 20, "b")];
    assert_eq!(
        create_snapshot(CreateSnapshot::Listing { project: 5 }, Some(Reply::Subtitles(rows.clone()))),
        Step::Ask(CreateSnapshot::Encoding { project: 5 }, Query::Encode { subtitles: rows })
    );
    assert_eq!(
        create_snapshot(CreateSnapshot::Encoding { project: 5 }, Some(Reply::Text("[]".to_string()))),
        Step::Ask(
            CreateSnapshot::Timing { project: 5, subtitles: "[]".to_string() },
            Query::Now
        )
    );
    assert_eq!(
        create_snapshot(
            CreateSnapshot::Timing { project: 5, subtitles: "[]".to_string() },
            Some(Reply::Seconds(1_700_000_000))
        ),
        Step::Ask(
            CreateSnapshot::Inserting,
            Query::InsertSnapshot(Snapshot {
                project: 5,
                timestamp: 1_700_000_000,
                name: None,
                subtitles: "[]".to_string(),
            })
        )
    );
    assert_eq!(
        create_snapshot(CreateSnapshot::Inserting, Some(Reply::Affected(1))),
        Step::Done(Ok("done".to_string()))
    );
}

#[test]
fn capture_of_a_project_that_is_not_the_users_is_not_found() {
    assert_eq!(
        create_snapshot(CreateSnapshot::Finding, Some(Reply::Failed)),
        Step::Done(Err(Status::NotFound))
    );
}

#[test]
fn capture_fails_where_a_collaborator_fails() {
    for state in [
        CreateSnapshot::Listing { project: 5 },
        CreateSnapshot::Encoding { project: 5 },
        CreateSnapshot::Timing { project: 5, subtitles: String::new() },
        CreateSnapshot::Inserting,
    ] {
        assert_eq!(
            create_snapshot(state, Some(Reply::Failed)),
            Step::Done(Err(Status::InternalServerError))
        );
    }
}

#[test]
fn snapshot_infos_keep_the_order_of_the_rows() {
    assert_eq!(snapshot_infos(Vec::new()), Vec::new());
    assert_eq!(
        snapshot_infos(vec![(5, 300, None), (5, 200, Some("second".to_string())), (5, 100, None)]),
        vec![
            SnapshotInfo { project: 5, timestamp: 300, name: None },
            SnapshotInfo { project: 5, timestamp: 200, name: Some("second".to_string()) },
            SnapshotInfo { project: 5, timestamp: 100, name: None },
        ]
    );
}

#[test]
fn list_asks_for_the_snapshots_of_the_project_that_was_found() {
    assert_eq!(
        list_snapshots(ListSnapshots::Requested { project_id: 5, user: 2 }, None),
        Step::Ask(ListSnapshots::Finding, Query::ProjectOf { user: 2, project: 5 })
    );
    assert_eq!(
        list_snapshots(ListSnapshots::Finding, Some(Reply::Project(project(5)))),
        Step::Ask(ListSnapshots::Listing, Query::SnapshotsOf { project: 5 })
    );
    assert_eq!(
        list_snapshots(ListSnapshots::Finding, Some(Reply::Failed)),
        Step::Done(Err(Status::NotFound))
    );
}

#[test]
fn list_shows_what_the_store_listed() {
    assert_eq!(
        list_snapshots(
            ListSnapshots::Listing,
            Some(Reply::SnapshotHeads(vec![(5, 9, Some("x".to_string())), (5, 3, None)]))
        ),
        Step::Done(Ok(vec![
            SnapshotInfo { project: 5, timestamp: 9, name: Some("x".to_string()) },
            SnapshotInfo { project: 5, timestamp: 3, name: None },
        ]))
    );
    assert_eq!(
        list_snapshots(ListSnapshots::Listing, Some(Reply::Failed)),
        Step::Done(Err(Status::InternalServerError))
    );
}

#[test]
fn retrieval_walks_through_its_questions() {
    assert_eq!(
        get_snapshot(GetSnapshot::Requested { project_id: 5, timestamp: 100, user: 2 }, None),
        Step::Ask(GetSnapshot::Finding { timestamp: 100 }, Query::ProjectOf { user: 2, project: 5 })
    );
    assert_eq!(
        get_snapshot(GetSnapshot::Finding { timestamp: 100 }, Some(Reply::Project(project(5)))),
        Step::Ask(GetSnapshot::Fetching, Query::SnapshotAt { project: 5, timestamp: 100 })
    );
    let stored = Snapshot {
        project: 5,
        timestamp: 100,
        name: Some("first cut".to_string()),
        subtitles: "text".to_string(),
    };
    assert_eq!(
        get_snapshot(GetSnapshot::Fetching, Some(Reply::Snapshot(stored))),
        Step::Ask(
            GetSnapshot::Decoding { name: Some("first cut".to_string()) },
            Query::Decode { text: "text".to_string() }
        )
    );
    let rows = vec![subtitle(1, 0, "a")];
    assert_eq!(
        get_snapshot(
            GetSnapshot::Decoding { name: Some("first cut".to_string()) },
            Some(Reply::Subtitles(rows.clone()))
        ),
        Step::Done(Ok(SnapshotResponse { name: Some("first cut".to_string()), subtitles: rows }))
    );
}

#[test]
fn snapshot_that_is_not_there_is_not_found() {
    assert_eq!(
        get_snapshot(GetSnapshot::Finding { timestamp: 100 }, Some(Reply::Failed)),
        Step::Done(Err(Status::NotFound))
    );
    assert_eq!(
        get_snapshot(GetSnapshot::Fetching, Some(Reply::Failed)),
        Step::Done(Err(Status::NotFound))
    );
}

#[test]
fn snapshot_that_cannot_be_read_is_an_internal_error() {
    assert_eq!(
        get_snapshot(GetSnapshot::Decoding { name: None }, Some(Reply::Failed)),
        Step::Done(Err(Status::InternalServerError))
    );
}

#[test]
fn what_was_captured_is_read_back() {
    let live = vec![subtitle(3, 0, "one"), subtitle(1, 15, "two\twith a tab"), subtitle(2, 40, "")];
    let mut store: Vec<Snapshot> = Vec::new();

    let mut step = create_snapshot(CreateSnapshot::Requested { project_id: 5, user: 2 }, None);
    let done = loop {
        match step {
            Step::Ask(state, query) => {
                let reply = match query {
                    Query::ProjectOf { .. } => Reply::Project(project(5)),
                    Query::SubtitlesOf { project: 5 } => Reply::Subtitles(live.clone()),
                    Query::Encode { subtitles } => Reply::Text(encode(&subtitles)),
                    Query::Now => Reply::Seconds(1234),
                    Query::InsertSnapshot(snapshot) => {
                        store.push(snapshot);
                        Reply::Affected(1)
                    }
                    _ => Reply::Failed,
                };
                step = create_snapshot(state, Some(reply));
            }
            Step::Done(end) => break end,
        }
    };
    assert_eq!(done, Ok("done".to_string()));
    assert_eq!(store.len(), 1);
    assert_eq!(store[0].project, 5);
    assert_eq!(store[0].timestamp, 1234);
    assert_eq!(store[0].name, None);

    let mut step =
        get_snapshot(GetSnapshot::Requested { project_id: 5, timestamp: 1234, user: 2 }, None);
    let shown = loop {
        match step {
            Step::Ask(state, query) => {
                let reply = match query {
                    Query::ProjectOf { .. } => Reply::Project(project(5)),
                    Query::SnapshotAt { project, timestamp } => store
                        .iter()
                        .find(|s| s.project == project && s.timestamp == timestamp)
                        .map(|s| Reply::Snapshot(s.clone()))
                        .unwrap_or(Reply::Failed),
                    Query::Decode { text } => Reply::Subtitles(decode(&text)),
                    _ => Reply::Failed,
                };
                step = get_snapshot(state, Some(reply));
            }
            Step::Done(end) => break end,
        }
    };
    assert_eq!(shown, Ok(SnapshotResponse { name: None, subtitles: live }));
}

#[test]
fn rename_writes_the_label_only() {
    let info = SnapshotPatchInfo { name: "final".to_string() };
    assert_eq!(
        edit_snapshot(
            EditSnapshot::Requested { project_id: 5, timestamp: 100, info: info.clone(), user: 2 },
            None
        ),
        Step::Ask(
            EditSnapshot::Finding { timestamp: 100, info: info.clone() },
            Query::ProjectOf { user: 2, project: 5 }
        )
    );
    assert_eq!(
        edit_snapshot(
            EditSnapshot::Finding { timestamp: 100, info },
            Some(Reply::Project(project(5)))
        ),
        Step::Ask(
            EditSnapshot::Renaming,
            Query::RenameSnapshot { project: 5, timestamp: 100, name: "final".to_string() }
        )
    );
}

#[test]
fn rename_succeeds_also_where_no_snapshot_matches() {
    assert_eq!(edit_snapshot(EditSnapshot::Renaming, Some(Reply::Affected(1))), Step::Done(Ok(())));
    assert_eq!(edit_snapshot(EditSnapshot::Renaming, Some(Reply::Affected(0))), Step::Done(Ok(())));
}

#[test]
fn rename_fails_where_the_project_or_the_store_fails() {
    let info = SnapshotPatchInfo { name: "final".to_string() };
    assert_eq!(
        edit_snapshot(EditSnapshot::Finding { timestamp: 100, info }, Some(Reply::Failed)),
        Step::Done(Err(Status::NotFound))
    );
    assert_eq!(
        edit_snapshot(EditSnapshot::Renaming, Some(Reply::Failed)),
        Step::Done(Err(Status::InternalServerError))
    );
}
