use uptitle::events::{
    CreateEventData, DeleteEventData, EditEventData, SubtitleEvent, SubtitleEventType,
};
use uptitle::gateway::{Query, Reply, Step};
use uptitle::models::{NewSubtitle, Project, Subtitle};
use uptitle::status::Status;
use uptitle::subtitle::{
    apply_edit, create_subtitle, delete_subtitle, edit_subtitle, get_subtitle_list,
    CreateSubtitle, DeleteSubtitle, EditSubtitle, GetSubtitleList, SubtitleCreated,
    SubtitleCreationInfo, SubtitleEditInfo,
};

fn project(id: i32) -> Project {
    Project { id, workspace: 1, name: "Talk".to_string(), video: Some(4) }
}

fn subtitle(id: i32, project: i32, start: i32, end: i32, text: &str) -> Subtitle {
    Subtitle { id, project, start, end, text: text.to_string() }
}

fn creation() -> SubtitleCreationInfo {
    SubtitleCreationInfo { start: 1500, end: 2750, text: "Hello, world".to_string() }
}

fn edit(start: Option<i32>, end: Option<i32>, text: Option<&str>) -> SubtitleEditInfo {
    SubtitleEditInfo { start, end, text: text.map(|text| text.to_string()) }
}

#[test]
fn list_looks_the_project_up_first() {
    assert_eq!(
        get_subtitle_list(GetSubtitleList::Requested { id: 5, user: 2 }, None),
        Step::Ask(GetSubtitleList::Finding, Query::ProjectOf { user: 2, project: 5 })
    );
}

#[test]
fn list_of_a_project_that_is_not_the_users_is_not_found() {
    assert_eq!(
        get_subtitle_list(GetSubtitleList::Finding, Some(Reply::Failed)),
        Step::Done(Err(Status::NotFound))
    );
}

#[test]
fn list_gives_the_rows_as_the_store_orders_them() {
    assert_eq!(
        get_subtitle_list(GetSubtitleList::Finding, Some(Reply::Project(project(5)))),
        Step::Ask(GetSubtitleList::Listing, Query::SubtitlesOf { project: 5 })
    );
    let rows = vec![subtitle(2, 5, 0, 10, "a"), subtitle(1, 5, 10, 20, "b")];
    assert_eq!(
        get_subtitle_list(GetSubtitleList::Listing, Some(Reply::Subtitles(rows.clone()))),
        Step::Done(Ok(rows))
    );
    assert_eq!(
        get_subtitle_list(GetSubtitleList::Listing, Some(Reply::Failed)),
        Step::Done(Err(Status::InternalServerError))
    );
}

#[test]
fn creation_looks_the_project_up_first() {
    assert_eq!(
        create_subtitle(CreateSubtitle::Requested { id: 5, user: 2, info: creation() }, None),
        Step::Ask(
            CreateSubtitle::Finding { info: creation() },
            Query::ProjectOf { user: 2, project: 5 }
        )
    );
}

#[test]
fn creation_in_a_project_that_is_not_the_users_is_not_found() {
    assert_eq!(
        create_subtitle(CreateSubtitle::Finding { info: creation() }, Some(Reply::Failed)),
        Step::Done(Err(Status::NotFound))
    );
    assert_eq!(
        create_subtitle(CreateSubtitle::Finding { info: creation() }, None),
        Step::Done(Err(Status::NotFound))
    );
}

#[test]
fn creation_stores_what_the_client_sent() {
    let row =
        NewSubtitle { project: 5, start: 1500, end: 2750, text: "Hello, world".to_string() };
    assert_eq!(
        create_subtitle(
            CreateSubtitle::Finding { info: creation() },
            Some(Reply::Project(project(5)))
        ),
        Step::Ask(CreateSubtitle::Inserting { project: 5 }, Query::InsertSubtitle(row))
    );
}

#[test]
fn creation_reads_the_subtitle_back_by_its_id() {
    assert_eq!(
        create_subtitle(CreateSubtitle::Inserting { project: 5 }, Some(Reply::Inserted(31))),
        Step::Ask(
            CreateSubtitle::Reading { id: 31, project: 5 },
            Query::SubtitleOf { id: 31, project: 5 }
        )
    );
}

#[test]
fn created_event_carries_what_was_read_back() {
    assert_eq!(
        create_subtitle(
            CreateSubtitle::Reading { id: 31, project: 5 },
            Some(Reply::Subtitle(subtitle(31, 5, 1500, 2750, "Hello, world")))
        ),
        Step::Done(Ok(SubtitleCreated {
            body: "31".to_string(),
            event: SubtitleEvent {
                info: SubtitleEventType::SubtitleCreate(CreateEventData {
                    subtitle: 31,
                    text: "Hello, world".to_string(),
                    start: 1500,
                    end: 2750,
                }),
                project: 5,
            },
        }))
    );
}

#[test]
fn created_event_follows_the_store_where_it_holds_something_else() {
    let step = create_subtitle(
        CreateSubtitle::Reading { id: 31, project: 5 },
        Some(Reply::Subtitle(subtitle(31, 5, 1, 2, "trimmed"))),
    );
    match step {
        Step::Done(Ok(created)) => {
            assert_eq!(
                created.event.info,
                SubtitleEventType::SubtitleCreate(CreateEventData {
                    subtitle: 31,
                    text: "trimmed".to_string(),
                    start: 1,
                    end: 2,
                })
            );
        }
        other => panic!("unexpected step {:?}", other),
    }
}

#[test]
fn creation_that_the_store_refuses_tells_nobody() {
    assert_eq!(
        create_subtitle(CreateSubtitle::Inserting { project: 5 }, Some(Reply::Failed)),
        Step::Done(Err(Status::InternalServerError))
    );
}

#[test]
fn creation_that_cannot_be_read_back_tells_nobody() {
    assert_eq!(
        create_subtitle(CreateSubtitle::Reading { id: 31, project: 5 }, Some(Reply::Failed)),
        Step::Done(Err(Status::InternalServerError))
    );
    assert_eq!(
        create_subtitle(CreateSubtitle::Reading { id: 31, project: 5 }, Some(Reply::Inserted(31))),
        Step::Done(Err(Status::InternalServerError))
    );
    assert_eq!(
        create_subtitle(CreateSubtitle::Reading { id: 31, project: 5 }, None),
        Step::Done(Err(Status::InternalServerError))
    );
}

#[test]
fn creation_end_to_end() {
    let mut step = create_subtitle(CreateSubtitle::Requested { id: 5, user: 2, info: creation() }, None);
    let mut store: Vec<Subtitle> = Vec::new();
    let mut asked = Vec::new();
    let created = loop {
        match step {
            Step::Ask(state, query) => {
                asked.push(format!("{:?}", query));
                let reply = match query {
                    Query::ProjectOf { user: 2, project: 5 } => Reply::Project(project(5)),
                    Query::InsertSubtitle(row) => {
                        store.push(Subtitle {
                            id: 77,
                            project: row.project,
                            start: row.start,
                            end: row.end,
                            text: row.text,
                        });
                        Reply::Inserted(77)
                    }
                    Query::SubtitleOf { id, project } => store
                        .iter()
                        .find(|row| row.id == id && row.project == project)
                        .map(|row| Reply::Subtitle(row.clone()))
                        .unwrap_or(Reply::Failed),
                    _ => Reply::Failed,
                };
                step = create_subtitle(state, Some(reply));
            }
            Step::Done(end) => break end.unwrap(),
        }
    };
    assert_eq!(asked.len(), 3);
    assert!(asked[2].starts_with("SubtitleOf"));
    let stored = &store[0];
    assert_eq!(created.body, "77");
    assert_eq!(created.event.project, stored.project);
    match created.event.info {
        SubtitleEventType::SubtitleCreate(data) => {
            assert_eq!(data.subtitle, 77);
            assert_eq!(data.start, stored.start);
            assert_eq!(data.end, stored.end);
            assert_eq!(data.text, stored.text);
        }
        other => panic!("unexpected event {:?}", other),
    }
}

#[test]
fn deletion_asks_for_the_project_that_was_found() {
    assert_eq!(
        delete_subtitle(DeleteSubtitle::Requested { project_id: 5, subtitle_id: 9, user: 2 }, None),
        Step::Ask(
            DeleteSubtitle::Finding { subtitle_id: 9 },
            Query::ProjectOf { user: 2, project: 5 }
        )
    );
    assert_eq!(
        delete_subtitle(DeleteSubtitle::Finding { subtitle_id: 9 }, Some(Reply::Project(project(5)))),
        Step::Ask(
            DeleteSubtitle::Deleting { subtitle_id: 9, project: 5 },
            Query::DeleteSubtitle { id: 9, project: 5 }
        )
    );
}

#[test]
fn deletion_in_a_project_that_is_not_the_users_is_not_found() {
    assert_eq!(
        delete_subtitle(DeleteSubtitle::Finding { subtitle_id: 9 }, Some(Reply::Failed)),
        Step::Done(Err(Status::NotFound))
    );
}

#[test]
fn deletion_of_nothing_is_not_found() {
    assert_eq!(
        delete_subtitle(
            DeleteSubtitle::Deleting { subtitle_id: 9, project: 5 },
            Some(Reply::Affected(0))
        ),
        Step::Done(Err(Status::NotFound))
    );
}

#[test]
fn deletion_tells_the_bus() {
    let told = SubtitleEvent {
        info: SubtitleEventType::SubtitleDelete(DeleteEventData { subtitle: 9 }),
        project: 5,
    };
    assert_eq!(
        delete_subtitle(
            DeleteSubtitle::Deleting { subtitle_id: 9, project: 5 },
            Some(Reply::Affected(1))
        ),
        Step::Done(Ok(told.clone()))
    );
    assert_eq!(
        delete_subtitle(
            DeleteSubtitle::Deleting { subtitle_id: 9, project: 5 },
            Some(Reply::Affected(usize::MAX))
        ),
        Step::Done(Ok(told))
    );
}

#[test]
fn deletion_that_the_store_fails_is_an_internal_error() {
    assert_eq!(
        delete_subtitle(DeleteSubtitle::Deleting { subtitle_id: 9, project: 5 }, Some(Reply::Failed)),
        Step::Done(Err(Status::InternalServerError))
    );
}

#[test]
fn edit_sets_the_fields_that_it_names() {
    let before = subtitle(9, 5, 100, 200, "old");
    assert_eq!(apply_edit(before.clone(), &edit(None, None, None)), before);
    assert_eq!(
        apply_edit(before.clone(), &edit(Some(150), None, None)),
        subtitle(9, 5, 150, 200, "old")
    );
    assert_eq!(
        apply_edit(before.clone(), &edit(None, Some(250), None)),
        subtitle(9, 5, 100, 250, "old")
    );
    assert_eq!(
        apply_edit(before.clone(), &edit(None, None, Some("new"))),
        subtitle(9, 5, 100, 200, "new")
    );
    assert_eq!(
        apply_edit(before, &edit(Some(1), Some(2), Some(""))),
        subtitle(9, 5, 1, 2, "")
    );
}

#[test]
fn edit_reads_the_subtitle_of_the_project_that_was_found() {
    let info = edit(Some(150), None, None);
    assert_eq!(
        edit_subtitle(
            EditSubtitle::Requested { project_id: 5, subtitle_id: 9, info: info.clone(), user: 2 },
            None
        ),
        Step::Ask(
            EditSubtitle::FindingProject { subtitle_id: 9, info: info.clone() },
            Query::ProjectOf { user: 2, project: 5 }
        )
    );
    assert_eq!(
        edit_subtitle(
            EditSubtitle::FindingProject { subtitle_id: 9, info: info.clone() },
            Some(Reply::Project(project(5)))
        ),
        Step::Ask(
            EditSubtitle::FindingSubtitle { subtitle_id: 9, project: 5, info },
            Query::SubtitleOf { id: 9, project: 5 }
        )
    );
}

#[test]
fn edit_writes_all_three_fields_back() {
    let info = edit(Some(150), None, None);
    assert_eq!(
        edit_subtitle(
            EditSubtitle::FindingSubtitle { subtitle_id: 9, project: 5, info: info.clone() },
            Some(Reply::Subtitle(subtitle(9, 5, 100, 200, "old")))
        ),
        Step::Ask(
            EditSubtitle::Updating { subtitle_id: 9, project: 5, info },
            Query::UpdateSubtitle {
                id: 9,
                project: 5,
                start: 150,
                end: 200,
                text: "old".to_string(),
            }
        )
    );
}

#[test]
fn edit_of_what_is_not_there_is_not_found() {
    let info = edit(None, None, Some("x"));
    assert_eq!(
        edit_subtitle(
            EditSubtitle::FindingProject { subtitle_id: 9, info: info.clone() },
            Some(Reply::Failed)
        ),
        Step::Done(Err(Status::NotFound))
    );
    assert_eq!(
        edit_subtitle(
            EditSubtitle::FindingSubtitle { subtitle_id: 9, project: 5, info: info.clone() },
            Some(Reply::Failed)
        ),
        Step::Done(Err(Status::NotFound))
    );
    assert_eq!(
        edit_subtitle(
            EditSubtitle::Updating { subtitle_id: 9, project: 5, info },
            Some(Reply::Affected(0))
        ),
        Step::Done(Err(Status::NotFound))
    );
}

#[test]
fn edit_tells_the_bus_the_fields_that_were_named() {
    let info = edit(Some(150), None, Some("new"));
    assert_eq!(
        edit_subtitle(
            EditSubtitle::Updating { subtitle_id: 9, project: 5, info },
            Some(Reply::Affected(1))
        ),
        Step::Done(Ok(SubtitleEvent {
            info: SubtitleEventType::SubtitleEdit(EditEventData {
                subtitle: 9,
                text: Some("new".to_string()),
                start: Some(150),
                end: None,
            }),
            project: 5,
        }))
    );
}

#[test]
fn edit_that_the_store_fails_is_an_internal_error() {
    assert_eq!(
        edit_subtitle(
            EditSubtitle::Updating { subtitle_id: 9, project: 5, info: edit(None, None, None) },
            Some(Reply::Failed)
        ),
        Step::Done(Err(Status::InternalServerError))
    );
}
