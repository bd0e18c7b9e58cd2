use hash_graph::entity_query::Timestamp;
use hash_graph::entity_type_write::{
    inserted_metadata, relations_to_create, update_relations, updated_metadata,
    web_needing_permission, Classification, CreationAction, CreationError, CreationEvent,
    CreationStep, EntityTypeCreation, EntityTypeUpdate, InsertedEntityType,
    PartialEntityTypeMetadata, Relation, UpdateAction, UpdateError, UpdateEvent, UpdateStep,
};
use hash_graph::ontology_types::{BaseUrl, VersionedUrl};

const WEB_A: u128 = 7;
const WEB_B: u128 = 8;

fn owned(web: u128) -> Classification {
    Classification::Owned { owned_by_id: web }
}

fn external() -> Classification {
    Classification::External { fetched_at: Timestamp { micros: 5 } }
}

fn viewer(subject: u128) -> Relation {
    Relation::Other { relation: 1, subject, level: 0 }
}

fn at(micros: i64) -> Timestamp {
    Timestamp { micros }
}

/// Runs a creation, answering each action with the next event, and returns
/// the actions asked for and how the creation ended.
fn run(
    types: Vec<(u128, Classification)>,
    requested: &Vec<Relation>,
    with_embeddings: bool,
    events: &[CreationEvent],
) -> (Vec<CreationAction>, Option<Result<Vec<InsertedEntityType>, CreationError>>) {
    let mut actions = Vec::new();
    let mut step = EntityTypeCreation::new(types, requested, with_embeddings).begin();
    let mut events = events.iter();
    loop {
        match step {
            CreationStep::Continue(machine, action) => {
                actions.push(action);
                match events.next() {
                    Some(event) => step = machine.step(*event),
                    None => return (actions, None),
                }
            }
            CreationStep::Finished(result) => return (actions, Some(result)),
        }
    }
}

#[test]
fn owned_type_needs_its_web() {
    assert_eq!(web_needing_permission(owned(WEB_A)), Some(WEB_A));
    assert_eq!(web_needing_permission(external()), None);
}

#[test]
fn relations_cover_owners_and_requested_once() {
    let types = vec![(1, owned(WEB_A)), (2, external()), (1, owned(WEB_A))];
    let requested = vec![viewer(9), viewer(9)];
    let r = relations_to_create(&types, &requested);
    assert_eq!(
        r,
        vec![
            (1, Relation::Owner { web: WEB_A, level: 0 }),
            (1, viewer(9)),
            (2, viewer(9)),
        ]
    );
}

#[test]
fn relations_of_no_types_are_empty() {
    assert!(relations_to_create(&vec![], &vec![viewer(3)]).is_empty());
}

#[test]
fn update_appends_owner() {
    assert_eq!(
        update_relations(vec![viewer(4)], WEB_B),
        vec![viewer(4), Relation::Owner { web: WEB_B, level: 0 }]
    );
    assert_eq!(update_relations(vec![], WEB_B), vec![Relation::Owner { web: WEB_B, level: 0 }]);
}

#[test]
fn creation_runs_through_every_step() {
    let types = vec![(1, owned(WEB_A)), (2, external())];
    let (actions, end) = run(
        types,
        &vec![],
        true,
        &[
            CreationEvent::Granted,
            CreationEvent::MetadataCreated { ontology_id: 11, transaction_time: at(100) },
            CreationEvent::Succeeded,
            CreationEvent::MetadataExisted,
            CreationEvent::Succeeded,
            CreationEvent::Succeeded,
            CreationEvent::Succeeded,
            CreationEvent::Succeeded,
        ],
    );
    assert_eq!(
        actions,
        vec![
            CreationAction::CheckWebPermission { web: WEB_A },
            CreationAction::CreateMetadata { index: 0 },
            CreationAction::InsertEntityType { index: 0, ontology_id: 11 },
            CreationAction::CreateMetadata { index: 1 },
            CreationAction::InsertReferences { index: 0, ontology_id: 11 },
            CreationAction::CreateRelations,
            CreationAction::Commit,
            CreationAction::StartEmbeddings,
        ]
    );
    assert_eq!(
        end,
        Some(Ok(vec![InsertedEntityType { index: 0, ontology_id: 11, transaction_time: at(100) }]))
    );
}

#[test]
fn denied_permission_ends_before_relations() {
    let types = vec![(1, external()), (2, owned(WEB_B))];
    let (actions, end) = run(
        types,
        &vec![viewer(3)],
        false,
        &[CreationEvent::MetadataExisted, CreationEvent::Denied],
    );
    assert_eq!(
        actions,
        vec![
            CreationAction::CreateMetadata { index: 0 },
            CreationAction::CheckWebPermission { web: WEB_B },
        ]
    );
    assert_eq!(end, Some(Err(CreationError::PermissionDenied)));
}

#[test]
fn failed_permission_check_fails() {
    let (_, end) = run(vec![(1, owned(WEB_A))], &vec![], false, &[CreationEvent::Failed]);
    assert_eq!(end, Some(Err(CreationError::Failed)));
}

#[test]
fn failed_commit_asks_to_delete_relations() {
    let mut step = EntityTypeCreation::new(vec![(1, owned(WEB_A))], &vec![viewer(3)], false).begin();
    for event in [
        CreationEvent::Granted,
        CreationEvent::MetadataExisted,
        CreationEvent::Succeeded,
        CreationEvent::Failed,
    ] {
        step = match step {
            CreationStep::Continue(machine, _) => machine.step(event),
            CreationStep::Finished(_) => panic!("the creation ended too early"),
        };
    }
    match step {
        CreationStep::Continue(machine, action) => {
            assert_eq!(action, CreationAction::DeleteRelations);
            assert_eq!(
                machine.relations(),
                &vec![(1, Relation::Owner { web: WEB_A, level: 0 }), (1, viewer(3))]
            );
            match machine.step(CreationEvent::Failed) {
                CreationStep::Finished(end) => {
                    assert_eq!(end, Err(CreationError::CommitFailed { rollback_failed: true }))
                }
                CreationStep::Continue(..) => panic!("the creation must end after the rollback"),
            }
        }
        CreationStep::Finished(_) => panic!("a failed commit must delete the relations"),
    }
}

#[test]
fn empty_creation_writes_no_type() {
    let (actions, end) = run(vec![], &vec![], false, &[CreationEvent::Succeeded, CreationEvent::Succeeded]);
    assert_eq!(actions, vec![CreationAction::CreateRelations, CreationAction::Commit]);
    assert_eq!(end, Some(Ok(vec![])));
}

fn partial(name: &str, classification: Classification) -> PartialEntityTypeMetadata {
    PartialEntityTypeMetadata {
        record_id: VersionedUrl::new(BaseUrl::new(format!("https://example.com/{name}/")), 1),
        classification,
        label_property: None,
        icon: Some(name.to_string()),
    }
}

#[test]
fn metadata_of_inserted_types_in_order() {
    let partials = vec![partial("a", owned(WEB_A)), partial("b", external()), partial("c", owned(WEB_B))];
    let inserted = vec![
        InsertedEntityType { index: 0, ontology_id: 11, transaction_time: at(1) },
        InsertedEntityType { index: 2, ontology_id: 13, transaction_time: at(3) },
    ];
    let m = inserted_metadata(partials, &inserted, 42);
    assert_eq!(m.len(), 2);
    assert_eq!(m[0].icon.as_deref(), Some("a"));
    assert_eq!(m[0].transaction_time, at(1));
    assert_eq!(m[1].icon.as_deref(), Some("c"));
    assert_eq!(m[1].classification, owned(WEB_B));
    assert_eq!(m[1].created_by_id, 42);
}

#[test]
fn updated_metadata_is_owned_by_previous_owner() {
    let url = VersionedUrl::new(BaseUrl::new("https://example.com/t/".to_string()), 2);
    let m = updated_metadata(url, None, None, WEB_B, at(9), 42);
    assert_eq!(m.classification, owned(WEB_B));
    assert_eq!(m.record_id.version, 2);
    assert_eq!(m.transaction_time, at(9));
    assert_eq!(m.created_by_id, 42);
    assert_eq!(m.archived_by_id, None);
}

/// Runs an update, answering each action with the next event, and returns
/// the actions asked for and how the update ended.
fn run_update(
    requested: Vec<Relation>,
    events: &[UpdateEvent],
) -> (Vec<UpdateAction>, Vec<Relation>, Option<Result<u128, UpdateError>>) {
    let url = VersionedUrl::new(BaseUrl::new("https://example.com/t/".to_string()), 3);
    let mut step = EntityTypeUpdate::start(42, url, None, None, requested, false);
    let mut actions = Vec::new();
    let mut relations = Vec::new();
    let mut events = events.iter();
    loop {
        match step {
            UpdateStep::Continue(update, action) => {
                if action == UpdateAction::CheckUpdatePermission {
                    assert_eq!(update.previous_version().version, 2);
                }
                relations = update.relations().clone();
                actions.push(action);
                match events.next() {
                    Some(event) => step = update.step(*event),
                    None => return (actions, relations, None),
                }
            }
            UpdateStep::Finished(result) => {
                return (actions, relations, Some(result.map(|m| m.classification).map(|c| match c {
                    Classification::Owned { owned_by_id } => owned_by_id,
                    Classification::External { .. } => 0,
                })))
            }
        }
    }
}

fn versioned() -> UpdateEvent {
    UpdateEvent::OntologyIdUpdated { ontology_id: 11, owned_by_id: WEB_B, transaction_time: at(5) }
}

#[test]
fn update_runs_through_every_step() {
    let (actions, relations, end) = run_update(
        vec![viewer(4)],
        &[
            UpdateEvent::Granted,
            versioned(),
            UpdateEvent::Succeeded,
            UpdateEvent::Succeeded,
            UpdateEvent::Succeeded,
            UpdateEvent::Succeeded,
            UpdateEvent::Succeeded,
        ],
    );
    assert_eq!(
        actions,
        vec![
            UpdateAction::CheckUpdatePermission,
            UpdateAction::UpdateOntologyId,
            UpdateAction::CloseSchema,
            UpdateAction::InsertEntityType { ontology_id: 11 },
            UpdateAction::InsertReferences { ontology_id: 11 },
            UpdateAction::CreateRelations { ontology_id: 11 },
            UpdateAction::Commit,
        ]
    );
    assert_eq!(relations, vec![viewer(4), Relation::Owner { web: WEB_B, level: 0 }]);
    assert_eq!(end, Some(Ok(WEB_B)));
}

#[test]
fn update_denied_ends_at_once() {
    let (actions, _, end) = run_update(vec![], &[UpdateEvent::Denied]);
    assert_eq!(actions, vec![UpdateAction::CheckUpdatePermission]);
    assert_eq!(end, Some(Err(UpdateError::PermissionDenied)));
}

#[test]
fn update_failed_commit_deletes_relations() {
    let (actions, relations, end) = run_update(
        vec![],
        &[
            UpdateEvent::Granted,
            versioned(),
            UpdateEvent::Succeeded,
            UpdateEvent::Succeeded,
            UpdateEvent::Succeeded,
            UpdateEvent::Succeeded,
            UpdateEvent::Failed,
            UpdateEvent::Succeeded,
        ],
    );
    assert_eq!(actions.last(), Some(&UpdateAction::DeleteRelations { ontology_id: 11 }));
    assert_eq!(relations, vec![Relation::Owner { web: WEB_B, level: 0 }]);
    assert_eq!(end, Some(Err(UpdateError::CommitFailed { rollback_failed: false })));
}

#[test]
fn update_fails_when_closing_fails() {
    let (_, _, end) = run_update(vec![], &[UpdateEvent::Granted, versioned(), UpdateEvent::Failed]);
    assert_eq!(end, Some(Err(UpdateError::Failed)));
}
