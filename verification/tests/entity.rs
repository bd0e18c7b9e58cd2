use hash_graph::entity_query::{
    decode_link_data, EdgeDirection, EntityId, EntityLinkOrder, EntityQueryPath,
    EntityRecordPaths, EntityVertexId, KnowledgeGraphEdgeKind, Parameter, Timestamp,
};

#[test]
fn link_data_from_four_endpoint_columns() {
    let order = EntityLinkOrder { left_to_right: Some(1), right_to_left: None };
    let link = decode_link_data(Some(1), Some(2), Some(3), Some(4), order).expect("link");
    assert_eq!(link.left_entity_id, EntityId { owned_by_id: 1, entity_uuid: 2 });
    assert_eq!(link.right_entity_id, EntityId { owned_by_id: 3, entity_uuid: 4 });
    assert_eq!(link.order, order);
}

#[test]
fn no_link_data_without_endpoint_columns() {
    let order = EntityLinkOrder { left_to_right: None, right_to_left: None };
    assert_eq!(decode_link_data(None, None, None, None, order), None);
}

#[test]
fn vertex_id_encodes_to_cursor_parameters() {
    let v = EntityVertexId {
        base_id: EntityId { owned_by_id: 10, entity_uuid: 20 },
        revision_id: Timestamp { micros: 1_700_000_000_000_000 },
    };
    let p = v.encode();
    assert_eq!(p.owned_by_id, Parameter::Uuid(10));
    assert_eq!(p.entity_uuid, Parameter::Uuid(20));
    assert_eq!(p.revision_id, Parameter::Timestamp(Timestamp { micros: 1_700_000_000_000_000 }));
}

#[test]
fn vertex_id_decodes_from_columns() {
    let v = EntityVertexId::decode(1, 2, Timestamp { micros: -5 });
    assert_eq!(v.base_id, EntityId { owned_by_id: 1, entity_uuid: 2 });
    assert_eq!(v.revision_id, Timestamp { micros: -5 });
}

#[test]
fn record_paths_follow_outgoing_link_edges() {
    let p = EntityRecordPaths::default();
    assert_eq!(
        p.left_entity_uuid,
        EntityQueryPath::EntityEdge {
            edge_kind: KnowledgeGraphEdgeKind::HasLeftEntity,
            path: Box::new(EntityQueryPath::Uuid),
            direction: EdgeDirection::Outgoing,
        }
    );
    assert_eq!(
        p.left_owned_by_id,
        EntityQueryPath::EntityEdge {
            edge_kind: KnowledgeGraphEdgeKind::HasLeftEntity,
            path: Box::new(EntityQueryPath::OwnedById),
            direction: EdgeDirection::Outgoing,
        }
    );
    assert_eq!(
        p.right_entity_uuid,
        EntityQueryPath::EntityEdge {
            edge_kind: KnowledgeGraphEdgeKind::HasRightEntity,
            path: Box::new(EntityQueryPath::Uuid),
            direction: EdgeDirection::Outgoing,
        }
    );
    assert_eq!(
        p.right_owned_by_id,
        EntityQueryPath::EntityEdge {
            edge_kind: KnowledgeGraphEdgeKind::HasRightEntity,
            path: Box::new(EntityQueryPath::OwnedById),
            direction: EdgeDirection::Outgoing,
        }
    );
}

use hash_graph::entity_query::{
    vertex_id_sorting_selections, ColumnTransform, SortDirection, SortingSelection, TimeAxis,
};

#[test]
fn sorting_without_cursor_selects_distinct_columns() {
    let s = vertex_id_sorting_selections(TimeAxis::DecisionTime, None);
    assert_eq!(
        s.owned_by_id,
        SortingSelection::Distinct { path: EntityQueryPath::OwnedById, direction: SortDirection::Ascending }
    );
    assert_eq!(
        s.entity_uuid,
        SortingSelection::Distinct { path: EntityQueryPath::Uuid, direction: SortDirection::Ascending }
    );
    assert_eq!(
        s.revision_id,
        SortingSelection::Distinct {
            path: EntityQueryPath::DecisionTime,
            direction: SortDirection::Descending
        }
    );
}

#[test]
fn sorting_with_cursor_compares_against_parameters() {
    let v = EntityVertexId {
        base_id: EntityId { owned_by_id: 3, entity_uuid: 4 },
        revision_id: Timestamp { micros: 99 },
    };
    let p = v.encode();
    let s = vertex_id_sorting_selections(TimeAxis::TransactionTime, Some(&p));
    assert_eq!(
        s.owned_by_id,
        SortingSelection::Cursor {
            path: EntityQueryPath::OwnedById,
            transform: ColumnTransform::Identity,
            parameter: Parameter::Uuid(3),
            direction: SortDirection::Ascending,
        }
    );
    assert_eq!(
        s.entity_uuid,
        SortingSelection::Cursor {
            path: EntityQueryPath::Uuid,
            transform: ColumnTransform::Identity,
            parameter: Parameter::Uuid(4),
            direction: SortDirection::Ascending,
        }
    );
    assert_eq!(
        s.revision_id,
        SortingSelection::Cursor {
            path: EntityQueryPath::TransactionTime,
            transform: ColumnTransform::LowerBound,
            parameter: Parameter::Timestamp(Timestamp { micros: 99 }),
            direction: SortDirection::Descending,
        }
    );
}

use hash_graph::entity_query::{entity_record_selections, Selection, SharedEdgeKind};
use hash_graph::entity_type::{entity_type_record_selections, EntityTypeQueryPath};

#[test]
fn entity_record_selects_revision_columns_distinct() {
    let s = entity_record_selections(&EntityRecordPaths::default());
    assert_eq!(s.owned_by_id, Selection::Distinct { path: EntityQueryPath::OwnedById, direction: None });
    assert_eq!(s.entity_uuid, Selection::Distinct { path: EntityQueryPath::Uuid, direction: None });
    assert_eq!(
        s.transaction_time,
        Selection::Distinct { path: EntityQueryPath::TransactionTime, direction: None }
    );
    assert_eq!(
        s.decision_time,
        Selection::Distinct { path: EntityQueryPath::DecisionTime, direction: None }
    );
    assert_eq!(s.edition_id, Selection::Path(EntityQueryPath::EditionId));
    assert_eq!(
        s.type_id,
        Selection::Path(EntityQueryPath::EntityTypeEdge {
            edge_kind: SharedEdgeKind::IsOfType,
            path: EntityTypeQueryPath::VersionedUrl,
            inheritance_depth: Some(0),
        })
    );
    assert_eq!(s.properties, Selection::Path(EntityQueryPath::Properties));
    assert_eq!(s.draft, Selection::Path(EntityQueryPath::Draft));
    assert_eq!(s.archived, Selection::Path(EntityQueryPath::Archived));
    assert_eq!(s.created_by_id, Selection::Path(EntityQueryPath::CreatedById));
}

#[test]
fn entity_record_reads_link_endpoints_through_paths() {
    let paths = EntityRecordPaths::default();
    let s = entity_record_selections(&paths);
    assert_eq!(s.left_entity_uuid, Selection::Path(EntityRecordPaths::default().left_entity_uuid));
    assert_eq!(
        s.right_entity_owned_by_id,
        Selection::Path(EntityRecordPaths::default().right_owned_by_id)
    );
    assert_eq!(s.left_to_right_order, Selection::Path(EntityQueryPath::LeftToRightOrder));
    assert_eq!(s.right_to_left_order, Selection::Path(EntityQueryPath::RightToLeftOrder));
}

#[test]
fn entity_type_record_selections_table() {
    let s = entity_type_record_selections();
    assert_eq!(s.base_url, Selection::Distinct { path: EntityTypeQueryPath::BaseUrl, direction: None });
    assert_eq!(s.version, Selection::Distinct { path: EntityTypeQueryPath::Version, direction: None });
    assert_eq!(
        s.transaction_time,
        Selection::Distinct { path: EntityTypeQueryPath::TransactionTime, direction: None }
    );
    assert_eq!(s.schema, Selection::Path(EntityTypeQueryPath::Schema));
    assert_eq!(s.icon, Selection::Path(EntityTypeQueryPath::Icon));
    assert_eq!(s.label_property, Selection::Path(EntityTypeQueryPath::LabelProperty));
}

#[test]
fn query_path_duplicate_is_equal() {
    let p = EntityRecordPaths::default().right_entity_uuid;
    assert_eq!(p.duplicate(), p);
}
