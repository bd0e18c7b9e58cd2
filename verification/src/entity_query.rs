//! Entity records as read from the store: the column indices of a compiled
//! entity query, the cursor parameters of a vertex id, and the assembly of an
//! entity's link data from the four optional endpoint columns.
use vstd::prelude::*;
use crate::entity_type::EntityTypeQueryPath;

verus! {

/// Column indices of the three parts of an entity vertex id in a result row.
#[derive(Debug, Copy, Clone)]
pub struct EntityVertexIdIndices {
    pub owned_by_id: usize,
    pub entity_uuid: usize,
    pub revision_id: usize,
}

/// Column indices of every field of an entity record in a result row.
#[derive(Debug, Copy, Clone)]
pub struct EntityRecordRowIndices {
    pub owned_by_id: usize,
    pub entity_uuid: usize,
    pub transaction_time: usize,
    pub decision_time: usize,
    pub edition_id: usize,
    pub type_id: usize,
    pub properties: usize,
    pub left_entity_uuid: usize,
    pub left_entity_owned_by_id: usize,
    pub right_entity_uuid: usize,
    pub right_entity_owned_by_id: usize,
    pub left_to_right_order: usize,
    pub right_to_left_order: usize,
    pub created_by_id: usize,
    pub created_at_transaction_time: usize,
    pub created_at_decision_time: usize,
    pub edition_created_by_id: usize,
    pub archived: usize,
    pub draft: usize,
}

/// A point in time, in microseconds since the Unix epoch.
#[derive(Debug, Copy, Clone, PartialEq, Eq, Structural)]
pub struct Timestamp {
    pub micros: i64,
}

/// The id of an entity: the web that owns it and its UUID, both held as
/// 128-bit values.
#[derive(Debug, Copy, Clone, PartialEq, Eq, Structural)]
pub struct EntityId {
    pub owned_by_id: u128,
    pub entity_uuid: u128,
}

/// An entity id together with the revision it names.
#[derive(Debug, Copy, Clone, PartialEq, Eq, Structural)]
pub struct EntityVertexId {
    pub base_id: EntityId,
    pub revision_id: Timestamp,
}

/// A query parameter bound in a compiled statement.
#[derive(Debug, Copy, Clone, PartialEq, Eq, Structural)]
pub enum Parameter {
    Uuid(u128),
    Timestamp(Timestamp),
}

/// The parameters with which a cursor on an entity vertex id is compiled.
#[derive(Debug, Copy, Clone)]
pub struct EntityVertexIdCursorParameters {
    pub owned_by_id: Parameter,
    pub entity_uuid: Parameter,
    pub revision_id: Parameter,
}

impl EntityVertexId {
    /// The cursor parameters of this vertex id: the two UUIDs and the
    /// revision timestamp.
    pub fn encode(&self) -> (p: EntityVertexIdCursorParameters)
        ensures
            p.owned_by_id == Parameter::Uuid(self.base_id.owned_by_id),
            p.entity_uuid == Parameter::Uuid(self.base_id.entity_uuid),
            p.revision_id == Parameter::Timestamp(self.revision_id),
    {
        EntityVertexIdCursorParameters {
            owned_by_id: Parameter::Uuid(self.base_id.owned_by_id),
            entity_uuid: Parameter::Uuid(self.base_id.entity_uuid),
            revision_id: Parameter::Timestamp(self.revision_id),
        }
    }

    /// Decodes a vertex id from its row columns: the owning web, the entity
    /// UUID, and the inclusive start of the revision's time interval.
    pub fn decode(owned_by_id: u128, entity_uuid: u128, revision_start: Timestamp) -> (v: Self)
        ensures
            v.base_id.owned_by_id == owned_by_id,
            v.base_id.entity_uuid == entity_uuid,
            v.revision_id == revision_start,
    {
        EntityVertexId { base_id: EntityId { owned_by_id, entity_uuid }, revision_id: revision_start }
    }
}

/// The order positions of a link entity on its two ends.
#[derive(Debug, Copy, Clone, PartialEq, Eq, Structural)]
pub struct EntityLinkOrder {
    pub left_to_right: Option<i32>,
    pub right_to_left: Option<i32>,
}

/// The endpoints and order of a link entity.
#[derive(Debug, Copy, Clone, PartialEq, Eq, Structural)]
pub struct LinkData {
    pub left_entity_id: EntityId,
    pub right_entity_id: EntityId,
    pub order: EntityLinkOrder,
}

/// The four endpoint columns of an entity row are consistent: they are either
/// all present (a link entity) or all absent (an ordinary entity).
pub open spec fn link_columns_consistent(
    left_owned_by_id: Option<u128>,
    left_entity_uuid: Option<u128>,
    right_owned_by_id: Option<u128>,
    right_entity_uuid: Option<u128>,
) -> bool {
    ||| (left_owned_by_id is Some && left_entity_uuid is Some && right_owned_by_id is Some
        && right_entity_uuid is Some)
    ||| (left_owned_by_id is None && left_entity_uuid is None && right_owned_by_id is None
        && right_entity_uuid is None)
}

/// Assembles the link data of an entity row from its endpoint columns: a link
/// entity when all four are present, none when all four are absent.  A row
/// with only some of them cannot come from the store.
pub fn decode_link_data(
    left_owned_by_id: Option<u128>,
    left_entity_uuid: Option<u128>,
    right_owned_by_id: Option<u128>,
    right_entity_uuid: Option<u128>,
    order: EntityLinkOrder,
) -> (link: Option<LinkData>)
    requires
        link_columns_consistent(
            left_owned_by_id,
            left_entity_uuid,
            right_owned_by_id,
            right_entity_uuid,
        ),
    ensures
        link is Some <==> left_owned_by_id is Some,
        link matches Some(l) ==> {
            &&& l.left_entity_id == (EntityId {
                owned_by_id: left_owned_by_id->0,
                entity_uuid: left_entity_uuid->0,
            })
            &&& l.right_entity_id == (EntityId {
                owned_by_id: right_owned_by_id->0,
                entity_uuid: right_entity_uuid->0,
            })
            &&& l.order == order
        },
{
    match (left_owned_by_id, left_entity_uuid, right_owned_by_id, right_entity_uuid) {
        (Some(left_owned_by_id), Some(left_entity_uuid), Some(right_owned_by_id), Some(right_entity_uuid)) => {
            Some(
                LinkData {
                    left_entity_id: EntityId {
                        owned_by_id: left_owned_by_id,
                        entity_uuid: left_entity_uuid,
                    },
                    right_entity_id: EntityId {
                        owned_by_id: right_owned_by_id,
                        entity_uuid: right_entity_uuid,
                    },
                    order,
                },
            )
        },
        _ => None,
    }
}

/// The direction in which an edge is followed.
#[derive(Debug, Copy, Clone, PartialEq, Eq, Structural)]
pub enum EdgeDirection {
    Incoming,
    Outgoing,
}

/// The edges between entities in the knowledge graph.
#[derive(Debug, Copy, Clone, PartialEq, Eq, Structural)]
pub enum KnowledgeGraphEdgeKind {
    HasLeftEntity,
    HasRightEntity,
}

/// The edges from knowledge-graph elements to ontology types.
#[derive(Debug, Copy, Clone, PartialEq, Eq, Structural)]
pub enum SharedEdgeKind {
    IsOfType,
}

/// The entity query paths that entity records are read through.
#[derive(Debug, PartialEq, Eq)]
pub enum EntityQueryPath {
    Uuid,
    OwnedById,
    TransactionTime,
    DecisionTime,
    EditionId,
    EntityTypeEdge {
        edge_kind: SharedEdgeKind,
        path: EntityTypeQueryPath,
        inheritance_depth: Option<u32>,
    },
    Properties,
    LeftToRightOrder,
    RightToLeftOrder,
    CreatedById,
    CreatedAtTransactionTime,
    CreatedAtDecisionTime,
    EditionCreatedById,
    Archived,
    Draft,
    EntityEdge {
        edge_kind: KnowledgeGraphEdgeKind,
        path: Box<EntityQueryPath>,
        direction: EdgeDirection,
    },
}

/// The paths of the four link-endpoint columns of an entity record.
#[derive(Debug)]
pub struct EntityRecordPaths {
    pub left_entity_uuid: EntityQueryPath,
    pub left_owned_by_id: EntityQueryPath,
    pub right_entity_uuid: EntityQueryPath,
    pub right_owned_by_id: EntityQueryPath,
}

/// The path that follows an outgoing `edge_kind` edge and then reads `path`.
pub open spec fn outgoing_edge_path(
    edge_kind: KnowledgeGraphEdgeKind,
    path: EntityQueryPath,
) -> EntityQueryPath {
    EntityQueryPath::EntityEdge { edge_kind, path: Box::new(path), direction: EdgeDirection::Outgoing }
}

impl Default for EntityRecordPaths {
    /// The endpoints are read through the outgoing left and right entity edges.
    fn default() -> (p: Self)
        ensures
            p.left_entity_uuid == outgoing_edge_path(
                KnowledgeGraphEdgeKind::HasLeftEntity,
                EntityQueryPath::Uuid,
            ),
            p.left_owned_by_id == outgoing_edge_path(
                KnowledgeGraphEdgeKind::HasLeftEntity,
                EntityQueryPath::OwnedById,
            ),
            p.right_entity_uuid == outgoing_edge_path(
                KnowledgeGraphEdgeKind::HasRightEntity,
                EntityQueryPath::Uuid,
            ),
            p.right_owned_by_id == outgoing_edge_path(
                KnowledgeGraphEdgeKind::HasRightEntity,
                EntityQueryPath::OwnedById,
            ),
    {
        Self {
            left_entity_uuid: EntityQueryPath::EntityEdge {
                edge_kind: KnowledgeGraphEdgeKind::HasLeftEntity,
                path: Box::new(EntityQueryPath::Uuid),
                direction: EdgeDirection::Outgoing,
            },
            left_owned_by_id: EntityQueryPath::EntityEdge {
                edge_kind: KnowledgeGraphEdgeKind::HasLeftEntity,
                path: Box::new(EntityQueryPath::OwnedById),
                direction: EdgeDirection::Outgoing,
            },
            right_entity_uuid: EntityQueryPath::EntityEdge {
                edge_kind: KnowledgeGraphEdgeKind::HasRightEntity,
                path: Box::new(EntityQueryPath::Uuid),
                direction: EdgeDirection::Outgoing,
            },
            right_owned_by_id: EntityQueryPath::EntityEdge {
                edge_kind: KnowledgeGraphEdgeKind::HasRightEntity,
                path: Box::new(EntityQueryPath::OwnedById),
                direction: EdgeDirection::Outgoing,
            },
        }
    }
}

/// The time axis along which the revisions of a query vary.
#[derive(Debug, Copy, Clone, PartialEq, Eq, Structural)]
pub enum TimeAxis {
    DecisionTime,
    TransactionTime,
}

/// The direction in which a selected column is sorted.
#[derive(Debug, Copy, Clone, PartialEq, Eq, Structural)]
pub enum SortDirection {
    Ascending,
    Descending,
}

/// How a selected column is turned into the sorted expression.
#[derive(Debug, Copy, Clone, PartialEq, Eq, Structural)]
pub enum ColumnTransform {
    /// The column itself.
    Identity,
    /// The lower bound of the column's time interval.
    LowerBound,
}

/// One column that sorting by vertex id selects.
#[derive(Debug, PartialEq, Eq)]
pub enum SortingSelection {
    /// A column compared against the cursor `parameter` and sorted in `direction`.
    Cursor {
        path: EntityQueryPath,
        transform: ColumnTransform,
        parameter: Parameter,
        direction: SortDirection,
    },
    /// A distinct column sorted in `direction`, used when there is no cursor.
    Distinct { path: EntityQueryPath, direction: SortDirection },
}

/// The three columns that sorting entities by vertex id selects.
#[derive(Debug)]
pub struct EntityVertexIdSorting {
    pub owned_by_id: SortingSelection,
    pub entity_uuid: SortingSelection,
    pub revision_id: SortingSelection,
}

/// The path of an entity's revision along `time_axis`.
pub open spec fn revision_path(time_axis: TimeAxis) -> EntityQueryPath {
    match time_axis {
        TimeAxis::TransactionTime => EntityQueryPath::TransactionTime,
        TimeAxis::DecisionTime => EntityQueryPath::DecisionTime,
    }
}

fn revision_path_of(time_axis: TimeAxis) -> (p: EntityQueryPath)
    ensures
        p == revision_path(time_axis),
{
    match time_axis {
        TimeAxis::TransactionTime => EntityQueryPath::TransactionTime,
        TimeAxis::DecisionTime => EntityQueryPath::DecisionTime,
    }
}

/// The selections that sort entities by vertex id: owning web and entity
/// UUID ascending, revision descending (newest first), where the revision is
/// read along the query's variable `time_axis`.  With a cursor each column is
/// compared against the cursor's parameter, the revision through the lower
/// bound of its interval; without one the columns are selected distinct.
pub fn vertex_id_sorting_selections(
    time_axis: TimeAxis,
    parameters: Option<&EntityVertexIdCursorParameters>,
) -> (s: EntityVertexIdSorting)
    ensures
        parameters matches Some(p) ==> {
            &&& s.owned_by_id == (SortingSelection::Cursor {
                path: EntityQueryPath::OwnedById,
                transform: ColumnTransform::Identity,
                parameter: p.owned_by_id,
                direction: SortDirection::Ascending,
            })
            &&& s.entity_uuid == (SortingSelection::Cursor {
                path: EntityQueryPath::Uuid,
                transform: ColumnTransform::Identity,
                parameter: p.entity_uuid,
                direction: SortDirection::Ascending,
            })
            &&& s.revision_id == (SortingSelection::Cursor {
                path: revision_path(time_axis),
                transform: ColumnTransform::LowerBound,
                parameter: p.revision_id,
                direction: SortDirection::Descending,
            })
        },
        parameters is None ==> {
            &&& s.owned_by_id == (SortingSelection::Distinct {
                path: EntityQueryPath::OwnedById,
                direction: SortDirection::Ascending,
            })
            &&& s.entity_uuid == (SortingSelection::Distinct {
                path: EntityQueryPath::Uuid,
                direction: SortDirection::Ascending,
            })
            &&& s.revision_id == (SortingSelection::Distinct {
                path: revision_path(time_axis),
                direction: SortDirection::Descending,
            })
        },
{
    let revision_id_path = revision_path_of(time_axis);
    match parameters {
        Some(parameters) => EntityVertexIdSorting {
            owned_by_id: SortingSelection::Cursor {
                path: EntityQueryPath::OwnedById,
                transform: ColumnTransform::Identity,
                parameter: parameters.owned_by_id,
                direction: SortDirection::Ascending,
            },
            entity_uuid: SortingSelection::Cursor {
                path: EntityQueryPath::Uuid,
                transform: ColumnTransform::Identity,
                parameter: parameters.entity_uuid,
                direction: SortDirection::Ascending,
            },
            revision_id: SortingSelection::Cursor {
                path: revision_id_path,
                transform: ColumnTransform::LowerBound,
                parameter: parameters.revision_id,
                direction: SortDirection::Descending,
            },
        },
        None => EntityVertexIdSorting {
            owned_by_id: SortingSelection::Distinct {
                path: EntityQueryPath::OwnedById,
                direction: SortDirection::Ascending,
            },
            entity_uuid: SortingSelection::Distinct {
                path: EntityQueryPath::Uuid,
                direction: SortDirection::Ascending,
            },
            revision_id: SortingSelection::Distinct {
                path: revision_id_path,
                direction: SortDirection::Descending,
            },
        },
    }
}

impl EntityQueryPath {
    /// A copy of this path.
    pub fn duplicate(&self) -> (p: Self)
        ensures
            p == *self,
        decreases self,
    {
        match self {
            EntityQueryPath::Uuid => EntityQueryPath::Uuid,
            EntityQueryPath::OwnedById => EntityQueryPath::OwnedById,
            EntityQueryPath::TransactionTime => EntityQueryPath::TransactionTime,
            EntityQueryPath::DecisionTime => EntityQueryPath::DecisionTime,
            EntityQueryPath::EditionId => EntityQueryPath::EditionId,
            EntityQueryPath::EntityTypeEdge { edge_kind, path, inheritance_depth } => {
                EntityQueryPath::EntityTypeEdge {
                    edge_kind: *edge_kind,
                    path: *path,
                    inheritance_depth: *inheritance_depth,
                }
            },
            EntityQueryPath::Properties => EntityQueryPath::Properties,
            EntityQueryPath::LeftToRightOrder => EntityQueryPath::LeftToRightOrder,
            EntityQueryPath::RightToLeftOrder => EntityQueryPath::RightToLeftOrder,
            EntityQueryPath::CreatedById => EntityQueryPath::CreatedById,
            EntityQueryPath::CreatedAtTransactionTime => EntityQueryPath::CreatedAtTransactionTime,
            EntityQueryPath::CreatedAtDecisionTime => EntityQueryPath::CreatedAtDecisionTime,
            EntityQueryPath::EditionCreatedById => EntityQueryPath::EditionCreatedById,
            EntityQueryPath::Archived => EntityQueryPath::Archived,
            EntityQueryPath::Draft => EntityQueryPath::Draft,
            EntityQueryPath::EntityEdge { edge_kind, path, direction } => {
                let inner: &EntityQueryPath = path;
                EntityQueryPath::EntityEdge {
                    edge_kind: *edge_kind,
                    path: Box::new(inner.duplicate()),
                    direction: *direction,
                }
            },
        }
    }
}

/// How a record column is selected from a path.
#[derive(Debug, PartialEq, Eq)]
pub enum Selection<P> {
    /// A distinct column, sorted in `direction` when one is given.
    Distinct { path: P, direction: Option<SortDirection> },
    /// A plain column.
    Path(P),
}

/// The selections of every column of an entity record, one per field of
/// `EntityRecordRowIndices`.
#[derive(Debug)]
pub struct EntityRecordSelections {
    pub owned_by_id: Selection<EntityQueryPath>,
    pub entity_uuid: Selection<EntityQueryPath>,
    pub transaction_time: Selection<EntityQueryPath>,
    pub decision_time: Selection<EntityQueryPath>,
    pub edition_id: Selection<EntityQueryPath>,
    pub type_id: Selection<EntityQueryPath>,
    pub properties: Selection<EntityQueryPath>,
    pub left_entity_uuid: Selection<EntityQueryPath>,
    pub left_entity_owned_by_id: Selection<EntityQueryPath>,
    pub right_entity_uuid: Selection<EntityQueryPath>,
    pub right_entity_owned_by_id: Selection<EntityQueryPath>,
    pub left_to_right_order: Selection<EntityQueryPath>,
    pub right_to_left_order: Selection<EntityQueryPath>,
    pub created_by_id: Selection<EntityQueryPath>,
    pub created_at_transaction_time: Selection<EntityQueryPath>,
    pub created_at_decision_time: Selection<EntityQueryPath>,
    pub edition_created_by_id: Selection<EntityQueryPath>,
    pub archived: Selection<EntityQueryPath>,
    pub draft: Selection<EntityQueryPath>,
}

/// The selections that read an entity record: the four columns identifying a
/// revision distinct and unsorted, the entity type through its direct
/// (depth 0) `IsOfType` edge, the link endpoints through `paths`, and every
/// other field as a plain column.
pub open spec fn entity_record_selections_spec(paths: EntityRecordPaths) -> EntityRecordSelections {
    EntityRecordSelections {
        owned_by_id: Selection::Distinct { path: EntityQueryPath::OwnedById, direction: None },
        entity_uuid: Selection::Distinct { path: EntityQueryPath::Uuid, direction: None },
        transaction_time: Selection::Distinct {
            path: EntityQueryPath::TransactionTime,
            direction: None,
        },
        decision_time: Selection::Distinct { path: EntityQueryPath::DecisionTime, direction: None },
        edition_id: Selection::Path(EntityQueryPath::EditionId),
        type_id: Selection::Path(
            EntityQueryPath::EntityTypeEdge {
                edge_kind: SharedEdgeKind::IsOfType,
                path: EntityTypeQueryPath::VersionedUrl,
                inheritance_depth: Some(0),
            },
        ),
        properties: Selection::Path(EntityQueryPath::Properties),
        left_entity_uuid: Selection::Path(paths.left_entity_uuid),
        left_entity_owned_by_id: Selection::Path(paths.left_owned_by_id),
        right_entity_uuid: Selection::Path(paths.right_entity_uuid),
        right_entity_owned_by_id: Selection::Path(paths.right_owned_by_id),
        left_to_right_order: Selection::Path(EntityQueryPath::LeftToRightOrder),
        right_to_left_order: Selection::Path(EntityQueryPath::RightToLeftOrder),
        created_by_id: Selection::Path(EntityQueryPath::CreatedById),
        created_at_transaction_time: Selection::Path(EntityQueryPath::CreatedAtTransactionTime),
        created_at_decision_time: Selection::Path(EntityQueryPath::CreatedAtDecisionTime),
        edition_created_by_id: Selection::Path(EntityQueryPath::EditionCreatedById),
        archived: Selection::Path(EntityQueryPath::Archived),
        draft: Selection::Path(EntityQueryPath::Draft),
    }
}

/// Each endpoint of a link is read through the path of its own side: the
/// left entity's web and uuid through the left paths, the right entity's
/// through the right paths.  With the default paths, the left columns follow
/// the outgoing `HasLeftEntity` edge and the right ones `HasRightEntity`.
pub proof fn law_link_endpoints_read_on_their_side(paths: EntityRecordPaths)
    ensures
        entity_record_selections_spec(paths).left_entity_owned_by_id == Selection::Path(paths.left_owned_by_id),
        entity_record_selections_spec(paths).left_entity_uuid == Selection::Path(paths.left_entity_uuid),
        entity_record_selections_spec(paths).right_entity_owned_by_id == Selection::Path(paths.right_owned_by_id),
        entity_record_selections_spec(paths).right_entity_uuid == Selection::Path(paths.right_entity_uuid),
        paths.left_owned_by_id == outgoing_edge_path(KnowledgeGraphEdgeKind::HasLeftEntity, EntityQueryPath::OwnedById)
            ==> entity_record_selections_spec(paths).left_entity_owned_by_id == Selection::Path(
            EntityQueryPath::EntityEdge {
                edge_kind: KnowledgeGraphEdgeKind::HasLeftEntity,
                path: Box::new(EntityQueryPath::OwnedById),
                direction: EdgeDirection::Outgoing,
            },
        ),
        paths.right_owned_by_id == outgoing_edge_path(KnowledgeGraphEdgeKind::HasRightEntity, EntityQueryPath::OwnedById)
            ==> entity_record_selections_spec(paths).right_entity_owned_by_id == Selection::Path(
            EntityQueryPath::EntityEdge {
                edge_kind: KnowledgeGraphEdgeKind::HasRightEntity,
                path: Box::new(EntityQueryPath::OwnedById),
                direction: EdgeDirection::Outgoing,
            },
        ),
        entity_record_selections_spec(paths).left_to_right_order == Selection::Path(EntityQueryPath::LeftToRightOrder),
        entity_record_selections_spec(paths).right_to_left_order == Selection::Path(EntityQueryPath::RightToLeftOrder),
{
}


/// The selections with which an entity record is compiled.
pub fn entity_record_selections(paths: &EntityRecordPaths) -> (s: EntityRecordSelections)
    ensures
        s == entity_record_selections_spec(*paths),
{
    EntityRecordSelections {
        owned_by_id: Selection::Distinct { path: EntityQueryPath::OwnedById, direction: None },
        entity_uuid: Selection::Distinct { path: EntityQueryPath::Uuid, direction: None },
        transaction_time: Selection::Distinct {
            path: EntityQueryPath::TransactionTime,
            direction: None,
        },
        decision_time: Selection::Distinct { path: EntityQueryPath::DecisionTime, direction: None },
        edition_id: Selection::Path(EntityQueryPath::EditionId),
        type_id: Selection::Path(
            EntityQueryPath::EntityTypeEdge {
                edge_kind: SharedEdgeKind::IsOfType,
                path: EntityTypeQueryPath::VersionedUrl,
                inheritance_depth: Some(0),
            },
        ),
        properties: Selection::Path(EntityQueryPath::Properties),
        left_entity_uuid: Selection::Path(paths.left_entity_uuid.duplicate()),
        left_entity_owned_by_id: Selection::Path(paths.left_owned_by_id.duplicate()),
        right_entity_uuid: Selection::Path(paths.right_entity_uuid.duplicate()),
        right_entity_owned_by_id: Selection::Path(paths.right_owned_by_id.duplicate()),
        left_to_right_order: Selection::Path(EntityQueryPath::LeftToRightOrder),
        right_to_left_order: Selection::Path(EntityQueryPath::RightToLeftOrder),
        created_by_id: Selection::Path(EntityQueryPath::CreatedById),
        created_at_transaction_time: Selection::Path(EntityQueryPath::CreatedAtTransactionTime),
        created_at_decision_time: Selection::Path(EntityQueryPath::CreatedAtDecisionTime),
        edition_created_by_id: Selection::Path(EntityQueryPath::EditionCreatedById),
        archived: Selection::Path(EntityQueryPath::Archived),
        draft: Selection::Path(EntityQueryPath::Draft),
    }
}

} // verus!
