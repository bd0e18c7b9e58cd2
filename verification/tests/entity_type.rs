use std::collections::HashMap;

use hash_graph::closed_entity_type::{
    parent_to_merge, store_closed_entity_type, take_entity_type, ClosedEntityTypeResolver,
    ClosureError, ClosureStep, MergeOutcome,
};
use hash_graph::entity_type::{
    available_schemas, filter_entity_types_by_permission, first_record_per_entity_type,
    current_view_permission_check, parent_entity_type_ids, permitted_roots, previous_version,
    view_permission_check, Consistency, EntityTypePermission, Zookie,
};
use hash_graph::ontology_types::{BaseUrl, VersionedUrl};

const ROOT: u128 = 100;

/// Merging a parent in these tests replaces it in the parent list by its own
/// parents.
fn merged(parents: &[u128], parent: u128, parents_of_parent: &[u128]) -> Vec<u128> {
    let mut out: Vec<u128> = parents.iter().copied().filter(|p| *p != parent).collect();
    out.extend_from_slice(parents_of_parent);
    out
}

#[test]
fn type_without_parents_is_closed_at_once() {
    let (_, step) = ClosedEntityTypeResolver::start(ROOT, Some(vec![]));
    assert_eq!(step, ClosureStep::Finished);
}

#[test]
fn missing_type_cannot_be_closed() {
    let (_, step) = ClosedEntityTypeResolver::start(ROOT, None);
    assert_eq!(step, ClosureStep::Failed(ClosureError::EntityTypeNotAvailable));
}

#[test]
fn chain_is_merged_parent_by_parent() {
    let (mut r, step) = ClosedEntityTypeResolver::start(ROOT, Some(vec![1]));
    assert_eq!(step, ClosureStep::MergeParent(1));
    let step = r.resume(MergeOutcome::Merged(vec![2]));
    assert_eq!(step, ClosureStep::MergeParent(2));
    let step = r.resume(MergeOutcome::Merged(vec![]));
    assert_eq!(step, ClosureStep::Finished);
    assert!(r.parents().is_empty());
}

#[test]
fn diamond_merges_shared_ancestor_once() {
    // ROOT inherits from 1 and 2, both of which inherit from 3.
    let (mut r, step) = ClosedEntityTypeResolver::start(ROOT, Some(vec![1, 2]));
    assert_eq!(step, ClosureStep::MergeParent(1));
    let after_one = merged(&[1, 2], 1, &[3]);
    let step = r.resume(MergeOutcome::Merged(after_one.clone()));
    assert_eq!(step, ClosureStep::MergeParent(2));
    let after_two = merged(&after_one, 2, &[3]);
    assert_eq!(after_two, vec![3, 3]);
    let step = r.resume(MergeOutcome::Merged(after_two.clone()));
    assert_eq!(step, ClosureStep::MergeParent(3));
    let after_three = merged(&after_two, 3, &[]);
    let step = r.resume(MergeOutcome::Merged(after_three));
    assert_eq!(step, ClosureStep::Finished);
}

#[test]
fn already_merged_parent_is_dropped_not_merged_again() {
    // After merging 1, the type lists 1 again (as a merge may leave it); it is
    // dropped instead of being merged twice.
    let (mut r, step) = ClosedEntityTypeResolver::start(ROOT, Some(vec![1]));
    assert_eq!(step, ClosureStep::MergeParent(1));
    let step = r.resume(MergeOutcome::Merged(vec![1, 2]));
    assert_eq!(step, ClosureStep::MergeParent(2));
    assert_eq!(r.parents(), &vec![2]);
    let step = r.resume(MergeOutcome::Merged(vec![]));
    assert_eq!(step, ClosureStep::Finished);
}

#[test]
fn type_listing_itself_is_a_cycle() {
    let (_, step) = ClosedEntityTypeResolver::start(ROOT, Some(vec![ROOT]));
    assert_eq!(step, ClosureStep::Failed(ClosureError::InheritanceCycle));
}

#[test]
fn indirect_cycle_is_detected() {
    let (mut r, step) = ClosedEntityTypeResolver::start(ROOT, Some(vec![1]));
    assert_eq!(step, ClosureStep::MergeParent(1));
    let step = r.resume(MergeOutcome::Merged(vec![ROOT]));
    assert_eq!(step, ClosureStep::Failed(ClosureError::InheritanceCycle));
}

#[test]
fn missing_parent_fails() {
    let (mut r, step) = ClosedEntityTypeResolver::start(ROOT, Some(vec![7]));
    assert_eq!(step, ClosureStep::MergeParent(7));
    let step = r.resume(MergeOutcome::ParentNotAvailable);
    assert_eq!(step, ClosureStep::Failed(ClosureError::ParentNotAvailable(7)));
}

#[test]
fn failed_merge_fails() {
    let (mut r, step) = ClosedEntityTypeResolver::start(ROOT, Some(vec![8, 9]));
    assert_eq!(step, ClosureStep::MergeParent(8));
    let step = r.resume(MergeOutcome::MergeFailed);
    assert_eq!(step, ClosureStep::Failed(ClosureError::MergeFailed(8)));
}

#[test]
fn permission_filter_keeps_granted_in_order() {
    let mut permissions = HashMap::new();
    permissions.insert(1u128, true);
    permissions.insert(2u128, false);
    permissions.insert(4u128, true);
    let types = vec![(1u128, "a"), (2, "b"), (3, "c"), (4, "d"), (1, "e")];
    assert_eq!(filter_entity_types_by_permission(types, &permissions), vec!["a", "d", "e"]);
}

#[test]
fn permission_filter_of_nothing_granted() {
    let permissions = HashMap::new();
    let types = vec![(1u128, 1), (2, 2)];
    assert!(filter_entity_types_by_permission(types, &permissions).is_empty());
}

#[test]
fn first_record_of_each_type_is_kept() {
    let records = vec![(5u128, "new5"), (6, "new6"), (5, "old5"), (7, "new7"), (6, "old6")];
    assert_eq!(
        first_record_per_entity_type(records),
        vec![(5, "new5"), (6, "new6"), (7, "new7")]
    );
}

#[test]
fn parent_ids_are_flattened_in_order() {
    let lists = vec![vec![1u128, 2], vec![], vec![3], vec![2, 4]];
    assert_eq!(parent_entity_type_ids(&lists), vec![1, 2, 3, 2, 4]);
}

#[test]
fn graph_schemas_replace_provided_ones() {
    let provided = vec![(1u128, "provided-1"), (2, "provided-2")];
    let from_graph = vec![(2u128, "graph-2"), (3, "graph-3")];
    let schemas = available_schemas(provided, from_graph);
    assert_eq!(schemas.len(), 3);
    assert_eq!(schemas[&1], "provided-1");
    assert_eq!(schemas[&2], "graph-2");
    assert_eq!(schemas[&3], "graph-3");
}

#[test]
fn later_duplicates_win() {
    let schemas = available_schemas(vec![(1u128, 'a'), (1, 'b')], vec![]);
    assert_eq!(schemas[&1], 'b');
}

#[test]
fn previous_version_decrements() {
    let url = VersionedUrl::new(BaseUrl::from_str("https://example.com/t/"), 5);
    let previous = previous_version(&url);
    assert_eq!(previous.version(), 4);
    assert_eq!(previous.base_url().as_str(), "https://example.com/t/");
}

#[test]
fn view_check_asks_for_ids_in_order_at_snapshot() {
    let entity_types = vec![(3u128, "c"), (1u128, "a"), (3u128, "c2")];
    let check = view_permission_check(&entity_types, 77, Zookie { token: "z1".to_string() });
    assert_eq!(check.actor_id, 77);
    assert_eq!(check.permission, EntityTypePermission::View);
    assert_eq!(check.entity_type_ids, vec![3, 1, 3]);
    match check.consistency {
        Consistency::AtExactSnapshot(zookie) => assert_eq!(zookie.token, "z1"),
        Consistency::FullyConsistent => panic!("the check must be made at the snapshot"),
    }
}

#[test]
fn closure_takes_looks_up_and_stores_schemas() {
    let mut available: HashMap<u128, &str> = HashMap::new();
    available.insert(1, "child");
    available.insert(2, "parent");
    assert_eq!(take_entity_type(&mut available, 1), Some("child"));
    assert!(!available.contains_key(&1));
    assert_eq!(take_entity_type(&mut available, 1), None);
    assert_eq!(parent_to_merge(&available, 2).ok(), Some(&"parent"));
    assert!(matches!(parent_to_merge(&available, 9), Err(MergeOutcome::ParentNotAvailable)));
    store_closed_entity_type(&mut available, 1, "closed child");
    assert_eq!(available.get(&1), Some(&"closed child"));
}

#[test]
fn query_check_is_fully_consistent() {
    let check = current_view_permission_check(&vec![(5u128, ()), (6u128, ())], 1);
    assert_eq!(check.entity_type_ids, vec![5, 6]);
    assert_eq!(check.permission, EntityTypePermission::View);
    assert!(matches!(check.consistency, Consistency::FullyConsistent));
}

#[test]
fn roots_and_queue_are_the_permitted_types() {
    let mut permissions = HashMap::new();
    permissions.insert(1u128, true);
    permissions.insert(2u128, false);
    permissions.insert(4u128, true);
    let (roots, queue) =
        permitted_roots(vec![(1u128, "a"), (2, "b"), (3, "c"), (4, "d")], &permissions, 9u8, (0i64, 5i64));
    assert_eq!(roots, vec!["a", "d"]);
    assert_eq!(queue, vec![(1, 9, (0, 5)), (4, 9, (0, 5))]);
}
