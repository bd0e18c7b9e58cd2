use std::collections::HashMap;

use hash_graph::entity_type::Zookie;
use hash_graph::entity_type_traversal::{
    edges_to_traverse, traversal_from_roots, EntityTypeTraversal, QueuedEntityType,
    TraversalAction, TraversalEvent, TraversalStep, CONSTRAINS_LINKS_ON,
    CONSTRAINS_LINK_DESTINATIONS_ON, CONSTRAINS_PROPERTIES_ON, INHERITS_FROM,
};

type Queued = QueuedEntityType<u8, (i64, i64)>;
type Traversal = EntityTypeTraversal<u8, (i64, i64)>;

const SPAN: (i64, i64) = (0, 10);
const ACTOR: u128 = 77;

fn queued(id: u128, next_depths: [Option<u8>; 4]) -> Queued {
    QueuedEntityType { id, next_depths, interval: SPAN }
}

fn snapshot() -> Zookie {
    Zookie { token: "z7".to_string() }
}

fn answer(granted: &[(u128, bool)]) -> HashMap<u128, bool> {
    granted.iter().copied().collect()
}

fn expect_continue(step: TraversalStep<u8, (i64, i64)>, expected: TraversalAction) -> Traversal {
    match step {
        TraversalStep::Continue(t, action) => {
            assert_eq!(action, expected);
            t
        }
        TraversalStep::Finished(_) => panic!("the traversal ended too early"),
    }
}

#[test]
fn edges_grouped_by_kind_in_queue_order() {
    let queue = vec![
        queued(1, [Some(0), None, Some(1), None]),
        queued(2, [Some(2), Some(3), None, None]),
    ];
    let g = edges_to_traverse(&queue);
    assert_eq!(g[CONSTRAINS_PROPERTIES_ON], vec![(1, 0, SPAN), (2, 2, SPAN)]);
    assert_eq!(g[INHERITS_FROM], vec![(2, 3, SPAN)]);
    assert_eq!(g[CONSTRAINS_LINKS_ON], vec![(1, 1, SPAN)]);
    assert!(g[CONSTRAINS_LINK_DESTINATIONS_ON].is_empty());
}

#[test]
fn only_permitted_types_are_linked_and_traversed() {
    let start = Traversal::start(vec![queued(1, [Some(0), None, Some(1), None])], ACTOR, snapshot());
    let t = expect_continue(start, TraversalAction::ReadEdges { kind: 0 });
    assert_eq!(t.edges(), vec![(1, 0, SPAN)]);
    let t = expect_continue(
        t.step(TraversalEvent::PropertyEdgesRead(vec![(50, 0, SPAN), (51, 0, SPAN)])),
        TraversalAction::CheckPermissions { kind: 0 },
    );
    let check = t.permission_check();
    assert_eq!(check.actor_id, ACTOR);
    assert_eq!(check.ids, vec![50, 51]);
    assert_eq!(check.snapshot.token, "z7");
    let t = expect_continue(
        t.step(TraversalEvent::Permissions(answer(&[(50, true), (51, false)]))),
        TraversalAction::LinkEdges { kind: 0 },
    );
    assert_eq!(t.permitted_property_types(), &vec![(50, 0, SPAN)]);
    let t = expect_continue(
        t.step(TraversalEvent::Linked(vec![true])),
        TraversalAction::ReadEdges { kind: 2 },
    );
    assert_eq!(t.edges(), vec![(1, 1, SPAN)]);
    let t = expect_continue(
        t.step(TraversalEvent::EntityEdgesRead(vec![
            queued(2, [None, Some(0), None, None]),
            queued(3, [None, Some(0), None, None]),
            queued(4, [None, Some(0), None, None]),
        ])),
        TraversalAction::CheckPermissions { kind: 2 },
    );
    assert_eq!(t.permission_check().ids, vec![2, 3, 4]);
    // 3 is denied and 4 has no answer: only 2 is linked.
    let t = expect_continue(
        t.step(TraversalEvent::Permissions(answer(&[(2, true), (3, false)]))),
        TraversalAction::LinkEdges { kind: 2 },
    );
    assert_eq!(t.permitted_entity_types(), &vec![queued(2, [None, Some(0), None, None])]);
    let t = expect_continue(
        t.step(TraversalEvent::Linked(vec![true])),
        TraversalAction::ReadEdges { kind: 1 },
    );
    assert_eq!(t.edges(), vec![(2, 0, SPAN)]);
    let t = expect_continue(
        t.step(TraversalEvent::EntityEdgesRead(vec![queued(1, [None, None, None, None])])),
        TraversalAction::CheckPermissions { kind: 1 },
    );
    let t = expect_continue(
        t.step(TraversalEvent::Permissions(answer(&[(1, true)]))),
        TraversalAction::LinkEdges { kind: 1 },
    );
    // The type 1 was traversed before: it is linked but not queued again.
    let t = expect_continue(
        t.step(TraversalEvent::Linked(vec![false])),
        TraversalAction::TraverseProperties,
    );
    assert_eq!(t.property_types(), &vec![(50, 0, SPAN)]);
    assert!(matches!(t.step(TraversalEvent::Succeeded), TraversalStep::Finished(true)));
}

#[test]
fn empty_queue_goes_to_property_types() {
    let t = expect_continue(Traversal::start(vec![], ACTOR, snapshot()), TraversalAction::TraverseProperties);
    assert!(t.property_types().is_empty());
}

#[test]
fn types_without_depth_left_end_the_traversal() {
    let t = expect_continue(
        Traversal::start(vec![queued(1, [None, None, None, None])], ACTOR, snapshot()),
        TraversalAction::TraverseProperties,
    );
    assert!(matches!(t.step(TraversalEvent::Failed), TraversalStep::Finished(false)));
}

#[test]
fn failed_read_ends_the_traversal() {
    let t = expect_continue(
        Traversal::start(vec![queued(1, [None, Some(0), None, None])], ACTOR, snapshot()),
        TraversalAction::ReadEdges { kind: 1 },
    );
    assert!(matches!(t.step(TraversalEvent::Failed), TraversalStep::Finished(false)));
}

#[test]
fn answer_out_of_turn_ends_the_traversal() {
    let t = expect_continue(
        Traversal::start(vec![queued(1, [None, Some(0), None, None])], ACTOR, snapshot()),
        TraversalAction::ReadEdges { kind: 1 },
    );
    assert!(matches!(t.step(TraversalEvent::Linked(vec![true])), TraversalStep::Finished(false)));
}

#[test]
fn traversal_starts_from_permitted_roots_at_their_snapshot() {
    let (roots, step) = traversal_from_roots(
        vec![(1u128, "a"), (2, "b"), (3, "c")],
        &answer(&[(1, true), (2, false), (3, true)]),
        snapshot(),
        ACTOR,
        [None, Some(4u8), None, None],
        SPAN,
    );
    assert_eq!(roots, vec!["a", "c"]);
    let t = expect_continue(step, TraversalAction::ReadEdges { kind: 1 });
    assert_eq!(t.edges(), vec![(1, 4, SPAN), (3, 4, SPAN)]);
    let t = expect_continue(
        t.step(TraversalEvent::EntityEdgesRead(vec![queued(9, [None, None, None, None])])),
        TraversalAction::CheckPermissions { kind: 1 },
    );
    assert_eq!(t.permission_check().snapshot.token, "z7");
}
