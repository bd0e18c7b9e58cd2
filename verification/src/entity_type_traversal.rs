//! The breadth-first traversal of entity types: each round groups the queued
//! types by the four outgoing edge kinds that still have depth left, reads
//! the edges of each non-empty group, asks the authorization service which
//! of the types reached the actor may view at the traversal's snapshot,
//! links only those, and queues the newly reached ones for the next round;
//! the property types reached are traversed at the end.
use vstd::prelude::*;
use crate::entity_type::{is_permitted, permitted_entry, permitted_queue_entry, permitted_roots, Zookie};
use std::collections::HashMap;

verus! {

// The outgoing edge kinds of an entity type, by their position in
// `QueuedEntityType::next_depths` and the order a round reads them in.
/// Edges to the property types an entity type constrains.
pub const CONSTRAINS_PROPERTIES_ON: usize = 0;
/// Edges to the entity types an entity type inherits from.
pub const INHERITS_FROM: usize = 1;
/// Edges to the link types an entity type constrains.
pub const CONSTRAINS_LINKS_ON: usize = 2;
/// Edges to the destinations of the links an entity type constrains.
pub const CONSTRAINS_LINK_DESTINATIONS_ON: usize = 3;

/// An entity type waiting to be traversed: its ontology id, for each edge
/// kind the resolve depths left after following an edge of that kind (none
/// when no depth is left for it), and the interval it is traversed in.
#[derive(Debug, Copy, Clone, PartialEq, Eq)]
pub struct QueuedEntityType<D, I> {
    pub id: u128,
    pub next_depths: [Option<D>; 4],
    pub interval: I,
}

/// The edge of kind `kind` that the queued type `q` is followed along, if it
/// has depth left for that kind.
pub open spec fn edge_of<D, I>(kind: int) -> spec_fn(QueuedEntityType<D, I>) -> Option<(u128, D, I)> {
    |q: QueuedEntityType<D, I>|
        match q.next_depths[kind] {
            Some(d) => Some((q.id, d, q.interval)),
            None => None,
        }
}

/// The edges of kind `kind` to follow from the queued types, in queue order.
pub open spec fn group<D, I>(queue: Seq<QueuedEntityType<D, I>>, kind: int) -> Seq<(u128, D, I)> {
    queue.filter_map(edge_of(kind))
}

proof fn lemma_group_prefix<D, I>(queue: Seq<QueuedEntityType<D, I>>, kind: int, n: int)
    requires
        0 <= kind < 4,
        0 <= n <= queue.len(),
    ensures
        forall|t: (u128, D, I)|
            queue.take(n).filter_map(edge_of(kind)).contains(t) <==> exists|j: int|
                0 <= j < n && #[trigger] queue[j].next_depths[kind] == Some(t.1) && queue[j].id == t.0
                    && queue[j].interval == t.2,
    decreases n,
{
    let f = edge_of::<D, I>(kind);
    if n == 0 {
        assert(queue.take(0).filter_map(f) =~= Seq::<(u128, D, I)>::empty());
    } else {
        lemma_group_prefix(queue, kind, n - 1);
        queue.lemma_filter_map_take_succ(f, n - 1);
        let before = queue.take(n - 1).filter_map(f);
        let after = queue.take(n).filter_map(f);
        let q = queue[n - 1];
        assert forall|t: (u128, D, I)|
            after.contains(t) <==> exists|j: int|
                0 <= j < n && #[trigger] queue[j].next_depths[kind] == Some(t.1) && queue[j].id == t.0
                    && queue[j].interval == t.2 by {
            match q.next_depths[kind] {
                Some(d) => {
                    assert(after =~= before.push((q.id, d, q.interval)));
                    if after.contains(t) {
                        let k = choose|k: int| 0 <= k < after.len() && after[k] == t;
                        if k < before.len() {
                            assert(before[k] == t);
                            assert(before.contains(t));
                        } else {
                            assert(queue[n - 1].next_depths[kind] == Some(t.1));
                        }
                    }
                    if exists|j: int|
                        0 <= j < n && #[trigger] queue[j].next_depths[kind] == Some(t.1) && queue[j].id == t.0
                            && queue[j].interval == t.2 {
                        let j = choose|j: int|
                            0 <= j < n && #[trigger] queue[j].next_depths[kind] == Some(t.1) && queue[j].id == t.0
                                && queue[j].interval == t.2;
                        if j < n - 1 {
                            assert(before.contains(t));
                            let k = choose|k: int| 0 <= k < before.len() && before[k] == t;
                            assert(after[k] == t);
                        } else {
                            assert(after[before.len() as int] == t);
                        }
                    }
                },
                None => {
                    assert(after =~= before);
                    if exists|j: int|
                        0 <= j < n && #[trigger] queue[j].next_depths[kind] == Some(t.1) && queue[j].id == t.0
                            && queue[j].interval == t.2 {
                        let j = choose|j: int|
                            0 <= j < n && #[trigger] queue[j].next_depths[kind] == Some(t.1) && queue[j].id == t.0
                                && queue[j].interval == t.2;
                        assert(j != n - 1);
                    }
                },
            }
        }
    }
}

/// The edges of a kind to follow are exactly those of the queued types that
/// have depth left for that kind: each carries the type's id, the depths left
/// after that kind of edge and the type's interval.
pub proof fn law_group_is_the_types_with_depth_left<D, I>(queue: Seq<QueuedEntityType<D, I>>, kind: int)
    requires
        0 <= kind < 4,
    ensures
        forall|t: (u128, D, I)|
            group(queue, kind).contains(t) <==> exists|j: int|
                0 <= j < queue.len() && #[trigger] queue[j].next_depths[kind] == Some(t.1) && queue[j].id == t.0
                    && queue[j].interval == t.2,
{
    lemma_group_prefix(queue, kind, queue.len() as int);
    assert(queue.take(queue.len() as int) =~= queue);
}

/// The edges of kind `kind` to follow from `queue`, in queue order.
pub fn edges_of_kind<D: Copy, I: Copy>(queue: &Vec<QueuedEntityType<D, I>>, kind: usize) -> (g: Vec<(u128, D, I)>)
    requires
        kind < 4,
    ensures
        g@ == group(queue@, kind as int),
{
    let mut g: Vec<(u128, D, I)> = Vec::new();
    let mut j: usize = 0;
    while j < queue.len()
        invariant
            kind < 4,
            j <= queue.len(),
            g@ == queue@.take(j as int).filter_map(edge_of(kind as int)),
        decreases queue.len() - j,
    {
        proof {
            queue@.lemma_filter_map_take_succ(edge_of(kind as int), j as int);
        }
        let q = queue[j];
        match q.next_depths[kind] {
            Some(d) => g.push((q.id, d, q.interval)),
            None => {},
        }
        j = j + 1;
    }
    assert(queue@.take(queue@.len() as int) =~= queue@);
    g
}

/// The edges to follow from `queue`, grouped by edge kind.
pub fn edges_to_traverse<D: Copy, I: Copy>(queue: &Vec<QueuedEntityType<D, I>>) -> (g: [Vec<(u128, D, I)>; 4])
    ensures
        forall|k: int| 0 <= k < 4 ==> #[trigger] g[k]@ == group(queue@, k),
{
    let g0 = edges_of_kind(queue, 0);
    let g1 = edges_of_kind(queue, 1);
    let g2 = edges_of_kind(queue, 2);
    let g3 = edges_of_kind(queue, 3);
    [g0, g1, g2, g3]
}

/// Whether `queue` has an edge of kind `kind` to follow.
fn has_edges<D: Copy, I: Copy>(queue: &Vec<QueuedEntityType<D, I>>, kind: usize) -> (b: bool)
    requires
        kind < 4,
    ensures
        b == (group(queue@, kind as int).len() > 0),
{
    edges_of_kind(queue, kind).len() > 0
}

/// The first edge kind from `kind` on that `round` has edges of, or 4 when
/// there is none.
pub open spec fn next_kind<D, I>(round: Seq<QueuedEntityType<D, I>>, kind: int) -> int
    decreases 4 - kind,
{
    if kind >= 4 {
        4
    } else if group(round, kind).len() > 0 {
        kind
    } else {
        next_kind(round, kind + 1)
    }
}

fn find_next_kind<D: Copy, I: Copy>(round: &Vec<QueuedEntityType<D, I>>, from: usize) -> (k: usize)
    requires
        from <= 4,
    ensures
        k == next_kind(round@, from as int),
{
    let mut k = from;
    while k < 4
        invariant
            from <= k <= 4,
            next_kind(round@, k as int) == next_kind(round@, from as int),
        decreases 4 - k,
    {
        if has_edges(round, k) {
            return k;
        }
        k = k + 1;
    }
    k
}


/// Where a traversal stands.
#[derive(Debug, Copy, Clone, PartialEq, Eq, Structural)]
pub enum TraversalPhase {
    /// Waiting for the edges of the pending kind of the current round.
    ReadingEdges,
    /// Waiting for the permissions on the types the edges reach.
    CheckingPermissions,
    /// Waiting for the permitted edges to be linked into the subgraph.
    LinkingEdges,
    /// Waiting for the property types found to be traversed.
    TraversingProperties,
}

/// What a traversal asks its driver to do next.
#[derive(Debug, Copy, Clone, PartialEq, Eq, Structural)]
pub enum TraversalAction {
    /// Read the edges of kind `kind` from the current round's types (see
    /// `EntityTypeTraversal::edges`) and report the types they reach.
    ReadEdges { kind: usize },
    /// Ask the authorization service the request of
    /// `EntityTypeTraversal::permission_check`.
    CheckPermissions { kind: usize },
    /// Link the permitted edges into the subgraph (see
    /// `EntityTypeTraversal::permitted_property_types` and
    /// `EntityTypeTraversal::permitted_entity_types`) and report which of
    /// them reach a type not traversed before.
    LinkEdges { kind: usize },
    /// Traverse the property types found (see
    /// `EntityTypeTraversal::property_types`).
    TraverseProperties,
}

/// What the driver reports back after performing an action.
pub enum TraversalEvent<D, I> {
    /// The property types the edges read reach, one per edge.
    PropertyEdgesRead(Vec<(u128, D, I)>),
    /// The entity types the edges read reach, one per edge, with the depths
    /// they have left for each edge kind.
    EntityEdgesRead(Vec<QueuedEntityType<D, I>>),
    /// The authorization service's answer: whether each id is permitted.
    Permissions(HashMap<u128, bool>),
    /// For each permitted edge, in order, whether it reaches a type not
    /// traversed before.
    Linked(Vec<bool>),
    /// The property types were traversed.
    Succeeded,
    /// The action failed.
    Failed,
}

/// A request to the authorization service: may the actor view each of the
/// types, at the snapshot?  The types are property types for the kind
/// `CONSTRAINS_PROPERTIES_ON` and entity types for the other kinds.
pub struct TraversalPermissionCheck {
    pub actor_id: u128,
    pub kind: usize,
    pub ids: Vec<u128>,
    pub snapshot: Zookie,
}

/// The state of a traversal, as its contracts see it.
pub struct TraversalView<D, I> {
    pub actor_id: u128,
    pub snapshot: Zookie,
    pub round: Seq<QueuedEntityType<D, I>>,
    pub found: Seq<QueuedEntityType<D, I>>,
    pub property_types: Seq<(u128, D, I)>,
    pub read_entity_types: Seq<QueuedEntityType<D, I>>,
    pub read_property_types: Seq<(u128, D, I)>,
    pub permitted_entity_types: Seq<QueuedEntityType<D, I>>,
    pub permitted_property_types: Seq<(u128, D, I)>,
    /// The ids some answer of the authorization service permitted.
    pub granted: Set<u128>,
    pub kind: int,
    pub phase: TraversalPhase,
}

/// What one step of a traversal leads to, as its contracts see it.
pub enum TraversalOutcome<D, I> {
    Continue(TraversalView<D, I>, TraversalAction),
    Finished(bool),
}

/// A traversal of entity types, one decision at a time: the driver performs
/// each action and hands the answer back to `step`.
pub struct EntityTypeTraversal<D, I> {
    actor_id: u128,
    snapshot: Zookie,
    round: Vec<QueuedEntityType<D, I>>,
    found: Vec<QueuedEntityType<D, I>>,
    property_types: Vec<(u128, D, I)>,
    read_entity_types: Vec<QueuedEntityType<D, I>>,
    read_property_types: Vec<(u128, D, I)>,
    permitted_entity_types: Vec<QueuedEntityType<D, I>>,
    permitted_property_types: Vec<(u128, D, I)>,
    granted: Ghost<Set<u128>>,
    kind: usize,
    phase: TraversalPhase,
}

/// What one step of a traversal leads to: the traversal and its next action,
/// or the end, successful or not.
pub enum TraversalStep<D, I> {
    Continue(EntityTypeTraversal<D, I>, TraversalAction),
    Finished(bool),
}

impl<D, I> View for EntityTypeTraversal<D, I> {
    type V = TraversalView<D, I>;

    closed spec fn view(&self) -> TraversalView<D, I> {
        TraversalView {
            actor_id: self.actor_id,
            snapshot: self.snapshot,
            round: self.round@,
            found: self.found@,
            property_types: self.property_types@,
            read_entity_types: self.read_entity_types@,
            read_property_types: self.read_property_types@,
            permitted_entity_types: self.permitted_entity_types@,
            permitted_property_types: self.permitted_property_types@,
            granted: self.granted@,
            kind: self.kind as int,
            phase: self.phase,
        }
    }
}

impl<D, I> View for TraversalStep<D, I> {
    type V = TraversalOutcome<D, I>;

    open spec fn view(&self) -> TraversalOutcome<D, I> {
        match self {
            TraversalStep::Continue(t, a) => TraversalOutcome::Continue(t@, *a),
            TraversalStep::Finished(ok) => TraversalOutcome::Finished(*ok),
        }
    }
}

/// Whether the entity type `q` is permitted by `permissions`.
pub open spec fn entity_type_permitted<D, I>(permissions: Map<u128, bool>) -> spec_fn(QueuedEntityType<D, I>) -> bool {
    |q: QueuedEntityType<D, I>| is_permitted(permissions, q.id)
}

/// Whether the property type `p` is permitted by `permissions`.
pub open spec fn property_type_permitted<D, I>(permissions: Map<u128, bool>) -> spec_fn((u128, D, I)) -> bool {
    |p: (u128, D, I)| is_permitted(permissions, p.0)
}

/// Whether the entity type `q` has an id in `granted`.
pub open spec fn entity_type_granted<D, I>(granted: Set<u128>) -> spec_fn(QueuedEntityType<D, I>) -> bool {
    |q: QueuedEntityType<D, I>| granted.contains(q.id)
}

/// Whether the property type `p` has an id in `granted`.
pub open spec fn property_type_granted<D, I>(granted: Set<u128>) -> spec_fn((u128, D, I)) -> bool {
    |p: (u128, D, I)| granted.contains(p.0)
}

/// The ids that `permissions` permits.
pub open spec fn granted_by(permissions: Map<u128, bool>) -> Set<u128> {
    Set::new(|id: u128| is_permitted(permissions, id))
}

/// Whether every element of `s` satisfies `p`.
pub open spec fn all<T>(s: Seq<T>, p: spec_fn(T) -> bool) -> bool {
    forall|j: int| 0 <= j < s.len() ==> #[trigger] p(s[j])
}

/// The entries of `entries` whose position `mask` marks, in order.
pub open spec fn selected<T>(entries: Seq<T>, mask: Seq<bool>) -> Seq<T>
    decreases entries.len(),
{
    if entries.len() == 0 {
        Seq::empty()
    } else {
        let rest = selected(entries.drop_last(), mask);
        if entries.len() - 1 < mask.len() && mask[entries.len() - 1] {
            rest.push(entries.last())
        } else {
            rest
        }
    }
}

/// The well-formedness of a traversal: while it handles a kind, the round
/// has edges of that kind; and every type it permitted, found or queued for
/// the property traversal has an id that an answer permitted.
pub open spec fn traversal_wf<D, I>(v: TraversalView<D, I>) -> bool {
    &&& !(v.phase is TraversingProperties) ==> 0 <= v.kind < 4 && group(v.round, v.kind).len() > 0
    &&& all(v.found, entity_type_granted(v.granted))
    &&& all(v.permitted_entity_types, entity_type_granted(v.granted))
    &&& all(v.property_types, property_type_granted(v.granted))
    &&& all(v.permitted_property_types, property_type_granted(v.granted))
}

/// The traversal `v` reading the edges of kind `kind`.
pub open spec fn reading<D, I>(v: TraversalView<D, I>, kind: int) -> TraversalOutcome<D, I> {
    TraversalOutcome::Continue(
        TraversalView { kind, phase: TraversalPhase::ReadingEdges, ..v },
        TraversalAction::ReadEdges { kind: kind as usize },
    )
}

/// The traversal `v` handing its property types on.
pub open spec fn traversing_properties<D, I>(v: TraversalView<D, I>) -> TraversalOutcome<D, I> {
    TraversalOutcome::Continue(
        TraversalView { phase: TraversalPhase::TraversingProperties, ..v },
        TraversalAction::TraverseProperties,
    )
}

/// A new round over the entity types `round`: it reads the edges of the
/// first kind it has edges of; with none, the property types are traversed.
pub open spec fn begin_round<D, I>(v: TraversalView<D, I>, round: Seq<QueuedEntityType<D, I>>) -> TraversalOutcome<D, I> {
    let w = TraversalView { round, found: Seq::empty(), ..v };
    if next_kind(round, 0) < 4 {
        reading(w, next_kind(round, 0))
    } else {
        traversing_properties(w)
    }
}

/// The rest of the current round from the kind `kind` on: the next kind the
/// round has edges of; after the last, a new round over the entity types
/// found, or, when none were found, the property types.
pub open spec fn continue_round<D, I>(v: TraversalView<D, I>, kind: int) -> TraversalOutcome<D, I> {
    if next_kind(v.round, kind) < 4 {
        reading(v, next_kind(v.round, kind))
    } else if v.found.len() > 0 {
        begin_round(v, v.found)
    } else {
        traversing_properties(v)
    }
}

/// One step of a traversal: the state `v` gets the answer `e` to its pending
/// action.
pub open spec fn traversal_step<D, I>(v: TraversalView<D, I>, e: TraversalEvent<D, I>) -> TraversalOutcome<D, I> {
    match v.phase {
        TraversalPhase::ReadingEdges => match e {
            TraversalEvent::PropertyEdgesRead(read) => if v.kind == CONSTRAINS_PROPERTIES_ON {
                TraversalOutcome::Continue(
                    TraversalView {
                        read_property_types: read@,
                        phase: TraversalPhase::CheckingPermissions,
                        ..v
                    },
                    TraversalAction::CheckPermissions { kind: v.kind as usize },
                )
            } else {
                TraversalOutcome::Finished(false)
            },
            TraversalEvent::EntityEdgesRead(read) => if v.kind != CONSTRAINS_PROPERTIES_ON {
                TraversalOutcome::Continue(
                    TraversalView {
                        read_entity_types: read@,
                        phase: TraversalPhase::CheckingPermissions,
                        ..v
                    },
                    TraversalAction::CheckPermissions { kind: v.kind as usize },
                )
            } else {
                TraversalOutcome::Finished(false)
            },
            _ => TraversalOutcome::Finished(false),
        },
        TraversalPhase::CheckingPermissions => match e {
            TraversalEvent::Permissions(permissions) => {
                let granted = v.granted.union(granted_by(permissions@));
                let w = if v.kind == CONSTRAINS_PROPERTIES_ON {
                    TraversalView {
                        permitted_property_types: v.read_property_types.filter(
                            property_type_permitted(permissions@),
                        ),
                        granted,
                        phase: TraversalPhase::LinkingEdges,
                        ..v
                    }
                } else {
                    TraversalView {
                        permitted_entity_types: v.read_entity_types.filter(entity_type_permitted(permissions@)),
                        granted,
                        phase: TraversalPhase::LinkingEdges,
                        ..v
                    }
                };
                TraversalOutcome::Continue(w, TraversalAction::LinkEdges { kind: v.kind as usize })
            },
            _ => TraversalOutcome::Finished(false),
        },
        TraversalPhase::LinkingEdges => match e {
            TraversalEvent::Linked(new) => if v.kind == CONSTRAINS_PROPERTIES_ON {
                continue_round(
                    TraversalView {
                        property_types: v.property_types + selected(v.permitted_property_types, new@),
                        ..v
                    },
                    v.kind + 1,
                )
            } else {
                continue_round(
                    TraversalView { found: v.found + selected(v.permitted_entity_types, new@), ..v },
                    v.kind + 1,
                )
            },
            _ => TraversalOutcome::Finished(false),
        },
        TraversalPhase::TraversingProperties => match e {
            TraversalEvent::Succeeded => TraversalOutcome::Finished(true),
            _ => TraversalOutcome::Finished(false),
        },
    }
}

/// A traversal for the actor `actor_id` at the snapshot `snapshot` before
/// its first round.
pub open spec fn initial_traversal<D, I>(actor_id: u128, snapshot: Zookie) -> TraversalView<D, I> {
    TraversalView {
        actor_id,
        snapshot,
        round: Seq::empty(),
        found: Seq::empty(),
        property_types: Seq::empty(),
        read_entity_types: Seq::empty(),
        read_property_types: Seq::empty(),
        permitted_entity_types: Seq::empty(),
        permitted_property_types: Seq::empty(),
        granted: Set::empty(),
        kind: 0,
        phase: TraversalPhase::ReadingEdges,
    }
}

/// The queue entry of a root, with the depths left after each edge kind and
/// the interval of the query.
pub open spec fn queued_root<D, I>() -> spec_fn((u128, [Option<D>; 4], I)) -> QueuedEntityType<D, I> {
    |t: (u128, [Option<D>; 4], I)| QueuedEntityType { id: t.0, next_depths: t.1, interval: t.2 }
}

/// Whether the action `a` is the one the traversal `t` waits on.
pub open spec fn pending_action<D, I>(t: TraversalView<D, I>, a: TraversalAction) -> bool {
    match a {
        TraversalAction::ReadEdges { kind } => t.phase is ReadingEdges && t.kind == kind,
        TraversalAction::CheckPermissions { kind } => t.phase is CheckingPermissions && t.kind == kind,
        TraversalAction::LinkEdges { kind } => t.phase is LinkingEdges && t.kind == kind,
        TraversalAction::TraverseProperties => t.phase is TraversingProperties,
    }
}

/// The next kind a round handles from `kind` on is the first kind it has
/// edges of: every kind skipped has none, and 4 means none is left.
pub proof fn lemma_next_kind_bounds<D, I>(round: Seq<QueuedEntityType<D, I>>, kind: int)
    requires
        0 <= kind <= 4,
    ensures
        kind <= next_kind(round, kind) <= 4,
        next_kind(round, kind) < 4 ==> group(round, next_kind(round, kind)).len() > 0,
        forall|k: int| kind <= k < next_kind(round, kind) ==> #[trigger] group(round, k).len() == 0,
    decreases 4 - kind,
{
    if kind < 4 && group(round, kind).len() == 0 {
        lemma_next_kind_bounds(round, kind + 1);
    }
}

proof fn lemma_all_filter<T>(s: Seq<T>, keep: spec_fn(T) -> bool, p: spec_fn(T) -> bool)
    requires
        forall|x: T| #[trigger] keep(x) ==> p(x),
    ensures
        all(s.filter(keep), p),
{
    assert forall|j: int| 0 <= j < s.filter(keep).len() implies #[trigger] p(s.filter(keep)[j]) by {
        s.lemma_filter_pred(keep, j);
    }
}

proof fn lemma_all_selected<T>(s: Seq<T>, mask: Seq<bool>, p: spec_fn(T) -> bool)
    requires
        all(s, p),
    ensures
        all(selected(s, mask), p),
    decreases s.len(),
{
    if s.len() > 0 {
        assert(all(s.drop_last(), p)) by {
            assert forall|j: int| 0 <= j < s.drop_last().len() implies #[trigger] p(s.drop_last()[j]) by {
                assert(s.drop_last()[j] == s[j]);
            }
        }
        lemma_all_selected(s.drop_last(), mask, p);
        assert(p(s[s.len() - 1]));
    }
}

proof fn lemma_all_weaken<T>(s: Seq<T>, p: spec_fn(T) -> bool, q: spec_fn(T) -> bool)
    requires
        all(s, p),
        forall|x: T| #[trigger] p(x) ==> q(x),
    ensures
        all(s, q),
{
    assert forall|j: int| 0 <= j < s.len() implies #[trigger] q(s[j]) by {
        assert(p(s[j]));
    }
}

proof fn lemma_all_add<T>(a: Seq<T>, b: Seq<T>, p: spec_fn(T) -> bool)
    requires
        all(a, p),
        all(b, p),
    ensures
        all(a + b, p),
{
    assert forall|j: int| 0 <= j < (a + b).len() implies #[trigger] p((a + b)[j]) by {
        if j < a.len() {
            assert((a + b)[j] == a[j]);
        } else {
            assert((a + b)[j] == b[j - a.len()]);
        }
    }
}

proof fn lemma_round_wf<D, I>(v: TraversalView<D, I>, kind: int)
    requires
        0 <= kind <= 4,
        all(v.found, entity_type_granted(v.granted)),
        all(v.permitted_entity_types, entity_type_granted(v.granted)),
        all(v.property_types, property_type_granted(v.granted)),
        all(v.permitted_property_types, property_type_granted(v.granted)),
    ensures
        continue_round(v, kind) matches TraversalOutcome::Continue(w, a) ==> traversal_wf(w) && pending_action(w, a)
            && w.actor_id == v.actor_id && w.snapshot == v.snapshot && w.granted == v.granted,
{
    lemma_next_kind_bounds(v.round, kind);
    lemma_next_kind_bounds(v.found, 0);
}

/// Every step keeps a traversal well formed, asks for the action it then
/// waits on, keeps the actor and the snapshot, and only adds to the ids
/// permitted.
pub proof fn law_traversal_step_keeps_wf<D, I>(v: TraversalView<D, I>, e: TraversalEvent<D, I>)
    requires
        traversal_wf(v),
    ensures
        traversal_step(v, e) matches TraversalOutcome::Continue(w, a) ==> traversal_wf(w) && pending_action(w, a)
            && w.actor_id == v.actor_id && w.snapshot == v.snapshot && v.granted.subset_of(w.granted),
{
    match v.phase {
        TraversalPhase::CheckingPermissions => {
            if let TraversalEvent::Permissions(permissions) = e {
                let g = v.granted.union(granted_by(permissions@));
                assert forall|q: QueuedEntityType<D, I>| #[trigger] entity_type_granted(v.granted)(q) implies entity_type_granted::<D, I>(g)(q) by {}
                assert forall|q: (u128, D, I)| #[trigger] property_type_granted(v.granted)(q) implies property_type_granted::<D, I>(g)(q) by {}
                assert forall|q: QueuedEntityType<D, I>| #[trigger] entity_type_permitted(permissions@)(q) implies entity_type_granted::<D, I>(g)(q) by {}
                assert forall|q: (u128, D, I)| #[trigger] property_type_permitted(permissions@)(q) implies property_type_granted::<D, I>(g)(q) by {}
                lemma_all_filter(v.read_entity_types, entity_type_permitted(permissions@), entity_type_granted(g));
                lemma_all_filter(v.read_property_types, property_type_permitted(permissions@), property_type_granted(g));
                lemma_all_weaken(v.found, entity_type_granted(v.granted), entity_type_granted(g));
                lemma_all_weaken(v.permitted_entity_types, entity_type_granted(v.granted), entity_type_granted(g));
                lemma_all_weaken(v.property_types, property_type_granted(v.granted), property_type_granted(g));
                lemma_all_weaken(
                    v.permitted_property_types,
                    property_type_granted(v.granted),
                    property_type_granted(g),
                );
            }
        },
        TraversalPhase::LinkingEdges => {
            if let TraversalEvent::Linked(new) = e {
                if v.kind == CONSTRAINS_PROPERTIES_ON {
                    lemma_all_selected(v.permitted_property_types, new@, property_type_granted(v.granted));
                    lemma_all_add(
                        v.property_types,
                        selected(v.permitted_property_types, new@),
                        property_type_granted(v.granted),
                    );
                    lemma_round_wf(
                        TraversalView {
                            property_types: v.property_types + selected(v.permitted_property_types, new@),
                            ..v
                        },
                        v.kind + 1,
                    );
                } else {
                    lemma_all_selected(v.permitted_entity_types, new@, entity_type_granted(v.granted));
                    lemma_all_add(v.found, selected(v.permitted_entity_types, new@), entity_type_granted(v.granted));
                    lemma_round_wf(
                        TraversalView { found: v.found + selected(v.permitted_entity_types, new@), ..v },
                        v.kind + 1,
                    );
                }
            }
        },
        _ => {},
    }
}

/// The edges a traversal asks to read are of a kind that the current round
/// has edges of: empty groups are skipped.
pub proof fn law_reads_only_non_empty_groups<D, I>(v: TraversalView<D, I>, e: TraversalEvent<D, I>)
    requires
        traversal_wf(v),
        traversal_step(v, e) matches TraversalOutcome::Continue(_, TraversalAction::ReadEdges { .. }),
    ensures
        traversal_step(v, e) matches TraversalOutcome::Continue(w, TraversalAction::ReadEdges { kind })
            && kind < 4 && w.kind == kind && group(w.round, kind as int).len() > 0,
{
    law_traversal_step_keeps_wf(v, e);
}

/// Within a round the edge kinds are handled in their order, each at most
/// once; a read of an earlier kind starts a new round over the entity types
/// found.
pub proof fn law_kinds_read_in_order<D, I>(v: TraversalView<D, I>, e: TraversalEvent<D, I>)
    requires
        traversal_wf(v),
        traversal_step(v, e) matches TraversalOutcome::Continue(_, TraversalAction::ReadEdges { .. }),
    ensures
        v.phase is LinkingEdges,
        traversal_step(v, e) matches TraversalOutcome::Continue(w, TraversalAction::ReadEdges { kind })
            && ((w.round == v.round && kind > v.kind) || (next_kind(v.round, v.kind + 1) == 4 && w.found.len() == 0)),
{
    lemma_next_kind_bounds(v.round, v.kind + 1);
}

/// Only the reached types that the answer permits are linked: after the
/// answer `permissions`, the permitted types are those read whose ids it
/// permits, in order, and their ids count as permitted from then on.
pub proof fn law_only_permitted_types_are_linked<D, I>(v: TraversalView<D, I>, permissions: HashMap<u128, bool>)
    requires
        traversal_wf(v),
        v.phase is CheckingPermissions,
    ensures
        traversal_step(v, TraversalEvent::Permissions(permissions)) matches TraversalOutcome::Continue(w, a) && a
            == (TraversalAction::LinkEdges { kind: v.kind as usize }) && (if v.kind == CONSTRAINS_PROPERTIES_ON {
            w.permitted_property_types == v.read_property_types.filter(property_type_permitted(permissions@))
        } else {
            w.permitted_entity_types == v.read_entity_types.filter(entity_type_permitted(permissions@))
        }) && w.granted == v.granted.union(granted_by(permissions@)),
{
}

/// Only permitted types go on: the types linked as newly reached join the
/// next round (entity types) or the property types to traverse, and every
/// one of them, like every type found before, has an id that an answer of
/// the authorization service permitted.
pub proof fn law_only_permitted_types_go_on<D, I>(v: TraversalView<D, I>, new: Vec<bool>)
    requires
        traversal_wf(v),
        v.phase is LinkingEdges,
    ensures
        v.kind == CONSTRAINS_PROPERTIES_ON ==> all(
            v.property_types + selected(v.permitted_property_types, new@),
            property_type_granted(v.granted),
        ),
        v.kind != CONSTRAINS_PROPERTIES_ON ==> all(
            v.found + selected(v.permitted_entity_types, new@),
            entity_type_granted(v.granted),
        ),
        traversal_step(v, TraversalEvent::Linked(new)) == (if v.kind == CONSTRAINS_PROPERTIES_ON {
            continue_round(
                TraversalView { property_types: v.property_types + selected(v.permitted_property_types, new@), ..v },
                v.kind + 1,
            )
        } else {
            continue_round(TraversalView { found: v.found + selected(v.permitted_entity_types, new@), ..v }, v.kind + 1)
        }),
{
    lemma_all_selected(v.permitted_property_types, new@, property_type_granted(v.granted));
    lemma_all_add(v.property_types, selected(v.permitted_property_types, new@), property_type_granted(v.granted));
    lemma_all_selected(v.permitted_entity_types, new@, entity_type_granted(v.granted));
    lemma_all_add(v.found, selected(v.permitted_entity_types, new@), entity_type_granted(v.granted));
}

/// A link answer selects exactly the edges it marks: an entry is kept only
/// at a position the answer marks true, every marked entry is kept, nothing
/// beyond the entries is added, and a single entry is kept exactly when its
/// mark is true.  So a type already traversed (marked false) is not queued
/// again.
pub proof fn law_selected_only_marked<T>(e: Seq<T>, m: Seq<bool>)
    ensures
        forall|x: T|
            selected(e, m).contains(x) ==> exists|i: int|
                0 <= i < e.len() && i < m.len() && m[i] && #[trigger] e[i] == x,
        forall|i: int| 0 <= i < e.len() && i < m.len() && m[i] ==> selected(e, m).contains(#[trigger] e[i]),
        selected(e, m).len() <= e.len(),
        forall|x: T| #[trigger] selected(seq![x], m) == (if m.len() > 0 && m[0] { seq![x] } else { Seq::empty() }),
    decreases e.len(),
{
    if e.len() > 0 {
        let d = e.drop_last();
        law_selected_only_marked(d, m);
        let r = selected(d, m);
        let last = e.len() - 1;
        assert forall|x: T| selected(e, m).contains(x) implies exists|i: int|
            0 <= i < e.len() && i < m.len() && m[i] && #[trigger] e[i] == x by {
            if r.contains(x) {
                let i = choose|i: int| 0 <= i < d.len() && i < m.len() && m[i] && #[trigger] d[i] == x;
                assert(e[i] == d[i]);
            } else {
                assert(last < m.len() && m[last]);
                let j = choose|j: int| 0 <= j < selected(e, m).len() && selected(e, m)[j] == x;
                assert(selected(e, m) == r.push(e.last()));
                if j < r.len() {
                    assert(r[j] == x);
                }
                assert(e[last] == x);
            }
        }
        assert forall|i: int| 0 <= i < e.len() && i < m.len() && m[i] implies selected(e, m).contains(
            #[trigger] e[i],
        ) by {
            if i < last {
                assert(d[i] == e[i]);
                assert(r.contains(d[i]));
                let j = choose|j: int| 0 <= j < r.len() && r[j] == d[i];
                assert(selected(e, m)[j] == e[i]);
            } else {
                assert(selected(e, m) == r.push(e.last()));
                assert(selected(e, m)[r.len() as int] == e[i]);
            }
        }
    }
    assert forall|x: T| #[trigger] selected(seq![x], m) == (if m.len() > 0 && m[0] {
        seq![x]
    } else {
        Seq::empty()
    }) by {
        assert(seq![x].drop_last() =~= Seq::<T>::empty());
        assert(selected(Seq::<T>::empty(), m) =~= Seq::<T>::empty());
        assert(Seq::<T>::empty().push(x) =~= seq![x]);
    }
}

/// The edges permitted after an answer are exactly the edges read whose
/// reached type the answer permits: each is one of the edges read, its id is
/// permitted, and every edge read with a permitted id is among them.
pub proof fn law_permitted_edges_are_the_granted_ones<D, I>(v: TraversalView<D, I>, permissions: HashMap<u128, bool>)
    requires
        traversal_wf(v),
        v.phase is CheckingPermissions,
    ensures
        traversal_step(v, TraversalEvent::Permissions(permissions)) matches TraversalOutcome::Continue(w, _) && (if v.kind
            == CONSTRAINS_PROPERTIES_ON {
            (forall|p: (u128, D, I)|
                w.permitted_property_types.contains(p) <==> (v.read_property_types.contains(p) && is_permitted(
                    permissions@,
                    p.0,
                )))
        } else {
            (forall|q: QueuedEntityType<D, I>|
                w.permitted_entity_types.contains(q) <==> (v.read_entity_types.contains(q) && is_permitted(
                    permissions@,
                    q.id,
                )))
        }),
{
    let map = permissions@;
    let pf = property_type_permitted::<D, I>(map);
    let ef = entity_type_permitted::<D, I>(map);
    assert forall|p: (u128, D, I)|
        v.read_property_types.filter(pf).contains(p) <==> (v.read_property_types.contains(p) && is_permitted(map, p.0)) by {
        if v.read_property_types.filter(pf).contains(p) {
            v.read_property_types.lemma_filter_contains_rev(pf, p);
            let j = choose|j: int| 0 <= j < v.read_property_types.filter(pf).len() && v.read_property_types.filter(pf)[j] == p;
            v.read_property_types.lemma_filter_pred(pf, j);
        }
        if v.read_property_types.contains(p) && is_permitted(map, p.0) {
            let i = choose|i: int| 0 <= i < v.read_property_types.len() && v.read_property_types[i] == p;
            v.read_property_types.lemma_filter_contains(pf, i);
        }
    }
    assert forall|q: QueuedEntityType<D, I>|
        v.read_entity_types.filter(ef).contains(q) <==> (v.read_entity_types.contains(q) && is_permitted(map, q.id)) by {
        if v.read_entity_types.filter(ef).contains(q) {
            v.read_entity_types.lemma_filter_contains_rev(ef, q);
            let j = choose|j: int| 0 <= j < v.read_entity_types.filter(ef).len() && v.read_entity_types.filter(ef)[j] == q;
            v.read_entity_types.lemma_filter_pred(ef, j);
        }
        if v.read_entity_types.contains(q) && is_permitted(map, q.id) {
            let i = choose|i: int| 0 <= i < v.read_entity_types.len() && v.read_entity_types[i] == q;
            v.read_entity_types.lemma_filter_contains(ef, i);
        }
    }
}

/// The entity types found in a round are the next round: once the last kind
/// of a round was handled, a new round begins over them, unless none were
/// found.
pub proof fn law_found_types_form_next_round<D, I>(v: TraversalView<D, I>, new: Vec<bool>)
    requires
        traversal_wf(v),
        v.phase is LinkingEdges,
        v.kind != CONSTRAINS_PROPERTIES_ON,
        next_kind(v.round, v.kind + 1) == 4,
        (v.found + selected(v.permitted_entity_types, new@)).len() > 0,
    ensures
        traversal_step(v, TraversalEvent::Linked(new)) == begin_round(
            TraversalView { found: v.found + selected(v.permitted_entity_types, new@), ..v },
            v.found + selected(v.permitted_entity_types, new@),
        ),
{
}

/// The property types are traversed only once a round found no entity type
/// to go on with.
pub proof fn law_properties_traversed_last<D, I>(v: TraversalView<D, I>, e: TraversalEvent<D, I>)
    requires
        traversal_wf(v),
        traversal_step(v, e) matches TraversalOutcome::Continue(_, TraversalAction::TraverseProperties),
    ensures
        traversal_step(v, e) matches TraversalOutcome::Continue(w, _) && w.found.len() == 0,
{
}

fn permitted_entity_types<D: Copy, I: Copy>(
    read: &Vec<QueuedEntityType<D, I>>,
    permissions: &HashMap<u128, bool>,
) -> (r: Vec<QueuedEntityType<D, I>>)
    ensures
        r@ == read@.filter(entity_type_permitted(permissions@)),
{
    let mut r: Vec<QueuedEntityType<D, I>> = Vec::new();
    let mut j: usize = 0;
    while j < read.len()
        invariant
            j <= read.len(),
            r@ == read@.take(j as int).filter(entity_type_permitted(permissions@)),
        decreases read.len() - j,
    {
        proof {
            assert(read@.take(j + 1) =~= read@.take(j as int).push(read@[j as int]));
            read@.take(j as int).lemma_filter_push(read@[j as int], entity_type_permitted(permissions@));
        }
        let q = read[j];
        let granted = match permissions.get(&q.id) {
            Some(granted) => *granted,
            None => false,
        };
        if granted {
            r.push(q);
        }
        j = j + 1;
    }
    assert(read@.take(read@.len() as int) =~= read@);
    r
}

fn permitted_property_types<D: Copy, I: Copy>(read: &Vec<(u128, D, I)>, permissions: &HashMap<u128, bool>) -> (r:
    Vec<(u128, D, I)>)
    ensures
        r@ == read@.filter(property_type_permitted(permissions@)),
{
    let mut r: Vec<(u128, D, I)> = Vec::new();
    let mut j: usize = 0;
    while j < read.len()
        invariant
            j <= read.len(),
            r@ == read@.take(j as int).filter(property_type_permitted(permissions@)),
        decreases read.len() - j,
    {
        proof {
            assert(read@.take(j + 1) =~= read@.take(j as int).push(read@[j as int]));
            read@.take(j as int).lemma_filter_push(read@[j as int], property_type_permitted(permissions@));
        }
        let p = read[j];
        let granted = match permissions.get(&p.0) {
            Some(granted) => *granted,
            None => false,
        };
        if granted {
            r.push(p);
        }
        j = j + 1;
    }
    assert(read@.take(read@.len() as int) =~= read@);
    r
}

fn select<T: Copy>(entries: &Vec<T>, mask: &Vec<bool>) -> (r: Vec<T>)
    ensures
        r@ == selected(entries@, mask@),
{
    let mut r: Vec<T> = Vec::new();
    let mut j: usize = 0;
    while j < entries.len()
        invariant
            j <= entries.len(),
            r@ == selected(entries@.take(j as int), mask@),
        decreases entries.len() - j,
    {
        proof {
            let t = entries@.take(j + 1);
            assert(t.drop_last() =~= entries@.take(j as int));
            assert(t.last() == entries@[j as int]);
        }
        if j < mask.len() && mask[j] {
            r.push(entries[j]);
        }
        j = j + 1;
    }
    assert(entries@.take(entries@.len() as int) =~= entries@);
    r
}

fn ids_of_entity_types<D: Copy, I: Copy>(read: &Vec<QueuedEntityType<D, I>>) -> (ids: Vec<u128>)
    ensures
        ids@ == read@.map_values(|q: QueuedEntityType<D, I>| q.id),
{
    let mut ids: Vec<u128> = Vec::new();
    let mut j: usize = 0;
    while j < read.len()
        invariant
            j <= read.len(),
            ids@ == read@.take(j as int).map_values(|q: QueuedEntityType<D, I>| q.id),
        decreases read.len() - j,
    {
        ids.push(read[j].id);
        proof {
            assert(read@.take(j + 1).map_values(|q: QueuedEntityType<D, I>| q.id) =~= read@.take(j as int).map_values(
                |q: QueuedEntityType<D, I>| q.id,
            ).push(read@[j as int].id));
        }
        j = j + 1;
    }
    assert(read@.take(read@.len() as int) =~= read@);
    ids
}

fn ids_of_property_types<D: Copy, I: Copy>(read: &Vec<(u128, D, I)>) -> (ids: Vec<u128>)
    ensures
        ids@ == read@.map_values(|p: (u128, D, I)| p.0),
{
    let mut ids: Vec<u128> = Vec::new();
    let mut j: usize = 0;
    while j < read.len()
        invariant
            j <= read.len(),
            ids@ == read@.take(j as int).map_values(|p: (u128, D, I)| p.0),
        decreases read.len() - j,
    {
        ids.push(read[j].0);
        proof {
            assert(read@.take(j + 1).map_values(|p: (u128, D, I)| p.0) =~= read@.take(j as int).map_values(
                |p: (u128, D, I)| p.0,
            ).push(read@[j as int].0));
        }
        j = j + 1;
    }
    assert(read@.take(read@.len() as int) =~= read@);
    ids
}

fn queue_roots<D: Copy, I: Copy>(roots: &Vec<(u128, [Option<D>; 4], I)>) -> (q: Vec<QueuedEntityType<D, I>>)
    ensures
        q@ == roots@.map_values(queued_root()),
{
    let mut q: Vec<QueuedEntityType<D, I>> = Vec::new();
    let mut j: usize = 0;
    while j < roots.len()
        invariant
            j <= roots.len(),
            q@ == roots@.take(j as int).map_values(queued_root()),
        decreases roots.len() - j,
    {
        let (id, next_depths, interval) = roots[j];
        q.push(QueuedEntityType { id, next_depths, interval });
        proof {
            assert(roots@.take(j + 1).map_values(queued_root()) =~= roots@.take(j as int).map_values(queued_root()).push(
                queued_root()(roots@[j as int]),
            ));
        }
        j = j + 1;
    }
    assert(roots@.take(roots@.len() as int) =~= roots@);
    q
}

/// The subgraph of the entity types a query read, for the actor `actor_id`:
/// the roots are the types that the root check's answer `permissions`
/// permits, in order, and the traversal starts from exactly them, each with
/// the query's depths left after each edge kind and its interval, checking
/// the types it reaches at `snapshot`, the snapshot that answer was given at.
pub fn traversal_from_roots<V, D: Copy, I: Copy>(
    entity_types: Vec<(u128, V)>,
    permissions: &HashMap<u128, bool>,
    snapshot: Zookie,
    actor_id: u128,
    next_depths: [Option<D>; 4],
    interval: I,
) -> (r: (Vec<V>, TraversalStep<D, I>))
    ensures
        r.0@ == entity_types@.filter_map(permitted_entry(permissions@)),
        r.1@ == begin_round(
            initial_traversal::<D, I>(actor_id, snapshot),
            entity_types@.filter_map(permitted_queue_entry(permissions@, next_depths, interval)).map_values(
                queued_root(),
            ),
        ),
        r.1 matches TraversalStep::Continue(t, a) ==> traversal_wf(t@) && pending_action(t@, a),
{
    let (roots, queue) = permitted_roots(entity_types, permissions, next_depths, interval);
    let queue = queue_roots(&queue);
    (roots, EntityTypeTraversal::start(queue, actor_id, snapshot))
}

impl<D: Copy, I: Copy> EntityTypeTraversal<D, I> {
    fn begin_round(self, round: Vec<QueuedEntityType<D, I>>) -> (s: TraversalStep<D, I>)
        ensures
            s@ == begin_round(self@, round@),
    {
        let mut this = self;
        this.round = round;
        this.found = Vec::new();
        let kind = find_next_kind(&this.round, 0);
        if kind < 4 {
            this.kind = kind;
            this.phase = TraversalPhase::ReadingEdges;
            TraversalStep::Continue(this, TraversalAction::ReadEdges { kind })
        } else {
            this.phase = TraversalPhase::TraversingProperties;
            TraversalStep::Continue(this, TraversalAction::TraverseProperties)
        }
    }

    fn continue_round(self, kind: usize) -> (s: TraversalStep<D, I>)
        requires
            kind <= 4,
        ensures
            s@ == continue_round(self@, kind as int),
    {
        let mut this = self;
        let next = find_next_kind(&this.round, kind);
        if next < 4 {
            this.kind = next;
            this.phase = TraversalPhase::ReadingEdges;
            TraversalStep::Continue(this, TraversalAction::ReadEdges { kind: next })
        } else if this.found.len() > 0 {
            let mut found = Vec::new();
            std::mem::swap(&mut found, &mut this.found);
            this.begin_round(found)
        } else {
            this.phase = TraversalPhase::TraversingProperties;
            TraversalStep::Continue(this, TraversalAction::TraverseProperties)
        }
    }

    /// The first step of a traversal, for the actor `actor_id`, of the
    /// entity types `queue`, whose reached types are checked at `snapshot`.
    pub fn start(queue: Vec<QueuedEntityType<D, I>>, actor_id: u128, snapshot: Zookie) -> (s: TraversalStep<D, I>)
        ensures
            s@ == begin_round(initial_traversal(actor_id, snapshot), queue@),
            s matches TraversalStep::Continue(t, a) ==> traversal_wf(t@) && pending_action(t@, a),
    {
        let t = EntityTypeTraversal::<D, I> {
            actor_id,
            snapshot,
            round: Vec::new(),
            found: Vec::new(),
            property_types: Vec::new(),
            read_entity_types: Vec::new(),
            read_property_types: Vec::new(),
            permitted_entity_types: Vec::new(),
            permitted_property_types: Vec::new(),
            granted: Ghost(Set::empty()),
            kind: 0,
            phase: TraversalPhase::ReadingEdges,
        };
        proof {
            lemma_next_kind_bounds(queue@, 0);
        }
        t.begin_round(queue)
    }

    /// The edges of the pending kind to read.
    pub fn edges(&self) -> (g: Vec<(u128, D, I)>)
        requires
            traversal_wf(self@),
            self@.phase is ReadingEdges,
        ensures
            g@ == group(self@.round, self@.kind),
    {
        edges_of_kind(&self.round, self.kind)
    }

    /// The request for the permissions on the types the edges read reach:
    /// the View permission of the actor on their ids, in order, at the
    /// traversal's snapshot.
    pub fn permission_check(&self) -> (c: TraversalPermissionCheck)
        requires
            self@.phase is CheckingPermissions,
        ensures
            c.actor_id == self@.actor_id,
            c.kind == self@.kind,
            c.ids@ == if self@.kind == CONSTRAINS_PROPERTIES_ON {
                self@.read_property_types.map_values(|p: (u128, D, I)| p.0)
            } else {
                self@.read_entity_types.map_values(|q: QueuedEntityType<D, I>| q.id)
            },
            c.snapshot == self@.snapshot,
    {
        let ids = if self.kind == CONSTRAINS_PROPERTIES_ON {
            ids_of_property_types(&self.read_property_types)
        } else {
            ids_of_entity_types(&self.read_entity_types)
        };
        TraversalPermissionCheck { actor_id: self.actor_id, kind: self.kind, ids, snapshot: self.snapshot.duplicate() }
    }

    /// The permitted property type edges to link.
    pub fn permitted_property_types(&self) -> (p: &Vec<(u128, D, I)>)
        ensures
            p@ == self@.permitted_property_types,
    {
        &self.permitted_property_types
    }

    /// The permitted entity type edges to link.
    pub fn permitted_entity_types(&self) -> (p: &Vec<QueuedEntityType<D, I>>)
        ensures
            p@ == self@.permitted_entity_types,
    {
        &self.permitted_entity_types
    }

    /// The property types found so far.
    pub fn property_types(&self) -> (p: &Vec<(u128, D, I)>)
        ensures
            p@ == self@.property_types,
    {
        &self.property_types
    }

    /// The step that follows the answer `event` to the pending action.
    pub fn step(self, event: TraversalEvent<D, I>) -> (s: TraversalStep<D, I>)
        requires
            traversal_wf(self@),
        ensures
            s@ == traversal_step(self@, event),
            s matches TraversalStep::Continue(t, a) ==> traversal_wf(t@) && pending_action(t@, a),
    {
        proof {
            law_traversal_step_keeps_wf(self@, event);
        }
        let mut this = self;
        match this.phase {
            TraversalPhase::ReadingEdges => match event {
                TraversalEvent::PropertyEdgesRead(read) => {
                    if this.kind == CONSTRAINS_PROPERTIES_ON {
                        this.read_property_types = read;
                        this.phase = TraversalPhase::CheckingPermissions;
                        let kind = this.kind;
                        TraversalStep::Continue(this, TraversalAction::CheckPermissions { kind })
                    } else {
                        TraversalStep::Finished(false)
                    }
                },
                TraversalEvent::EntityEdgesRead(read) => {
                    if this.kind != CONSTRAINS_PROPERTIES_ON {
                        this.read_entity_types = read;
                        this.phase = TraversalPhase::CheckingPermissions;
                        let kind = this.kind;
                        TraversalStep::Continue(this, TraversalAction::CheckPermissions { kind })
                    } else {
                        TraversalStep::Finished(false)
                    }
                },
                _ => TraversalStep::Finished(false),
            },
            TraversalPhase::CheckingPermissions => match event {
                TraversalEvent::Permissions(permissions) => {
                    if this.kind == CONSTRAINS_PROPERTIES_ON {
                        this.permitted_property_types = permitted_property_types(&this.read_property_types, &permissions);
                    } else {
                        this.permitted_entity_types = permitted_entity_types(&this.read_entity_types, &permissions);
                    }
                    this.granted = Ghost(this.granted@.union(granted_by(permissions@)));
                    this.phase = TraversalPhase::LinkingEdges;
                    let kind = this.kind;
                    TraversalStep::Continue(this, TraversalAction::LinkEdges { kind })
                },
                _ => TraversalStep::Finished(false),
            },
            TraversalPhase::LinkingEdges => match event {
                TraversalEvent::Linked(new) => {
                    if this.kind == CONSTRAINS_PROPERTIES_ON {
                        let mut linked = select(&this.permitted_property_types, &new);
                        this.property_types.append(&mut linked);
                    } else {
                        let mut linked = select(&this.permitted_entity_types, &new);
                        this.found.append(&mut linked);
                    }
                    let kind = this.kind + 1;
                    this.continue_round(kind)
                },
                _ => TraversalStep::Finished(false),
            },
            TraversalPhase::TraversingProperties => match event {
                TraversalEvent::Succeeded => TraversalStep::Finished(true),
                _ => TraversalStep::Finished(false),
            },
        }
    }
}

} // verus!
