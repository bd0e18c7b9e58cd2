//! The decisions of writing entity types: which webs must grant the
//! permission to create a type, which relations a new or updated type gets,
//! what a finished creation returns, and what is undone when the store's
//! transaction fails to commit.
use vstd::prelude::*;
use crate::entity_query::Timestamp;
use crate::entity_type::previous_version;
use crate::ontology_types::{BaseUrl, VersionedUrl, VersionedUrlView};

verus! {

/// Who an ontology type belongs to: a web of the graph, or an outside source
/// it was fetched from.
#[derive(Debug, Copy, Clone, PartialEq, Eq, Structural)]
pub enum Classification {
    Owned { owned_by_id: u128 },
    External { fetched_at: Timestamp },
}

/// A relation of an entity type to a subject in the authorization service.
#[derive(Debug, Copy, Clone, PartialEq, Eq, Structural)]
pub enum Relation {
    /// The web `web` owns the entity type.
    Owner { web: u128, level: u8 },
    /// Any other relation, by its number, to the subject `subject`.
    Other { relation: u32, subject: u128, level: u8 },
}

/// The owner relation a web gets on the entity types it owns.
pub open spec fn owner_of(web: u128) -> Relation {
    Relation::Owner { web, level: 0 }
}

/// The web that must grant the permission to create an entity type of this
/// classification: the owning web of an owned type, none for an external one.
pub fn web_needing_permission(c: Classification) -> (w: Option<u128>)
    ensures
        w == match c {
            Classification::Owned { owned_by_id } => Some(owned_by_id),
            _ => None,
        },
{
    match c {
        Classification::Owned { owned_by_id } => Some(owned_by_id),
        Classification::External { .. } => None,
    }
}

/// Whether the relation `p.1` on the entity type `p.0` is one that creating
/// the type `entry` with the `requested` relations writes: a requested
/// relation on it, or the owner relation of its web when it is owned.
pub open spec fn type_relation(entry: (u128, Classification), requested: Seq<Relation>, p: (u128, Relation)) -> bool {
    p.0 == entry.0 && (requested.contains(p.1) || match entry.1 {
        Classification::Owned { owned_by_id } => p.1 == owner_of(owned_by_id),
        Classification::External { .. } => false,
    })
}

/// Whether creating `types` with the `requested` relations writes the
/// relation `p.1` on the entity type `p.0`.
pub open spec fn relation_to_create(
    types: Seq<(u128, Classification)>,
    requested: Seq<Relation>,
    p: (u128, Relation),
) -> bool {
    exists|i: int| 0 <= i < types.len() && #[trigger] type_relation(types[i], requested, p)
}

proof fn lemma_take_succ_contains<A>(s: Seq<A>, k: int, x: A)
    requires
        0 <= k < s.len(),
    ensures
        s.take(k + 1).contains(x) <==> (s.take(k).contains(x) || x == s[k]),
{
    let a = s.take(k);
    let b = s.take(k + 1);
    assert(b =~= a.push(s[k]));
    if b.contains(x) && x != s[k] {
        let j = choose|j: int| 0 <= j < b.len() && #[trigger] b[j] == x;
        assert(a[j] == x);
    }
    if a.contains(x) {
        let j = choose|j: int| 0 <= j < a.len() && #[trigger] a[j] == x;
        assert(b[j] == x);
    }
    if x == s[k] {
        assert(b[k] == x);
    }
}

proof fn lemma_relations_take_succ(
    types: Seq<(u128, Classification)>,
    requested: Seq<Relation>,
    i: int,
    p: (u128, Relation),
)
    requires
        0 <= i < types.len(),
    ensures
        relation_to_create(types.take(i + 1), requested, p) <==> (relation_to_create(types.take(i), requested, p)
            || type_relation(types[i], requested, p)),
{
    let a = types.take(i);
    let b = types.take(i + 1);
    if relation_to_create(b, requested, p) {
        let j = choose|j: int| 0 <= j < b.len() && #[trigger] type_relation(b[j], requested, p);
        if j < i {
            assert(a[j] == b[j]);
        }
    }
    if relation_to_create(a, requested, p) {
        let j = choose|j: int| 0 <= j < a.len() && #[trigger] type_relation(a[j], requested, p);
        assert(b[j] == a[j]);
    }
    if type_relation(types[i], requested, p) {
        assert(b[i] == types[i]);
    }
}

fn contains_pair(pairs: &Vec<(u128, Relation)>, p: (u128, Relation)) -> (found: bool)
    ensures
        found == pairs@.contains(p),
{
    let mut k: usize = 0;
    while k < pairs.len()
        invariant
            k <= pairs.len(),
            forall|j: int| 0 <= j < k ==> pairs@[j] != p,
        decreases pairs.len() - k,
    {
        let q = pairs[k];
        if q.0 == p.0 && q.1 == p.1 {
            assert(pairs@[k as int] == p);
            return true;
        }
        k = k + 1;
    }
    false
}

fn push_new(pairs: &mut Vec<(u128, Relation)>, p: (u128, Relation))
    requires
        old(pairs)@.no_duplicates(),
    ensures
        final(pairs)@.no_duplicates(),
        forall|q: (u128, Relation)| #[trigger] final(pairs)@.contains(q) <==> (old(pairs)@.contains(q) || q == p),
{
    if !contains_pair(pairs, p) {
        pairs.push(p);
        proof {
            assert forall|q: (u128, Relation)| pairs@.contains(q) <==> (old(pairs)@.contains(q) || q == p) by {
                if pairs@.contains(q) {
                    let j = choose|j: int| 0 <= j < pairs@.len() && pairs@[j] == q;
                    if j < old(pairs)@.len() {
                        assert(old(pairs)@[j] == q);
                    }
                }
                if old(pairs)@.contains(q) {
                    let j = choose|j: int| 0 <= j < old(pairs)@.len() && old(pairs)@[j] == q;
                    assert(pairs@[j] == q);
                }
                if q == p {
                    assert(pairs@[old(pairs)@.len() as int] == q);
                }
            }
        }
    }
}

/// The relations that creating `types` writes, each pair once: the owner
/// relation of every owned type's web, and every requested relation on every
/// type.
pub fn relations_to_create(types: &Vec<(u128, Classification)>, requested: &Vec<Relation>) -> (r: Vec<
    (u128, Relation),
>)
    ensures
        r@.no_duplicates(),
        forall|p: (u128, Relation)| #[trigger] r@.contains(p) <==> relation_to_create(types@, requested@, p),
{
    let mut r: Vec<(u128, Relation)> = Vec::new();
    let mut i: usize = 0;
    while i < types.len()
        invariant
            i <= types.len(),
            r@.no_duplicates(),
            forall|p: (u128, Relation)| #[trigger] r@.contains(p) <==> relation_to_create(types@.take(i as int), requested@, p),
        decreases types.len() - i,
    {
        let (id, classification) = types[i];
        if let Classification::Owned { owned_by_id } = classification {
            push_new(&mut r, (id, Relation::Owner { web: owned_by_id, level: 0 }));
        }
        let ghost with_owner = r@;
        let mut k: usize = 0;
        while k < requested.len()
            invariant
                i < types.len(),
                k <= requested.len(),
                r@.no_duplicates(),
                forall|p: (u128, Relation)| #[trigger] r@.contains(p) <==> (with_owner.contains(p) || (p.0 == id
                    && requested@.take(k as int).contains(p.1))),
            decreases requested.len() - k,
        {
            push_new(&mut r, (id, requested[k]));
            proof {
                assert forall|p: (u128, Relation)| r@.contains(p) <==> (with_owner.contains(p) || (p.0 == id
                    && requested@.take(k + 1).contains(p.1))) by {
                    lemma_take_succ_contains(requested@, k as int, p.1);
                    assert(p == (id, requested@[k as int]) <==> (p.0 == id && p.1 == requested@[k as int]));
                }
            }
            k = k + 1;
        }
        proof {
            assert(requested@.take(requested@.len() as int) =~= requested@);
            assert forall|p: (u128, Relation)| r@.contains(p) <==> relation_to_create(types@.take(i + 1), requested@, p) by {
                lemma_relations_take_succ(types@, requested@, i as int, p);
                assert(types@[i as int] == (id, classification));
            }
        }
        i = i + 1;
    }
    assert(types@.take(types@.len() as int) =~= types@);
    r
}

/// The relations an updated entity type gets: the requested ones, then the
/// owner relation of the web that owns it.
pub fn update_relations(requested: Vec<Relation>, owned_by_id: u128) -> (r: Vec<Relation>)
    ensures
        r@ == requested@.push(owner_of(owned_by_id)),
{
    let mut r = requested;
    r.push(Relation::Owner { web: owned_by_id, level: 0 });
    r
}

/// A type that a creation inserted: its position among the types to create,
/// the ontology id the store gave it and the start of its transaction time.
#[derive(Debug, Copy, Clone, PartialEq, Eq, Structural)]
pub struct InsertedEntityType {
    pub index: usize,
    pub ontology_id: u128,
    pub transaction_time: Timestamp,
}

/// Where a creation of entity types stands.
#[derive(Debug, Copy, Clone, PartialEq, Eq, Structural)]
pub enum CreationPhase {
    /// Waiting for the owning web of the current type to grant the permission.
    CheckingPermission,
    /// Waiting for the store to create the metadata of the current type.
    CreatingMetadata,
    /// Waiting for the store to insert the current type under its new id.
    InsertingType { ontology_id: u128, transaction_time: Timestamp },
    /// Waiting for the references of the inserted type at `position`.
    InsertingReferences { position: usize },
    /// Waiting for the authorization service to create the relations.
    CreatingRelations,
    /// Waiting for the transaction to commit.
    Committing,
    /// The commit failed; waiting for the relations to be deleted again.
    DeletingRelations,
    /// Waiting for the embeddings workflow of the inserted types to start.
    StartingEmbeddings,
}

/// What a creation of entity types asks its driver to do next.
#[derive(Debug, Copy, Clone, PartialEq, Eq, Structural)]
pub enum CreationAction {
    /// Ask whether the actor may create entity types in the web `web`.
    CheckWebPermission { web: u128 },
    /// Create the metadata of the type at `index`, unless it exists.
    CreateMetadata { index: usize },
    /// Insert the type at `index` under the ontology id `ontology_id`.
    InsertEntityType { index: usize, ontology_id: u128 },
    /// Insert the references of the type at `index`.
    InsertReferences { index: usize, ontology_id: u128 },
    /// Create the relations of the creation in the authorization service.
    CreateRelations,
    /// Commit the transaction.
    Commit,
    /// Delete the relations of the creation from the authorization service.
    DeleteRelations,
    /// Start the embeddings workflow for the inserted types.
    StartEmbeddings,
}

/// What the driver reports back after performing an action.
#[derive(Debug, Copy, Clone, PartialEq, Eq, Structural)]
pub enum CreationEvent {
    /// The permission was granted.
    Granted,
    /// The permission was denied.
    Denied,
    /// The metadata was created, with this id and transaction time.
    MetadataCreated { ontology_id: u128, transaction_time: Timestamp },
    /// The metadata existed already, so the type is not inserted again.
    MetadataExisted,
    /// The action succeeded.
    Succeeded,
    /// The action failed.
    Failed,
}

/// Why a creation of entity types failed.
#[derive(Debug, Copy, Clone, PartialEq, Eq, Structural)]
pub enum CreationError {
    /// An owning web did not grant the permission to create the type.
    PermissionDenied,
    /// An action failed, or its answer did not fit it.
    Failed,
    /// The transaction did not commit; the relations were deleted again,
    /// unless `rollback_failed`.
    CommitFailed { rollback_failed: bool },
}

/// The state of a creation of entity types, as its contracts see it.
pub struct CreationView {
    pub types: Seq<(u128, Classification)>,
    pub relations: Seq<(u128, Relation)>,
    pub with_embeddings: bool,
    pub next: int,
    pub inserted: Seq<InsertedEntityType>,
    pub phase: CreationPhase,
}

/// What one step of a creation leads to, as its contracts see it.
pub enum CreationOutcome {
    Continue(CreationView, CreationAction),
    Finished(Result<Seq<InsertedEntityType>, CreationError>),
}

/// Creating entity types, one decision at a time: the driver performs each
/// action and hands the answer back to `step`.
pub struct EntityTypeCreation {
    types: Vec<(u128, Classification)>,
    relations: Vec<(u128, Relation)>,
    with_embeddings: bool,
    next: usize,
    inserted: Vec<InsertedEntityType>,
    phase: CreationPhase,
}

/// What one step of a creation leads to.
pub enum CreationStep {
    Continue(EntityTypeCreation, CreationAction),
    Finished(Result<Vec<InsertedEntityType>, CreationError>),
}

impl View for EntityTypeCreation {
    type V = CreationView;

    closed spec fn view(&self) -> CreationView {
        CreationView {
            types: self.types@,
            relations: self.relations@,
            with_embeddings: self.with_embeddings,
            next: self.next as int,
            inserted: self.inserted@,
            phase: self.phase,
        }
    }
}

impl View for CreationStep {
    type V = CreationOutcome;

    open spec fn view(&self) -> CreationOutcome {
        match self {
            CreationStep::Continue(m, a) => CreationOutcome::Continue(m@, *a),
            CreationStep::Finished(Ok(v)) => CreationOutcome::Finished(Ok(v@)),
            CreationStep::Finished(Err(e)) => CreationOutcome::Finished(Err(*e)),
        }
    }
}

/// The state `v` in the phase `phase`.
pub open spec fn with_phase(v: CreationView, phase: CreationPhase) -> CreationView {
    CreationView { phase, ..v }
}

/// Whether the positions of `inserted` rise strictly and stay below `next`.
pub open spec fn inserted_in_order(inserted: Seq<InsertedEntityType>, next: int) -> bool {
    &&& forall|a: int, b: int| 0 <= a < b < inserted.len() ==> inserted[a].index < inserted[b].index
    &&& forall|a: int| 0 <= a < inserted.len() ==> inserted[a].index < next
}

/// The part of a creation's well-formedness that holds in every phase.
pub open spec fn creation_progress_wf(v: CreationView) -> bool {
    &&& 0 <= v.next <= v.types.len() <= usize::MAX
    &&& v.inserted.len() <= v.next
    &&& inserted_in_order(v.inserted, v.next)
}

/// The well-formedness of a creation: its progress, and what its phase needs.
pub open spec fn creation_wf(v: CreationView) -> bool {
    &&& creation_progress_wf(v)
    &&& match v.phase {
        CreationPhase::CheckingPermission => v.next < v.types.len() && v.types[v.next].1 is Owned,
        CreationPhase::CreatingMetadata => v.next < v.types.len(),
        CreationPhase::InsertingType { .. } => v.next < v.types.len(),
        CreationPhase::InsertingReferences { position } => v.next == v.types.len() && position < v.inserted.len(),
        CreationPhase::StartingEmbeddings => v.next == v.types.len() && v.with_embeddings,
        _ => v.next == v.types.len(),
    }
}

/// The step that handles the references of the inserted types from
/// `position` on, then creates the relations.
pub open spec fn references_from(v: CreationView, position: int) -> CreationOutcome {
    if position < v.inserted.len() {
        CreationOutcome::Continue(
            with_phase(v, CreationPhase::InsertingReferences { position: position as usize }),
            CreationAction::InsertReferences {
                index: v.inserted[position].index,
                ontology_id: v.inserted[position].ontology_id,
            },
        )
    } else {
        CreationOutcome::Continue(with_phase(v, CreationPhase::CreatingRelations), CreationAction::CreateRelations)
    }
}

/// The step that handles the type at `v.next`: an owned type first needs its
/// web's permission; past the last type come the references.
pub open spec fn enter(v: CreationView) -> CreationOutcome {
    if v.next < v.types.len() {
        match v.types[v.next].1 {
            Classification::Owned { owned_by_id } => CreationOutcome::Continue(
                with_phase(v, CreationPhase::CheckingPermission),
                CreationAction::CheckWebPermission { web: owned_by_id },
            ),
            Classification::External { .. } => CreationOutcome::Continue(
                with_phase(v, CreationPhase::CreatingMetadata),
                CreationAction::CreateMetadata { index: v.next as usize },
            ),
        }
    } else {
        references_from(v, 0)
    }
}

/// The state after the type at `v.next` was handled, with `inserted` as the
/// inserted types.
pub open spec fn advanced(v: CreationView, inserted: Seq<InsertedEntityType>) -> CreationView {
    CreationView { next: v.next + 1, inserted, ..v }
}

/// The failure that ends a creation whose action failed.
pub open spec fn failed() -> CreationOutcome {
    CreationOutcome::Finished(Err(CreationError::Failed))
}

/// One step of a creation: the state `v` gets the answer `e` to its pending
/// action.
pub open spec fn creation_step(v: CreationView, e: CreationEvent) -> CreationOutcome {
    match v.phase {
        CreationPhase::CheckingPermission => match e {
            CreationEvent::Granted => CreationOutcome::Continue(
                with_phase(v, CreationPhase::CreatingMetadata),
                CreationAction::CreateMetadata { index: v.next as usize },
            ),
            CreationEvent::Denied => CreationOutcome::Finished(Err(CreationError::PermissionDenied)),
            _ => failed(),
        },
        CreationPhase::CreatingMetadata => match e {
            CreationEvent::MetadataCreated { ontology_id, transaction_time } => CreationOutcome::Continue(
                with_phase(v, CreationPhase::InsertingType { ontology_id, transaction_time }),
                CreationAction::InsertEntityType { index: v.next as usize, ontology_id },
            ),
            CreationEvent::MetadataExisted => enter(advanced(v, v.inserted)),
            _ => failed(),
        },
        CreationPhase::InsertingType { ontology_id, transaction_time } => match e {
            CreationEvent::Succeeded => enter(
                advanced(
                    v,
                    v.inserted.push(InsertedEntityType { index: v.next as usize, ontology_id, transaction_time }),
                ),
            ),
            _ => failed(),
        },
        CreationPhase::InsertingReferences { position } => match e {
            CreationEvent::Succeeded => references_from(v, position + 1),
            _ => failed(),
        },
        CreationPhase::CreatingRelations => match e {
            CreationEvent::Succeeded => CreationOutcome::Continue(
                with_phase(v, CreationPhase::Committing),
                CreationAction::Commit,
            ),
            _ => failed(),
        },
        CreationPhase::Committing => match e {
            CreationEvent::Succeeded => if v.with_embeddings {
                CreationOutcome::Continue(with_phase(v, CreationPhase::StartingEmbeddings), CreationAction::StartEmbeddings)
            } else {
                CreationOutcome::Finished(Ok(v.inserted))
            },
            _ => CreationOutcome::Continue(
                with_phase(v, CreationPhase::DeletingRelations),
                CreationAction::DeleteRelations,
            ),
        },
        CreationPhase::DeletingRelations => match e {
            CreationEvent::Succeeded => CreationOutcome::Finished(Err(CreationError::CommitFailed { rollback_failed: false })),
            _ => CreationOutcome::Finished(Err(CreationError::CommitFailed { rollback_failed: true })),
        },
        CreationPhase::StartingEmbeddings => match e {
            CreationEvent::Succeeded => CreationOutcome::Finished(Ok(v.inserted)),
            _ => failed(),
        },
    }
}

proof fn lemma_references_from_wf(v: CreationView, position: int)
    requires
        creation_progress_wf(v),
        v.next == v.types.len(),
        0 <= position,
    ensures
        references_from(v, position) matches CreationOutcome::Continue(w, _) ==> creation_wf(w) && w.types == v.types
            && w.relations == v.relations && w.with_embeddings == v.with_embeddings,
{
}

proof fn lemma_enter_wf(v: CreationView)
    requires
        creation_progress_wf(v),
    ensures
        enter(v) matches CreationOutcome::Continue(w, _) ==> creation_wf(w) && w.types == v.types
            && w.relations == v.relations && w.with_embeddings == v.with_embeddings,
{
    if v.next >= v.types.len() {
        lemma_references_from_wf(v, 0);
    }
}

/// Every step keeps a creation well formed, and never changes the types, the
/// relations or whether the embeddings are started: the relations deleted
/// after a failed commit are the ones that were created.
pub proof fn law_creation_step_keeps_wf(v: CreationView, e: CreationEvent)
    requires
        creation_wf(v),
    ensures
        creation_step(v, e) matches CreationOutcome::Continue(w, _) ==> creation_wf(w) && w.types == v.types
            && w.relations == v.relations && w.with_embeddings == v.with_embeddings,
{
    match v.phase {
        CreationPhase::CreatingMetadata => {
            if e is MetadataExisted {
                lemma_enter_wf(advanced(v, v.inserted));
            }
        },
        CreationPhase::InsertingType { ontology_id, transaction_time } => {
            if e is Succeeded {
                let ins = v.inserted.push(InsertedEntityType { index: v.next as usize, ontology_id, transaction_time });
                assert(inserted_in_order(ins, v.next + 1));
                lemma_enter_wf(advanced(v, ins));
            }
        },
        CreationPhase::InsertingReferences { position } => {
            lemma_references_from_wf(v, position + 1);
        },
        _ => {},
    }
}

impl EntityTypeCreation {
    /// A creation of `types`, each with its id and classification, that
    /// writes the `requested` relations on every type and starts the
    /// embeddings workflow when `with_embeddings`.
    pub fn new(types: Vec<(u128, Classification)>, requested: &Vec<Relation>, with_embeddings: bool) -> (m: Self)
        ensures
            m@.types == types@,
            m@.next == 0,
            m@.inserted == Seq::<InsertedEntityType>::empty(),
            m@.with_embeddings == with_embeddings,
            m@.relations.no_duplicates(),
            forall|p: (u128, Relation)| #[trigger] m@.relations.contains(p) <==> relation_to_create(types@, requested@, p),
            creation_progress_wf(m@),
    {
        let relations = relations_to_create(&types, requested);
        // At most one type is inserted per type to create.
        let count = types.len();
        EntityTypeCreation {
            types,
            relations,
            with_embeddings,
            next: 0,
            inserted: Vec::with_capacity(count),
            phase: CreationPhase::CreatingRelations,
        }
    }

    /// The relations this creation writes, and deletes again after a failed
    /// commit.
    pub fn relations(&self) -> (r: &Vec<(u128, Relation)>)
        ensures
            r@ == self@.relations,
    {
        &self.relations
    }

    /// The types inserted so far, in the order of the types to create.
    pub fn inserted(&self) -> (r: &Vec<InsertedEntityType>)
        ensures
            r@ == self@.inserted,
    {
        &self.inserted
    }

    fn references_from(self, position: usize) -> (s: CreationStep)
        requires
            creation_progress_wf(self@),
            self@.next == self@.types.len(),
        ensures
            s@ == references_from(self@, position as int),
    {
        let mut this = self;
        if position < this.inserted.len() {
            let inserted = this.inserted[position];
            this.phase = CreationPhase::InsertingReferences { position };
            CreationStep::Continue(
                this,
                CreationAction::InsertReferences { index: inserted.index, ontology_id: inserted.ontology_id },
            )
        } else {
            this.phase = CreationPhase::CreatingRelations;
            CreationStep::Continue(this, CreationAction::CreateRelations)
        }
    }

    fn enter(self) -> (s: CreationStep)
        requires
            creation_progress_wf(self@),
        ensures
            s@ == enter(self@),
    {
        let mut this = self;
        if this.next < this.types.len() {
            let (_, classification) = this.types[this.next];
            match classification {
                Classification::Owned { owned_by_id } => {
                    this.phase = CreationPhase::CheckingPermission;
                    CreationStep::Continue(this, CreationAction::CheckWebPermission { web: owned_by_id })
                },
                Classification::External { .. } => {
                    this.phase = CreationPhase::CreatingMetadata;
                    let index = this.next;
                    CreationStep::Continue(this, CreationAction::CreateMetadata { index })
                },
            }
        } else {
            this.references_from(0)
        }
    }

    /// The first step of the creation.
    pub fn begin(self) -> (s: CreationStep)
        requires
            creation_progress_wf(self@),
        ensures
            s@ == enter(self@),
            s matches CreationStep::Continue(m, _) ==> creation_wf(m@),
    {
        proof {
            lemma_enter_wf(self@);
        }
        self.enter()
    }

    /// The step that follows the answer `event` to the pending action.
    pub fn step(self, event: CreationEvent) -> (s: CreationStep)
        requires
            creation_wf(self@),
        ensures
            s@ == creation_step(self@, event),
            s matches CreationStep::Continue(m, _) ==> creation_wf(m@),
    {
        proof {
            law_creation_step_keeps_wf(self@, event);
        }
        let ghost v = self@;
        let mut this = self;
        match this.phase {
            CreationPhase::CheckingPermission => match event {
                CreationEvent::Granted => {
                    this.phase = CreationPhase::CreatingMetadata;
                    let index = this.next;
                    CreationStep::Continue(this, CreationAction::CreateMetadata { index })
                },
                CreationEvent::Denied => CreationStep::Finished(Err(CreationError::PermissionDenied)),
                _ => CreationStep::Finished(Err(CreationError::Failed)),
            },
            CreationPhase::CreatingMetadata => match event {
                CreationEvent::MetadataCreated { ontology_id, transaction_time } => {
                    this.phase = CreationPhase::InsertingType { ontology_id, transaction_time };
                    let index = this.next;
                    CreationStep::Continue(this, CreationAction::InsertEntityType { index, ontology_id })
                },
                CreationEvent::MetadataExisted => {
                    this.next = this.next + 1;
                    assert(this@ == advanced(v, v.inserted));
                    this.enter()
                },
                _ => CreationStep::Finished(Err(CreationError::Failed)),
            },
            CreationPhase::InsertingType { ontology_id, transaction_time } => match event {
                CreationEvent::Succeeded => {
                    this.inserted.push(InsertedEntityType { index: this.next, ontology_id, transaction_time });
                    this.next = this.next + 1;
                    assert(this@ == advanced(
                        v,
                        v.inserted.push(InsertedEntityType { index: v.next as usize, ontology_id, transaction_time }),
                    ));
                    this.enter()
                },
                _ => CreationStep::Finished(Err(CreationError::Failed)),
            },
            CreationPhase::InsertingReferences { position } => match event {
                CreationEvent::Succeeded => this.references_from(position + 1),
                _ => CreationStep::Finished(Err(CreationError::Failed)),
            },
            CreationPhase::CreatingRelations => match event {
                CreationEvent::Succeeded => {
                    this.phase = CreationPhase::Committing;
                    CreationStep::Continue(this, CreationAction::Commit)
                },
                _ => CreationStep::Finished(Err(CreationError::Failed)),
            },
            CreationPhase::Committing => match event {
                CreationEvent::Succeeded => {
                    if this.with_embeddings {
                        this.phase = CreationPhase::StartingEmbeddings;
                        CreationStep::Continue(this, CreationAction::StartEmbeddings)
                    } else {
                        CreationStep::Finished(Ok(this.inserted))
                    }
                },
                _ => {
                    this.phase = CreationPhase::DeletingRelations;
                    CreationStep::Continue(this, CreationAction::DeleteRelations)
                },
            },
            CreationPhase::DeletingRelations => match event {
                CreationEvent::Succeeded => CreationStep::Finished(
                    Err(CreationError::CommitFailed { rollback_failed: false }),
                ),
                _ => CreationStep::Finished(Err(CreationError::CommitFailed { rollback_failed: true })),
            },
            CreationPhase::StartingEmbeddings => match event {
                CreationEvent::Succeeded => CreationStep::Finished(Ok(this.inserted)),
                _ => CreationStep::Finished(Err(CreationError::Failed)),
            },
        }
    }
}

/// A web that denies the permission ends the creation at once with
/// `PermissionDenied`: nothing is committed and no relation is written.
pub proof fn law_denied_permission_ends_creation(v: CreationView)
    requires
        creation_wf(v),
        v.phase is CheckingPermission,
    ensures
        creation_step(v, CreationEvent::Denied) == CreationOutcome::Finished(Err(CreationError::PermissionDenied)),
{
}

/// The metadata of an owned type is created only after its web granted the
/// permission.
pub proof fn law_owned_type_needs_grant(v: CreationView, e: CreationEvent)
    requires
        creation_wf(v),
        creation_step(v, e) matches CreationOutcome::Continue(w, CreationAction::CreateMetadata { index })
            && w.types[index as int].1 is Owned,
    ensures
        v.phase is CheckingPermission,
        e == CreationEvent::Granted,
{
}

/// The relations are created only once every type was handled.
pub proof fn law_relations_follow_every_type(v: CreationView, e: CreationEvent)
    requires
        creation_wf(v),
        creation_step(v, e) matches CreationOutcome::Continue(w, CreationAction::CreateRelations),
    ensures
        creation_step(v, e) matches CreationOutcome::Continue(w, _) && w.next == w.types.len(),
{
    law_creation_step_keeps_wf(v, e);
}

/// A type is inserted exactly when the store created its metadata: its
/// position, id and transaction time are appended to the inserted types once
/// it is inserted, and a type whose metadata existed is skipped.
pub proof fn law_created_metadata_inserts_type(v: CreationView, ontology_id: u128, transaction_time: Timestamp)
    requires
        creation_wf(v),
        v.phase is CreatingMetadata,
    ensures
        creation_step(v, CreationEvent::MetadataCreated { ontology_id, transaction_time }) == CreationOutcome::Continue(
            with_phase(v, CreationPhase::InsertingType { ontology_id, transaction_time }),
            CreationAction::InsertEntityType { index: v.next as usize, ontology_id },
        ),
        creation_step(with_phase(v, CreationPhase::InsertingType { ontology_id, transaction_time }), CreationEvent::Succeeded)
            == enter(advanced(v, v.inserted.push(InsertedEntityType { index: v.next as usize, ontology_id, transaction_time }))),
        creation_step(v, CreationEvent::MetadataExisted) == enter(advanced(v, v.inserted)),
{
}

/// A creation that succeeds returns the inserted types, in the order of the
/// types to create, after every type was handled.
pub proof fn law_success_returns_inserted(v: CreationView, e: CreationEvent)
    requires
        creation_wf(v),
        creation_step(v, e) is Finished,
        creation_step(v, e)->Finished_0 is Ok,
    ensures
        creation_step(v, e)->Finished_0 == Ok::<Seq<InsertedEntityType>, CreationError>(v.inserted),
        v.next == v.types.len(),
        inserted_in_order(v.inserted, v.types.len() as int),
{
}

/// A failed commit deletes the relations of the creation, which are the ones
/// it created, and then fails with `CommitFailed`.
pub proof fn law_failed_commit_deletes_relations(v: CreationView, e: CreationEvent, after: CreationEvent)
    requires
        creation_wf(v),
        v.phase is Committing,
        e != CreationEvent::Succeeded,
    ensures
        creation_step(v, e) == CreationOutcome::Continue(
            with_phase(v, CreationPhase::DeletingRelations),
            CreationAction::DeleteRelations,
        ),
        creation_step(with_phase(v, CreationPhase::DeletingRelations), after) == CreationOutcome::Finished(
            Err(CreationError::CommitFailed { rollback_failed: after != CreationEvent::Succeeded }),
        ),
{
}

/// The references of every inserted type are inserted, one type after the
/// other in the order they were inserted: after the references of the type
/// at `position`, those of the next inserted type follow; only after the last
/// one are the relations created.
pub proof fn law_references_of_every_inserted_type(v: CreationView, position: usize)
    requires
        creation_wf(v),
        v.phase == (CreationPhase::InsertingReferences { position }),
    ensures
        position + 1 < v.inserted.len() ==> creation_step(v, CreationEvent::Succeeded) == CreationOutcome::Continue(
            CreationView { phase: CreationPhase::InsertingReferences { position: (position + 1) as usize }, ..v },
            CreationAction::InsertReferences {
                index: v.inserted[position + 1].index,
                ontology_id: v.inserted[position + 1].ontology_id,
            },
        ),
        position + 1 == v.inserted.len() ==> creation_step(v, CreationEvent::Succeeded) == CreationOutcome::Continue(
            CreationView { phase: CreationPhase::CreatingRelations, ..v },
            CreationAction::CreateRelations,
        ),
{
}

/// Once every type was handled, the references come first, starting with
/// the first inserted type; a creation that inserted nothing goes straight
/// to the relations.
pub proof fn law_references_start_with_first_inserted(v: CreationView)
    requires
        creation_progress_wf(v),
        v.next == v.types.len(),
    ensures
        v.inserted.len() > 0 ==> enter(v) == CreationOutcome::Continue(
            CreationView { phase: CreationPhase::InsertingReferences { position: 0 }, ..v },
            CreationAction::InsertReferences { index: v.inserted[0].index, ontology_id: v.inserted[0].ontology_id },
        ),
        v.inserted.len() == 0 ==> enter(v) == CreationOutcome::Continue(
            CreationView { phase: CreationPhase::CreatingRelations, ..v },
            CreationAction::CreateRelations,
        ),
{
}

/// After the relations are created the transaction is committed; a commit
/// that succeeds either starts the embeddings workflow or returns the
/// inserted types, and a started workflow returns them too.
pub proof fn law_committed_creation_returns_inserted(v: CreationView)
    requires
        creation_wf(v),
    ensures
        v.phase is CreatingRelations ==> creation_step(v, CreationEvent::Succeeded) == CreationOutcome::Continue(
            CreationView { phase: CreationPhase::Committing, ..v },
            CreationAction::Commit,
        ),
        v.phase is Committing && v.with_embeddings ==> creation_step(v, CreationEvent::Succeeded)
            == CreationOutcome::Continue(
            CreationView { phase: CreationPhase::StartingEmbeddings, ..v },
            CreationAction::StartEmbeddings,
        ),
        v.phase is Committing && !v.with_embeddings ==> creation_step(v, CreationEvent::Succeeded)
            == CreationOutcome::Finished(Ok(v.inserted)),
        v.phase is StartingEmbeddings ==> creation_step(v, CreationEvent::Succeeded) == CreationOutcome::Finished(
            Ok(v.inserted),
        ),
{
}

/// The types are handled one after the other: a granted permission asks to
/// create the metadata of the same type; once a type's metadata existed, or
/// the type was inserted (appended to the inserted types with its position,
/// id and time), the next type is handled, starting with its web's
/// permission when it is owned.
pub proof fn law_types_handled_in_order(v: CreationView, ontology_id: u128, transaction_time: Timestamp)
    requires
        creation_wf(v),
    ensures
        v.phase is CheckingPermission ==> creation_step(v, CreationEvent::Granted) == CreationOutcome::Continue(
            CreationView { phase: CreationPhase::CreatingMetadata, ..v },
            CreationAction::CreateMetadata { index: v.next as usize },
        ),
        v.phase is CreatingMetadata && v.next + 1 < v.types.len() ==> creation_step(v, CreationEvent::MetadataExisted)
            == (match v.types[v.next + 1].1 {
            Classification::Owned { owned_by_id } => CreationOutcome::Continue(
                CreationView { next: v.next + 1, phase: CreationPhase::CheckingPermission, ..v },
                CreationAction::CheckWebPermission { web: owned_by_id },
            ),
            Classification::External { .. } => CreationOutcome::Continue(
                CreationView { next: v.next + 1, phase: CreationPhase::CreatingMetadata, ..v },
                CreationAction::CreateMetadata { index: (v.next + 1) as usize },
            ),
        }),
        v.phase == (CreationPhase::InsertingType { ontology_id, transaction_time }) && v.next + 1 < v.types.len()
            && v.types[v.next + 1].1 is External ==> creation_step(v, CreationEvent::Succeeded)
            == CreationOutcome::Continue(
            CreationView {
                next: v.next + 1,
                inserted: v.inserted.push(InsertedEntityType { index: v.next as usize, ontology_id, transaction_time }),
                phase: CreationPhase::CreatingMetadata,
                ..v
            },
            CreationAction::CreateMetadata { index: (v.next + 1) as usize },
        ),
{
}

/// The relations of a creation, pair by pair: the pair (id, relation) is
/// written exactly when some type to create has that id and the relation is
/// requested, or the type is owned and the relation is its web's owner
/// relation at level 0.
pub proof fn law_relations_of_creation(
    types: Seq<(u128, Classification)>,
    requested: Seq<Relation>,
    p: (u128, Relation),
)
    ensures
        relation_to_create(types, requested, p) <==> exists|i: int|
            0 <= i < types.len() && #[trigger] types[i].0 == p.0 && (requested.contains(p.1) || exists|w: u128|
                types[i].1 == (Classification::Owned { owned_by_id: w }) && p.1 == (Relation::Owner { web: w, level: 0 })),
{
    if relation_to_create(types, requested, p) {
        let i = choose|i: int| 0 <= i < types.len() && #[trigger] type_relation(types[i], requested, p);
        assert(types[i].0 == p.0);
        if !requested.contains(p.1) {
            if let Classification::Owned { owned_by_id } = types[i].1 {
                assert(types[i].1 == (Classification::Owned { owned_by_id }) && p.1 == (Relation::Owner {
                    web: owned_by_id,
                    level: 0,
                }));
            }
        }
    }
    if exists|i: int|
        0 <= i < types.len() && #[trigger] types[i].0 == p.0 && (requested.contains(p.1) || exists|w: u128|
            types[i].1 == (Classification::Owned { owned_by_id: w }) && p.1 == (Relation::Owner { web: w, level: 0 })) {
        let i = choose|i: int|
            0 <= i < types.len() && #[trigger] types[i].0 == p.0 && (requested.contains(p.1) || exists|w: u128|
                types[i].1 == (Classification::Owned { owned_by_id: w }) && p.1 == (Relation::Owner { web: w, level: 0 }));
        assert(type_relation(types[i], requested, p));
    }
}

/// The metadata given for a type to write, before the store versioned it.
pub struct PartialEntityTypeMetadata {
    pub record_id: VersionedUrl,
    pub classification: Classification,
    pub label_property: Option<BaseUrl>,
    pub icon: Option<String>,
}

/// The metadata of a written entity type.
pub struct EntityTypeMetadata {
    pub record_id: VersionedUrl,
    pub classification: Classification,
    pub transaction_time: Timestamp,
    pub created_by_id: u128,
    pub archived_by_id: Option<u128>,
    pub label_property: Option<BaseUrl>,
    pub icon: Option<String>,
}

/// The metadata of a type written with `partial`, versioned from
/// `transaction_time` on, created by `created_by_id` and not archived.
pub open spec fn completed(
    partial: PartialEntityTypeMetadata,
    transaction_time: Timestamp,
    created_by_id: u128,
) -> EntityTypeMetadata {
    EntityTypeMetadata {
        record_id: partial.record_id,
        classification: partial.classification,
        transaction_time,
        created_by_id,
        archived_by_id: None,
        label_property: partial.label_property,
        icon: partial.icon,
    }
}

/// The metadata of a type written with `partial`.
pub fn complete_metadata(partial: PartialEntityTypeMetadata, transaction_time: Timestamp, created_by_id: u128) -> (m:
    EntityTypeMetadata)
    ensures
        m == completed(partial, transaction_time, created_by_id),
{
    EntityTypeMetadata {
        record_id: partial.record_id,
        classification: partial.classification,
        transaction_time,
        created_by_id,
        archived_by_id: None,
        label_property: partial.label_property,
        icon: partial.icon,
    }
}

/// The metadata of the types a creation inserted, in their order: the
/// metadata given for each, versioned from its transaction time on.
pub fn inserted_metadata(
    partials: Vec<PartialEntityTypeMetadata>,
    inserted: &Vec<InsertedEntityType>,
    created_by_id: u128,
) -> (m: Vec<EntityTypeMetadata>)
    requires
        inserted_in_order(inserted@, partials@.len() as int),
    ensures
        m@.len() == inserted@.len(),
        forall|k: int|
            0 <= k < inserted@.len() ==> #[trigger] m@[k] == completed(
                partials@[inserted@[k].index as int],
                inserted@[k].transaction_time,
                created_by_id,
            ),
{
    let ghost ps = partials@;
    let count: usize = partials.len();
    let mut m: Vec<EntityTypeMetadata> = Vec::new();
    let mut k: usize = 0;
    let mut i: usize = 0;
    for partial in it: partials.into_iter()
        invariant
            it.seq() == ps,
            count == ps.len(),
            i == it.index(),
            inserted_in_order(inserted@, ps.len() as int),
            k <= inserted@.len(),
            m@.len() == k,
            forall|j: int|
                0 <= j < k ==> #[trigger] m@[j] == completed(
                    ps[inserted@[j].index as int],
                    inserted@[j].transaction_time,
                    created_by_id,
                ),
            forall|j: int| 0 <= j < k ==> #[trigger] inserted@[j].index < i,
            forall|j: int| k <= j < inserted@.len() ==> #[trigger] inserted@[j].index >= i,
    {
        if k < inserted.len() && inserted[k].index == i {
            let entry = inserted[k];
            m.push(complete_metadata(partial, entry.transaction_time, created_by_id));
            proof {
                assert forall|j: int| k + 1 <= j < inserted@.len() implies #[trigger] inserted@[j].index >= i + 1 by {
                    assert(inserted@[k as int].index < inserted@[j].index);
                }
            }
            k = k + 1;
        } else {
            proof {
                assert forall|j: int| k <= j < inserted@.len() implies #[trigger] inserted@[j].index >= i + 1 by {
                    if j > k {
                        assert(inserted@[k as int].index < inserted@[j].index);
                    }
                }
            }
        }
        i = i + 1;
    }
    proof {
        if k < inserted@.len() {
            assert(inserted@[k as int].index < ps.len());
        }
    }
    m
}

/// The metadata of an updated type: the new record id, owned by the web that
/// owned the type before, versioned from `transaction_time` on.
pub fn updated_metadata(
    record_id: VersionedUrl,
    label_property: Option<BaseUrl>,
    icon: Option<String>,
    owned_by_id: u128,
    transaction_time: Timestamp,
    created_by_id: u128,
) -> (m: EntityTypeMetadata)
    ensures
        m == completed(
            PartialEntityTypeMetadata {
                record_id,
                classification: Classification::Owned { owned_by_id },
                label_property,
                icon,
            },
            transaction_time,
            created_by_id,
        ),
{
    complete_metadata(
        PartialEntityTypeMetadata {
            record_id,
            classification: Classification::Owned { owned_by_id },
            label_property,
            icon,
        },
        transaction_time,
        created_by_id,
    )
}

/// Where an update of an entity type stands.
#[derive(Debug, Copy, Clone, PartialEq, Eq, Structural)]
pub enum UpdatePhase {
    /// Waiting for the permission to update the previous version.
    CheckingPermission,
    /// Waiting for the store to version the type under its ontology id.
    UpdatingOntologyId,
    /// Waiting for the new schema to be closed over its parents.
    ClosingSchema,
    /// Waiting for the new schema to be inserted.
    InsertingType,
    /// Waiting for the references of the new schema to be inserted.
    InsertingReferences,
    /// Waiting for the authorization service to create the relations.
    CreatingRelations,
    /// Waiting for the transaction to commit.
    Committing,
    /// The commit failed; waiting for the relations to be deleted again.
    DeletingRelations,
    /// Waiting for the embeddings workflow of the type to start.
    StartingEmbeddings,
}

/// What an update of an entity type asks its driver to do next.
#[derive(Debug, Copy, Clone, PartialEq, Eq, Structural)]
pub enum UpdateAction {
    /// Ask whether the actor may update the previous version (see
    /// `EntityTypeUpdate::previous_version`).
    CheckUpdatePermission,
    /// Version the type under its ontology id in the store.
    UpdateOntologyId,
    /// Close the new schema over its parents.
    CloseSchema,
    /// Insert the new schema under `ontology_id`.
    InsertEntityType { ontology_id: u128 },
    /// Insert the references of the new schema.
    InsertReferences { ontology_id: u128 },
    /// Create the relations (see `EntityTypeUpdate::relations`) on the type
    /// `ontology_id`.
    CreateRelations { ontology_id: u128 },
    /// Commit the transaction.
    Commit,
    /// Delete the relations on the type `ontology_id` again.
    DeleteRelations { ontology_id: u128 },
    /// Start the embeddings workflow for the type.
    StartEmbeddings,
}

/// What the driver reports back after performing an action of an update.
#[derive(Debug, Copy, Clone, PartialEq, Eq, Structural)]
pub enum UpdateEvent {
    /// The permission was granted.
    Granted,
    /// The permission was denied.
    Denied,
    /// The store versioned the type: its ontology id, the web that owns it
    /// and the start of the new version's transaction time.
    OntologyIdUpdated { ontology_id: u128, owned_by_id: u128, transaction_time: Timestamp },
    /// The action succeeded.
    Succeeded,
    /// The action failed.
    Failed,
}

/// Why an update of an entity type failed.
#[derive(Debug, Copy, Clone, PartialEq, Eq, Structural)]
pub enum UpdateError {
    /// The actor may not update the previous version.
    PermissionDenied,
    /// An action failed, or its answer did not fit it.
    Failed,
    /// The transaction did not commit; the relations were deleted again,
    /// unless `rollback_failed`.
    CommitFailed { rollback_failed: bool },
}

/// The state of an update, as its contracts see it.
pub struct UpdateView {
    pub actor_id: u128,
    pub record_id: VersionedUrl,
    pub previous: VersionedUrlView,
    pub label_property: Option<BaseUrl>,
    pub icon: Option<String>,
    pub requested: Seq<Relation>,
    pub relations: Seq<Relation>,
    pub with_embeddings: bool,
    pub ontology_id: u128,
    pub owned_by_id: u128,
    pub transaction_time: Timestamp,
    pub phase: UpdatePhase,
}

/// What one step of an update leads to, as its contracts see it.
pub enum UpdateOutcome {
    Continue(UpdateView, UpdateAction),
    Finished(Result<EntityTypeMetadata, UpdateError>),
}

/// Updating an entity type, one decision at a time: the driver performs
/// each action and hands the answer back to `step`.
pub struct EntityTypeUpdate {
    actor_id: u128,
    record_id: VersionedUrl,
    previous: VersionedUrl,
    label_property: Option<BaseUrl>,
    icon: Option<String>,
    requested: Vec<Relation>,
    relations: Vec<Relation>,
    with_embeddings: bool,
    ontology_id: u128,
    owned_by_id: u128,
    transaction_time: Timestamp,
    phase: UpdatePhase,
}

/// What one step of an update leads to.
pub enum UpdateStep {
    Continue(EntityTypeUpdate, UpdateAction),
    Finished(Result<EntityTypeMetadata, UpdateError>),
}

impl View for EntityTypeUpdate {
    type V = UpdateView;

    closed spec fn view(&self) -> UpdateView {
        UpdateView {
            actor_id: self.actor_id,
            record_id: self.record_id,
            previous: self.previous@,
            label_property: self.label_property,
            icon: self.icon,
            requested: self.requested@,
            relations: self.relations@,
            with_embeddings: self.with_embeddings,
            ontology_id: self.ontology_id,
            owned_by_id: self.owned_by_id,
            transaction_time: self.transaction_time,
            phase: self.phase,
        }
    }
}

impl View for UpdateStep {
    type V = UpdateOutcome;

    open spec fn view(&self) -> UpdateOutcome {
        match self {
            UpdateStep::Continue(u, a) => UpdateOutcome::Continue(u@, *a),
            UpdateStep::Finished(r) => UpdateOutcome::Finished(*r),
        }
    }
}

/// The state `v` in the phase `phase`, asking for `action`.
pub open spec fn update_next(v: UpdateView, phase: UpdatePhase, action: UpdateAction) -> UpdateOutcome {
    UpdateOutcome::Continue(UpdateView { phase, ..v }, action)
}

/// The metadata of the updated type.
pub open spec fn update_metadata(v: UpdateView) -> EntityTypeMetadata {
    completed(
        PartialEntityTypeMetadata {
            record_id: v.record_id,
            classification: Classification::Owned { owned_by_id: v.owned_by_id },
            label_property: v.label_property,
            icon: v.icon,
        },
        v.transaction_time,
        v.actor_id,
    )
}

/// The failure that ends an update whose action failed.
pub open spec fn update_failed() -> UpdateOutcome {
    UpdateOutcome::Finished(Err(UpdateError::Failed))
}

/// One step of an update: the state `v` gets the answer `e` to its pending
/// action.
pub open spec fn update_step(v: UpdateView, e: UpdateEvent) -> UpdateOutcome {
    match v.phase {
        UpdatePhase::CheckingPermission => match e {
            UpdateEvent::Granted => update_next(v, UpdatePhase::UpdatingOntologyId, UpdateAction::UpdateOntologyId),
            UpdateEvent::Denied => UpdateOutcome::Finished(Err(UpdateError::PermissionDenied)),
            _ => update_failed(),
        },
        UpdatePhase::UpdatingOntologyId => match e {
            UpdateEvent::OntologyIdUpdated { ontology_id, owned_by_id, transaction_time } => UpdateOutcome::Continue(
                UpdateView {
                    ontology_id,
                    owned_by_id,
                    transaction_time,
                    relations: v.requested.push(owner_of(owned_by_id)),
                    phase: UpdatePhase::ClosingSchema,
                    ..v
                },
                UpdateAction::CloseSchema,
            ),
            _ => update_failed(),
        },
        UpdatePhase::ClosingSchema => match e {
            UpdateEvent::Succeeded => update_next(
                v,
                UpdatePhase::InsertingType,
                UpdateAction::InsertEntityType { ontology_id: v.ontology_id },
            ),
            _ => update_failed(),
        },
        UpdatePhase::InsertingType => match e {
            UpdateEvent::Succeeded => update_next(
                v,
                UpdatePhase::InsertingReferences,
                UpdateAction::InsertReferences { ontology_id: v.ontology_id },
            ),
            _ => update_failed(),
        },
        UpdatePhase::InsertingReferences => match e {
            UpdateEvent::Succeeded => update_next(
                v,
                UpdatePhase::CreatingRelations,
                UpdateAction::CreateRelations { ontology_id: v.ontology_id },
            ),
            _ => update_failed(),
        },
        UpdatePhase::CreatingRelations => match e {
            UpdateEvent::Succeeded => update_next(v, UpdatePhase::Committing, UpdateAction::Commit),
            _ => update_failed(),
        },
        UpdatePhase::Committing => match e {
            UpdateEvent::Succeeded => if v.with_embeddings {
                update_next(v, UpdatePhase::StartingEmbeddings, UpdateAction::StartEmbeddings)
            } else {
                UpdateOutcome::Finished(Ok(update_metadata(v)))
            },
            _ => update_next(
                v,
                UpdatePhase::DeletingRelations,
                UpdateAction::DeleteRelations { ontology_id: v.ontology_id },
            ),
        },
        UpdatePhase::DeletingRelations => match e {
            UpdateEvent::Succeeded => UpdateOutcome::Finished(Err(UpdateError::CommitFailed { rollback_failed: false })),
            _ => UpdateOutcome::Finished(Err(UpdateError::CommitFailed { rollback_failed: true })),
        },
        UpdatePhase::StartingEmbeddings => match e {
            UpdateEvent::Succeeded => UpdateOutcome::Finished(Ok(update_metadata(v))),
            _ => update_failed(),
        },
    }
}

/// An update checks the permission on the previous version first: a denial
/// ends it at once, before the store or the authorization service is
/// written to.
pub proof fn law_update_denied_ends_first(v: UpdateView)
    requires
        v.phase is CheckingPermission,
    ensures
        update_step(v, UpdateEvent::Denied) == UpdateOutcome::Finished(Err(UpdateError::PermissionDenied)),
{
}

/// The relations of an update are the requested ones followed by the owner
/// relation of the web the store reports as owner, on the type's ontology id.
pub proof fn law_update_relations_include_owner(
    v: UpdateView,
    ontology_id: u128,
    owned_by_id: u128,
    transaction_time: Timestamp,
)
    requires
        v.phase is UpdatingOntologyId,
    ensures
        update_step(v, UpdateEvent::OntologyIdUpdated { ontology_id, owned_by_id, transaction_time }) matches
            UpdateOutcome::Continue(w, a) && w.relations == v.requested.push(Relation::Owner { web: owned_by_id, level: 0 })
            && w.ontology_id == ontology_id && w.owned_by_id == owned_by_id && w.transaction_time == transaction_time
            && w.phase is ClosingSchema && a == UpdateAction::CloseSchema,
{
}

/// A failed commit of an update deletes the same relations on the same type,
/// then fails with `CommitFailed`; a successful one returns the metadata of
/// the new version, owned by the reported web.
pub proof fn law_update_commit_decides(v: UpdateView, e: UpdateEvent, after: UpdateEvent)
    requires
        v.phase is Committing,
    ensures
        e != UpdateEvent::Succeeded ==> update_step(v, e) == update_next(
            v,
            UpdatePhase::DeletingRelations,
            UpdateAction::DeleteRelations { ontology_id: v.ontology_id },
        ),
        update_step(UpdateView { phase: UpdatePhase::DeletingRelations, ..v }, after) == UpdateOutcome::Finished(
            Err(UpdateError::CommitFailed { rollback_failed: after != UpdateEvent::Succeeded }),
        ),
        !v.with_embeddings ==> update_step(v, UpdateEvent::Succeeded) == UpdateOutcome::Finished(
            Ok(update_metadata(v)),
        ),
{
}

fn copy_relations(r: &Vec<Relation>) -> (c: Vec<Relation>)
    ensures
        c@ == r@,
{
    let mut c: Vec<Relation> = Vec::new();
    let mut j: usize = 0;
    while j < r.len()
        invariant
            j <= r.len(),
            c@ == r@.take(j as int),
        decreases r.len() - j,
    {
        c.push(r[j]);
        proof {
            assert(r@.take(j + 1) =~= r@.take(j as int).push(r@[j as int]));
        }
        j = j + 1;
    }
    assert(r@.take(r@.len() as int) =~= r@);
    c
}

/// The metadata an update returns: the new version, owned by the web the
/// store reported, versioned from the reported transaction time on, created
/// by the actor and not archived, with the given label property and icon.
pub open spec fn new_version_metadata(v: UpdateView) -> EntityTypeMetadata {
    EntityTypeMetadata {
        record_id: v.record_id,
        classification: Classification::Owned { owned_by_id: v.owned_by_id },
        transaction_time: v.transaction_time,
        created_by_id: v.actor_id,
        archived_by_id: None,
        label_property: v.label_property,
        icon: v.icon,
    }
}

/// A committed update returns the metadata of the new version: at once
/// without embeddings, and once the embeddings workflow started with them.
pub proof fn law_committed_update_returns_metadata(v: UpdateView)
    ensures
        v.phase is Committing && !v.with_embeddings ==> update_step(v, UpdateEvent::Succeeded)
            == UpdateOutcome::Finished(Ok(new_version_metadata(v))),
        v.phase is Committing && v.with_embeddings ==> update_step(v, UpdateEvent::Succeeded)
            == UpdateOutcome::Continue(
            UpdateView { phase: UpdatePhase::StartingEmbeddings, ..v },
            UpdateAction::StartEmbeddings,
        ),
        v.phase is StartingEmbeddings ==> update_step(v, UpdateEvent::Succeeded) == UpdateOutcome::Finished(
            Ok(new_version_metadata(v)),
        ),
{
}

/// A granted update goes through its writes in order, each on the ontology
/// id the store reported: version the type, close the schema, insert it,
/// insert its references, create the relations, commit.
pub proof fn law_update_writes_in_order(v: UpdateView)
    ensures
        v.phase is CheckingPermission ==> update_step(v, UpdateEvent::Granted) == UpdateOutcome::Continue(
            UpdateView { phase: UpdatePhase::UpdatingOntologyId, ..v },
            UpdateAction::UpdateOntologyId,
        ),
        v.phase is ClosingSchema ==> update_step(v, UpdateEvent::Succeeded) == UpdateOutcome::Continue(
            UpdateView { phase: UpdatePhase::InsertingType, ..v },
            UpdateAction::InsertEntityType { ontology_id: v.ontology_id },
        ),
        v.phase is InsertingType ==> update_step(v, UpdateEvent::Succeeded) == UpdateOutcome::Continue(
            UpdateView { phase: UpdatePhase::InsertingReferences, ..v },
            UpdateAction::InsertReferences { ontology_id: v.ontology_id },
        ),
        v.phase is InsertingReferences ==> update_step(v, UpdateEvent::Succeeded) == UpdateOutcome::Continue(
            UpdateView { phase: UpdatePhase::CreatingRelations, ..v },
            UpdateAction::CreateRelations { ontology_id: v.ontology_id },
        ),
        v.phase is CreatingRelations ==> update_step(v, UpdateEvent::Succeeded) == UpdateOutcome::Continue(
            UpdateView { phase: UpdatePhase::Committing, ..v },
            UpdateAction::Commit,
        ),
{
}

impl EntityTypeUpdate {
    /// An update of the entity type to the new version `record_id` by the
    /// actor `actor_id`, with the `requested` relations; the first step checks
    /// the permission on the previous version.  A first version has no
    /// previous one to update.
    pub fn start(
        actor_id: u128,
        record_id: VersionedUrl,
        label_property: Option<BaseUrl>,
        icon: Option<String>,
        requested: Vec<Relation>,
        with_embeddings: bool,
    ) -> (s: UpdateStep)
        requires
            record_id@.version >= 1,
        ensures
            s matches UpdateStep::Continue(u, a) && a == UpdateAction::CheckUpdatePermission && u@.phase
                is CheckingPermission && u@.actor_id == actor_id && u@.record_id == record_id && u@.previous
                == (VersionedUrlView { base_url: record_id@.base_url, version: (record_id@.version - 1) as u32 })
                && u@.label_property == label_property && u@.icon == icon && u@.requested == requested@
                && u@.with_embeddings == with_embeddings,
    {
        let previous = previous_version(&record_id);
        UpdateStep::Continue(
            EntityTypeUpdate {
                actor_id,
                record_id,
                previous,
                label_property,
                icon,
                requested,
                relations: Vec::new(),
                with_embeddings,
                ontology_id: 0,
                owned_by_id: 0,
                transaction_time: Timestamp { micros: 0 },
                phase: UpdatePhase::CheckingPermission,
            },
            UpdateAction::CheckUpdatePermission,
        )
    }

    /// The version whose permission decides the update.
    pub fn previous_version(&self) -> (p: &VersionedUrl)
        ensures
            p@ == self@.previous,
    {
        &self.previous
    }

    /// The new version of the type.
    pub fn record_id(&self) -> (r: &VersionedUrl)
        ensures
            *r == self@.record_id,
    {
        &self.record_id
    }

    /// The relations the update creates, and deletes again after a failed
    /// commit.
    pub fn relations(&self) -> (r: &Vec<Relation>)
        ensures
            r@ == self@.relations,
    {
        &self.relations
    }

    /// The step that follows the answer `event` to the pending action.
    pub fn step(self, event: UpdateEvent) -> (s: UpdateStep)
        ensures
            s@ == update_step(self@, event),
    {
        let mut this = self;
        match this.phase {
            UpdatePhase::CheckingPermission => match event {
                UpdateEvent::Granted => {
                    this.phase = UpdatePhase::UpdatingOntologyId;
                    UpdateStep::Continue(this, UpdateAction::UpdateOntologyId)
                },
                UpdateEvent::Denied => UpdateStep::Finished(Err(UpdateError::PermissionDenied)),
                _ => UpdateStep::Finished(Err(UpdateError::Failed)),
            },
            UpdatePhase::UpdatingOntologyId => match event {
                UpdateEvent::OntologyIdUpdated { ontology_id, owned_by_id, transaction_time } => {
                    this.relations = update_relations(copy_relations(&this.requested), owned_by_id);
                    this.ontology_id = ontology_id;
                    this.owned_by_id = owned_by_id;
                    this.transaction_time = transaction_time;
                    this.phase = UpdatePhase::ClosingSchema;
                    UpdateStep::Continue(this, UpdateAction::CloseSchema)
                },
                _ => UpdateStep::Finished(Err(UpdateError::Failed)),
            },
            UpdatePhase::ClosingSchema => match event {
                UpdateEvent::Succeeded => {
                    this.phase = UpdatePhase::InsertingType;
                    let ontology_id = this.ontology_id;
                    UpdateStep::Continue(this, UpdateAction::InsertEntityType { ontology_id })
                },
                _ => UpdateStep::Finished(Err(UpdateError::Failed)),
            },
            UpdatePhase::InsertingType => match event {
                UpdateEvent::Succeeded => {
                    this.phase = UpdatePhase::InsertingReferences;
                    let ontology_id = this.ontology_id;
                    UpdateStep::Continue(this, UpdateAction::InsertReferences { ontology_id })
                },
                _ => UpdateStep::Finished(Err(UpdateError::Failed)),
            },
            UpdatePhase::InsertingReferences => match event {
                UpdateEvent::Succeeded => {
                    this.phase = UpdatePhase::CreatingRelations;
                    let ontology_id = this.ontology_id;
                    UpdateStep::Continue(this, UpdateAction::CreateRelations { ontology_id })
                },
                _ => UpdateStep::Finished(Err(UpdateError::Failed)),
            },
            UpdatePhase::CreatingRelations => match event {
                UpdateEvent::Succeeded => {
                    this.phase = UpdatePhase::Committing;
                    UpdateStep::Continue(this, UpdateAction::Commit)
                },
                _ => UpdateStep::Finished(Err(UpdateError::Failed)),
            },
            UpdatePhase::Committing => match event {
                UpdateEvent::Succeeded => {
                    if this.with_embeddings {
                        this.phase = UpdatePhase::StartingEmbeddings;
                        UpdateStep::Continue(this, UpdateAction::StartEmbeddings)
                    } else {
                        UpdateStep::Finished(Ok(this.into_metadata()))
                    }
                },
                _ => {
                    this.phase = UpdatePhase::DeletingRelations;
                    let ontology_id = this.ontology_id;
                    UpdateStep::Continue(this, UpdateAction::DeleteRelations { ontology_id })
                },
            },
            UpdatePhase::DeletingRelations => match event {
                UpdateEvent::Succeeded => UpdateStep::Finished(Err(UpdateError::CommitFailed { rollback_failed: false })),
                _ => UpdateStep::Finished(Err(UpdateError::CommitFailed { rollback_failed: true })),
            },
            UpdatePhase::StartingEmbeddings => match event {
                UpdateEvent::Succeeded => UpdateStep::Finished(Ok(this.into_metadata())),
                _ => UpdateStep::Finished(Err(UpdateError::Failed)),
            },
        }
    }

    fn into_metadata(self) -> (m: EntityTypeMetadata)
        ensures
            m == update_metadata(self@),
    {
        updated_metadata(
            self.record_id,
            self.label_property,
            self.icon,
            self.owned_by_id,
            self.transaction_time,
            self.actor_id,
        )
    }
}

} // verus!
