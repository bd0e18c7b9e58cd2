//! Entity-type store logic: filtering entity types by the permissions of the
//! reading actor, keeping one record per entity type, assembling the schemas
//! available to a closure, and the columns an entity type record is read from.
use vstd::prelude::*;
use crate::entity_query::Selection;
use crate::ontology_types::{VersionedUrl, VersionedUrlView};
use std::collections::{HashMap, HashSet};

verus! {

broadcast use vstd::std_specs::hash::group_hash_axioms;

/// Column indices of every field of an entity type record in a result row.
#[derive(Debug, Copy, Clone)]
pub struct EntityTypeRowIndices {
    pub base_url: usize,
    pub version: usize,
    pub transaction_time: usize,
    pub schema: usize,
    pub edition_created_by_id: usize,
    pub edition_archived_by_id: usize,
    pub additional_metadata: usize,
    pub label_property: usize,
    pub icon: usize,
}

/// Whether `permissions` grants the permission for `id`; an id without an
/// entry is not granted.
pub open spec fn is_permitted(permissions: Map<u128, bool>, id: u128) -> bool {
    permissions.contains_key(id) && permissions[id]
}

/// The entity type of an entry when its id is permitted.
pub open spec fn permitted_entry<T>(permissions: Map<u128, bool>) -> spec_fn((u128, T)) -> Option<T> {
    |entry: (u128, T)|
        if is_permitted(permissions, entry.0) {
            Some(entry.1)
        } else {
            None
        }
}

/// A permission on entity types that the authorization service checks.
#[derive(Debug, Copy, Clone, PartialEq, Eq, Structural)]
pub enum EntityTypePermission {
    View,
    Update,
}

/// A token of a snapshot of the authorization service.
pub struct Zookie {
    pub token: String,
}

impl Zookie {
    /// A copy of the token, for a further request at the same snapshot.
    pub fn duplicate(&self) -> (z: Zookie)
        ensures
            z == *self,
    {
        Zookie { token: self.token.clone() }
    }
}

/// How fresh the authorization service's answer must be.
pub enum Consistency {
    /// As of now.
    FullyConsistent,
    /// As of the snapshot of the token.
    AtExactSnapshot(Zookie),
}

/// A request to the authorization service: does the actor have the
/// permission on each of the entity types?
pub struct EntityTypesPermissionCheck {
    pub actor_id: u128,
    pub permission: EntityTypePermission,
    pub entity_type_ids: Vec<u128>,
    pub consistency: Consistency,
}

/// The id of an entry.
pub open spec fn entry_id<T>() -> spec_fn(int, (u128, T)) -> u128 {
    |i: int, entry: (u128, T)| entry.0
}

fn view_check<T>(entity_types: &Vec<(u128, T)>, actor_id: u128, consistency: Consistency) -> (c:
    EntityTypesPermissionCheck)
    ensures
        c.actor_id == actor_id,
        c.permission == EntityTypePermission::View,
        c.entity_type_ids@ == entity_types@.map(entry_id()),
        c.consistency == consistency,
{
    let mut ids: Vec<u128> = Vec::new();
    let mut j: usize = 0;
    while j < entity_types.len()
        invariant
            j <= entity_types.len(),
            ids@ == entity_types@.take(j as int).map(entry_id()),
        decreases entity_types.len() - j,
    {
        ids.push(entity_types[j].0);
        proof {
            assert(entity_types@.take(j + 1).map(entry_id()) =~= entity_types@.take(j as int).map(entry_id()).push(
                entity_types@[j as int].0,
            ));
        }
        j = j + 1;
    }
    assert(entity_types@.take(entity_types@.len() as int) =~= entity_types@);
    EntityTypesPermissionCheck {
        actor_id,
        permission: EntityTypePermission::View,
        entity_type_ids: ids,
        consistency,
    }
}

/// The request that decides which of `entity_types`, reached while
/// traversing a subgraph, the actor may view: the View permission on their
/// ids, in order, at the snapshot of `zookie`.
pub fn view_permission_check<T>(entity_types: &Vec<(u128, T)>, actor_id: u128, zookie: Zookie) -> (c:
    EntityTypesPermissionCheck)
    ensures
        c.actor_id == actor_id,
        c.permission == EntityTypePermission::View,
        c.entity_type_ids@ == entity_types@.map(entry_id()),
        c.consistency == Consistency::AtExactSnapshot(zookie),
{
    view_check(entity_types, actor_id, Consistency::AtExactSnapshot(zookie))
}

/// The request that decides which of the entity types a query read the actor
/// may view: the View permission on their ids, in order, as of now; its
/// answer carries the snapshot the traversal from them checks at.
pub fn current_view_permission_check<T>(entity_types: &Vec<(u128, T)>, actor_id: u128) -> (c:
    EntityTypesPermissionCheck)
    ensures
        c.actor_id == actor_id,
        c.permission == EntityTypePermission::View,
        c.entity_type_ids@ == entity_types@.map(entry_id()),
        c.consistency == Consistency::FullyConsistent,
{
    view_check(entity_types, actor_id, Consistency::FullyConsistent)
}

/// Keeps, in order, the entity types whose ids `permissions` grants.
///
/// `permissions` is what the authorization service answered to the request
/// of `view_permission_check` for the same entity types.
pub fn filter_entity_types_by_permission<T>(
    entity_types: Vec<(u128, T)>,
    permissions: &HashMap<u128, bool>,
) -> (permitted: Vec<T>)
    ensures
        permitted@ == entity_types@.filter_map(permitted_entry(permissions@)),
{
    let ghost entries = entity_types@;
    let mut permitted: Vec<T> = Vec::new();
    for entry in it: entity_types.into_iter()
        invariant
            it.seq() == entries,
            permitted@ == entries.take(it.index()).filter_map(permitted_entry(permissions@)),
    {
        let ghost i = it.index();
        proof {
            entries.lemma_filter_map_take_succ(permitted_entry(permissions@), i);
        }
        let (id, entity_type) = entry;
        let granted = match permissions.get(&id) {
            Some(granted) => *granted,
            None => false,
        };
        if granted {
            permitted.push(entity_type);
        }
    }
    assert(entries.take(entries.len() as int) =~= entries);
    permitted
}

/// An entity type is kept exactly when the answer has its id and grants it:
/// an id the answer denies, or has no entry for, is dropped.
pub proof fn law_only_granted_entity_types_kept<T>(permissions: Map<u128, bool>, id: u128, entity_type: T)
    ensures
        permissions.contains_key(id) && permissions[id] ==> permitted_entry(permissions)((id, entity_type)) == Some(
            entity_type,
        ),
        !permissions.contains_key(id) ==> permitted_entry(permissions)((id, entity_type)) is None,
        permissions.contains_key(id) && !permissions[id] ==> permitted_entry(permissions)((id, entity_type)) is None,
{
}

/// The queue entry of an entry's id, with the given depths and interval,
/// when its id is permitted.
pub open spec fn permitted_queue_entry<T, D, I>(permissions: Map<u128, bool>, depths: D, interval: I) -> spec_fn(
    (u128, T),
) -> Option<(u128, D, I)> {
    |entry: (u128, T)|
        if is_permitted(permissions, entry.0) {
            Some((entry.0, depths, interval))
        } else {
            None
        }
}

/// The roots of a subgraph of entity types and the queue its traversal
/// starts from: of the entity types whose ids `permissions` grants, in order,
/// the vertices, and the ids with the query's depths and interval.
pub fn permitted_roots<T, D: Copy, I: Copy>(
    entity_types: Vec<(u128, T)>,
    permissions: &HashMap<u128, bool>,
    depths: D,
    interval: I,
) -> (r: (Vec<T>, Vec<(u128, D, I)>))
    ensures
        r.0@ == entity_types@.filter_map(permitted_entry(permissions@)),
        r.1@ == entity_types@.filter_map(permitted_queue_entry(permissions@, depths, interval)),
{
    let ghost entries = entity_types@;
    let mut roots: Vec<T> = Vec::new();
    let mut queue: Vec<(u128, D, I)> = Vec::new();
    for entry in it: entity_types.into_iter()
        invariant
            it.seq() == entries,
            roots@ == entries.take(it.index()).filter_map(permitted_entry(permissions@)),
            queue@ == entries.take(it.index()).filter_map(permitted_queue_entry(permissions@, depths, interval)),
    {
        let ghost i = it.index();
        proof {
            entries.lemma_filter_map_take_succ(permitted_entry(permissions@), i);
            entries.lemma_filter_map_take_succ(permitted_queue_entry(permissions@, depths, interval), i);
        }
        let (id, vertex) = entry;
        let granted = match permissions.get(&id) {
            Some(granted) => *granted,
            None => false,
        };
        if granted {
            roots.push(vertex);
            queue.push((id, depths, interval));
        }
    }
    assert(entries.take(entries.len() as int) =~= entries);
    (roots, queue)
}

/// Whether the entry at position `i` of `s` has an id that an earlier entry
/// already has.
pub open spec fn id_seen_before<T>(s: Seq<(u128, T)>, i: int) -> bool {
    exists|j: int| 0 <= j < i && s[j].0 == s[i].0
}

/// The entries of `s` that are the first ones with their id, in order.
pub open spec fn first_per_id<T>(s: Seq<(u128, T)>) -> Seq<(u128, T)>
    decreases s.len(),
{
    if s.len() == 0 {
        Seq::empty()
    } else if id_seen_before(s, s.len() - 1) {
        first_per_id(s.drop_last())
    } else {
        first_per_id(s.drop_last()).push(s.last())
    }
}

/// Keeps, in order, the first record of each entity type id.  The records
/// come sorted by time, so the first one of an id is the one to keep.
pub fn first_record_per_entity_type<T>(records: Vec<(u128, T)>) -> (kept: Vec<(u128, T)>)
    ensures
        kept@ == first_per_id(records@),
{
    let ghost entries = records@;
    let mut seen: HashSet<u128> = HashSet::new();
    let mut kept: Vec<(u128, T)> = Vec::new();
    for entry in it: records.into_iter()
        invariant
            it.seq() == entries,
            kept@ == first_per_id(entries.take(it.index())),
            forall|x: u128|
                seen@.contains(x) <==> exists|j: int| 0 <= j < it.index() && entries[j].0 == x,
    {
        let ghost i = it.index();
        let ghost prefix = entries.take(i + 1);
        proof {
            assert(prefix.drop_last() =~= entries.take(i));
            assert(prefix.last() == entries[i]);
            assert(id_seen_before(prefix, i) <==> seen@.contains(entries[i].0)) by {
                if id_seen_before(prefix, i) {
                    let j = choose|j: int| 0 <= j < i && prefix[j].0 == prefix[i].0;
                    assert(entries[j].0 == entries[i].0);
                }
                if seen@.contains(entries[i].0) {
                    let j = choose|j: int| 0 <= j < i && entries[j].0 == entries[i].0;
                    assert(prefix[j].0 == prefix[i].0);
                }
            }
        }
        let id = entry.0;
        if seen.insert(id) {
            kept.push(entry);
        }
        proof {
            assert forall|x: u128|
                seen@.contains(x) <==> exists|j: int| 0 <= j < i + 1 && entries[j].0 == x by {
                if x == entries[i].0 {
                    assert(entries[i].0 == x);
                }
                if exists|j: int| 0 <= j < i + 1 && entries[j].0 == x {
                    let j = choose|j: int| 0 <= j < i + 1 && entries[j].0 == x;
                    if j < i {
                        assert(exists|j: int| 0 <= j < i && entries[j].0 == x);
                    }
                }
            }
        }
    }
    assert(entries.take(entries.len() as int) =~= entries);
    kept
}

/// Every id occurs at most once among the kept records.
pub proof fn law_first_per_id_distinct<T>(s: Seq<(u128, T)>)
    ensures
        forall|i: int, j: int|
            0 <= i < j < first_per_id(s).len() ==> first_per_id(s)[i].0 != first_per_id(s)[j].0,
    decreases s.len(),
{
    if s.len() > 0 {
        let d = s.drop_last();
        let r = first_per_id(d);
        law_first_per_id_distinct(d);
        lemma_first_per_id_sound(d);
        if id_seen_before(s, s.len() - 1) {
            assert(first_per_id(s) == r);
        } else {
            let f = first_per_id(s);
            assert(f == r.push(s.last()));
            assert forall|i: int, j: int| 0 <= i < j < f.len() implies f[i].0 != f[j].0 by {
                if j == r.len() {
                    assert(f[i] == r[i]);
                    let k = choose|k: int|
                        #![trigger d[k]]
                        0 <= k < d.len() && r[i] == d[k] && !id_seen_before(d, k);
                    if f[i].0 == f[j].0 {
                        assert(s[k].0 == s[s.len() - 1].0);
                        assert(id_seen_before(s, s.len() - 1));
                    }
                } else {
                    assert(f[i] == r[i] && f[j] == r[j]);
                }
            }
        }
    }
}

/// Every kept record is a record of the input that is the first with its id.
pub proof fn lemma_first_per_id_sound<T>(s: Seq<(u128, T)>)
    ensures
        forall|k: int|
            #![trigger first_per_id(s)[k]]
            0 <= k < first_per_id(s).len() ==> exists|i: int|
                #![trigger s[i]]
                0 <= i < s.len() && first_per_id(s)[k] == s[i] && !id_seen_before(s, i),
    decreases s.len(),
{
    if s.len() > 0 {
        let d = s.drop_last();
        lemma_first_per_id_sound(d);
        assert forall|k: int|
            #![trigger first_per_id(s)[k]]
            0 <= k < first_per_id(s).len() implies exists|i: int|
            #![trigger s[i]]
            0 <= i < s.len() && first_per_id(s)[k] == s[i] && !id_seen_before(s, i) by {
            if k < first_per_id(d).len() {
                let i = choose|i: int|
                    0 <= i < d.len() && first_per_id(d)[k] == d[i] && !id_seen_before(d, i);
                assert(s[i] == d[i]);
                if id_seen_before(s, i) {
                    let j = choose|j: int| 0 <= j < i && s[j].0 == s[i].0;
                    assert(d[j].0 == d[i].0);
                }
            } else {
                assert(first_per_id(s)[k] == s[s.len() - 1]);
            }
        }
    }
}

/// The first record of every id of the input is kept.
pub proof fn law_first_per_id_complete<T>(s: Seq<(u128, T)>)
    ensures
        forall|i: int|
            0 <= i < s.len() && !id_seen_before(s, i) ==> first_per_id(s).contains(s[i]),
    decreases s.len(),
{
    if s.len() > 0 {
        let d = s.drop_last();
        law_first_per_id_complete(d);
        assert forall|i: int| 0 <= i < s.len() && !id_seen_before(s, i) implies first_per_id(
            s,
        ).contains(s[i]) by {
            if i < s.len() - 1 {
                assert(s[i] == d[i]);
                if id_seen_before(d, i) {
                    let j = choose|j: int| 0 <= j < i && d[j].0 == d[i].0;
                    assert(s[j].0 == s[i].0);
                }
                let r = first_per_id(d);
                let k = choose|k: int| 0 <= k < r.len() && r[k] == d[i];
                if !id_seen_before(s, s.len() - 1) {
                    assert(first_per_id(s)[k] == s[i]);
                }
            } else {
                let r = first_per_id(s);
                assert(r[r.len() - 1] == s[i]);
            }
        }
    }
}

/// The ids of all parents that the given parent lists name, in order.
pub fn parent_entity_type_ids(parent_lists: &Vec<Vec<u128>>) -> (ids: Vec<u128>)
    ensures
        ids@ == parent_lists@.map_values(|v: Vec<u128>| v@).flatten(),
{
    let mut ids: Vec<u128> = Vec::new();
    let mut i: usize = 0;
    while i < parent_lists.len()
        invariant
            i <= parent_lists@.len(),
            ids@ == parent_lists@.take(i as int).map_values(|v: Vec<u128>| v@).flatten(),
        decreases parent_lists.len() - i,
    {
        let list = &parent_lists[i];
        let ghost before = ids@;
        let mut j: usize = 0;
        while j < list.len()
            invariant
                j <= list@.len(),
                ids@ == before + list@.take(j as int),
            decreases list.len() - j,
        {
            ids.push(list[j]);
            j = j + 1;
            assert(ids@ =~= before + list@.take(j as int));
        }
        proof {
            let m = parent_lists@.take(i as int).map_values(|v: Vec<u128>| v@);
            assert(parent_lists@.take(i as int + 1).map_values(|v: Vec<u128>| v@) =~= m.push(
                list@,
            ));
            m.lemma_flatten_push(list@);
            assert(list@.take(list@.len() as int) =~= list@);
        }
        i = i + 1;
    }
    assert(parent_lists@.take(parent_lists@.len() as int) =~= parent_lists@);
    ids
}

/// The map obtained from `m` by inserting the entries of `s` in order, later
/// entries replacing earlier ones with the same id.
pub open spec fn inserted_all<S>(m: Map<u128, S>, s: Seq<(u128, S)>) -> Map<u128, S>
    decreases s.len(),
{
    if s.len() == 0 {
        m
    } else {
        inserted_all(m, s.drop_last()).insert(s.last().0, s.last().1)
    }
}

/// Inserts the entries of `entries` into `map` in order.
fn insert_entries<S>(map: &mut HashMap<u128, S>, entries: Vec<(u128, S)>)
    ensures
        final(map)@ == inserted_all(old(map)@, entries@),
{
    let ghost start = map@;
    let ghost all = entries@;
    for entry in it: entries.into_iter()
        invariant
            it.seq() == all,
            map@ == inserted_all(start, all.take(it.index())),
    {
        let ghost i = it.index();
        proof {
            assert(all.take(i + 1).drop_last() =~= all.take(i));
        }
        let (id, schema) = entry;
        map.insert(id, schema);
    }
    assert(all.take(all.len() as int) =~= all);
}

/// The schemas available while closing entity types: the provided ones and
/// then the ones read from the graph, so that a schema read from the graph
/// replaces a provided one with the same id.
pub fn available_schemas<S>(provided: Vec<(u128, S)>, from_graph: Vec<(u128, S)>) -> (schemas:
    HashMap<u128, S>)
    ensures
        schemas@ == inserted_all(inserted_all(Map::empty(), provided@), from_graph@),
{
    let mut schemas: HashMap<u128, S> = HashMap::new();
    insert_entries(&mut schemas, provided);
    insert_entries(&mut schemas, from_graph);
    schemas
}

/// After inserting `s` into `m`, an id is present exactly when it was present
/// before or some entry of `s` has it.
pub proof fn law_inserted_keys<S>(m: Map<u128, S>, s: Seq<(u128, S)>)
    ensures
        forall|k: u128|
            #[trigger] inserted_all(m, s).contains_key(k) <==> (m.contains_key(k) || exists|i: int|
                0 <= i < s.len() && s[i].0 == k),
    decreases s.len(),
{
    if s.len() > 0 {
        let d = s.drop_last();
        law_inserted_keys(m, d);
        assert forall|k: u128|
            #[trigger] inserted_all(m, s).contains_key(k) <==> (m.contains_key(k) || exists|i: int|
                0 <= i < s.len() && s[i].0 == k) by {
            let in_d = exists|i: int| 0 <= i < d.len() && d[i].0 == k;
            let in_s = exists|i: int| 0 <= i < s.len() && s[i].0 == k;
            assert(inserted_all(m, s) == inserted_all(m, d).insert(s.last().0, s.last().1));
            if in_d {
                let i = choose|i: int| 0 <= i < d.len() && d[i].0 == k;
                assert(s[i] == d[i]);
                assert(in_s);
            }
            if s.last().0 == k {
                assert(s[s.len() - 1].0 == k);
                assert(in_s);
            }
            if in_s {
                let i = choose|i: int| 0 <= i < s.len() && s[i].0 == k;
                if i < d.len() {
                    assert(d[i] == s[i]);
                    assert(in_d);
                } else {
                    assert(s.last().0 == k);
                }
            }
        }
    }
}

/// After inserting `s` into `m`, an id that `s` has maps to the schema of its
/// last entry in `s`: later entries win.
pub proof fn law_later_entries_win<S>(m: Map<u128, S>, s: Seq<(u128, S)>, i: int)
    requires
        0 <= i < s.len(),
        forall|j: int| i < j < s.len() ==> s[j].0 != s[i].0,
    ensures
        inserted_all(m, s)[s[i].0] == s[i].1,
    decreases s.len(),
{
    let d = s.drop_last();
    if i < d.len() {
        assert(s[s.len() - 1].0 != s[i].0);
        assert forall|j: int| i < j < d.len() implies d[j].0 != d[i].0 by {
            assert(d[j] == s[j]);
        }
        law_later_entries_win(m, d, i);
    }
}

/// After inserting `s` into `m`, an id that no entry of `s` has keeps the
/// schema it had in `m`.
pub proof fn law_untouched_entries_kept<S>(m: Map<u128, S>, s: Seq<(u128, S)>, k: u128)
    requires
        m.contains_key(k),
        forall|i: int| 0 <= i < s.len() ==> s[i].0 != k,
    ensures
        inserted_all(m, s).contains_key(k),
        inserted_all(m, s)[k] == m[k],
    decreases s.len(),
{
    if s.len() > 0 {
        let d = s.drop_last();
        assert(s[s.len() - 1].0 != k);
        assert forall|i: int| 0 <= i < d.len() implies d[i].0 != k by {
            assert(d[i] == s[i]);
        }
        law_untouched_entries_kept(m, d, k);
    }
}

/// The URL of the version before `url`'s version, whose permissions decide
/// whether `url` may be written.
pub fn previous_version(url: &VersionedUrl) -> (previous: VersionedUrl)
    requires
        url@.version >= 1,
    ensures
        previous@ == (VersionedUrlView { base_url: url@.base_url, version: (url@.version - 1) as u32 }),
{
    VersionedUrl::new(url.base_url().clone(), url.version() - 1)
}

/// The entity type query paths that entity type records are read through.
#[derive(Debug, Copy, Clone, PartialEq, Eq, Structural)]
pub enum EntityTypeQueryPath {
    BaseUrl,
    Version,
    VersionedUrl,
    TransactionTime,
    Schema,
    EditionCreatedById,
    EditionArchivedById,
    AdditionalMetadata,
    LabelProperty,
    Icon,
}

/// The selections of every column of an entity type record, one per field of
/// `EntityTypeRowIndices`.
#[derive(Debug)]
pub struct EntityTypeRecordSelections {
    pub base_url: Selection<EntityTypeQueryPath>,
    pub version: Selection<EntityTypeQueryPath>,
    pub transaction_time: Selection<EntityTypeQueryPath>,
    pub schema: Selection<EntityTypeQueryPath>,
    pub edition_created_by_id: Selection<EntityTypeQueryPath>,
    pub edition_archived_by_id: Selection<EntityTypeQueryPath>,
    pub additional_metadata: Selection<EntityTypeQueryPath>,
    pub label_property: Selection<EntityTypeQueryPath>,
    pub icon: Selection<EntityTypeQueryPath>,
}

/// The selections with which an entity type record is compiled: base URL,
/// version and transaction time distinct and unsorted, every other field as a
/// plain column.
pub fn entity_type_record_selections() -> (s: EntityTypeRecordSelections)
    ensures
        s == (EntityTypeRecordSelections {
            base_url: Selection::Distinct { path: EntityTypeQueryPath::BaseUrl, direction: None },
            version: Selection::Distinct { path: EntityTypeQueryPath::Version, direction: None },
            transaction_time: Selection::Distinct {
                path: EntityTypeQueryPath::TransactionTime,
                direction: None,
            },
            schema: Selection::Path(EntityTypeQueryPath::Schema),
            edition_created_by_id: Selection::Path(EntityTypeQueryPath::EditionCreatedById),
            edition_archived_by_id: Selection::Path(EntityTypeQueryPath::EditionArchivedById),
            additional_metadata: Selection::Path(EntityTypeQueryPath::AdditionalMetadata),
            label_property: Selection::Path(EntityTypeQueryPath::LabelProperty),
            icon: Selection::Path(EntityTypeQueryPath::Icon),
        }),
{
    EntityTypeRecordSelections {
        base_url: Selection::Distinct { path: EntityTypeQueryPath::BaseUrl, direction: None },
        version: Selection::Distinct { path: EntityTypeQueryPath::Version, direction: None },
        transaction_time: Selection::Distinct {
            path: EntityTypeQueryPath::TransactionTime,
            direction: None,
        },
        schema: Selection::Path(EntityTypeQueryPath::Schema),
        edition_created_by_id: Selection::Path(EntityTypeQueryPath::EditionCreatedById),
        edition_archived_by_id: Selection::Path(EntityTypeQueryPath::EditionArchivedById),
        additional_metadata: Selection::Path(EntityTypeQueryPath::AdditionalMetadata),
        label_property: Selection::Path(EntityTypeQueryPath::LabelProperty),
        icon: Selection::Path(EntityTypeQueryPath::Icon),
    }
}

} // verus!
