//! Closing an entity type over its inheritance chain.
//!
//! The closed schema of an entity type is the schema merged with the schemas
//! of all its ancestors.  The merging itself is done by the caller, who holds
//! the schemas; the resolver here decides which parent to merge next, skips
//! ancestors already merged through another path, and detects inheritance
//! cycles.
use vstd::prelude::*;
use std::collections::{HashMap, HashSet};

verus! {

broadcast use vstd::std_specs::hash::group_hash_axioms;

/// The predicate that keeps every id other than `x`.
pub open spec fn other_than(x: u128) -> spec_fn(u128) -> bool {
    |e: u128| e != x
}

/// Removing every occurrence of an element that a sequence contains shortens it.
pub proof fn lemma_filter_out_shrinks(s: Seq<u128>, x: u128)
    requires
        s.contains(x),
    ensures
        s.filter(other_than(x)).len() < s.len(),
    decreases s.len(),
{
    reveal(Seq::filter);
    s.drop_last().lemma_filter_len(other_than(x));
    if s.last() != x {
        assert(s.drop_last().contains(x)) by {
            let i = choose|i: int| 0 <= i < s.len() && s[i] == x;
            assert(s.drop_last()[i] == x);
        }
        lemma_filter_out_shrinks(s.drop_last(), x);
    }
}

/// Copies `v` without any occurrence of `x`.
fn without(v: &Vec<u128>, x: u128) -> (r: Vec<u128>)
    ensures
        r@ == v@.filter(other_than(x)),
{
    let mut r: Vec<u128> = Vec::new();
    let mut i: usize = 0;
    while i < v.len()
        invariant
            i <= v.len(),
            r@ == v@.take(i as int).filter(other_than(x)),
        decreases v.len() - i,
    {
        proof {
            assert(v@.take(i as int + 1) =~= v@.take(i as int).push(v@[i as int]));
            v@.take(i as int).lemma_filter_push(v@[i as int], other_than(x));
        }
        if v[i] != x {
            r.push(v[i]);
        }
        i = i + 1;
    }
    assert(v@.take(v.len() as int) =~= v@);
    r
}

/// Why closing an entity type failed.
#[derive(Debug, Copy, Clone, PartialEq, Eq, Structural)]
pub enum ClosureError {
    /// The entity type to close is not among the available types.
    EntityTypeNotAvailable,
    /// The entity type lists itself as a parent.
    InheritanceCycle,
    /// The parent with this id is not among the available types.
    ParentNotAvailable(u128),
    /// Merging the parent with this id into the type failed.
    MergeFailed(u128),
}

/// What the closure asks for next.
#[derive(Debug, Copy, Clone, PartialEq, Eq, Structural)]
pub enum ClosureStep {
    /// Merge the available schema of this parent into the type being closed
    /// and report the parents the type lists afterwards.
    MergeParent(u128),
    /// The type lists no parents any more: it is closed.
    Finished,
    /// The closure stopped with this error.
    Failed(ClosureError),
}

/// What came of a requested merge.
#[derive(Debug)]
pub enum MergeOutcome {
    /// The parent was merged; the type now lists these parents.
    Merged(Vec<u128>),
    /// The parent is not among the available types.
    ParentNotAvailable,
    /// The parent could not be merged.
    MergeFailed,
}

/// The state of a closure, as mathematical values.
pub struct ClosureState {
    /// The entity type being closed.
    pub root: u128,
    /// The parents the type lists now.
    pub parents: Seq<u128>,
    /// The copy of the parent list that is being walked through.
    pub pending: Seq<u128>,
    /// The position in `pending` of the next parent to examine.
    pub next: nat,
    /// The types merged so far, and the root.
    pub visited: Set<u128>,
}

/// A measure that every internal step of the walk decreases.
pub open spec fn scan_measure(s: ClosureState) -> nat {
    3 * s.parents.len() + if s.next >= s.pending.len() {
        1nat
    } else if s.next == 0 && s.pending == s.parents {
        0nat
    } else {
        2nat
    }
}

/// Dropping the visited parent at the walk's position from the parent list
/// decreases the walk's measure.
pub proof fn lemma_drop_visited_decreases(s: ClosureState)
    requires
        s.next < s.pending.len(),
    ensures
        scan_measure(
            ClosureState {
                parents: s.parents.filter(other_than(s.pending[s.next as int])),
                next: s.pending.len(),
                ..s
            },
        ) < scan_measure(s),
{
    let p = s.pending[s.next as int];
    s.parents.lemma_filter_len(other_than(p));
    if s.next == 0 && s.pending == s.parents {
        assert(s.parents.contains(p)) by {
            assert(s.parents[0] == p);
        }
        lemma_filter_out_shrinks(s.parents, p);
    }
}

/// The walk through the parent lists up to the next request or the end.
///
/// The parent at the current position is examined: the root itself is an
/// inheritance cycle, an unvisited parent is requested for merging, and a
/// visited one (reached again through multiple inheritance) is dropped from
/// the parent list, after which the walk starts over on a fresh copy of the
/// list.  When the walk has passed the end of its copy, an empty parent list
/// finishes the closure.
pub open spec fn scan(s: ClosureState) -> (ClosureState, ClosureStep)
    decreases scan_measure(s),
{
    if s.next < s.pending.len() {
        let p = s.pending[s.next as int];
        if p == s.root {
            (s, ClosureStep::Failed(ClosureError::InheritanceCycle))
        } else if !s.visited.contains(p) {
            (s, ClosureStep::MergeParent(p))
        } else {
            proof {
                lemma_drop_visited_decreases(s);
            }
            scan(
                ClosureState {
                    parents: s.parents.filter(other_than(p)),
                    next: s.pending.len(),
                    ..s
                },
            )
        }
    } else if s.parents.len() == 0 {
        (s, ClosureStep::Finished)
    } else {
        scan(ClosureState { pending: s.parents, next: 0, ..s })
    }
}

/// The walk changes neither the root nor the visited set.
pub proof fn lemma_scan_keeps_root_and_visited(s: ClosureState)
    ensures
        scan(s).0.root == s.root,
        scan(s).0.visited == s.visited,
    decreases scan_measure(s),
{
    if s.next < s.pending.len() {
        let p = s.pending[s.next as int];
        if p != s.root && s.visited.contains(p) {
            lemma_drop_visited_decreases(s);
            lemma_scan_keeps_root_and_visited(
                ClosureState { parents: s.parents.filter(other_than(p)), next: s.pending.len(), ..s },
            );
        }
    } else if s.parents.len() != 0 {
        lemma_scan_keeps_root_and_visited(ClosureState { pending: s.parents, next: 0, ..s });
    }
}

/// What holds of every result of the walk, proved together by induction.
proof fn lemma_scan_outcome(s: ClosureState)
    requires
        s.visited.contains(s.root),
    ensures
        scan(s).1 matches ClosureStep::MergeParent(p) ==> {
            &&& p != s.root
            &&& !s.visited.contains(p)
            &&& scan(s).0.next < scan(s).0.pending.len()
            &&& scan(s).0.pending[scan(s).0.next as int] == p
        },
        scan(s).1 is Finished ==> scan(s).0.parents.len() == 0,
        scan(s).1 == ClosureStep::Failed(ClosureError::InheritanceCycle) ==> (s.pending.contains(
            s.root,
        ) || s.parents.contains(s.root)),
        s.parents.contains(s.root) ==> scan(s).0.parents.contains(s.root),
        forall|x: u128|
            s.parents.contains(x) && !s.visited.contains(x) ==> #[trigger] scan(s).0.parents.contains(x),
        scan(s).1 is Finished || scan(s).1 is MergeParent || scan(s).1 == ClosureStep::Failed(
            ClosureError::InheritanceCycle,
        ),
    decreases scan_measure(s),
{
    if s.next < s.pending.len() {
        let p = s.pending[s.next as int];
        if p != s.root && s.visited.contains(p) {
            lemma_drop_visited_decreases(s);
            let t = ClosureState {
                parents: s.parents.filter(other_than(p)),
                next: s.pending.len(),
                ..s
            };
            lemma_scan_outcome(t);
            if s.parents.contains(s.root) {
                let i = choose|i: int| 0 <= i < s.parents.len() && s.parents[i] == s.root;
                s.parents.lemma_filter_contains(other_than(p), i);
            }
            assert forall|x: u128|
                s.parents.contains(x) && !s.visited.contains(x) implies t.parents.contains(x) by {
                let i = choose|i: int| 0 <= i < s.parents.len() && s.parents[i] == x;
                s.parents.lemma_filter_contains(other_than(p), i);
            }
            if t.parents.contains(s.root) {
                let i = choose|i: int| 0 <= i < t.parents.len() && t.parents[i] == s.root;
                s.parents.lemma_filter_pred(other_than(p), i);
                s.parents.lemma_filter_contains_rev(other_than(p), s.root);
            }
        } else if p == s.root {
            assert(s.pending.contains(s.root));
        }
    } else if s.parents.len() != 0 {
        lemma_scan_outcome(ClosureState { pending: s.parents, next: 0, ..s });
    }
}

/// A parent is requested for merging only if it is not the type itself and
/// has not been merged before: through multiple inheritance every ancestor is
/// merged at most once.
pub proof fn law_merge_requests_are_new(s: ClosureState)
    requires
        s.visited.contains(s.root),
    ensures
        scan(s).1 matches ClosureStep::MergeParent(p) ==> p != s.root && !s.visited.contains(p),
        scan(s).0.visited == s.visited,
{
    lemma_scan_outcome(s);
    lemma_scan_keeps_root_and_visited(s);
}

/// A closure finishes only when the type lists no parents any more: the
/// closed type inherits from nothing.
pub proof fn law_finished_type_has_no_parents(s: ClosureState)
    requires
        s.visited.contains(s.root),
    ensures
        scan(s).1 is Finished ==> scan(s).0.parents.len() == 0,
{
    lemma_scan_outcome(s);
}

/// A closure finishes only when every parent the type lists has been merged:
/// the walk drops from the parent list only parents that were merged before.
pub proof fn law_only_merged_parents_are_dropped(s: ClosureState, x: u128)
    requires
        s.visited.contains(s.root),
        s.parents.contains(x),
        !s.visited.contains(x),
    ensures
        scan(s).0.parents.contains(x),
        !(scan(s).1 is Finished),
{
    lemma_scan_outcome(s);
    let kept = scan(s).0.parents;
    assert(kept.contains(x));
    assert(kept.len() > 0);
}

/// An inheritance cycle is reported only when the type itself is listed among
/// the parents being walked through.
pub proof fn law_cycle_reported_only_for_self_parent(s: ClosureState)
    requires
        s.visited.contains(s.root),
    ensures
        scan(s).1 == ClosureStep::Failed(ClosureError::InheritanceCycle) ==> (s.pending.contains(
            s.root,
        ) || s.parents.contains(s.root)),
{
    lemma_scan_outcome(s);
}

/// A type that lists itself as a parent is never closed: the walk stops with
/// a cycle or a merge request, never with success.
pub proof fn law_self_parent_never_finishes(s: ClosureState)
    requires
        s.visited.contains(s.root),
        s.parents.contains(s.root),
    ensures
        !(scan(s).1 is Finished),
{
    lemma_scan_outcome(s);
}

/// The walk never fails for a reason other than a cycle: missing or
/// unmergeable parents are reported only by the caller's merges.
pub proof fn law_walk_fails_only_on_cycles(s: ClosureState)
    requires
        s.visited.contains(s.root),
    ensures
        scan(s).1 matches ClosureStep::Failed(e) ==> e == ClosureError::InheritanceCycle,
{
    lemma_scan_outcome(s);
}

/// Closes one entity type over its inheritance chain, one merge at a time.
///
/// The caller holds the schemas; the resolver decides which parent to merge
/// next, detects inheritance cycles, and skips parents that were already
/// merged through another path.
pub struct ClosedEntityTypeResolver {
    root: u128,
    parents: Vec<u128>,
    pending: Vec<u128>,
    next: usize,
    visited: HashSet<u128>,
    awaiting: Option<u128>,
}

impl View for ClosedEntityTypeResolver {
    type V = ClosureState;

    closed spec fn view(&self) -> ClosureState {
        ClosureState {
            root: self.root,
            parents: self.parents@,
            pending: self.pending@,
            next: self.next as nat,
            visited: self.visited@,
        }
    }
}

impl ClosedEntityTypeResolver {
    /// The parent whose merge the resolver waits for, if any.
    pub closed spec fn awaiting(&self) -> Option<u128> {
        self.awaiting
    }

    /// The parents the type being closed lists now.
    pub fn parents(&self) -> (p: &Vec<u128>)
        ensures
            p@ == self@.parents,
    {
        &self.parents
    }

    /// The entity type being closed.
    pub fn root(&self) -> (r: u128)
        ensures
            r == self@.root,
    {
        self.root
    }

    /// The resolver's internal consistency.
    pub closed spec fn wf(&self) -> bool {
        &&& self.visited@.contains(self.root)
        &&& self.next <= self.pending@.len()
        &&& self.awaiting matches Some(p) ==> {
            &&& self.next < self.pending@.len()
            &&& self.pending@[self.next as int] == p
            &&& p != self.root
            &&& !self.visited@.contains(p)
        }
    }

    /// Walks on from the current state up to the next request or the end.
    fn advance(&mut self) -> (step: ClosureStep)
        requires
            old(self).wf(),
            old(self).awaiting() is None,
        ensures
            final(self).wf(),
            (final(self)@, step) == scan(old(self)@),
            final(self).awaiting() == match step {
                ClosureStep::MergeParent(p) => Some(p),
                _ => None::<u128>,
            },
    {
        let ghost start = self@;
        loop
            invariant
                self.wf(),
                self.awaiting() is None,
                scan(self@) == scan(old(self)@),
                self@.root == start.root,
                self@.visited == start.visited,
            decreases scan_measure(self@),
        {
            if self.next < self.pending.len() {
                let p = self.pending[self.next];
                if p == self.root {
                    return ClosureStep::Failed(ClosureError::InheritanceCycle);
                }
                if !self.visited.contains(&p) {
                    self.awaiting = Some(p);
                    return ClosureStep::MergeParent(p);
                }
                proof {
                    lemma_drop_visited_decreases(self@);
                }
                self.parents = without(&self.parents, p);
                self.next = self.pending.len();
            } else {
                if self.parents.len() == 0 {
                    return ClosureStep::Finished;
                }
                self.pending = self.parents.clone();
                self.next = 0;
            }
        }
    }

    /// Starts closing `root`, whose schema lists `root_parents`, or which is not
    /// available when `root_parents` is `None`.
    pub fn start(root: u128, root_parents: Option<Vec<u128>>) -> (r: (Self, ClosureStep))
        ensures
            r.0.wf(),
            r.0@.root == root,
            root_parents is None ==> r.1 == ClosureStep::Failed(ClosureError::EntityTypeNotAvailable),
            root_parents matches Some(ps) ==> (r.0@, r.1) == scan(
                ClosureState {
                    root,
                    parents: ps@,
                    pending: ps@,
                    next: 0,
                    visited: Set::empty().insert(root),
                },
            ),
            r.0.awaiting() == match r.1 {
                ClosureStep::MergeParent(p) => Some(p),
                _ => None::<u128>,
            },
    {
        let mut visited: HashSet<u128> = HashSet::new();
        visited.insert(root);
        match root_parents {
            None => {
                let resolver = ClosedEntityTypeResolver {
                    root,
                    parents: Vec::new(),
                    pending: Vec::new(),
                    next: 0,
                    visited,
                    awaiting: None,
                };
                (resolver, ClosureStep::Failed(ClosureError::EntityTypeNotAvailable))
            },
            Some(parents) => {
                let pending = parents.clone();
                let mut resolver = ClosedEntityTypeResolver {
                    root,
                    parents,
                    pending,
                    next: 0,
                    visited,
                    awaiting: None,
                };
                assert(resolver@.visited =~= Set::empty().insert(root));
                let step = resolver.advance();
                (resolver, step)
            },
        }
    }

    /// Continues after the merge that the resolver asked for.
    pub fn resume(&mut self, outcome: MergeOutcome) -> (step: ClosureStep)
        requires
            old(self).wf(),
            old(self).awaiting() is Some,
        ensures
            final(self).wf(),
            final(self)@.root == old(self)@.root,
            outcome matches MergeOutcome::Merged(parents) ==> (final(self)@, step) == scan(
                ClosureState {
                    parents: parents@,
                    next: old(self)@.next + 1,
                    visited: old(self)@.visited.insert(old(self).awaiting()->0),
                    ..old(self)@
                },
            ),
            outcome is ParentNotAvailable ==> step == ClosureStep::Failed(
                ClosureError::ParentNotAvailable(old(self).awaiting()->0),
            ),
            outcome is MergeFailed ==> step == ClosureStep::Failed(
                ClosureError::MergeFailed(old(self).awaiting()->0),
            ),
            final(self).awaiting() == match step {
                ClosureStep::MergeParent(p) => Some(p),
                _ => None::<u128>,
            },
    {
        let p = match self.awaiting {
            Some(p) => p,
            None => 0,
        };
        let pending_len = self.pending.len();
        assert(self.next < pending_len);
        self.awaiting = None;
        match outcome {
            MergeOutcome::Merged(parents) => {
                self.visited.insert(p);
                self.parents = parents;
                self.next = self.next + 1;
                let step = self.advance();
                proof {
                    lemma_scan_keeps_root_and_visited(ClosureState {
                        parents: parents@,
                        next: old(self)@.next + 1,
                        visited: old(self)@.visited.insert(p),
                        ..old(self)@
                    });
                }
                step
            },
            MergeOutcome::ParentNotAvailable => {
                ClosureStep::Failed(ClosureError::ParentNotAvailable(p))
            },
            MergeOutcome::MergeFailed => ClosureStep::Failed(ClosureError::MergeFailed(p)),
        }
    }
}

/// Takes the schema of the type to close out of the available schemas; the
/// type is not available when it has none.
pub fn take_entity_type<S>(available: &mut HashMap<u128, S>, id: u128) -> (schema: Option<S>)
    ensures
        final(available)@ == old(available)@.remove(id),
        match schema {
            Some(s) => old(available)@.contains_key(id) && s == old(available)@[id],
            None => !old(available)@.contains_key(id),
        },
{
    available.remove(&id)
}

/// The schema of the parent `parent_id` to merge, or, when the available
/// schemas have none for it, the outcome that reports it unavailable.
pub fn parent_to_merge<S>(available: &HashMap<u128, S>, parent_id: u128) -> (r: Result<&S, MergeOutcome>)
    ensures
        match r {
            Ok(s) => available@.contains_key(parent_id) && *s == available@[parent_id],
            Err(outcome) => !available@.contains_key(parent_id) && outcome is ParentNotAvailable,
        },
{
    match available.get(&parent_id) {
        Some(s) => Ok(s),
        None => Err(MergeOutcome::ParentNotAvailable),
    }
}

/// Stores the closed schema of `id` among the available schemas, where the
/// closures of its descendants find it.
pub fn store_closed_entity_type<S>(available: &mut HashMap<u128, S>, id: u128, closed: S)
    ensures
        final(available)@ == old(available)@.insert(id, closed),
{
    available.insert(id, closed);
}

} // verus!
