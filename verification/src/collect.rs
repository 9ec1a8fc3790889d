//! The dependency collector: a recursive walk over an introspected object
//! graph that gathers every reachable untyped handle, deduplicated by
//! container identity.
//!
//! Introspection is a capability of the host: a value presents itself as a
//! [`ReflectNode`] — a bulk numeric buffer, a handle, a sequence, a mapping,
//! an inheritable wrapper, or an aggregate of fields. Handles are leaves of
//! the walk: the walk never enters a handle's own data, so shared-ownership
//! cycles, which are only possible through handles, cannot recurse forever.

use vstd::prelude::*;

use fxhash::FxHasher;

use std::collections::HashSet;
use std::hash::BuildHasherDefault;

use crate::data::ResourceData;
use crate::untyped::UntypedResource;

verus! {

broadcast use vstd::seq::axiom_seq_index_decreases, vstd::std_specs::vec::axiom_vec_decreases_to_view;

/// The hasher of the `fxhash` crate, used for the identity-key index of a
/// collection of handles.
#[verifier::external_type_specification]
#[verifier::external_body]
pub struct ExFxHasher(FxHasher);

/// The standard builder that makes hashers from their default value.
#[verifier::external_type_specification]
#[verifier::external_body]
#[verifier::reject_recursive_types(H)]
pub struct ExBuildHasherDefault<H>(BuildHasherDefault<H>);

/// Relies on `HashSet::default` with the Fx hasher: a fresh set is empty.
#[verifier::external_body]
fn key_index_new() -> (index: HashSet<usize, BuildHasherDefault<FxHasher>>)
    ensures
        index@ == Set::<usize>::empty(),
{
    HashSet::default()
}

/// Relies on `HashSet::insert` with the Fx hasher, which hashes equal keys
/// equally: afterwards the set holds `key` too, and the result says whether
/// it was new.
#[verifier::external_body]
fn key_index_insert(index: &mut HashSet<usize, BuildHasherDefault<FxHasher>>, key: usize) -> (newly:
    bool)
    ensures
        final(index)@ == old(index)@.insert(key),
        newly == !old(index)@.contains(key),
{
    index.insert(key)
}

/// Relies on `HashSet::contains` with the Fx hasher, which hashes equal
/// keys equally.
#[verifier::external_body]
fn key_index_contains(index: &HashSet<usize, BuildHasherDefault<FxHasher>>, key: usize) -> (present:
    bool)
    ensures
        present == index@.contains(key),
{
    index.contains(&key)
}

/// What introspection shows of one value: the capability the walk descends
/// through, or a leaf.
pub enum ReflectNode<E: ResourceData> {
    /// A bulk buffer of plain numeric data: a leaf, it can hold no handle.
    BulkData(Vec<u8>),
    /// An untyped resource handle: collected, and itself a leaf.
    Handle(UntypedResource<E>),
    /// A sequence of elements.
    Sequence(Vec<ReflectNode<E>>),
    /// An associative container of key-value entries.
    Mapping(Vec<(ReflectNode<E>, ReflectNode<E>)>),
    /// An inheritable or overridable wrapper around one inner value.
    Inheritable(Box<ReflectNode<E>>),
    /// Any other aggregate: its fields, in order.
    Fields(Vec<ReflectNode<E>>),
}

/// The identity keys of every handle reachable from `node`.
pub open spec fn spec_reachable<E: ResourceData>(node: ReflectNode<E>) -> Set<usize>
    decreases node, 2int, 0int,
{
    match node {
        ReflectNode::BulkData(_) => Set::empty(),
        ReflectNode::Handle(handle) => Set::empty().insert(handle.spec_key()),
        ReflectNode::Sequence(items) => spec_reachable_in_first(items@, items@.len() as int),
        ReflectNode::Mapping(entries) => spec_reachable_in_entries(
            entries@,
            entries@.len() as int,
        ),
        ReflectNode::Inheritable(inner) => spec_reachable(*inner),
        ReflectNode::Fields(fields) => spec_reachable_in_first(fields@, fields@.len() as int),
    }
}

/// The identity keys of every handle reachable from the first `upto` nodes.
pub open spec fn spec_reachable_in_first<E: ResourceData>(
    nodes: Seq<ReflectNode<E>>,
    upto: int,
) -> Set<usize>
    decreases nodes, 1int, upto,
{
    if 0 < upto <= nodes.len() {
        spec_reachable_in_first(nodes, upto - 1).union(spec_reachable(nodes[upto - 1]))
    } else {
        Set::empty()
    }
}

/// The identity keys of every handle reachable from the keys and values of
/// the first `upto` entries.
pub open spec fn spec_reachable_in_entries<E: ResourceData>(
    entries: Seq<(ReflectNode<E>, ReflectNode<E>)>,
    upto: int,
) -> Set<usize>
    decreases entries, 1int, upto,
{
    if 0 < upto <= entries.len() {
        spec_reachable_in_entries(entries, upto - 1).union(
            spec_reachable(entries[upto - 1].0),
        ).union(spec_reachable(entries[upto - 1].1))
    } else {
        Set::empty()
    }
}

/// The identity keys of the handles in `handles`.
pub open spec fn spec_key_set<E: ResourceData>(handles: Seq<UntypedResource<E>>) -> Set<usize> {
    Set::new(
        |key: usize|
            exists|i: int| 0 <= i < handles.len() && handles[i].spec_key() == key,
    )
}

/// A collection of untyped handles deduplicated by container identity: at
/// most one handle per identity key, with a hashed key index for constant
/// time membership tests.
pub struct UsedResourceSet<E: ResourceData> {
    handles: Vec<UntypedResource<E>>,
    index: HashSet<usize, BuildHasherDefault<FxHasher>>,
}

impl<E: ResourceData> UsedResourceSet<E> {
    /// The collected handles, in collection order.
    pub closed spec fn view(self) -> Seq<UntypedResource<E>> {
        self.handles@
    }

    /// The identity keys of the collected handles.
    pub closed spec fn spec_keys(self) -> Set<usize> {
        self.index@
    }

    /// The key index is exactly the keys of the handles, and no two handles
    /// share an identity.
    pub closed spec fn wf(self) -> bool {
        &&& self.index@ == spec_key_set(self.handles@)
        &&& forall|i: int, j: int|
            0 <= i < j < self.handles@.len() ==> self.handles@[i].spec_key()
                != self.handles@[j].spec_key()
    }

    /// A fresh, empty collection.
    pub fn new() -> (collection: Self)
        ensures
            collection.wf(),
            collection@ == Seq::<UntypedResource<E>>::empty(),
            collection.spec_keys() == Set::<usize>::empty(),
    {
        let collection = UsedResourceSet { handles: Vec::new(), index: key_index_new() };
        proof {
            assert(collection.index@ =~= spec_key_set(collection.handles@));
        }
        collection
    }

    /// Inserts a handle unless a handle of the same identity was already
    /// collected; says whether it was new.
    pub fn insert(&mut self, handle: UntypedResource<E>) -> (added: bool)
        requires
            old(self).wf(),
        ensures
            final(self).wf(),
            final(self).spec_keys() == old(self).spec_keys().insert(handle.spec_key()),
            added == !old(self).spec_keys().contains(handle.spec_key()),
            added ==> final(self)@ == old(self)@.push(handle),
            !added ==> final(self)@ == old(self)@,
    {
        let key = handle.key();
        let newly = key_index_insert(&mut self.index, key);
        if newly {
            self.handles.push(handle);
            proof {
                let pre = old(self).handles@;
                let post = self.handles@;
                assert forall|k: usize| #[trigger] spec_key_set(post).contains(k) implies self.index@.contains(k) by {
                    let i = choose|i: int| 0 <= i < post.len() && post[i].spec_key() == k;
                    if i < pre.len() {
                        assert(spec_key_set(pre).contains(k));
                    } else {
                        assert(post[i] == handle);
                    }
                };
                assert forall|k: usize|
                    self.index@.contains(k) implies #[trigger] spec_key_set(post).contains(k) by {
                    if k == handle.spec_key() {
                        assert(post[pre.len() as int].spec_key() == k);
                    } else {
                        assert(spec_key_set(pre).contains(k));
                        let i = choose|i: int| 0 <= i < pre.len() && pre[i].spec_key() == k;
                        assert(post[i].spec_key() == k);
                    }
                };
                assert(self.index@ =~= spec_key_set(post));
                assert forall|i: int|
                    0 <= i < pre.len() implies pre[i].spec_key() != handle.spec_key() by {
                    assert(spec_key_set(pre).contains(pre[i].spec_key()));
                };
            }
            true
        } else {
            proof {
                assert(old(self).index@.contains(handle.spec_key()));
                assert(self.index@ =~= old(self).index@);
            }
            false
        }
    }

    /// True if a handle of this identity was already collected.
    pub fn contains_key(&self, key: usize) -> (present: bool)
        ensures
            present == self.spec_keys().contains(key),
    {
        key_index_contains(&self.index, key)
    }

    /// The number of distinct container identities collected.
    pub fn len(&self) -> (length: usize)
        ensures
            length == self@.len(),
    {
        self.handles.len()
    }

    /// Borrows the collected handles, in collection order.
    pub fn handles(&self) -> (handles: &Vec<UntypedResource<E>>)
        ensures
            handles@ == self@,
    {
        &self.handles
    }

    /// The collected keys are exactly the keys of the collected handles, so
    /// the number of handles equals the number of distinct identities.
    pub proof fn lemma_keys_are_handle_keys(&self)
        requires
            self.wf(),
        ensures
            self.spec_keys() == spec_key_set(self@),
    {
    }

    /// Each reachable container identity is collected exactly once: no two
    /// collected handles share a key.
    pub proof fn lemma_identities_distinct(&self)
        requires
            self.wf(),
        ensures
            forall|i: int, j: int|
                0 <= i < j < self@.len() ==> self@[i].spec_key() != self@[j].spec_key(),
    {
    }
}

/// Collects every untyped handle reachable from `entity` into
/// `resources_collection`, walking sequences, mappings, inheritable
/// wrappers and aggregate fields, skipping bulk numeric buffers, and
/// deduplicating by container identity: afterwards the collected keys are
/// exactly the old ones together with every key reachable from `entity`.
pub fn collect_used_resources<E: ResourceData>(
    entity: &ReflectNode<E>,
    resources_collection: &mut UsedResourceSet<E>,
)
    requires
        old(resources_collection).wf(),
    ensures
        final(resources_collection).wf(),
        old(resources_collection)@.len() <= final(resources_collection)@.len(),
        forall|i: int|
            0 <= i < old(resources_collection)@.len() ==> final(resources_collection)@[i] == old(
                resources_collection,
            )@[i],
        final(resources_collection).spec_keys() == old(resources_collection).spec_keys().union(
            spec_reachable(*entity),
        ),
    decreases *entity, 2int, 0int,
{
    match entity {
        ReflectNode::BulkData(_) => {
            proof {
                assert(resources_collection.spec_keys() =~= resources_collection.spec_keys().union(
                    spec_reachable(*entity),
                ));
            }
        },
        ReflectNode::Handle(handle) => {
            resources_collection.insert(handle.clone());
            proof {
                assert(resources_collection.spec_keys() =~= old(
                    resources_collection,
                ).spec_keys().union(spec_reachable(*entity)));
            }
        },
        ReflectNode::Sequence(items) => {
            collect_from_nodes(items, resources_collection);
        },
        ReflectNode::Mapping(entries) => {
            collect_from_entries(entries, resources_collection);
        },
        ReflectNode::Inheritable(inner) => {
            collect_used_resources(inner, resources_collection);
        },
        ReflectNode::Fields(fields) => {
            collect_from_nodes(fields, resources_collection);
        },
    }
}

/// Collects every handle reachable from any of `nodes`.
fn collect_from_nodes<E: ResourceData>(
    nodes: &Vec<ReflectNode<E>>,
    resources_collection: &mut UsedResourceSet<E>,
)
    requires
        old(resources_collection).wf(),
    ensures
        final(resources_collection).wf(),
        old(resources_collection)@.len() <= final(resources_collection)@.len(),
        forall|i: int|
            0 <= i < old(resources_collection)@.len() ==> final(resources_collection)@[i] == old(
                resources_collection,
            )@[i],
        final(resources_collection).spec_keys() == old(resources_collection).spec_keys().union(
            spec_reachable_in_first(nodes@, nodes@.len() as int),
        ),
    decreases nodes@, 1int, nodes@.len(),
{
    let ghost initial = resources_collection.spec_keys();
    let ghost initial_handles = resources_collection@;
    let mut position: usize = 0;
    proof {
        assert(initial =~= initial.union(spec_reachable_in_first(nodes@, 0)));
    }
    while position < nodes.len()
        invariant
            initial_handles == old(resources_collection)@,
            resources_collection.wf(),
            position <= nodes@.len(),
            initial_handles.len() <= resources_collection@.len(),
            forall|i: int|
                0 <= i < initial_handles.len() ==> resources_collection@[i] == initial_handles[i],
            resources_collection.spec_keys() == initial.union(
                spec_reachable_in_first(nodes@, position as int),
            ),
        decreases nodes@.len() - position,
    {
        collect_used_resources(&nodes[position], resources_collection);
        proof {
            assert(initial.union(spec_reachable_in_first(nodes@, position as int)).union(
                spec_reachable(nodes@[position as int]),
            ) =~= initial.union(spec_reachable_in_first(nodes@, position as int + 1)));
        }
        position += 1;
    }
}

/// Collects every handle reachable from any key or value of `entries`.
fn collect_from_entries<E: ResourceData>(
    entries: &Vec<(ReflectNode<E>, ReflectNode<E>)>,
    resources_collection: &mut UsedResourceSet<E>,
)
    requires
        old(resources_collection).wf(),
    ensures
        final(resources_collection).wf(),
        old(resources_collection)@.len() <= final(resources_collection)@.len(),
        forall|i: int|
            0 <= i < old(resources_collection)@.len() ==> final(resources_collection)@[i] == old(
                resources_collection,
            )@[i],
        final(resources_collection).spec_keys() == old(resources_collection).spec_keys().union(
            spec_reachable_in_entries(entries@, entries@.len() as int),
        ),
    decreases entries@, 1int, entries@.len(),
{
    let ghost initial = resources_collection.spec_keys();
    let ghost initial_handles = resources_collection@;
    let mut position: usize = 0;
    proof {
        assert(initial =~= initial.union(spec_reachable_in_entries(entries@, 0)));
    }
    while position < entries.len()
        invariant
            initial_handles == old(resources_collection)@,
            resources_collection.wf(),
            position <= entries@.len(),
            initial_handles.len() <= resources_collection@.len(),
            forall|i: int|
                0 <= i < initial_handles.len() ==> resources_collection@[i] == initial_handles[i],
            resources_collection.spec_keys() == initial.union(
                spec_reachable_in_entries(entries@, position as int),
            ),
        decreases entries@.len() - position,
    {
        collect_used_resources(&entries[position].0, resources_collection);
        collect_used_resources(&entries[position].1, resources_collection);
        proof {
            assert(initial.union(spec_reachable_in_entries(entries@, position as int)).union(
                spec_reachable(entries@[position as int].0),
            ).union(spec_reachable(entries@[position as int].1)) =~= initial.union(
                spec_reachable_in_entries(entries@, position as int + 1),
            ));
        }
        position += 1;
    }
}

} // verus!
