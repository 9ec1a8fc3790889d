//! The dependency collector: completeness of the walk and deduplication by
//! container identity.

use resource_core::AnyData;
use resource_core::ReflectNode;
use resource_core::UntypedResource;
use resource_core::UsedResourceSet;
use resource_core::collect_used_resources;
use resource_core::sample::ANIMATION_RESOURCE_TAG;

fn pending(path: &str) -> UntypedResource<AnyData> {
    UntypedResource::new_pending(path.to_string(), ANIMATION_RESOURCE_TAG)
}

#[test]
fn three_handles_on_two_containers_collect_as_two() {
    let shared = pending("a.anim");
    let other = pending("b.anim");

    // Two handles reference the same container, one references another.
    let entity = ReflectNode::Fields(vec![
        ReflectNode::Handle(shared.clone()),
        ReflectNode::Handle(shared.clone()),
        ReflectNode::Handle(other.clone()),
    ]);

    let mut collected = UsedResourceSet::new();
    collect_used_resources(&entity, &mut collected);

    assert_eq!(collected.len(), 2);
    assert!(collected.contains_key(shared.key()));
    assert!(collected.contains_key(other.key()));
    let handles = collected.handles();
    assert_eq!(handles[0].key(), shared.key());
    assert_eq!(handles[1].key(), other.key());
}

#[test]
fn the_walk_descends_every_capability() {
    let in_sequence = pending("seq.anim");
    let as_map_key = pending("key.anim");
    let as_map_value = pending("value.anim");
    let wrapped = pending("wrapped.anim");
    let in_fields = pending("field.anim");

    let entity = ReflectNode::Fields(vec![
        ReflectNode::Sequence(vec![
            ReflectNode::BulkData(vec![1, 2, 3]),
            ReflectNode::Handle(in_sequence.clone()),
        ]),
        ReflectNode::Mapping(vec![(
            ReflectNode::Handle(as_map_key.clone()),
            ReflectNode::Handle(as_map_value.clone()),
        )]),
        ReflectNode::Inheritable(Box::new(ReflectNode::Handle(wrapped.clone()))),
        ReflectNode::Handle(in_fields.clone()),
    ]);

    let mut collected = UsedResourceSet::new();
    collect_used_resources(&entity, &mut collected);

    assert_eq!(collected.len(), 5);
    for handle in [&in_sequence, &as_map_key, &as_map_value, &wrapped, &in_fields] {
        assert!(collected.contains_key(handle.key()));
    }
}

#[test]
fn bulk_buffers_and_plain_aggregates_yield_nothing() {
    let entity: ReflectNode<AnyData> = ReflectNode::Sequence(vec![
        ReflectNode::BulkData(vec![0; 64]),
        ReflectNode::Fields(vec![]),
        ReflectNode::Mapping(vec![]),
    ]);
    let mut collected = UsedResourceSet::new();
    collect_used_resources(&entity, &mut collected);
    assert_eq!(collected.len(), 0);
}

#[test]
fn collection_accumulates_across_walks() {
    let first = pending("a.anim");
    let second = pending("b.anim");

    let mut collected = UsedResourceSet::new();
    collect_used_resources(&ReflectNode::Handle(first.clone()), &mut collected);
    collect_used_resources(&ReflectNode::Handle(second.clone()), &mut collected);
    // Walking the first entity again adds nothing: its container is known.
    collect_used_resources(&ReflectNode::Handle(first.clone()), &mut collected);

    assert_eq!(collected.len(), 2);
}

#[test]
fn insert_deduplicates_by_identity_not_content() {
    let container = pending("a.anim");
    let mut collected = UsedResourceSet::new();

    assert!(collected.insert(container.clone()));
    assert!(!collected.insert(container.clone()));
    assert_eq!(collected.len(), 1);

    // Same path and tag, but a different container: a new identity.
    let lookalike = pending("a.anim");
    assert!(collected.insert(lookalike.clone()));
    assert_eq!(collected.len(), 2);
}
