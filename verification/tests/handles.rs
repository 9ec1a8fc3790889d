//! Handle identity: clones, equality, keys, typed construction and the
//! default handle.

use resource_core::AnimationData;
use resource_core::AnyData;
use resource_core::Resource;
use resource_core::TextureData;
use resource_core::TypedResourceData;
use resource_core::UntypedResource;
use resource_core::sample::ANIMATION_RESOURCE_TAG;
use resource_core::sample::TEXTURE_RESOURCE_TAG;

fn animation(path: &str) -> AnimationData {
    AnimationData { path: path.to_string(), embedded: false, definition: vec![4, 5] }
}

#[test]
fn clones_compare_equal_and_share_one_key() {
    let origin = UntypedResource::<AnyData>::new_pending("a.anim".to_string(), ANIMATION_RESOURCE_TAG);
    let first = origin.clone();
    let second = first.clone();
    let third = second.clone();

    assert_eq!(origin.key(), first.key());
    assert_eq!(first.key(), second.key());
    assert_eq!(second.key(), third.key());
    assert!(origin == first);
    assert!(first == second);
    assert!(origin == third);

    // A distinct container has its own identity, whatever its content.
    let other = UntypedResource::<AnyData>::new_pending("a.anim".to_string(), ANIMATION_RESOURCE_TAG);
    assert!(origin != other);
    assert_ne!(origin.key(), other.key());
}

#[test]
fn mutation_through_one_clone_is_visible_through_all() {
    let origin = UntypedResource::<AnyData>::new_pending("a.anim".to_string(), ANIMATION_RESOURCE_TAG);
    let observer = origin.clone();

    origin.set_path("b.anim".to_string());
    assert_eq!(observer.path(), "b.anim");

    origin.commit_ok(AnyData::Animation(animation("b.anim"))).unwrap();
    assert!(observer.is_ok());
    assert!(!observer.is_loading());
}

#[test]
fn use_count_follows_the_live_clones() {
    let origin = UntypedResource::<AnyData>::new_ok(AnyData::Animation(animation("a.anim")));
    assert_eq!(origin.use_count(), 1);
    let held = origin.clone();
    assert_eq!(origin.use_count(), 2);
    drop(held);
    assert_eq!(origin.use_count(), 1);
}

#[test]
fn typed_handles_mirror_untyped_identity() {
    let resource = Resource::<AnimationData>::new_ok(animation("a.anim"));
    let clone = resource.clone();
    assert_eq!(resource.key(), clone.key());
    assert!(resource == clone);

    let other = Resource::<AnimationData>::new_ok(animation("a.anim"));
    assert!(resource != other);
}

#[test]
fn mismatched_tag_fails_typed_construction() {
    let texture_container = UntypedResource::<AnyData>::new_pending(
        "t.png".to_string(),
        TEXTURE_RESOURCE_TAG,
    );
    let key = texture_container.key();

    // An animation view over a texture container is refused; the handle
    // comes back unchanged rather than as a silently-broken typed handle.
    match Resource::<AnimationData>::try_from_untyped(texture_container) {
        Ok(_) => panic!("a mismatched tag must fail typed construction"),
        Err(unchanged) => {
            assert_eq!(unchanged.key(), key);
            assert_eq!(unchanged.type_tag(), TEXTURE_RESOURCE_TAG);
        }
    }
}

#[test]
fn matching_tag_passes_typed_construction() {
    let container = UntypedResource::<AnyData>::new_pending(
        "a.anim".to_string(),
        ANIMATION_RESOURCE_TAG,
    );
    let key = container.key();
    let typed = Resource::<AnimationData>::try_from_untyped(container).ok().unwrap();
    assert_eq!(typed.key(), key);

    let back = typed.into_untyped();
    assert_eq!(back.key(), key);
    assert_eq!(back.type_tag(), ANIMATION_RESOURCE_TAG);
}

#[test]
fn default_typed_handle_is_immediately_loaded_with_the_default_data() {
    let resource = Resource::<AnimationData>::default();
    assert!(resource.is_ok());
    assert!(!resource.is_loading());
    assert!(!resource.is_failed_to_load());

    let data = resource.data_ref();
    assert!(data.is_ok());
    assert_eq!(*data.get(), AnimationData::default());
    data.release();

    assert_eq!(resource.path(), "");
}

#[test]
fn default_data_is_embedded_with_an_empty_path() {
    let animation = AnimationData::default_data();
    assert_eq!(animation, AnimationData::default());
    assert_eq!(animation.path, "");
    assert!(animation.embedded);

    let texture = TextureData::default_data();
    assert_eq!(texture, TextureData::default());
    assert!(texture.embedded);
}
