//! The resource lifecycle: one-way transitions, the completion protocol,
//! and path handling.

use resource_core::AnimationData;
use resource_core::AnyData;
use resource_core::CommitError;
use resource_core::LoadError;
use resource_core::PollOutcome;
use resource_core::Resource;
use resource_core::ResourceData;
use resource_core::ResourceLoadError;
use resource_core::ResourceState;
use resource_core::ResourceStateRef;
use resource_core::UntypedResource;
use resource_core::sample::ANIMATION_RESOURCE_TAG;

struct IoError(String);

impl ResourceLoadError for IoError {
    fn message(&self) -> String {
        self.0.clone()
    }
}

fn animation(path: &str) -> AnimationData {
    AnimationData { path: path.to_string(), embedded: false, definition: vec![1, 2, 3] }
}

#[test]
fn pending_commit_ok_transitions_exactly_once() {
    let mut state = ResourceState::<AnyData>::new_pending("a.anim".to_string(), ANIMATION_RESOURCE_TAG);
    assert_eq!(state.type_tag(), ANIMATION_RESOURCE_TAG);
    assert_eq!(state.path().as_str(), "a.anim");

    let woken = state.commit_ok(AnyData::Animation(animation("a.anim"))).unwrap();
    assert!(woken.is_empty());
    assert!(matches!(state, ResourceState::Loaded { .. }));

    // A second commit of either kind is rejected and overwrites nothing.
    let again = state.commit_ok(AnyData::Animation(animation("other.anim")));
    assert_eq!(again, Err(CommitError));
    let error_commit = state.commit_error(LoadError::new("late failure".to_string()));
    assert_eq!(error_commit.map(|_| ()), Err(CommitError));
    match &state {
        ResourceState::Loaded { data: AnyData::Animation(data) } => {
            assert_eq!(data.path, "a.anim");
        }
        _ => panic!("container lost its first commit"),
    }
}

#[test]
fn second_commit_on_failed_container_is_rejected() {
    let mut state = ResourceState::<AnyData>::new_pending("a.anim".to_string(), ANIMATION_RESOURCE_TAG);
    state.commit_error(LoadError::new("missing".to_string())).unwrap();
    assert!(matches!(state, ResourceState::LoadError { .. }));
    assert_eq!(state.commit_ok(AnyData::Animation(animation("a.anim"))).map(|_| ()), Err(CommitError));
    match &state {
        ResourceState::LoadError { error, .. } => assert_eq!(error.message().as_str(), "missing"),
        _ => panic!("container lost its failure"),
    }
}

#[test]
fn waiters_registered_while_pending_are_woken_exactly_once() {
    let resource = UntypedResource::<AnyData>::new_pending("a.anim".to_string(), ANIMATION_RESOURCE_TAG);

    // None of the waiters resolves before the commit.
    assert!(matches!(resource.poll_waiter(11), PollOutcome::Suspended));
    assert!(matches!(resource.poll_waiter(22), PollOutcome::Suspended));
    assert!(matches!(resource.poll_waiter(33), PollOutcome::Suspended));

    let woken = resource.commit_ok(AnyData::Animation(animation("a.anim"))).unwrap();
    assert_eq!(woken, vec![11, 22, 33]);

    // Each woken waiter re-checks and resolves, exactly once each.
    assert!(matches!(resource.poll_waiter(11), PollOutcome::Resolved));
    assert!(matches!(resource.poll_waiter(22), PollOutcome::Resolved));
    assert!(matches!(resource.poll_waiter(33), PollOutcome::Resolved));
}

#[test]
fn waiter_arriving_after_terminal_state_resolves_immediately() {
    let resource = UntypedResource::<AnyData>::new_ok(AnyData::Animation(animation("a.anim")));
    assert!(matches!(resource.poll_waiter(7), PollOutcome::Resolved));

    // Nothing was registered: a later commit attempt is rejected and would
    // have woken nobody.
    assert!(resource.commit_error(LoadError::new("late".to_string())).is_err());
}

#[test]
fn cancelled_waiter_is_not_woken() {
    let resource = UntypedResource::<AnyData>::new_pending("a.anim".to_string(), ANIMATION_RESOURCE_TAG);
    assert!(matches!(resource.poll_waiter(1), PollOutcome::Suspended));
    assert!(matches!(resource.poll_waiter(2), PollOutcome::Suspended));
    resource.cancel_waiter(1);
    let woken = resource.commit_ok(AnyData::Animation(animation("a.anim"))).unwrap();
    assert_eq!(woken, vec![2]);
}

#[test]
fn failed_load_reaches_every_observer() {
    // Create a pending animation handle, fail it with an IO error, and
    // observe the failure through the predicates and through awaiting.
    let resource = Resource::<AnimationData>::new_pending("a.anim".to_string());
    assert!(resource.is_loading());

    let woken = resource.commit_error(LoadError::from_error(&IoError("not found".to_string())));
    assert!(woken.unwrap().is_empty());

    assert!(resource.is_failed_to_load());
    assert!(!resource.is_ok());
    assert!(!resource.is_loading());

    match resource.poll_waiter(9) {
        PollOutcome::Failed(error) => assert_eq!(error.message().as_str(), "not found"),
        _ => panic!("awaiting a failed resource must yield its error"),
    }

    let guard = resource.state();
    match guard.get() {
        ResourceStateRef::LoadError { path, error, type_tag } => {
            assert_eq!(path.as_str(), "a.anim");
            assert_eq!(error.message().as_str(), "not found");
            assert_eq!(type_tag, ANIMATION_RESOURCE_TAG);
        }
        _ => panic!("state must be the load error"),
    }
    guard.release();
}

#[test]
fn set_path_on_loaded_handle_updates_the_data_path() {
    let mut resource = Resource::<AnimationData>::new_ok(animation("a.anim"));
    resource.set_path("b.anim".to_string());
    assert_eq!(resource.path(), "b.anim");

    // The contained data's own path was updated, not just bookkeeping.
    let data = resource.data_ref();
    assert!(data.is_ok());
    assert_eq!(data.get().path, "b.anim");
    data.release();
}

#[test]
fn set_path_is_readable_and_writable_in_every_state() {
    let pending = UntypedResource::<AnyData>::new_pending("p".to_string(), ANIMATION_RESOURCE_TAG);
    pending.set_path("p2".to_string());
    assert_eq!(pending.path(), "p2");

    let failed = UntypedResource::<AnyData>::new_load_error(
        "f".to_string(),
        LoadError::new("broken".to_string()),
        ANIMATION_RESOURCE_TAG,
    );
    failed.set_path("f2".to_string());
    assert_eq!(failed.path(), "f2");
}

#[test]
fn state_guard_commits_typed_data() {
    let resource = Resource::<AnimationData>::new_pending("a.anim".to_string());
    let mut guard = resource.state();
    assert!(matches!(guard.get(), ResourceStateRef::Pending { .. }));
    guard.register_waiter(5);
    let woken = guard.commit_ok(animation("a.anim")).unwrap();
    assert_eq!(woken, vec![5]);
    match guard.get() {
        ResourceStateRef::Loaded(data) => assert_eq!(data.path, "a.anim"),
        _ => panic!("guard must see the committed data"),
    }
    guard.release();
    assert!(resource.is_ok());
}

#[test]
fn state_guard_allows_direct_edits() {
    let resource = Resource::<AnimationData>::new_pending("a.anim".to_string());
    let mut guard = resource.state();
    match guard.get_mut() {
        ResourceState::Pending { path, .. } => *path = "moved.anim".to_string(),
        _ => panic!("a fresh resource is pending"),
    }
    guard.release();
    assert_eq!(resource.path(), "moved.anim");
}

#[test]
fn data_ref_replace_swaps_loaded_data() {
    let resource = Resource::<AnimationData>::new_ok(animation("a.anim"));
    let mut data = resource.data_ref();
    assert!(data.is_ok());
    let previous = data.replace(animation("b.anim"));
    assert_eq!(previous.path, "a.anim");
    assert_eq!(data.get().path, "b.anim");
    assert_eq!(data.describe(), "resource is loaded; path is b.anim");
    data.release();
    assert_eq!(resource.path(), "b.anim");
}

#[test]
fn describe_names_the_unready_states() {
    let pending = Resource::<AnimationData>::new_pending("a.anim".to_string());
    let access = pending.data_ref();
    assert!(!access.is_ok());
    assert_eq!(access.describe(), "resource is not loaded yet; path is a.anim");
    access.release();

    let failed = Resource::<AnimationData>::new_load_error(
        "a.anim".to_string(),
        LoadError::new("broken".to_string()),
    );
    let access = failed.data_ref();
    assert_eq!(access.describe(), "resource failed to load; path is a.anim");
    access.release();
}

#[test]
fn try_acquire_state_yields_a_guard() {
    let resource = Resource::<AnimationData>::new_ok(animation("a.anim"));
    let guard = resource.try_acquire_state().unwrap();
    assert!(matches!(guard.get(), ResourceStateRef::Loaded(_)));
    guard.release();
}

#[test]
fn save_is_unsupported_by_default() {
    let mut data = animation("a.anim");
    let result = data.save(&"a.anim".to_string());
    assert_eq!(result.unwrap_err().message().as_str(), "Saving is not supported!");
}
