use meshview::mesh::{NormalizedModel, Tex2, Vec3, Vertex};
use meshview::reload::ReloadCoordinator;
use meshview::stl::LoadError;

fn model_with_marker(x: i64) -> NormalizedModel {
    NormalizedModel {
        verts: vec![Vertex {
            pos: Vec3 { x, y: 0, z: 0 },
            tex: Tex2 { u: 0, v: 0 },
            normal: Vec3 { x: 0, y: 0, z: 65536 },
        }],
    }
}

fn marker(c: &ReloadCoordinator) -> i64 {
    c.current().verts[0].pos.x
}

#[test]
fn tokens_increase_and_loading_is_reported() {
    let mut c = ReloadCoordinator::new(model_with_marker(0));
    assert!(!c.is_loading());
    assert_eq!(c.published_generation(), 0);
    let a = c.submit();
    let b = c.submit();
    assert_eq!(a, 1);
    assert_eq!(b, 2);
    assert!(a < b);
    assert!(c.is_loading());
    assert_eq!(c.highest_generation(), 2);
    // Nothing published yet: the initial model still shows.
    assert_eq!(marker(&c), 0);
}

#[test]
fn newer_result_first_discards_the_older_one() {
    let mut c = ReloadCoordinator::new(model_with_marker(0));
    let a = c.submit();
    let b = c.submit();
    // B lands first and publishes.
    c.complete(b, Ok(model_with_marker(22)));
    assert_eq!(marker(&c), 22);
    assert!(!c.is_loading());
    // A limps in later: silently discarded, B's result stays.
    c.complete(a, Ok(model_with_marker(11)));
    assert_eq!(marker(&c), 22);
    assert_eq!(c.published_generation(), b);
    assert!(!c.is_loading());
}

#[test]
fn older_result_first_never_publishes() {
    let mut c = ReloadCoordinator::new(model_with_marker(0));
    let a = c.submit();
    let b = c.submit();
    // A lands first but is already superseded: the slot keeps the initial
    // model and stays in the loading state for B.
    c.complete(a, Ok(model_with_marker(11)));
    assert_eq!(marker(&c), 0);
    assert!(c.is_loading());
    // B settles everything.
    c.complete(b, Ok(model_with_marker(22)));
    assert_eq!(marker(&c), 22);
    assert_eq!(c.published_generation(), b);
    assert!(!c.is_loading());
}

#[test]
fn failed_load_keeps_the_active_model() {
    let mut c = ReloadCoordinator::new(model_with_marker(7));
    let t = c.submit();
    assert!(c.is_loading());
    c.complete(t, Err(LoadError::FileNotFound));
    assert_eq!(marker(&c), 7);
    assert!(!c.is_loading());
    assert_eq!(c.error(), Some(LoadError::FileNotFound));
    assert_eq!(c.published_generation(), 0);
    // A later successful reload clears the error.
    let t2 = c.submit();
    assert_eq!(c.error(), None);
    c.complete(t2, Ok(model_with_marker(9)));
    assert_eq!(marker(&c), 9);
    assert_eq!(c.error(), None);
}

#[test]
fn stale_failure_changes_nothing() {
    let mut c = ReloadCoordinator::new(model_with_marker(1));
    let a = c.submit();
    let b = c.submit();
    c.complete(b, Ok(model_with_marker(2)));
    c.complete(a, Err(LoadError::TruncatedData));
    assert_eq!(marker(&c), 2);
    assert_eq!(c.error(), None);
    assert!(!c.is_loading());
}
