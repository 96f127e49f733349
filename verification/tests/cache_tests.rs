use video_pipeline::texture_cache::{EnsureAction, TextureCache};

#[test]
fn first_ensure_creates() {
    let mut cache = TextureCache::new();
    assert!(cache.current_texture().is_none());
    let (t, act) = cache.ensure(640, 480);
    assert_eq!(t.width, 640);
    assert_eq!(t.height, 480);
    assert!(matches!(act, EnsureAction::Created { released: None }));
    assert_eq!(cache.current_texture().unwrap().id, t.id);
}

#[test]
fn same_dimensions_reuse_same_identity() {
    let mut cache = TextureCache::new();
    let (t1, _) = cache.ensure(1280, 720);
    let (t2, act) = cache.ensure(1280, 720);
    assert_eq!(t2.id, t1.id);
    assert!(matches!(act, EnsureAction::Reused));
    // And again: reuse is stable across many frames.
    let (t3, act3) = cache.ensure(1280, 720);
    assert_eq!(t3.id, t1.id);
    assert!(matches!(act3, EnsureAction::Reused));
}

#[test]
fn changed_dimensions_create_new_and_release_old_exactly_once() {
    let mut cache = TextureCache::new();
    let (t1, _) = cache.ensure(1280, 720);
    let (t2, act) = cache.ensure(1920, 1080);
    assert_ne!(t2.id, t1.id);
    match act {
        EnsureAction::Created { released } => {
            let released = released.expect("old texture must be released");
            assert_eq!(released.id, t1.id);
            assert_eq!(released.width, 1280);
            assert_eq!(released.height, 720);
        }
        EnsureAction::Reused => panic!("dimension change must reallocate"),
    }
    // The replacement is now the held texture and is reused in turn.
    let (t3, act3) = cache.ensure(1920, 1080);
    assert_eq!(t3.id, t2.id);
    assert!(matches!(act3, EnsureAction::Reused));
}

#[test]
fn height_only_change_also_reallocates() {
    let mut cache = TextureCache::new();
    let (t1, _) = cache.ensure(640, 480);
    let (t2, act) = cache.ensure(640, 360);
    assert_ne!(t2.id, t1.id);
    assert!(matches!(act, EnsureAction::Created { released: Some(_) }));
}
