use fractal::render_cache::{RenderCache, RenderJob, TextureSize, DEFAULT_MAX_DEPTH};

#[test]
fn new_cache_is_stale_and_sized() {
    let cache = RenderCache::new(TextureSize::new(100, 80), 512);
    assert!(cache.needs_update());
    assert_eq!(cache.width(), 100);
    assert_eq!(cache.height(), 80);
    assert_eq!(cache.max_depth(), 512);
    assert_eq!(cache.texture_size(), TextureSize::new(100, 80));
}

#[test]
fn default_cache_is_one_pixel() {
    let cache = RenderCache::default();
    assert_eq!(cache.size(), TextureSize::new(1, 1));
    assert_eq!(cache.max_depth(), DEFAULT_MAX_DEPTH);
    assert_eq!(cache.max_depth(), 1024);
    assert!(cache.needs_update());
}

#[test]
fn first_render_keeps_texture() {
    let mut cache = RenderCache::new(TextureSize::new(100, 100), 1024);
    let job = cache.begin_render();
    assert_eq!(
        job,
        Some(RenderJob { size: TextureSize::new(100, 100), max_depth: 1024, resize_texture: false })
    );
    assert!(!cache.needs_update());
}

#[test]
fn clean_cache_renders_nothing() {
    let mut cache = RenderCache::new(TextureSize::new(10, 20), 64);
    assert!(cache.begin_render().is_some());
    assert_eq!(cache.begin_render(), None);
    assert_eq!(cache.begin_render(), None);
}

#[test]
fn resize_asks_for_new_texture_once() {
    let mut cache = RenderCache::default();
    cache.begin_render();
    cache.set_size(TextureSize::new(640, 480));
    assert!(cache.needs_update());
    assert_eq!(cache.texture_size(), TextureSize::new(1, 1));
    assert_eq!(
        cache.begin_render(),
        Some(RenderJob { size: TextureSize::new(640, 480), max_depth: 1024, resize_texture: true })
    );
    assert_eq!(cache.texture_size(), TextureSize::new(640, 480));
    cache.invalidate();
    assert_eq!(
        cache.begin_render(),
        Some(RenderJob { size: TextureSize::new(640, 480), max_depth: 1024, resize_texture: false })
    );
}

#[test]
fn resize_and_back_needs_no_new_texture() {
    let mut cache = RenderCache::new(TextureSize::new(50, 50), 8);
    cache.begin_render();
    cache.set_width(60);
    cache.set_width(50);
    assert!(cache.needs_update());
    assert_eq!(
        cache.begin_render(),
        Some(RenderJob { size: TextureSize::new(50, 50), max_depth: 8, resize_texture: false })
    );
}

#[test]
fn unchanged_setters_keep_cache_clean() {
    let mut cache = RenderCache::new(TextureSize::new(30, 40), 256);
    cache.begin_render();
    cache.set_width(30);
    cache.set_height(40);
    cache.set_size(TextureSize::new(30, 40));
    cache.set_max_depth(256);
    assert!(!cache.needs_update());
    assert_eq!(cache.begin_render(), None);
}

#[test]
fn set_height_marks_stale() {
    let mut cache = RenderCache::new(TextureSize::new(30, 40), 256);
    cache.begin_render();
    cache.set_height(41);
    assert!(cache.needs_update());
    assert_eq!(cache.width(), 30);
    assert_eq!(cache.height(), 41);
}

#[test]
fn max_depth_change_renders_with_new_depth() {
    let mut cache = RenderCache::new(TextureSize::new(30, 40), 256);
    cache.begin_render();
    cache.set_max_depth(1);
    assert_eq!(
        cache.begin_render(),
        Some(RenderJob { size: TextureSize::new(30, 40), max_depth: 1, resize_texture: false })
    );
}

#[test]
fn invalidate_on_clean_cache() {
    let mut cache = RenderCache::new(TextureSize::new(2, 3), 4);
    cache.begin_render();
    assert!(!cache.needs_update());
    cache.invalidate();
    assert!(cache.needs_update());
    assert_eq!(cache.size(), TextureSize::new(2, 3));
}
