use retained_ui::backend::{RasterizationError, RecordedCall, RecordingBackend};
use retained_ui::cache::{create_text_texture, render_text, TextRenderSettings, TextureCache};
use retained_ui::geometry::{Bounds, FontFamily, FontSettings, FontWeight};

fn bounds(x: i32, y: i32, width: i32, height: i32) -> Bounds {
    Bounds { x, y, width, height }
}

fn font(size: i32, weight: FontWeight) -> FontSettings {
    FontSettings { font_size: size, font_weight: weight, font_family: FontFamily::Arial }
}

fn settings(content: &str) -> TextRenderSettings {
    TextRenderSettings {
        bounds: bounds(0, 0, 100, 20),
        font_settings: font(14, FontWeight::Normal),
        content: String::from(content),
    }
}

#[test]
fn cache_idempotent_same_key() {
    let mut cache = TextureCache::new();
    let mut backend = RecordingBackend::new();
    let t1 = cache.get_or_create(&mut backend, settings("same")).unwrap();
    let t2 = cache.get_or_create(&mut backend, settings("same")).unwrap();
    let t3 = cache.get_or_create(&mut backend, settings("same")).unwrap();
    assert_eq!(t1, t2);
    assert_eq!(t1, t3);
    // The rasterizer ran exactly once for the key.
    assert_eq!(backend.call_count(), 1);
}

#[test]
fn cache_key_sensitivity_content() {
    let mut cache = TextureCache::new();
    let mut backend = RecordingBackend::new();
    let t1 = cache.get_or_create(&mut backend, settings("one")).unwrap();
    let t2 = cache.get_or_create(&mut backend, settings("two")).unwrap();
    assert_ne!(t1, t2);
    assert_eq!(backend.call_count(), 2);
    // Both entries stay independent.
    assert_eq!(cache.get_or_create(&mut backend, settings("one")).unwrap(), t1);
    assert_eq!(cache.get_or_create(&mut backend, settings("two")).unwrap(), t2);
    assert_eq!(backend.call_count(), 2);
}

#[test]
fn cache_key_sensitivity_bounds() {
    let mut cache = TextureCache::new();
    let mut backend = RecordingBackend::new();
    let mut a = settings("same");
    let mut b = settings("same");
    a.bounds = bounds(0, 0, 100, 20);
    b.bounds = bounds(1, 0, 100, 20);
    let t1 = cache.get_or_create(&mut backend, a).unwrap();
    let t2 = cache.get_or_create(&mut backend, b).unwrap();
    assert_ne!(t1, t2);
    assert_eq!(backend.call_count(), 2);
}

#[test]
fn cache_key_sensitivity_font_settings() {
    let mut cache = TextureCache::new();
    let mut backend = RecordingBackend::new();
    let mut a = settings("same");
    let mut b = settings("same");
    a.font_settings = font(14, FontWeight::Normal);
    b.font_settings = font(14, FontWeight::Bold);
    let t1 = cache.get_or_create(&mut backend, a).unwrap();
    let t2 = cache.get_or_create(&mut backend, b).unwrap();
    assert_ne!(t1, t2);
    assert_eq!(backend.call_count(), 2);
}

#[test]
fn rasterization_failure_propagates_and_caches_nothing() {
    let mut cache = TextureCache::new();
    let mut backend = RecordingBackend::with_failing_rasterize(String::from("bad"));
    let r = cache.get_or_create(&mut backend, settings("bad"));
    assert_eq!(r, Err(RasterizationError::InvalidFont));
    assert_eq!(backend.call_count(), 0);
    // The failure was not cached: a healthy backend rasterizes afresh.
    let mut healthy = RecordingBackend::new();
    let t = cache.get_or_create(&mut healthy, settings("bad")).unwrap();
    assert_eq!(healthy.call_count(), 1);
    // And now it is cached.
    assert_eq!(cache.get_or_create(&mut healthy, settings("bad")).unwrap(), t);
    assert_eq!(healthy.call_count(), 1);
}

#[test]
fn create_text_texture_invokes_rasterizer() {
    let mut backend = RecordingBackend::new();
    let s = settings("direct");
    let t = create_text_texture(&mut backend, &s).unwrap();
    assert_eq!(backend.log.len(), 1);
    assert_eq!(
        backend.log[0],
        RecordedCall::RasterizeText {
            content: String::from("direct"),
            bounds: s.bounds,
            font_settings: s.font_settings,
        }
    );
    assert_eq!(t, 1);
}

#[test]
fn render_text_reads_through_cache() {
    let mut cache = TextureCache::new();
    let mut backend = RecordingBackend::new();
    let b = bounds(3, 4, 50, 12);
    let fs = font(11, FontWeight::Light);
    let t1 = render_text(&mut cache, &mut backend, &b, &fs, String::from("cached")).unwrap();
    let t2 = render_text(&mut cache, &mut backend, &b, &fs, String::from("cached")).unwrap();
    assert_eq!(t1, t2);
    assert_eq!(backend.call_count(), 1);
}
