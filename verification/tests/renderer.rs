use retained_ui::backend::{DrawError, RasterizationError, RecordedCall, RecordingBackend, RenderError};
use retained_ui::cache::TextureCache;
use retained_ui::geometry::{Bounds, FontFamily, FontSettings, FontWeight};
use retained_ui::renderer::{gl_draw_texture, render};
use retained_ui::visual::VisualTreeNode;

fn bounds(x: i32, y: i32, width: i32, height: i32) -> Bounds {
    Bounds { x, y, width, height }
}

fn font() -> FontSettings {
    FontSettings { font_size: 14, font_weight: FontWeight::Normal, font_family: FontFamily::Arial }
}

fn rect_leaf(x: i32, fill: i32) -> VisualTreeNode {
    VisualTreeNode::Rectangle {
        bounds: bounds(x, 0, 10, 10),
        fill,
        stroke: 0,
        stroke_width: 1,
        children: vec![],
    }
}

fn rect_draw(x: i32, fill: i32) -> RecordedCall {
    RecordedCall::DrawRectangle { bounds: bounds(x, 0, 10, 10), fill, stroke: 0, stroke_width: 1 }
}

fn text_node(content: &str, x: i32) -> VisualTreeNode {
    VisualTreeNode::Text {
        content: String::from(content),
        bounds: bounds(x, 0, 60, 14),
        color: 0x000000,
        font_settings: font(),
    }
}

#[test]
fn empty_issues_no_calls() {
    let mut cache = TextureCache::new();
    let mut backend = RecordingBackend::new();
    let r = render(&mut cache, &mut backend, &VisualTreeNode::Empty);
    assert_eq!(r, Ok(()));
    assert_eq!(backend.log.len(), 0);
}

#[test]
fn traversal_order_three_children() {
    let mut cache = TextureCache::new();
    let mut backend = RecordingBackend::new();
    let parent = VisualTreeNode::Rectangle {
        bounds: bounds(0, 0, 100, 100),
        fill: 0xAAAAAA,
        stroke: 0xBBBBBB,
        stroke_width: 2,
        children: vec![rect_leaf(1, 0x111111), rect_leaf(2, 0x222222), rect_leaf(3, 0x333333)],
    };
    let r = render(&mut cache, &mut backend, &parent);
    assert_eq!(r, Ok(()));
    assert_eq!(
        backend.log,
        vec![
            RecordedCall::DrawRectangle {
                bounds: bounds(0, 0, 100, 100),
                fill: 0xAAAAAA,
                stroke: 0xBBBBBB,
                stroke_width: 2,
            },
            rect_draw(1, 0x111111),
            rect_draw(2, 0x222222),
            rect_draw(3, 0x333333),
        ]
    );
}

#[test]
fn text_drawn_from_cached_texture() {
    let mut cache = TextureCache::new();
    let mut backend = RecordingBackend::new();
    // Two value-identical text nodes: the second is a cache hit.
    let parent = VisualTreeNode::Rectangle {
        bounds: bounds(0, 0, 100, 100),
        fill: 0,
        stroke: 0,
        stroke_width: 1,
        children: vec![text_node("twice", 5), text_node("twice", 5)],
    };
    let r = render(&mut cache, &mut backend, &parent);
    assert_eq!(r, Ok(()));
    assert_eq!(backend.log.len(), 4);
    assert_eq!(
        backend.log[1],
        RecordedCall::RasterizeText {
            content: String::from("twice"),
            bounds: bounds(5, 0, 60, 14),
            font_settings: font(),
        }
    );
    assert_eq!(backend.log[2], RecordedCall::DrawTexture { texture: 1, bounds: bounds(5, 0, 60, 14) });
    assert_eq!(backend.log[3], RecordedCall::DrawTexture { texture: 1, bounds: bounds(5, 0, 60, 14) });
}

#[test]
fn fail_fast_nested_third_child() {
    let mut cache = TextureCache::new();
    let mut backend = RecordingBackend::with_failing_rasterize(String::from("poison"));
    let third = VisualTreeNode::Rectangle {
        bounds: bounds(3, 0, 10, 10),
        fill: 0x333333,
        stroke: 0,
        stroke_width: 1,
        children: vec![text_node("poison", 3)],
    };
    let parent = VisualTreeNode::Rectangle {
        bounds: bounds(0, 0, 100, 100),
        fill: 0xAAAAAA,
        stroke: 0,
        stroke_width: 1,
        children: vec![rect_leaf(1, 0x111111), rect_leaf(2, 0x222222), third, rect_leaf(4, 0x444444)],
    };
    let r = render(&mut cache, &mut backend, &parent);
    assert_eq!(r, Err(RenderError::Rasterization(RasterizationError::InvalidFont)));
    // Everything up to the failing rasterization was issued; the remaining
    // sibling was never attempted.
    assert_eq!(
        backend.log,
        vec![
            RecordedCall::DrawRectangle { bounds: bounds(0, 0, 100, 100), fill: 0xAAAAAA, stroke: 0, stroke_width: 1 },
            rect_draw(1, 0x111111),
            rect_draw(2, 0x222222),
            RecordedCall::DrawRectangle { bounds: bounds(3, 0, 10, 10), fill: 0x333333, stroke: 0, stroke_width: 1 },
        ]
    );
}

#[test]
fn draw_failure_aborts_with_draw_error() {
    let mut cache = TextureCache::new();
    let mut backend = RecordingBackend::with_failing_draws();
    let parent = rect_leaf(0, 0x777777);
    let r = render(&mut cache, &mut backend, &parent);
    assert_eq!(r, Err(RenderError::Draw(DrawError::ContextLost)));
    assert_eq!(backend.log.len(), 0);
}

#[test]
fn text_draw_failure_after_rasterization() {
    let mut cache = TextureCache::new();
    let mut backend = RecordingBackend::with_failing_draws();
    let node = text_node("drawn never", 0);
    let r = render(&mut cache, &mut backend, &node);
    assert_eq!(r, Err(RenderError::Draw(DrawError::ContextLost)));
    // The rasterization went through and was recorded; the blit failed.
    assert_eq!(backend.log.len(), 1);
    assert_eq!(
        backend.log[0],
        RecordedCall::RasterizeText {
            content: String::from("drawn never"),
            bounds: bounds(0, 0, 60, 14),
            font_settings: font(),
        }
    );
}

#[test]
fn gl_draw_texture_blits_at_bounds() {
    let mut backend = RecordingBackend::new();
    let b = bounds(9, 8, 7, 6);
    let r = gl_draw_texture(&mut backend, 42, &b);
    assert_eq!(r, Ok(()));
    assert_eq!(backend.log, vec![RecordedCall::DrawTexture { texture: 42, bounds: b }]);
}

#[test]
fn nested_tree_renders_depth_first() {
    let mut cache = TextureCache::new();
    let mut backend = RecordingBackend::new();
    let inner = VisualTreeNode::Rectangle {
        bounds: bounds(1, 0, 10, 10),
        fill: 0x111111,
        stroke: 0,
        stroke_width: 1,
        children: vec![rect_leaf(2, 0x222222), VisualTreeNode::Empty],
    };
    let parent = VisualTreeNode::Rectangle {
        bounds: bounds(0, 0, 100, 100),
        fill: 0xAAAAAA,
        stroke: 0,
        stroke_width: 1,
        children: vec![inner, rect_leaf(3, 0x333333)],
    };
    let r = render(&mut cache, &mut backend, &parent);
    assert_eq!(r, Ok(()));
    assert_eq!(
        backend.log,
        vec![
            RecordedCall::DrawRectangle { bounds: bounds(0, 0, 100, 100), fill: 0xAAAAAA, stroke: 0, stroke_width: 1 },
            rect_draw(1, 0x111111),
            rect_draw(2, 0x222222),
            rect_draw(3, 0x333333),
        ]
    );
}
