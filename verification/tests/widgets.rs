use retained_ui::geometry::{Bounds, FontFamily, FontSettings, FontWeight};
use retained_ui::visual::VisualTreeNode;
use retained_ui::widgets::{Button, Rectangle, Text, Widget};

fn bounds(x: i32, y: i32, width: i32, height: i32) -> Bounds {
    Bounds { x, y, width, height }
}

#[test]
fn purity_rectangle_render_twice() {
    let w = Rectangle { id: 1, bounds: bounds(0, 0, 10, 20), fill: 0x123456, stroke: 0x654321, stroke_width: 2 };
    assert_eq!(w.render(), w.render());
}

#[test]
fn purity_text_render_twice() {
    let w = Text {
        id: 2,
        bounds: bounds(5, 6, 7, 8),
        color: 0x00FF00,
        font_settings: FontSettings { font_size: 12, font_weight: FontWeight::Bold, font_family: FontFamily::Arial },
        content: String::from("hello"),
    };
    assert_eq!(w.render(), w.render());
}

#[test]
fn purity_button_render_twice() {
    let w = Button { id: 3, bounds: bounds(1, 2, 3, 4), label: String::from("press me") };
    assert_eq!(w.render(), w.render());
}

#[test]
fn widget_accessors() {
    let b = bounds(4, 5, 6, 7);
    let w = Button { id: 9, bounds: b, label: String::from("ok") };
    assert_eq!(w.id(), 9);
    assert_eq!(w.bounds(), b);
}

#[test]
fn rectangle_renders_childless_node() {
    let b = bounds(0, 0, 100, 50);
    let w = Rectangle { id: 1, bounds: b, fill: 0x111111, stroke: 0x222222, stroke_width: 3 };
    match w.render() {
        VisualTreeNode::Rectangle { bounds, fill, stroke, stroke_width, children } => {
            assert_eq!(bounds, b);
            assert_eq!(fill, 0x111111);
            assert_eq!(stroke, 0x222222);
            assert_eq!(stroke_width, 3);
            assert_eq!(children.len(), 0);
        },
        _ => panic!("expected a rectangle node"),
    }
}

#[test]
fn text_renders_leaf_node() {
    let b = bounds(10, 10, 80, 16);
    let fs = FontSettings { font_size: 10, font_weight: FontWeight::Light, font_family: FontFamily::Arial };
    let w = Text { id: 4, bounds: b, color: 0x0000FF, font_settings: fs, content: String::from("leaf") };
    match w.render() {
        VisualTreeNode::Text { content, bounds, color, font_settings } => {
            assert_eq!(content, "leaf");
            assert_eq!(bounds, b);
            assert_eq!(color, 0x0000FF);
            assert_eq!(font_settings, fs);
        },
        _ => panic!("expected a text node"),
    }
}

#[test]
fn button_composition_exact() {
    let b = bounds(20, 30, 200, 40);
    let w = Button { id: 5, bounds: b, label: String::from("Hello, world!") };
    match w.render() {
        VisualTreeNode::Rectangle { bounds, fill, stroke, stroke_width, children } => {
            assert_eq!(bounds, b);
            assert_eq!(fill, 0xFFFFFF);
            assert_eq!(stroke, 0xFF0000);
            assert_eq!(stroke_width, 1);
            assert_eq!(children.len(), 1);
            match &children[0] {
                VisualTreeNode::Text { content, bounds, color, font_settings } => {
                    assert_eq!(content, "Hello, world!");
                    assert_eq!(*bounds, b);
                    assert_eq!(*color, 0x000000);
                    assert_eq!(font_settings.font_size, 14);
                    assert_eq!(font_settings.font_weight, FontWeight::Normal);
                    assert_eq!(font_settings.font_family, FontFamily::Arial);
                },
                _ => panic!("expected the label text child"),
            }
        },
        _ => panic!("expected a rectangle node"),
    }
}
