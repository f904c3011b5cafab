//! The widget abstraction: logical, stateful UI nodes that each know how to
//! project themselves into one visual tree node. Rendering a widget is a pure
//! projection of its current state, which is what justifies caching
//! downstream.

use vstd::prelude::*;

use crate::geometry::{Bounds, Color, FontFamily, FontSettings, FontWeight};
use crate::visual::{VNode, VisualTreeNode};

verus! {

/// Fill color a button renders with.
pub const BUTTON_FILL: Color = 0xFFFFFF;

/// Stroke color a button renders with.
pub const BUTTON_STROKE: Color = 0xFF0000;

/// Stroke width a button renders with.
pub const BUTTON_STROKE_WIDTH: i32 = 1;

/// Text color a button label renders with.
pub const BUTTON_TEXT_COLOR: Color = 0x000000;

/// The fixed font style of a button label.
pub open spec fn button_font_spec() -> FontSettings {
    FontSettings { font_size: 14, font_weight: FontWeight::Normal, font_family: FontFamily::Arial }
}

/// A logical UI node with an identity, a position, and a pure projection
/// into the visual tree. `render_spec` is the value `render` must return:
/// it depends on the widget's state alone, so re-rendering an unchanged
/// widget always yields a value-equal visual tree node.
pub trait Widget: Sized {
    /// The identity of this widget, unique per logical node.
    spec fn id_spec(&self) -> i32;

    /// The screen-space rectangle this widget occupies.
    spec fn bounds_spec(&self) -> Bounds;

    /// The visual tree node this widget projects to.
    spec fn render_spec(&self) -> VNode;

    fn id(&self) -> (r: i32)
        ensures
            r == self.id_spec(),
    ;

    fn bounds(&self) -> (r: Bounds)
        ensures
            r == self.bounds_spec(),
    ;

    /// Produce this widget's visual tree node. Pure: no widget or shared
    /// state changes, and the result is exactly `render_spec`.
    fn render(&self) -> (r: VisualTreeNode)
        ensures
            r@ == self.render_spec(),
    ;
}

/// A plain rectangle widget with fill and stroke.
pub struct Rectangle {
    pub id: i32,
    pub bounds: Bounds,
    pub fill: Color,
    pub stroke: Color,
    pub stroke_width: i32,
}

impl Widget for Rectangle {
    open spec fn id_spec(&self) -> i32 {
        self.id
    }

    open spec fn bounds_spec(&self) -> Bounds {
        self.bounds
    }

    open spec fn render_spec(&self) -> VNode {
        VNode::Rectangle {
            bounds: self.bounds,
            fill: self.fill,
            stroke: self.stroke,
            stroke_width: self.stroke_width,
            children: Seq::empty(),
        }
    }

    fn id(&self) -> (r: i32) {
        self.id
    }

    fn bounds(&self) -> (r: Bounds) {
        self.bounds
    }

    fn render(&self) -> (r: VisualTreeNode) {
        let r = VisualTreeNode::Rectangle {
            bounds: self.bounds,
            fill: self.fill,
            stroke: self.stroke,
            stroke_width: self.stroke_width,
            children: Vec::new(),
        };
        proof {
            assert(r@->Rectangle_children =~= Seq::<VNode>::empty());
        }
        r
    }
}

/// A styled text run widget owning its content string.
pub struct Text {
    pub id: i32,
    pub bounds: Bounds,
    pub color: Color,
    pub font_settings: FontSettings,
    pub content: String,
}

impl Widget for Text {
    open spec fn id_spec(&self) -> i32 {
        self.id
    }

    open spec fn bounds_spec(&self) -> Bounds {
        self.bounds
    }

    open spec fn render_spec(&self) -> VNode {
        VNode::Text {
            content: self.content@,
            bounds: self.bounds,
            color: self.color,
            font_settings: self.font_settings,
        }
    }

    fn id(&self) -> (r: i32) {
        self.id
    }

    fn bounds(&self) -> (r: Bounds) {
        self.bounds
    }

    fn render(&self) -> (r: VisualTreeNode) {
        VisualTreeNode::Text {
            content: self.content.clone(),
            bounds: self.bounds,
            color: self.color,
            font_settings: self.font_settings,
        }
    }
}

/// A composite widget: a fixed-style rectangle holding exactly one text
/// child that carries the button's label at the button's bounds.
pub struct Button {
    pub id: i32,
    pub bounds: Bounds,
    pub label: String,
}

impl Widget for Button {
    open spec fn id_spec(&self) -> i32 {
        self.id
    }

    open spec fn bounds_spec(&self) -> Bounds {
        self.bounds
    }

    open spec fn render_spec(&self) -> VNode {
        VNode::Rectangle {
            bounds: self.bounds,
            fill: BUTTON_FILL,
            stroke: BUTTON_STROKE,
            stroke_width: BUTTON_STROKE_WIDTH,
            children: seq![
                (VNode::Text {
                    content: self.label@,
                    bounds: self.bounds,
                    color: BUTTON_TEXT_COLOR,
                    font_settings: button_font_spec(),
                }),
            ],
        }
    }

    fn id(&self) -> (r: i32) {
        self.id
    }

    fn bounds(&self) -> (r: Bounds) {
        self.bounds
    }

    fn render(&self) -> (r: VisualTreeNode) {
        let label_node = VisualTreeNode::Text {
            content: self.label.clone(),
            bounds: self.bounds,
            color: BUTTON_TEXT_COLOR,
            font_settings: FontSettings {
                font_size: 14,
                font_weight: FontWeight::Normal,
                font_family: FontFamily::Arial,
            },
        };
        let mut children: Vec<VisualTreeNode> = Vec::new();
        children.push(label_node);
        let ghost cseq = children@;
        let r = VisualTreeNode::Rectangle {
            bounds: self.bounds,
            fill: BUTTON_FILL,
            stroke: BUTTON_STROKE,
            stroke_width: BUTTON_STROKE_WIDTH,
            children,
        };
        proof {
            crate::visual::lemma_vnodes_of(cseq);
            assert(crate::visual::vnodes_of(cseq)[0] == label_node@);
            assert(r@->Rectangle_children =~= self.render_spec()->Rectangle_children);
        }
        r
    }
}

/// Rendering is referentially transparent: any two renders of a widget in
/// one and the same state yield value-equal visual tree nodes.
pub proof fn lemma_render_pure<W: Widget>(w: &W, r1: VNode, r2: VNode)
    requires
        r1 == w.render_spec(),
        r2 == w.render_spec(),
    ensures
        r1 == r2,
{
}

} // verus!
