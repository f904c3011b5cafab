//! The visual tree: an immutable, backend-agnostic description of exactly
//! what must appear on screen. Produced by widgets, consumed by the renderer,
//! never mutated once built.

use vstd::prelude::*;

use crate::geometry::{Bounds, Color, FontSettings};

verus! {

/// The mathematical model of a visual tree node: text content as a character
/// sequence and child lists as sequences, so contracts can compare whole
/// trees by value.
pub enum VNode {
    Empty,
    Rectangle {
        bounds: Bounds,
        fill: Color,
        stroke: Color,
        stroke_width: i32,
        children: Seq<VNode>,
    },
    Text {
        content: Seq<char>,
        bounds: Bounds,
        color: Color,
        font_settings: FontSettings,
    },
}

/// One node of the visual tree. A `Rectangle` owns its children, which are
/// rendered after it in sequence order; `Text` is a leaf owning its content.
#[derive(Debug, PartialEq)]
pub enum VisualTreeNode {
    Empty,
    Rectangle {
        bounds: Bounds,
        fill: Color,
        stroke: Color,
        stroke_width: i32,
        children: Vec<VisualTreeNode>,
    },
    Text {
        content: String,
        bounds: Bounds,
        color: Color,
        font_settings: FontSettings,
    },
}

/// The model of a whole child list, in sequence order.
pub open spec fn vnodes_of(s: Seq<VisualTreeNode>) -> Seq<VNode>
    decreases s,
{
    if s.len() == 0 {
        Seq::empty()
    } else {
        seq![s[0]@] + vnodes_of(s.subrange(1, s.len() as int))
    }
}

impl View for VisualTreeNode {
    type V = VNode;

    open spec fn view(&self) -> VNode
        decreases self,
    {
        match self {
            VisualTreeNode::Empty => VNode::Empty,
            VisualTreeNode::Rectangle { bounds, fill, stroke, stroke_width, children } => {
                VNode::Rectangle {
                    bounds: *bounds,
                    fill: *fill,
                    stroke: *stroke,
                    stroke_width: *stroke_width,
                    children: vnodes_of(children@),
                }
            },
            VisualTreeNode::Text { content, bounds, color, font_settings } => {
                VNode::Text {
                    content: content@,
                    bounds: *bounds,
                    color: *color,
                    font_settings: *font_settings,
                }
            },
        }
    }
}

/// `vnodes_of` maps each child to its model, index by index.
pub proof fn lemma_vnodes_of(s: Seq<VisualTreeNode>)
    ensures
        vnodes_of(s).len() == s.len(),
        forall|i: int| 0 <= i < s.len() ==> vnodes_of(s)[i] == #[trigger] s[i]@,
    decreases s.len(),
{
    if s.len() > 0 {
        let rest = s.subrange(1, s.len() as int);
        lemma_vnodes_of(rest);
        assert(vnodes_of(s) == seq![s[0]@] + vnodes_of(rest));
        assert(vnodes_of(s).len() == s.len());
        assert forall|i: int| 0 <= i < s.len() implies vnodes_of(s)[i] == #[trigger] s[i]@ by {
            if i > 0 {
                assert(vnodes_of(s)[i] == vnodes_of(rest)[i - 1]);
                assert(rest[i - 1] == s[i]);
            }
        }
    }
}

} // verus!
