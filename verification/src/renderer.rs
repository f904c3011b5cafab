//! The renderer: a depth-first, pre-order walk of a visual tree that issues
//! backend draw calls, consulting the texture cache for text nodes. A
//! rectangle is drawn strictly before its children, children are drawn in
//! sequence order, and the first backend failure aborts the remainder of the
//! traversal with nothing further issued.
//!
//! The specification is deterministic up to the texture handles the backend
//! chooses: which calls a node issues, and how the cache's key set evolves,
//! are functions of the node and of the keys cached so far; the handles
//! themselves are read off the trace.

use vstd::prelude::*;

use crate::backend::{Backend, BackendCall, DrawError, RenderError, TextKey, Texture};
use crate::cache::{render_text, text_key, TextureCache};
use crate::geometry::{Bounds, Color};
use crate::visual::VisualTreeNode;

verus! {

/// The calls a backend gained between two observations of its call sequence.
pub open spec fn emitted(pre: Seq<BackendCall>, post: Seq<BackendCall>) -> Seq<BackendCall> {
    post.subrange(pre.len() as int, post.len() as int)
}

/// The cache keys present after `node` renders completely, starting from the
/// keys in `keys`: every text fingerprint reached joins the set.
pub open spec fn keys_after(node: VisualTreeNode, keys: Set<TextKey>) -> Set<TextKey>
    decreases node,
{
    match node {
        VisualTreeNode::Empty => keys,
        VisualTreeNode::Rectangle { bounds, fill, stroke, stroke_width, children } => {
            keys_after_seq(children@, keys)
        },
        VisualTreeNode::Text { content, bounds, color, font_settings } => {
            keys.insert(text_key(bounds, font_settings, content@))
        },
    }
}

/// The cache keys present after the nodes render completely, in order.
pub open spec fn keys_after_seq(nodes: Seq<VisualTreeNode>, keys: Set<TextKey>) -> Set<TextKey>
    decreases nodes,
{
    if nodes.len() == 0 {
        keys
    } else {
        keys_after_seq(nodes.subrange(1, nodes.len() as int), keys_after(nodes[0], keys))
    }
}

/// How many backend calls a complete rendering of `node` issues, given the
/// keys cached when it starts: an empty node none, a rectangle one plus its
/// children's, a text node one draw plus one rasterization on a cache miss.
pub open spec fn trace_len(node: VisualTreeNode, keys: Set<TextKey>) -> int
    decreases node,
{
    match node {
        VisualTreeNode::Empty => 0,
        VisualTreeNode::Rectangle { bounds, fill, stroke, stroke_width, children } => {
            1 + trace_len_seq(children@, keys)
        },
        VisualTreeNode::Text { content, bounds, color, font_settings } => {
            if keys.contains(text_key(bounds, font_settings, content@)) {
                1int
            } else {
                2int
            }
        },
    }
}

/// How many backend calls a complete rendering of the nodes issues, in order.
pub open spec fn trace_len_seq(nodes: Seq<VisualTreeNode>, keys: Set<TextKey>) -> int
    decreases nodes,
{
    if nodes.len() == 0 {
        0
    } else {
        trace_len(nodes[0], keys)
            + trace_len_seq(nodes.subrange(1, nodes.len() as int), keys_after(nodes[0], keys))
    }
}

/// The cache contents after `node` renders completely with trace `trace`:
/// a missed text fingerprint gains the handle its draw call carries.
pub open spec fn post_of(node: VisualTreeNode, pre: Map<TextKey, Texture>, trace: Seq<BackendCall>) -> Map<TextKey, Texture>
    decreases node,
{
    match node {
        VisualTreeNode::Empty => pre,
        VisualTreeNode::Rectangle { bounds, fill, stroke, stroke_width, children } => {
            post_of_seq(children@, pre, trace.subrange(1, trace.len() as int))
        },
        VisualTreeNode::Text { content, bounds, color, font_settings } => {
            let k = text_key(bounds, font_settings, content@);
            if pre.contains_key(k) {
                pre
            } else if trace.len() == 2 && trace[1] is DrawTexture {
                pre.insert(k, trace[1]->DrawTexture_texture)
            } else {
                pre
            }
        },
    }
}

/// The cache contents after the nodes render completely, in order.
pub open spec fn post_of_seq(nodes: Seq<VisualTreeNode>, pre: Map<TextKey, Texture>, trace: Seq<BackendCall>) -> Map<TextKey, Texture>
    decreases nodes,
{
    if nodes.len() == 0 {
        pre
    } else {
        let n = trace_len(nodes[0], pre.dom());
        post_of_seq(
            nodes.subrange(1, nodes.len() as int),
            post_of(nodes[0], pre, trace.subrange(0, n)),
            trace.subrange(n, trace.len() as int),
        )
    }
}

/// A complete, successful rendering of `node`: starting from cache contents
/// `pre`, it issues exactly `trace` and leaves the cache at `post`. An empty
/// node issues nothing; a rectangle issues its own draw strictly first and
/// then its children's traces in sequence order; a text node issues a draw
/// of its cached texture, preceded by one rasterization exactly when its
/// fingerprint was not cached yet.
pub open spec fn renders_to(node: VisualTreeNode, pre: Map<TextKey, Texture>, post: Map<TextKey, Texture>, trace: Seq<BackendCall>) -> bool
    decreases node,
{
    match node {
        VisualTreeNode::Empty => post == pre && trace == Seq::<BackendCall>::empty(),
        VisualTreeNode::Rectangle { bounds, fill, stroke, stroke_width, children } => {
            &&& trace.len() >= 1
            &&& trace[0] == (BackendCall::DrawRectangle { bounds, fill, stroke, stroke_width })
            &&& renders_seq(children@, pre, post, trace.subrange(1, trace.len() as int))
        },
        VisualTreeNode::Text { content, bounds, color, font_settings } => {
            let k = text_key(bounds, font_settings, content@);
            if pre.contains_key(k) {
                post == pre && trace == seq![
                    (BackendCall::DrawTexture { texture: pre[k], bounds }),
                ]
            } else {
                &&& trace.len() == 2
                &&& trace[0] == (BackendCall::RasterizeText { key: k })
                &&& trace[1] == (BackendCall::DrawTexture { texture: post[k], bounds })
                &&& post == pre.insert(k, post[k])
            }
        },
    }
}

/// A complete, successful rendering of the nodes in order: the trace splits
/// into one piece per node, each rendered from the cache state the previous
/// one left behind.
pub open spec fn renders_seq(nodes: Seq<VisualTreeNode>, pre: Map<TextKey, Texture>, post: Map<TextKey, Texture>, trace: Seq<BackendCall>) -> bool
    decreases nodes,
{
    if nodes.len() == 0 {
        post == pre && trace == Seq::<BackendCall>::empty()
    } else {
        let n = trace_len(nodes[0], pre.dom());
        let m = post_of(nodes[0], pre, trace.subrange(0, n));
        &&& 0 <= n <= trace.len()
        &&& renders_to(nodes[0], pre, m, trace.subrange(0, n))
        &&& renders_seq(nodes.subrange(1, nodes.len() as int), m, post, trace.subrange(n, trace.len() as int))
    }
}

/// An aborted rendering of `node` that failed with `e`: `trace` is exactly
/// the calls issued before the first failing backend call, in pre-order, and
/// nothing after the failure was attempted. An empty node cannot fail.
pub open spec fn renders_prefix(node: VisualTreeNode, pre: Map<TextKey, Texture>, post: Map<TextKey, Texture>, trace: Seq<BackendCall>, e: RenderError) -> bool
    decreases node,
{
    match node {
        VisualTreeNode::Empty => false,
        VisualTreeNode::Rectangle { bounds, fill, stroke, stroke_width, children } => {
            ||| (post == pre && trace == Seq::<BackendCall>::empty() && e is Draw)
            ||| (trace.len() >= 1
                && trace[0] == (BackendCall::DrawRectangle { bounds, fill, stroke, stroke_width })
                && prefix_seq(children@, pre, post, trace.subrange(1, trace.len() as int), e))
        },
        VisualTreeNode::Text { content, bounds, color, font_settings } => {
            let k = text_key(bounds, font_settings, content@);
            if pre.contains_key(k) {
                post == pre && trace == Seq::<BackendCall>::empty() && e is Draw
            } else {
                ||| (post == pre && trace == Seq::<BackendCall>::empty() && e is Rasterization)
                ||| (trace == seq![(BackendCall::RasterizeText { key: k })]
                    && post == pre.insert(k, post[k])
                    && e is Draw)
            }
        },
    }
}

/// An aborted rendering of a child list: some leading children render
/// completely, one child aborts, and the remaining siblings are never
/// attempted.
pub open spec fn prefix_seq(nodes: Seq<VisualTreeNode>, pre: Map<TextKey, Texture>, post: Map<TextKey, Texture>, trace: Seq<BackendCall>, e: RenderError) -> bool
    decreases nodes,
{
    nodes.len() > 0 && {
        ||| renders_prefix(nodes[0], pre, post, trace, e)
        ||| {
            let n = trace_len(nodes[0], pre.dom());
            let m = post_of(nodes[0], pre, trace.subrange(0, n));
            &&& 0 <= n <= trace.len()
            &&& renders_to(nodes[0], pre, m, trace.subrange(0, n))
            &&& prefix_seq(nodes.subrange(1, nodes.len() as int), m, post, trace.subrange(n, trace.len() as int), e)
        }
    }
}

/// A successful rendering's trace length, final cache, and final key set are
/// the ones the structural functions compute.
pub proof fn lemma_renders_to_determines(node: VisualTreeNode, pre: Map<TextKey, Texture>, post: Map<TextKey, Texture>, trace: Seq<BackendCall>)
    requires
        renders_to(node, pre, post, trace),
    ensures
        trace.len() == trace_len(node, pre.dom()),
        post == post_of(node, pre, trace),
        post.dom() == keys_after(node, pre.dom()),
    decreases node,
{
    match node {
        VisualTreeNode::Empty => {
        },
        VisualTreeNode::Rectangle { bounds, fill, stroke, stroke_width, children } => {
            lemma_renders_seq_determines(children@, pre, post, trace.subrange(1, trace.len() as int));
        },
        VisualTreeNode::Text { content, bounds, color, font_settings } => {
            let k = text_key(bounds, font_settings, content@);
            if pre.contains_key(k) {
                assert(post.dom() =~= pre.dom().insert(k));
            } else {
                assert(post.dom() =~= pre.dom().insert(k));
            }
        },
    }
}

/// The sequence form of `lemma_renders_to_determines`.
pub proof fn lemma_renders_seq_determines(nodes: Seq<VisualTreeNode>, pre: Map<TextKey, Texture>, post: Map<TextKey, Texture>, trace: Seq<BackendCall>)
    requires
        renders_seq(nodes, pre, post, trace),
    ensures
        trace.len() == trace_len_seq(nodes, pre.dom()),
        post == post_of_seq(nodes, pre, trace),
        post.dom() == keys_after_seq(nodes, pre.dom()),
    decreases nodes,
{
    if nodes.len() > 0 {
        let n = trace_len(nodes[0], pre.dom());
        let piece = trace.subrange(0, n);
        let m = post_of(nodes[0], pre, piece);
        lemma_renders_to_determines(nodes[0], pre, m, piece);
        lemma_renders_seq_determines(
            nodes.subrange(1, nodes.len() as int),
            m,
            post,
            trace.subrange(n, trace.len() as int),
        );
    }
}

/// Appending one fully rendered node to a fully rendered list renders the
/// extended list, with the traces concatenated in order.
pub proof fn lemma_renders_seq_snoc(nodes: Seq<VisualTreeNode>, x: VisualTreeNode, pre: Map<TextKey, Texture>, mid: Map<TextKey, Texture>, post: Map<TextKey, Texture>, t1: Seq<BackendCall>, t2: Seq<BackendCall>)
    requires
        renders_seq(nodes, pre, mid, t1),
        renders_to(x, mid, post, t2),
    ensures
        renders_seq(nodes.push(x), pre, post, t1 + t2),
    decreases nodes.len(),
{
    let whole = nodes.push(x);
    let t = t1 + t2;
    if nodes.len() == 0 {
        lemma_renders_to_determines(x, pre, post, t2);
        assert(t =~= t2);
        assert(whole[0] == x);
        let n = trace_len(whole[0], pre.dom());
        assert(n == t2.len());
        assert(t.subrange(0, n) =~= t2);
        assert(post_of(whole[0], pre, t.subrange(0, n)) == post);
        assert(whole.subrange(1, whole.len() as int) =~= Seq::<VisualTreeNode>::empty());
        assert(t.subrange(n, t.len() as int) =~= Seq::<BackendCall>::empty());
        assert(renders_seq(whole.subrange(1, whole.len() as int), post, post, t.subrange(n, t.len() as int)));
    } else {
        let n1 = trace_len(nodes[0], pre.dom());
        let piece = t1.subrange(0, n1);
        let m1 = post_of(nodes[0], pre, piece);
        lemma_renders_seq_snoc(
            nodes.subrange(1, nodes.len() as int),
            x,
            m1,
            mid,
            post,
            t1.subrange(n1, t1.len() as int),
            t2,
        );
        assert(nodes.subrange(1, nodes.len() as int).push(x)
            =~= whole.subrange(1, whole.len() as int));
        assert(t.subrange(0, n1) =~= piece);
        assert(t.subrange(n1, t.len() as int) =~= t1.subrange(n1, t1.len() as int) + t2);
        assert(whole[0] == nodes[0]);
        assert(renders_to(whole[0], pre, m1, t.subrange(0, n1)));
        assert(renders_seq(whole.subrange(1, whole.len() as int), m1, post, t.subrange(n1, t.len() as int)));
    }
}

/// If the children before position `i` render completely and the child at
/// `i` aborts, the whole child list aborts with the concatenated trace.
pub proof fn lemma_prefix_seq_at(nodes: Seq<VisualTreeNode>, i: int, pre: Map<TextKey, Texture>, mid: Map<TextKey, Texture>, post: Map<TextKey, Texture>, t1: Seq<BackendCall>, t2: Seq<BackendCall>, e: RenderError)
    requires
        0 <= i < nodes.len(),
        renders_seq(nodes.subrange(0, i), pre, mid, t1),
        renders_prefix(nodes[i], mid, post, t2, e),
    ensures
        prefix_seq(nodes, pre, post, t1 + t2, e),
    decreases i,
{
    let t = t1 + t2;
    if i == 0 {
        assert(mid == pre);
        assert(t =~= t2);
        assert(renders_prefix(nodes[0], pre, post, t, e));
    } else {
        let head = nodes.subrange(0, i);
        let rest = nodes.subrange(1, nodes.len() as int);
        let n1 = trace_len(head[0], pre.dom());
        let piece = t1.subrange(0, n1);
        let m1 = post_of(head[0], pre, piece);
        assert(head[0] == nodes[0]);
        assert(head.subrange(1, head.len() as int) =~= rest.subrange(0, i - 1));
        assert(rest[i - 1] == nodes[i]);
        lemma_prefix_seq_at(
            rest,
            i - 1,
            m1,
            mid,
            post,
            t1.subrange(n1, t1.len() as int),
            t2,
            e,
        );
        assert(t.subrange(0, n1) =~= piece);
        assert(t.subrange(n1, t.len() as int) =~= t1.subrange(n1, t1.len() as int) + t2);
        assert(renders_to(nodes[0], pre, m1, t.subrange(0, n1)));
        assert(prefix_seq(rest, m1, post, t.subrange(n1, t.len() as int), e));
    }
}

/// The nesting depth of a visual tree node: the renderer's recursion measure.
pub open spec fn node_height(node: VisualTreeNode) -> nat
    decreases node,
{
    match node {
        VisualTreeNode::Empty => 0,
        VisualTreeNode::Rectangle { bounds, fill, stroke, stroke_width, children } => {
            1 + seq_height(children@)
        },
        VisualTreeNode::Text { content, bounds, color, font_settings } => 0,
    }
}

/// The largest nesting depth among the nodes.
pub open spec fn seq_height(nodes: Seq<VisualTreeNode>) -> nat
    decreases nodes,
{
    if nodes.len() == 0 {
        0
    } else {
        let h0 = node_height(nodes[0]);
        let hr = seq_height(nodes.subrange(1, nodes.len() as int));
        if h0 > hr {
            h0
        } else {
            hr
        }
    }
}

/// Every node in a list is at most as deep as the list's height.
proof fn lemma_seq_height_bound(nodes: Seq<VisualTreeNode>, i: int)
    requires
        0 <= i < nodes.len(),
    ensures
        node_height(nodes[i]) <= seq_height(nodes),
    decreases nodes.len(),
{
    if i > 0 {
        lemma_seq_height_bound(nodes.subrange(1, nodes.len() as int), i - 1);
        assert(nodes.subrange(1, nodes.len() as int)[i - 1] == nodes[i]);
    }
}

/// Traversal order: rendering a rectangle node with children `[c1, c2, c3]`
/// issues the rectangle's own draw call strictly before any child's, and the
/// children's call traces follow in exactly the order c1, c2, c3.
pub proof fn lemma_traversal_order(node: VisualTreeNode, children: Vec<VisualTreeNode>, c1: VisualTreeNode, c2: VisualTreeNode, c3: VisualTreeNode, bounds: Bounds, fill: Color, stroke: Color, stroke_width: i32, pre: Map<TextKey, Texture>, m1: Map<TextKey, Texture>, m2: Map<TextKey, Texture>, post: Map<TextKey, Texture>, t1: Seq<BackendCall>, t2: Seq<BackendCall>, t3: Seq<BackendCall>)
    requires
        node == (VisualTreeNode::Rectangle { bounds, fill, stroke, stroke_width, children }),
        children@ == seq![c1, c2, c3],
        renders_to(c1, pre, m1, t1),
        renders_to(c2, m1, m2, t2),
        renders_to(c3, m2, post, t3),
    ensures
        renders_to(
            node,
            pre,
            post,
            seq![(BackendCall::DrawRectangle { bounds, fill, stroke, stroke_width })] + t1 + t2 + t3,
        ),
{
    let dr = (BackendCall::DrawRectangle { bounds, fill, stroke, stroke_width });
    let e0: Seq<VisualTreeNode> = Seq::empty();
    let b0: Seq<BackendCall> = Seq::empty();
    lemma_renders_seq_snoc(e0, c1, pre, pre, m1, b0, t1);
    assert(e0.push(c1) =~= seq![c1]);
    assert(b0 + t1 =~= t1);
    lemma_renders_seq_snoc(seq![c1], c2, pre, m1, m2, t1, t2);
    assert(seq![c1].push(c2) =~= seq![c1, c2]);
    lemma_renders_seq_snoc(seq![c1, c2], c3, pre, m2, post, t1 + t2, t3);
    assert(seq![c1, c2].push(c3) =~= seq![c1, c2, c3]);
    let trace = seq![dr] + t1 + t2 + t3;
    assert(trace[0] == dr);
    assert(trace.subrange(1, trace.len() as int) =~= t1 + t2 + t3);
}

/// An empty node issues zero backend calls and leaves the cache untouched.
pub proof fn lemma_empty_renders_nothing(pre: Map<TextKey, Texture>, post: Map<TextKey, Texture>, trace: Seq<BackendCall>)
    requires
        renders_to(VisualTreeNode::Empty, pre, post, trace),
    ensures
        post == pre,
        trace == Seq::<BackendCall>::empty(),
{
}

/// Prefixes of the call sequence compose.
proof fn lemma_prefix_trans(a: Seq<BackendCall>, b: Seq<BackendCall>, c: Seq<BackendCall>)
    requires
        a.is_prefix_of(b),
        b.is_prefix_of(c),
    ensures
        a.is_prefix_of(c),
{
    assert(a =~= c.subrange(0, a.len() as int));
}

/// The calls gained over two steps are the two gains concatenated.
proof fn lemma_emitted_cat(a: Seq<BackendCall>, b: Seq<BackendCall>, c: Seq<BackendCall>)
    requires
        a.is_prefix_of(b),
        b.is_prefix_of(c),
    ensures
        emitted(a, c) == emitted(a, b) + emitted(b, c),
{
    assert(emitted(a, c) =~= emitted(a, b) + emitted(b, c));
}

/// A call sequence is a prefix of itself extended by one call.
proof fn lemma_push_prefix(a: Seq<BackendCall>, x: BackendCall)
    ensures
        a.is_prefix_of(a.push(x)),
{
    assert(a =~= a.push(x).subrange(0, a.len() as int));
}

/// Blit a previously rasterized texture at the given bounds: on success the
/// blit is the single call issued.
pub fn gl_draw_texture<B: Backend>(backend: &mut B, texture: Texture, bounds: &Bounds) -> (r: Result<(), DrawError>)
    ensures
        r is Ok ==> final(backend).calls() == old(backend).calls().push(
            (BackendCall::DrawTexture { texture, bounds: *bounds }),
        ),
        r is Err ==> final(backend).calls() == old(backend).calls(),
{
    backend.draw_texture(texture, bounds)
}

/// Render one visual tree node depth-first, pre-order, issuing backend draw
/// calls and reading text textures through the cache. On success the calls
/// gained are exactly a complete rendering of the node; on failure they are
/// exactly the pre-order prefix issued before the first failing call, the
/// remainder of the traversal is abandoned, and the error is surfaced
/// unchanged.
#[verifier::loop_isolation(false)]
pub fn render<B: Backend>(cache: &mut TextureCache, backend: &mut B, node: &VisualTreeNode) -> (r: Result<(), RenderError>)
    requires
        old(cache).wf(),
    ensures
        final(cache).wf(),
        old(backend).calls().is_prefix_of(final(backend).calls()),
        r is Ok ==> renders_to(
            *node,
            old(cache)@,
            final(cache)@,
            emitted(old(backend).calls(), final(backend).calls()),
        ),
        r matches Err(e) ==> renders_prefix(
            *node,
            old(cache)@,
            final(cache)@,
            emitted(old(backend).calls(), final(backend).calls()),
            e,
        ),
    decreases node_height(*node),
{
    match node {
        VisualTreeNode::Empty => {
            proof {
                assert(emitted(backend.calls(), backend.calls())
                    =~= Seq::<BackendCall>::empty());
                assert(backend.calls().is_prefix_of(backend.calls()));
            }
            Ok(())
        },
        VisualTreeNode::Text { content, bounds, color: _, font_settings } => {
            let ghost k = text_key(*bounds, *font_settings, content@);
            let ghost pre = cache@;
            let ghost c0 = backend.calls();
            let texture = match render_text(cache, backend, bounds, font_settings, content.clone()) {
                Ok(t) => t,
                Err(err) => {
                    proof {
                        assert(emitted(c0, backend.calls()) =~= Seq::<BackendCall>::empty());
                        assert(c0.is_prefix_of(backend.calls()));
                    }
                    return Err(RenderError::Rasterization(err));
                },
            };
            let ghost c1 = backend.calls();
            match gl_draw_texture(backend, texture, bounds) {
                Ok(_) => {
                    proof {
                        if pre.contains_key(k) {
                            assert(emitted(c0, backend.calls()) =~= seq![
                                (BackendCall::DrawTexture { texture: pre[k], bounds: *bounds }),
                            ]);
                        } else {
                            assert(emitted(c0, backend.calls()) =~= seq![
                                (BackendCall::RasterizeText { key: k }),
                                (BackendCall::DrawTexture { texture, bounds: *bounds }),
                            ]);
                            assert(cache@ == pre.insert(k, cache@[k]));
                        }
                        lemma_push_prefix(c0, (BackendCall::RasterizeText { key: k }));
                        lemma_push_prefix(c1, (BackendCall::DrawTexture { texture, bounds: *bounds }));
                        lemma_prefix_trans(c0, c1, backend.calls());
                    }
                    Ok(())
                },
                Err(err) => {
                    proof {
                        if pre.contains_key(k) {
                            assert(emitted(c0, backend.calls())
                                =~= Seq::<BackendCall>::empty());
                        } else {
                            assert(emitted(c0, backend.calls()) =~= seq![
                                (BackendCall::RasterizeText { key: k }),
                            ]);
                            assert(cache@ == pre.insert(k, cache@[k]));
                        }
                        assert(c0.is_prefix_of(backend.calls()));
                    }
                    Err(RenderError::Draw(err))
                },
            }
        },
        VisualTreeNode::Rectangle { bounds, fill, stroke, stroke_width, children } => {
            let ghost pre0 = cache@;
            let ghost cfn = backend.calls();
            let ghost dr = (BackendCall::DrawRectangle {
                bounds: *bounds,
                fill: *fill,
                stroke: *stroke,
                stroke_width: *stroke_width,
            });
            match backend.draw_rectangle(bounds, *fill, *stroke, *stroke_width) {
                Ok(_) => {},
                Err(err) => {
                    proof {
                        assert(emitted(cfn, backend.calls()) =~= Seq::<BackendCall>::empty());
                        assert(cfn.is_prefix_of(backend.calls()));
                    }
                    return Err(RenderError::Draw(err));
                },
            }
            let ghost c0 = backend.calls();
            proof {
                assert(emitted(c0, backend.calls()) =~= Seq::<BackendCall>::empty());
                assert(children@.subrange(0, 0) =~= Seq::<VisualTreeNode>::empty());
            }
            let n = children.len();
            let mut i: usize = 0;
            while i < n
                invariant
                    cache.wf(),
                    n == children@.len(),
                    i <= n,
                    c0 == cfn.push(dr),
                    c0.is_prefix_of(backend.calls()),
                    renders_seq(
                        children@.subrange(0, i as int),
                        pre0,
                        cache@,
                        emitted(c0, backend.calls()),
                    ),
                decreases n - i,
            {
                let ghost mcur = cache@;
                let ghost ccur = backend.calls();
                proof {
                    lemma_seq_height_bound(children@, i as int);
                    assert((*node)->Rectangle_children@ == children@);
                    assert(node_height(children@[i as int]) < node_height(*node));
                }
                match render(cache, backend, &children[i]) {
                    Ok(_) => {},
                    Err(err) => {
                        proof {
                            lemma_prefix_seq_at(
                                children@,
                                i as int,
                                pre0,
                                mcur,
                                cache@,
                                emitted(c0, ccur),
                                emitted(ccur, backend.calls()),
                                err,
                            );
                            lemma_prefix_trans(c0, ccur, backend.calls());
                            lemma_emitted_cat(c0, ccur, backend.calls());
                            lemma_push_prefix(cfn, dr);
                            lemma_emitted_cat(cfn, c0, backend.calls());
                            assert(emitted(cfn, c0) =~= seq![dr]);
                            assert(emitted(cfn, backend.calls()).subrange(
                                1,
                                emitted(cfn, backend.calls()).len() as int,
                            ) =~= emitted(c0, backend.calls()));
                            lemma_prefix_trans(cfn, c0, backend.calls());
                        }
                        return Err(err);
                    },
                }
                proof {
                    lemma_renders_seq_snoc(
                        children@.subrange(0, i as int),
                        children@[i as int],
                        pre0,
                        mcur,
                        cache@,
                        emitted(c0, ccur),
                        emitted(ccur, backend.calls()),
                    );
                    assert(children@.subrange(0, i as int).push(children@[i as int])
                        =~= children@.subrange(0, i as int + 1));
                    lemma_emitted_cat(c0, ccur, backend.calls());
                    lemma_prefix_trans(c0, ccur, backend.calls());
                }
                i += 1;
            }
            proof {
                assert(children@.subrange(0, n as int) =~= children@);
                lemma_emitted_cat(cfn, c0, backend.calls());
                lemma_push_prefix(cfn, dr);
                assert(emitted(cfn, c0) =~= seq![dr]);
                assert(emitted(cfn, backend.calls()).subrange(
                    1,
                    emitted(cfn, backend.calls()).len() as int,
                ) =~= emitted(c0, backend.calls()));
                lemma_prefix_trans(cfn, c0, backend.calls());
            }
            Ok(())
        },
    }
}

} // verus!
