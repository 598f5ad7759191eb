//! The scene graph: a tree of drawable nodes, each with a local rigid
//! transform, an exclusively-owned GPU primitive and exclusively-owned
//! children.
//!
//! Traversal is depth-first, parent before children, children in list
//! order. It never mutates the tree: each pass walks the tree with an
//! accumulated world transform — a node's world transform is its parent's
//! world transform composed with its own local transform, recomputed every
//! frame — and appends one draw command per node, in traversal order. The
//! host shell executes the commands in the order they stand.

use vstd::prelude::*;

use crate::gpu::Gpu;
use crate::primitive::Primitive;
use crate::select_pipeline::{unpack, unpack_spec, ColorMap, Rgb};
use crate::transform::{spec_compose, spec_identity, spec_inverse, Transform};

verus! {

/// One scene-graph node.
pub struct Node {
    pub id: u32,
    pub transform: Transform,
    pub primitive: Primitive,
    pub children: Vec<Node>,
}

/// The highlight tint uploaded for the selected node: a warm non-zero
/// RGBA value, in 16.16 fixed point.
#[derive(Clone, Copy, PartialEq, Eq, Structural, Debug)]
pub struct Tint {
    pub r: i64,
    pub g: i64,
    pub b: i64,
    pub a: i64,
}

/// The tint for the selected node.
pub open spec fn highlight_tint() -> Tint {
    Tint { r: 26214, g: 26214, b: 6553, a: 0 }
}

/// The tint for every unselected node: zero.
pub open spec fn zero_tint() -> Tint {
    Tint { r: 0, g: 0, b: 0, a: 0 }
}

/// One draw command of the main (lit+textured) pass: which buffers to bind,
/// how many indices to draw, the node's world transform, the inverse of
/// that transform (the host shell uploads its homogeneous transpose as the
/// normal transform), and the highlight tint.
#[derive(Clone, Copy, PartialEq, Eq, Structural, Debug)]
pub struct NodeDraw {
    pub vertex_buffer: u64,
    pub index_buffer: u64,
    pub index_count: i32,
    pub transform: Transform,
    pub normal_transform: Transform,
    pub select_color: Tint,
}

/// One draw command of the selection pass: which buffers to bind, how many
/// indices to draw, the node's world transform, and the node's flat picking
/// color.
#[derive(Clone, Copy, PartialEq, Eq, Structural, Debug)]
pub struct SelectDraw {
    pub vertex_buffer: u64,
    pub index_buffer: u64,
    pub index_count: i32,
    pub transform: Transform,
    pub color: Rgb,
}

/// Number of nodes in the subtree rooted at `n`.
pub open spec fn node_count(n: Node) -> nat
    decreases n,
{
    1 + node_count_seq(n.children@)
}

/// Number of nodes in a forest.
pub open spec fn node_count_seq(s: Seq<Node>) -> nat
    decreases s,
{
    if s.len() == 0 {
        0
    } else {
        node_count_seq(s.drop_last()) + node_count(s.last())
    }
}

/// The ids of the subtree rooted at `n`, in depth-first preorder.
pub open spec fn node_ids(n: Node) -> Seq<u32>
    decreases n,
{
    seq![n.id] + node_ids_seq(n.children@)
}

/// The ids of a forest, in depth-first preorder.
pub open spec fn node_ids_seq(s: Seq<Node>) -> Seq<u32>
    decreases s,
{
    if s.len() == 0 {
        Seq::empty()
    } else {
        node_ids_seq(s.drop_last()) + node_ids(s.last())
    }
}

/// Every transform in the subtree is well-formed.
pub open spec fn tree_wf(n: Node) -> bool
    decreases n,
{
    &&& n.transform.wf()
    &&& forall|i: int| 0 <= i < n.children@.len() ==> tree_wf(#[trigger] n.children@[i])
}

/// Every primitive in the subtree is live in the given ledger.
pub open spec fn tree_live(n: Node, gpu: Gpu) -> bool
    decreases n,
{
    &&& n.primitive.live_in(gpu)
    &&& forall|i: int| 0 <= i < n.children@.len() ==> tree_live(#[trigger] n.children@[i], gpu)
}

/// Every id in the subtree is below the background color value, so each can
/// serve as a packed picking color.
pub open spec fn ids_below(n: Node) -> bool
    decreases n,
{
    &&& n.id < 0xFFFFFF
    &&& forall|i: int| 0 <= i < n.children@.len() ==> ids_below(#[trigger] n.children@[i])
}

/// A subtree element counts no more than its forest.
pub proof fn lemma_node_count_elem(s: Seq<Node>, i: int)
    requires
        0 <= i < s.len(),
    ensures
        node_count(s[i]) <= node_count_seq(s),
    decreases s.len(),
{
    if i == s.len() - 1 {
    } else {
        assert(s.drop_last()[i] == s[i]);
        lemma_node_count_elem(s.drop_last(), i);
    }
}

impl Node {
    /// A fresh node owning the given primitive: id zero, identity local
    /// transform, no children.
    pub fn new(primitive: Primitive) -> (r: Node)
        ensures
            r.id == 0,
            r.transform == spec_identity(),
            r.primitive == primitive,
            r.children@ == Seq::<Node>::empty(),
    {
        let children: Vec<Node> = Vec::new();
        proof {
            assert(children@ =~= Seq::<Node>::empty());
        }
        Node { id: 0, transform: Transform::identity(), primitive, children }
    }
}

/// The main-pass draw commands of the subtree rooted at `n`, given the
/// accumulated parent world transform and the currently selected node:
/// first the node's own command — whose world transform is the parent
/// transform composed with the node's local transform — then its
/// children's, in order.
pub open spec fn spec_node_draws(n: Node, parent: Transform, selected: Option<u32>) -> Seq<
    NodeDraw,
>
    decreases n,
{
    seq![spec_node_draw_cmd(n, parent, selected)] + spec_node_draws_seq(
        n.children@,
        spec_compose(parent, n.transform),
        selected,
    )
}

/// The single main-pass command of one node.
pub open spec fn spec_node_draw_cmd(n: Node, parent: Transform, selected: Option<u32>) -> NodeDraw {
    let world = spec_compose(parent, n.transform);
    NodeDraw {
        vertex_buffer: n.primitive.vertex_buffer,
        index_buffer: n.primitive.index_buffer,
        index_count: n.primitive.index_count,
        transform: world,
        normal_transform: spec_inverse(world),
        select_color: if selected == Some(n.id) {
            highlight_tint()
        } else {
            zero_tint()
        },
    }
}

/// The main-pass draw commands of a forest, in order.
pub open spec fn spec_node_draws_seq(
    s: Seq<Node>,
    parent: Transform,
    selected: Option<u32>,
) -> Seq<NodeDraw>
    decreases s,
{
    if s.len() == 0 {
        Seq::empty()
    } else {
        spec_node_draws_seq(s.drop_last(), parent, selected) + spec_node_draws(
            s.last(),
            parent,
            selected,
        )
    }
}

/// The world transform of a child's command is the parent's world transform
/// composed with the child's local transform; the root's parent transform
/// is the frame's root-level animation transform: a node drawn under parent
/// transform `p` heads its subtree's command list with world transform
/// `p * local`, and each child's subtree is drawn under that world
/// transform in turn.
pub proof fn lemma_child_world_transform(n: Node, parent: Transform, selected: Option<u32>, i: int)
    requires
        0 <= i < n.children@.len(),
    ensures
        spec_node_draws(n, parent, selected)[0].transform == spec_compose(parent, n.transform),
        spec_node_draw_cmd(n, parent, selected).transform == spec_compose(parent, n.transform),
        spec_node_draw_cmd(n.children@[i], spec_compose(parent, n.transform), selected).transform
            == spec_compose(spec_node_draw_cmd(n, parent, selected).transform, n.children@[i].transform),
{
    assert(spec_node_draws(n, parent, selected)[0] == spec_node_draw_cmd(n, parent, selected));
}

/// Walks the subtree rooted at `node` depth-first — parent first, children
/// in list order — and appends one main-pass draw command per node, with
/// the accumulated world transform of each.
#[verifier::loop_isolation(false)]
pub fn collect_node_draws(
    node: &Node,
    parent: &Transform,
    selected: Option<u32>,
    gpu: &Gpu,
    out: &mut Vec<NodeDraw>,
)
    requires
        parent.wf(),
        tree_wf(*node),
        tree_live(*node, *gpu),
    ensures
        final(out)@ == old(out)@ + spec_node_draws(*node, *parent, selected),
    decreases node_count(*node),
{
    let world = parent.compose(&node.transform);
    let normal_transform = world.inverse();
    let highlighted = match selected {
        Some(sel) => sel == node.id,
        None => false,
    };
    let select_color = if highlighted {
        Tint { r: 26214, g: 26214, b: 6553, a: 0 }
    } else {
        Tint { r: 0, g: 0, b: 0, a: 0 }
    };
    out.push(
        NodeDraw {
            vertex_buffer: node.primitive.vertex_buffer,
            index_buffer: node.primitive.index_buffer,
            index_count: node.primitive.index_count,
            transform: world,
            normal_transform,
            select_color,
        },
    );
    proof {
        assert(out@ =~= old(out)@ + seq![spec_node_draw_cmd(*node, *parent, selected)]);
        assert(node.children@.take(0) =~= Seq::<Node>::empty());
    }
    let n = node.children.len();
    for i in 0..n
        invariant
            out@ == old(out)@ + seq![spec_node_draw_cmd(*node, *parent, selected)]
                + spec_node_draws_seq(node.children@.take(i as int), spec_compose(*parent, node.transform), selected),
    {
        proof {
            lemma_node_count_elem(node.children@, i as int);
        }
        collect_node_draws(&node.children[i], &world, selected, gpu, out);
        proof {
            let cs = node.children@;
            let w = spec_compose(*parent, node.transform);
            assert(cs.take(i as int + 1).drop_last() =~= cs.take(i as int));
            assert(cs.take(i as int + 1).last() == cs[i as int]);
            assert(spec_node_draws_seq(cs.take(i as int + 1), w, selected)
                == spec_node_draws_seq(cs.take(i as int), w, selected) + spec_node_draws(
                cs[i as int],
                w,
                selected,
            ));
        }
    }
    proof {
        assert(node.children@.take(n as int) =~= node.children@);
    }
}

/// Every id in the subtree is assigned a color in the forward map.
pub open spec fn all_ids_assigned(n: Node, ids: Map<u32, u32>) -> bool
    decreases n,
{
    &&& ids.contains_key(n.id)
    &&& forall|i: int|
        0 <= i < n.children@.len() ==> all_ids_assigned(#[trigger] n.children@[i], ids)
}

/// The selection-pass draw commands of the subtree rooted at `n`: one flat
/// color command per node, in the same traversal order and with the same
/// world transforms as the main pass.
pub open spec fn spec_select_draws(n: Node, parent: Transform, ids: Map<u32, u32>) -> Seq<
    SelectDraw,
>
    decreases n,
{
    seq![
        SelectDraw {
            vertex_buffer: n.primitive.vertex_buffer,
            index_buffer: n.primitive.index_buffer,
            index_count: n.primitive.index_count,
            transform: spec_compose(parent, n.transform),
            color: unpack_spec(ids[n.id]),
        },
    ] + spec_select_draws_seq(n.children@, spec_compose(parent, n.transform), ids)
}

/// The selection-pass draw commands of a forest, in order.
pub open spec fn spec_select_draws_seq(s: Seq<Node>, parent: Transform, ids: Map<u32, u32>) -> Seq<
    SelectDraw,
>
    decreases s,
{
    if s.len() == 0 {
        Seq::empty()
    } else {
        spec_select_draws_seq(s.drop_last(), parent, ids) + spec_select_draws(
            s.last(),
            parent,
            ids,
        )
    }
}

/// The selection-pass round trip at the command level: the flat color a
/// node's command carries resolves to exactly that node's id, so a pixel
/// the node rasterizes — read back unaltered, with blending and
/// anti-aliasing off — identifies the node.
pub proof fn lemma_select_draw_color_resolves(m: ColorMap, n: Node, parent: Transform)
    requires
        m.wf(),
        m.ids().contains_key(n.id),
    ensures
        spec_select_draws(n, parent, m.ids())[0].color == unpack_spec(m.ids()[n.id]),
        m.spec_resolve(
            crate::select_pipeline::pack_spec(spec_select_draws(n, parent, m.ids())[0].color),
        ) == Some(n.id),
{
    crate::select_pipeline::lemma_assigned_color_resolves(m, n.id);
}

/// Walks the subtree rooted at `node` depth-first and appends one
/// selection-pass command per node: the node's accumulated world transform
/// and its assigned flat picking color.
#[verifier::loop_isolation(false)]
pub fn collect_select_draws(
    node: &Node,
    parent: &Transform,
    colors: &ColorMap,
    gpu: &Gpu,
    out: &mut Vec<SelectDraw>,
)
    requires
        parent.wf(),
        tree_wf(*node),
        tree_live(*node, *gpu),
        colors.wf(),
        all_ids_assigned(*node, colors.ids()),
    ensures
        final(out)@ == old(out)@ + spec_select_draws(*node, *parent, colors.ids()),
    decreases node_count(*node),
{
    let world = parent.compose(&node.transform);
    let color = match colors.color_of(node.id) {
        Some(c) => c,
        None => {
            proof {
                assert(false);
            }
            Rgb { r: 0, g: 0, b: 0 }
        },
    };
    out.push(
        SelectDraw {
            vertex_buffer: node.primitive.vertex_buffer,
            index_buffer: node.primitive.index_buffer,
            index_count: node.primitive.index_count,
            transform: world,
            color,
        },
    );
    proof {
        assert(out@ =~= old(out)@ + spec_select_draws(*node, *parent, colors.ids()).take(1));
        assert(node.children@.take(0) =~= Seq::<Node>::empty());
    }
    let n = node.children.len();
    for i in 0..n
        invariant
            out@ == old(out)@ + spec_select_draws(*node, *parent, colors.ids()).take(1)
                + spec_select_draws_seq(node.children@.take(i as int), spec_compose(*parent, node.transform), colors.ids()),
    {
        proof {
            lemma_node_count_elem(node.children@, i as int);
        }
        collect_select_draws(&node.children[i], &world, colors, gpu, out);
        proof {
            let cs = node.children@;
            let w = spec_compose(*parent, node.transform);
            assert(cs.take(i as int + 1).drop_last() =~= cs.take(i as int));
            assert(cs.take(i as int + 1).last() == cs[i as int]);
            assert(spec_select_draws_seq(cs.take(i as int + 1), w, colors.ids())
                == spec_select_draws_seq(cs.take(i as int), w, colors.ids())
                + spec_select_draws(cs[i as int], w, colors.ids()));
        }
    }
    proof {
        assert(node.children@.take(n as int) =~= node.children@);
        assert(out@ =~= old(out)@ + spec_select_draws(*node, *parent, colors.ids()));
    }
}

/// One step of color assignment: assign the node its own id as packed
/// color, then its children's subtrees left to right. Fails — leaving the
/// maps as they stood at the point of failure — exactly when a node's id is
/// already a key in either direction.
pub open spec fn spec_assign_node(n: Node, ids: Map<u32, u32>, colors: Map<u32, u32>) -> (
    bool,
    Map<u32, u32>,
    Map<u32, u32>,
)
    decreases n,
{
    if ids.contains_key(n.id) || colors.contains_key(n.id) {
        (false, ids, colors)
    } else {
        spec_assign_seq(n.children@, ids.insert(n.id, n.id), colors.insert(n.id, n.id))
    }
}

/// Color assignment over a forest, left to right, stopping at the first
/// failure.
pub open spec fn spec_assign_seq(s: Seq<Node>, ids: Map<u32, u32>, colors: Map<u32, u32>) -> (
    bool,
    Map<u32, u32>,
    Map<u32, u32>,
)
    decreases s,
{
    if s.len() == 0 {
        (true, ids, colors)
    } else {
        let r0 = spec_assign_seq(s.drop_last(), ids, colors);
        if !r0.0 {
            r0
        } else {
            spec_assign_node(s.last(), r0.1, r0.2)
        }
    }
}

/// Once a prefix of the forest fails, the whole forest's assignment equals
/// the prefix's.
proof fn lemma_assign_seq_fail(s: Seq<Node>, i: int, ids: Map<u32, u32>, colors: Map<u32, u32>)
    requires
        0 <= i < s.len(),
        !spec_assign_seq(s.take(i + 1), ids, colors).0,
    ensures
        spec_assign_seq(s, ids, colors) == spec_assign_seq(s.take(i + 1), ids, colors),
    decreases s.len(),
{
    if s.len() == i + 1 {
        assert(s.take(i + 1) =~= s);
    } else {
        assert(s.drop_last().take(i + 1) =~= s.take(i + 1));
        lemma_assign_seq_fail(s.drop_last(), i, ids, colors);
    }
}

/// Assignment never removes or changes an existing forward entry.
pub proof fn lemma_assign_keeps_assigned(n: Node, ids: Map<u32, u32>, colors: Map<u32, u32>)
    ensures
        forall|k: u32| #[trigger]
            ids.contains_key(k) ==> spec_assign_node(n, ids, colors).1.contains_key(k)
                && spec_assign_node(n, ids, colors).1[k] == ids[k],
    decreases n,
{
    if !(ids.contains_key(n.id) || colors.contains_key(n.id)) {
        let ids1 = ids.insert(n.id, n.id);
        let colors1 = colors.insert(n.id, n.id);
        lemma_assign_seq_monotone(n.children@, ids1, colors1);
        assert forall|k: u32| #[trigger]
            ids.contains_key(k) implies spec_assign_node(n, ids, colors).1.contains_key(k)
            && spec_assign_node(n, ids, colors).1[k] == ids[k] by {
            assert(ids1.contains_key(k));
            assert(spec_assign_node(n, ids, colors).1 == spec_assign_seq(
                n.children@,
                ids1,
                colors1,
            ).1);
        }
    }
}

/// Assignment over a forest never removes or changes an existing forward
/// entry.
proof fn lemma_assign_seq_monotone(s: Seq<Node>, ids: Map<u32, u32>, colors: Map<u32, u32>)
    ensures
        forall|k: u32| #[trigger]
            ids.contains_key(k) ==> spec_assign_seq(s, ids, colors).1.contains_key(k)
                && spec_assign_seq(s, ids, colors).1[k] == ids[k],
    decreases s,
{
    if s.len() > 0 {
        lemma_assign_seq_monotone(s.drop_last(), ids, colors);
        let r0 = spec_assign_seq(s.drop_last(), ids, colors);
        if r0.0 {
            lemma_assign_keeps_assigned(s.last(), r0.1, r0.2);
        }
    }
}

/// After assignment, the forward map's keys are the initial keys plus the
/// subtree's ids; on failure nothing is promised, on success exactly these.
proof fn lemma_assign_node_domain(n: Node, ids: Map<u32, u32>, colors: Map<u32, u32>)
    requires
        spec_assign_node(n, ids, colors).0,
    ensures
        forall|k: u32| #[trigger]
            spec_assign_node(n, ids, colors).1.contains_key(k) <==> (ids.contains_key(k)
                || node_ids(n).contains(k)),
    decreases n,
{
    assert(!(ids.contains_key(n.id) || colors.contains_key(n.id)));
    lemma_assign_seq_domain(n.children@, ids.insert(n.id, n.id), colors.insert(n.id, n.id));
    assert forall|k: u32| #[trigger]
        spec_assign_node(n, ids, colors).1.contains_key(k) implies (ids.contains_key(k)
        || node_ids(n).contains(k)) by {
        if !ids.contains_key(k) {
            if k == n.id {
                assert(node_ids(n)[0] == n.id);
            } else {
                assert(node_ids_seq(n.children@).contains(k));
                let j = choose|j: int|
                    0 <= j < node_ids_seq(n.children@).len() && node_ids_seq(n.children@)[j] == k;
                assert(node_ids(n)[j + 1] == k);
            }
        }
    }
    assert forall|k: u32|
        (ids.contains_key(k) || node_ids(n).contains(k)) implies #[trigger] spec_assign_node(
        n,
        ids,
        colors,
    ).1.contains_key(k) by {
        if !ids.contains_key(k) {
            let j = choose|j: int| 0 <= j < node_ids(n).len() && node_ids(n)[j] == k;
            if j == 0 {
                assert(ids.insert(n.id, n.id).contains_key(k));
            } else {
                assert(node_ids_seq(n.children@)[j - 1] == k);
            }
        }
    }
}

/// After assignment over a forest, the forward map's keys are the initial
/// keys plus the forest's ids.
proof fn lemma_assign_seq_domain(s: Seq<Node>, ids: Map<u32, u32>, colors: Map<u32, u32>)
    requires
        spec_assign_seq(s, ids, colors).0,
    ensures
        forall|k: u32| #[trigger]
            spec_assign_seq(s, ids, colors).1.contains_key(k) <==> (ids.contains_key(k)
                || node_ids_seq(s).contains(k)),
    decreases s,
{
    if s.len() == 0 {
        assert(node_ids_seq(s).len() == 0);
    } else {
        let r0 = spec_assign_seq(s.drop_last(), ids, colors);
        assert(r0.0);
        lemma_assign_seq_domain(s.drop_last(), ids, colors);
        lemma_assign_node_domain(s.last(), r0.1, r0.2);
        lemma_assign_keeps_assigned(s.last(), r0.1, r0.2);
        let pre = node_ids_seq(s.drop_last());
        let post = node_ids(s.last());
        let whole = spec_assign_seq(s, ids, colors).1;
        assert(whole == spec_assign_node(s.last(), r0.1, r0.2).1);
        assert(node_ids_seq(s) == pre + post);
        assert forall|k: u32|
            (ids.contains_key(k) || node_ids_seq(s).contains(k)) implies #[trigger]
            whole.contains_key(k) by {
            if ids.contains_key(k) {
                assert(r0.1.contains_key(k));
            } else {
                let j = choose|j: int|
                    0 <= j < node_ids_seq(s).len() && node_ids_seq(s)[j] == k;
                if j < pre.len() {
                    assert(pre[j] == k);
                    assert(pre.contains(k));
                    assert(r0.1.contains_key(k));
                } else {
                    assert(post[j - pre.len()] == k);
                    assert(post.contains(k));
                }
            }
        }
        assert forall|k: u32| #[trigger]
            whole.contains_key(k) implies (ids.contains_key(k) || node_ids_seq(s).contains(
            k,
        )) by {
            if !ids.contains_key(k) {
                if r0.1.contains_key(k) {
                    assert(pre.contains(k));
                    let j = choose|j: int| 0 <= j < pre.len() && pre[j] == k;
                    assert(node_ids_seq(s)[j] == k);
                } else {
                    assert(post.contains(k));
                    let j = choose|j: int| 0 <= j < post.len() && post[j] == k;
                    assert(node_ids_seq(s)[pre.len() + j] == k);
                }
            }
        }
    }
}

/// When assignment succeeds, the subtree's ids are pairwise distinct and
/// none of them was assigned before.
pub proof fn lemma_assign_node_distinct(n: Node, ids: Map<u32, u32>, colors: Map<u32, u32>)
    requires
        spec_assign_node(n, ids, colors).0,
    ensures
        node_ids(n).no_duplicates(),
        forall|j: int| 0 <= j < node_ids(n).len() ==> !ids.contains_key(#[trigger] node_ids(n)[j]),
    decreases n,
{
    assert(!(ids.contains_key(n.id) || colors.contains_key(n.id)));
    let ids1 = ids.insert(n.id, n.id);
    let colors1 = colors.insert(n.id, n.id);
    lemma_assign_seq_distinct(n.children@, ids1, colors1);
    let tail = node_ids_seq(n.children@);
    assert forall|i: int, j: int|
        0 <= i < j < node_ids(n).len() implies node_ids(n)[i] != node_ids(n)[j] by {
        if i == 0 {
            assert(node_ids(n)[0] == n.id);
            assert(node_ids(n)[j] == tail[j - 1]);
            assert(!ids1.contains_key(tail[j - 1]) || true);
            assert(!ids1.contains_key(node_ids(n)[j]) ==> node_ids(n)[j] != n.id);
        } else {
            assert(node_ids(n)[i] == tail[i - 1]);
            assert(node_ids(n)[j] == tail[j - 1]);
        }
    }
    assert forall|j: int|
        0 <= j < node_ids(n).len() implies !ids.contains_key(#[trigger] node_ids(n)[j]) by {
        if j > 0 {
            assert(node_ids(n)[j] == tail[j - 1]);
            assert(!ids1.contains_key(tail[j - 1]));
        }
    }
}

/// When assignment over a forest succeeds, the forest's ids are pairwise
/// distinct and none of them was assigned before.
proof fn lemma_assign_seq_distinct(s: Seq<Node>, ids: Map<u32, u32>, colors: Map<u32, u32>)
    requires
        spec_assign_seq(s, ids, colors).0,
    ensures
        node_ids_seq(s).no_duplicates(),
        forall|j: int|
            0 <= j < node_ids_seq(s).len() ==> !ids.contains_key(
                #[trigger] node_ids_seq(s)[j],
            ),
    decreases s,
{
    if s.len() == 0 {
    } else {
        let r0 = spec_assign_seq(s.drop_last(), ids, colors);
        assert(r0.0);
        lemma_assign_seq_distinct(s.drop_last(), ids, colors);
        lemma_assign_seq_domain(s.drop_last(), ids, colors);
        lemma_assign_node_distinct(s.last(), r0.1, r0.2);
        let pre = node_ids_seq(s.drop_last());
        let post = node_ids(s.last());
        assert forall|i: int, j: int|
            0 <= i < j < node_ids_seq(s).len() implies node_ids_seq(s)[i] != node_ids_seq(
            s,
        )[j] by {
            if j < pre.len() {
                assert(node_ids_seq(s)[i] == pre[i] && node_ids_seq(s)[j] == pre[j]);
            } else if i >= pre.len() {
                assert(node_ids_seq(s)[i] == post[i - pre.len()] && node_ids_seq(s)[j] == post[
                    j - pre.len()]);
            } else {
                assert(node_ids_seq(s)[i] == pre[i] && node_ids_seq(s)[j] == post[j - pre.len()]);
                assert(pre.contains(pre[i]));
                assert(r0.1.contains_key(pre[i]));
                assert(!r0.1.contains_key(post[j - pre.len()]));
            }
        }
        assert forall|j: int|
            0 <= j < node_ids_seq(s).len() implies !ids.contains_key(
            #[trigger] node_ids_seq(s)[j],
        ) by {
            if j < pre.len() {
                assert(node_ids_seq(s)[j] == pre[j]);
            } else {
                assert(node_ids_seq(s)[j] == post[j - pre.len()]);
                assert(!r0.1.contains_key(post[j - pre.len()]));
            }
        }
    }
}

/// When assignment succeeds, every id of the subtree is assigned.
pub proof fn lemma_assign_node_covers(n: Node, ids: Map<u32, u32>, colors: Map<u32, u32>)
    requires
        spec_assign_node(n, ids, colors).0,
    ensures
        all_ids_assigned(n, spec_assign_node(n, ids, colors).1),
    decreases n,
{
    assert(!(ids.contains_key(n.id) || colors.contains_key(n.id)));
    let ids1 = ids.insert(n.id, n.id);
    let colors1 = colors.insert(n.id, n.id);
    lemma_assign_seq_covers(n.children@, ids1, colors1);
    lemma_assign_seq_monotone(n.children@, ids1, colors1);
    let whole = spec_assign_node(n, ids, colors).1;
    assert(whole == spec_assign_seq(n.children@, ids1, colors1).1);
    assert(ids1.contains_key(n.id));
    assert(whole.contains_key(n.id));
    assert forall|i: int|
        0 <= i < n.children@.len() implies all_ids_assigned(#[trigger] n.children@[i], whole) by {
        assert(all_ids_assigned(n.children@[i], spec_assign_seq(n.children@, ids1, colors1).1));
    }
}

/// When assignment over a forest succeeds, every id of the forest is
/// assigned.
proof fn lemma_assign_seq_covers(s: Seq<Node>, ids: Map<u32, u32>, colors: Map<u32, u32>)
    requires
        spec_assign_seq(s, ids, colors).0,
    ensures
        forall|i: int|
            0 <= i < s.len() ==> all_ids_assigned(
                #[trigger] s[i],
                spec_assign_seq(s, ids, colors).1,
            ),
    decreases s,
{
    if s.len() > 0 {
        let r0 = spec_assign_seq(s.drop_last(), ids, colors);
        assert(r0.0);
        lemma_assign_seq_covers(s.drop_last(), ids, colors);
        lemma_assign_node_covers(s.last(), r0.1, r0.2);
        lemma_assign_keeps_assigned(s.last(), r0.1, r0.2);
        assert forall|i: int|
            0 <= i < s.len() implies all_ids_assigned(
            #[trigger] s[i],
            spec_assign_seq(s, ids, colors).1,
        ) by {
            if i < s.len() - 1 {
                assert(s.drop_last()[i] == s[i]);
                lemma_all_ids_grow(s[i], r0.1, spec_assign_seq(s, ids, colors).1);
            }
        }
    }
}

/// Coverage is preserved when the forward map only grows.
pub proof fn lemma_all_ids_grow(n: Node, m1: Map<u32, u32>, m2: Map<u32, u32>)
    requires
        all_ids_assigned(n, m1),
        forall|k: u32| #[trigger] m1.contains_key(k) ==> m2.contains_key(k),
    ensures
        all_ids_assigned(n, m2),
    decreases n,
{
    assert forall|i: int|
        0 <= i < n.children@.len() implies all_ids_assigned(#[trigger] n.children@[i], m2) by {
        lemma_all_ids_grow(n.children@[i], m1, m2);
    }
}

/// Walks the scene graph, assigning every node a picking color derived
/// from its id — which makes the assignment injective by construction and
/// keeps it clear of the background color. Fails, leaving the mapping at
/// the point of failure, exactly when a node id repeats or is already
/// assigned.
#[verifier::loop_isolation(false)]
pub fn generate_node_colors(colors: &mut ColorMap, node: &Node) -> (ok: bool)
    requires
        old(colors).wf(),
        ids_below(*node),
    ensures
        final(colors).wf(),
        ok == spec_assign_node(*node, old(colors).ids(), old(colors).colors()).0,
        final(colors).ids() == spec_assign_node(*node, old(colors).ids(), old(colors).colors()).1,
        final(colors).colors() == spec_assign_node(
            *node,
            old(colors).ids(),
            old(colors).colors(),
        ).2,
        ok ==> all_ids_assigned(*node, final(colors).ids()),
    decreases node_count(*node),
{
    let own_color = unpack(node.id);
    let ok0 = colors.insert(node.id, own_color);
    if !ok0 {
        return false;
    }
    let ghost ids1 = old(colors).ids().insert(node.id, node.id);
    let ghost colors1 = old(colors).colors().insert(node.id, node.id);
    proof {
        assert(node.children@.take(0) =~= Seq::<Node>::empty());
    }
    let n = node.children.len();
    for i in 0..n
        invariant
            colors.wf(),
            spec_assign_seq(node.children@.take(i as int), ids1, colors1) == (
                true,
                colors.ids(),
                colors.colors(),
            ),
    {
        proof {
            lemma_node_count_elem(node.children@, i as int);
            assert(node.children@.take(i as int + 1).drop_last() =~= node.children@.take(
                i as int,
            ));
            assert(node.children@.take(i as int + 1).last() == node.children@[i as int]);
        }
        let okc = generate_node_colors(colors, &node.children[i]);
        if !okc {
            proof {
                lemma_assign_seq_fail(node.children@, i as int, ids1, colors1);
            }
            return false;
        }
    }
    proof {
        assert(node.children@.take(n as int) =~= node.children@);
        lemma_assign_node_covers(*node, old(colors).ids(), old(colors).colors());
    }
    true
}

} // verus!
