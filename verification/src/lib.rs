//! A real-time 3D scene renderer core: a hierarchical scene graph with
//! rigid transforms, GPU resource ownership with a deterministic lifecycle,
//! fixed render pipelines, and color-coded object picking.
//!
//! All geometry and transform arithmetic is carried out in 16.16 fixed-point
//! integers; a host shell converts to the floating-point form its graphics
//! API expects when it executes the draw commands this library produces.

pub mod default_pipeline;
pub mod fixed;
pub mod frame_buffer;
pub mod geometry;
pub mod gpu;
pub mod image;
pub mod mouse;
pub mod node;
pub mod point_pipeline;
pub mod primitive;
pub mod program;
pub mod select_pipeline;
pub mod texture;
pub mod transform;
pub mod vertex;

use vstd::prelude::*;

use crate::default_pipeline::{spec_default_layout, DefaultPipeline};
use crate::frame_buffer::{create_select_framebuffer, Framebuffer};
use crate::geometry::Geometry;
use crate::gpu::Gpu;
use crate::mouse::{spec_reset, Mouse};
use crate::node::{all_ids_assigned, collect_node_draws, collect_select_draws,
    generate_node_colors, ids_below, lemma_assign_node_distinct, node_ids, spec_assign_node,
    spec_node_draws, spec_node_draws_seq, spec_select_draws_seq, tree_live, tree_wf, Node,
    NodeDraw, SelectDraw};
use crate::point_pipeline::PointPipeline;
use crate::primitive::Primitive;
use crate::program::{AttribBinding, Program, UseProgram};
use crate::select_pipeline::{lemma_background_resolves_to_none, pack_spec, Rgb, SelectPipeline,
    BACKGROUND_PACKED};
use crate::texture::{BindTexture, Texture};
use crate::transform::Transform;

verus! {

/// Everything the host shell must do to render one frame of the main pass,
/// in order: bind the program, configure the vertex layout, bind the
/// texture, clear color and depth to the background, upload the view
/// transform, then execute the node draws in the order they stand.
pub struct FramePlan {
    pub program: UseProgram,
    pub layout: Vec<AttribBinding>,
    pub texture: BindTexture,
    pub background: Rgb,
    pub view: Transform,
    pub draws: Vec<NodeDraw>,
}

/// The render context: the orchestrator owning the view transform, the
/// input snapshot, the three pipelines, the scene graph roots, the default
/// texture, the offscreen selection target and the GPU handle ledger.
pub struct Context {
    pub gpu: Gpu,
    pub view: Transform,
    pub mouse: Mouse,
    pub offscreen_framebuffer: Framebuffer,
    pub point_pipeline: PointPipeline,
    pub default_pipeline: DefaultPipeline,
    pub select_pipeline: SelectPipeline,
    pub nodes: Vec<Node>,
    pub texture: Texture,
}

impl Context {
    /// The context invariant: the ledger and view are well-formed, every
    /// scene tree has well-formed transforms, live primitives and ids below
    /// the background value, every id is assigned a picking color, the
    /// color mapping is a well-formed bijection, and every GPU-owning
    /// member's handle is live.
    pub open spec fn wf(self) -> bool {
        &&& self.gpu.wf()
        &&& self.view.wf()
        &&& self.select_pipeline.node_colors.wf()
        &&& forall|i: int| 0 <= i < self.nodes@.len() ==> tree_wf(#[trigger] self.nodes@[i])
        &&& forall|i: int|
            0 <= i < self.nodes@.len() ==> tree_live(#[trigger] self.nodes@[i], self.gpu)
        &&& forall|i: int| 0 <= i < self.nodes@.len() ==> ids_below(#[trigger] self.nodes@[i])
        &&& forall|i: int|
            0 <= i < self.nodes@.len() ==> all_ids_assigned(
                #[trigger] self.nodes@[i],
                self.select_pipeline.node_colors.ids(),
            )
        &&& self.texture.live_in(self.gpu)
        &&& self.default_pipeline.program.live_in(self.gpu)
        &&& self.point_pipeline.program.live_in(self.gpu)
        &&& self.select_pipeline.program.live_in(self.gpu)
        &&& self.offscreen_framebuffer.live_in(self.gpu)
    }

    /// Builds the render context around three linked programs: the
    /// offscreen selection framebuffer sized to the canvas, the three
    /// pipelines, the default scene — a single cube root node at the
    /// identity transform, id 0 — its picking color, the default
    /// checkerboard texture and a fresh input snapshot.
    pub fn new(
        gpu: Gpu,
        width: u32,
        height: u32,
        view: Transform,
        default_program: Program,
        point_program: Program,
        select_program: Program,
    ) -> (r: Context)
        requires
            gpu.wf(),
            gpu.next_handle() + 6 <= u64::MAX,
            view.wf(),
            default_program.live_in(gpu),
            point_program.live_in(gpu),
            select_program.live_in(gpu),
        ensures
            r.wf(),
            r.view == view,
            r.nodes@.len() == 1,
            r.nodes@[0].id == 0,
            r.nodes@[0].transform == crate::transform::spec_identity(),
            r.nodes@[0].children@.len() == 0,
            r.nodes@[0].primitive.index_count == crate::geometry::cube_indices().len(),
            r.select_pipeline.node_colors.ids() == Map::<u32, u32>::empty().insert(0u32, 0u32),
            r.default_pipeline.program == default_program,
            r.point_pipeline.program == point_program,
            r.select_pipeline.program == select_program,
            r.mouse.selected_node is None,
            !r.mouse.left_click,
            r.texture.width == 2 && r.texture.height == 2,
            r.offscreen_framebuffer.texture matches Some(t) && t.width == width && t.height
                == height,
    {
        let mut gpu = gpu;
        let offscreen_framebuffer = create_select_framebuffer(&mut gpu, width, height);
        let point_pipeline = PointPipeline::new(point_program);
        let default_pipeline = DefaultPipeline::new(default_program);
        let mut select_pipeline = SelectPipeline::new(select_program);

        let cube = Geometry::cube();
        let root = Node::new(Primitive::new(&mut gpu, &cube));

        let ok = generate_node_colors(&mut select_pipeline.node_colors, &root);
        proof {
            assert(node_ids(root) =~= seq![0u32]);
        }
        assert(ok);

        let mut nodes = Vec::new();
        nodes.push(root);

        let texture = Texture::new(&mut gpu);

        Context {
            gpu,
            view,
            mouse: Mouse::new(),
            offscreen_framebuffer,
            point_pipeline,
            default_pipeline,
            select_pipeline,
            nodes,
            texture,
        }
    }

    /// Inserts a subtree as a new scene root, assigning every node in it a
    /// picking color. Succeeds exactly when the subtree's ids are pairwise
    /// distinct and none of them is already assigned; on failure the scene
    /// is unchanged (the color mapping keeps the prefix assigned before the
    /// clash, which stays well-formed).
    pub fn add_node(&mut self, node: Node) -> (ok: bool)
        requires
            old(self).wf(),
            tree_wf(node),
            tree_live(node, old(self).gpu),
            ids_below(node),
        ensures
            final(self).wf(),
            ok == spec_assign_node(
                node,
                old(self).select_pipeline.node_colors.ids(),
                old(self).select_pipeline.node_colors.colors(),
            ).0,
            ok ==> final(self).nodes@ == old(self).nodes@.push(node),
            ok ==> node_ids(node).no_duplicates(),
            !ok ==> final(self).nodes@ == old(self).nodes@,
            final(self).gpu == old(self).gpu,
            final(self).mouse == old(self).mouse,
            final(self).view == old(self).view,
    {
        let ok = generate_node_colors(&mut self.select_pipeline.node_colors, &node);
        proof {
            if ok {
                lemma_assign_node_distinct(
                    node,
                    old(self).select_pipeline.node_colors.ids(),
                    old(self).select_pipeline.node_colors.colors(),
                );
            }
            crate::node::lemma_assign_keeps_assigned(
                node,
                old(self).select_pipeline.node_colors.ids(),
                old(self).select_pipeline.node_colors.colors(),
            );
            assert forall|i: int|
                0 <= i < self.nodes@.len() implies all_ids_assigned(
                #[trigger] self.nodes@[i],
                self.select_pipeline.node_colors.ids(),
            ) by {
                crate::node::lemma_all_ids_grow(
                    self.nodes@[i],
                    old(self).select_pipeline.node_colors.ids(),
                    self.select_pipeline.node_colors.ids(),
                );
            }
        }
        if ok {
            self.nodes.push(node);
        }
        ok
    }

    /// Appends the main-pass draw commands of one subtree: depth-first,
    /// parent before children, children in list order, each node with the
    /// accumulated world transform `parent * local` and a highlight tint
    /// exactly on the selected node.
    pub fn draw_node(&self, node: &Node, parent_trs: &Transform, out: &mut Vec<NodeDraw>)
        requires
            parent_trs.wf(),
            tree_wf(*node),
            tree_live(*node, self.gpu),
        ensures
            final(out)@ == old(out)@ + spec_node_draws(
                *node,
                *parent_trs,
                self.mouse.selected_node,
            ),
    {
        collect_node_draws(node, parent_trs, self.mouse.selected_node, &self.gpu, out)
    }

    /// Produces one frame of the main pass: consumes and resets the input
    /// snapshot, then lays out the full frame — program, vertex layout,
    /// texture, white background, view transform, and the scene's draw
    /// commands under the frame's root animation transform, in traversal
    /// order.
    #[verifier::loop_isolation(false)]
    pub fn draw(&mut self, rotation: &Transform) -> (plan: FramePlan)
        requires
            old(self).wf(),
            rotation.wf(),
        ensures
            final(self).wf(),
            final(self).mouse == spec_reset(old(self).mouse),
            final(self).gpu == old(self).gpu,
            final(self).nodes@ == old(self).nodes@,
            final(self).view == old(self).view,
            final(self).select_pipeline.node_colors == old(self).select_pipeline.node_colors,
            plan.program == (UseProgram { handle: old(self).default_pipeline.program.handle }),
            plan.layout@ == spec_default_layout(old(self).default_pipeline.program),
            plan.texture == (BindTexture { handle: old(self).texture.handle }),
            plan.background == (Rgb { r: 255, g: 255, b: 255 }),
            plan.view == old(self).view,
            plan.draws@ == spec_node_draws_seq(
                old(self).nodes@,
                *rotation,
                old(self).mouse.selected_node,
            ),
    {
        self.mouse.reset();
        let selected = self.mouse.selected_node;

        let program = self.default_pipeline.program.bind(&self.gpu);
        let layout = self.default_pipeline.bind_attribs();
        let texture = self.texture.bind(&self.gpu);

        let mut draws: Vec<NodeDraw> = Vec::new();
        proof {
            assert(self.nodes@.take(0) =~= Seq::<Node>::empty());
        }
        let n = self.nodes.len();
        for i in 0..n
            invariant
                draws@ == spec_node_draws_seq(self.nodes@.take(i as int), *rotation, selected),
        {
            collect_node_draws(&self.nodes[i], rotation, selected, &self.gpu, &mut draws);
            proof {
                assert(self.nodes@.take(i as int + 1).drop_last() =~= self.nodes@.take(i as int));
                assert(self.nodes@.take(i as int + 1).last() == self.nodes@[i as int]);
            }
        }
        proof {
            assert(self.nodes@.take(n as int) =~= self.nodes@);
        }
        FramePlan {
            program,
            layout,
            texture,
            background: Rgb { r: 255, g: 255, b: 255 },
            view: self.view,
            draws,
        }
    }

    /// Produces the selection pass for the same scene and frame transform:
    /// the same traversal order and world transforms as the main pass, but
    /// each node drawn with its flat assigned picking color. The host shell
    /// renders these into the offscreen framebuffer with depth testing and
    /// without blending or anti-aliasing.
    #[verifier::loop_isolation(false)]
    pub fn select_draws(&self, rotation: &Transform) -> (draws: Vec<SelectDraw>)
        requires
            self.wf(),
            rotation.wf(),
        ensures
            draws@ == spec_select_draws_seq(
                self.nodes@,
                *rotation,
                self.select_pipeline.node_colors.ids(),
            ),
    {
        let mut draws: Vec<SelectDraw> = Vec::new();
        proof {
            assert(self.nodes@.take(0) =~= Seq::<Node>::empty());
        }
        let n = self.nodes.len();
        for i in 0..n
            invariant
                draws@ == spec_select_draws_seq(
                    self.nodes@.take(i as int),
                    *rotation,
                    self.select_pipeline.node_colors.ids(),
                ),
        {
            collect_select_draws(
                &self.nodes[i],
                rotation,
                &self.select_pipeline.node_colors,
                &self.gpu,
                &mut draws,
            );
            proof {
                assert(self.nodes@.take(i as int + 1).drop_last() =~= self.nodes@.take(i as int));
                assert(self.nodes@.take(i as int + 1).last() == self.nodes@[i as int]);
            }
        }
        proof {
            assert(self.nodes@.take(n as int) =~= self.nodes@);
        }
        draws
    }

    /// Resolves a pixel read back from the selection framebuffer to the
    /// node it encodes, records it as the selected node, and returns it.
    /// A pixel of the background color — or of any unassigned color, as a
    /// failed read-back is reported — resolves to no selection.
    pub fn resolve_pick(&mut self, pixel: Rgb) -> (r: Option<u32>)
        requires
            old(self).wf(),
        ensures
            final(self).wf(),
            r == old(self).select_pipeline.node_colors.spec_resolve(pack_spec(pixel)),
            pack_spec(pixel) == BACKGROUND_PACKED ==> r is None,
            final(self).mouse == (Mouse { selected_node: r, ..old(self).mouse }),
            final(self).gpu == old(self).gpu,
            final(self).nodes@ == old(self).nodes@,
            final(self).select_pipeline.node_colors == old(self).select_pipeline.node_colors,
    {
        proof {
            lemma_background_resolves_to_none(self.select_pipeline.node_colors);
        }
        let r = self.select_pipeline.node_colors.resolve(pixel);
        self.mouse.selected_node = r;
        r
    }
}

} // verus!
