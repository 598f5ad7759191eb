use rust_gl::fixed::ONE;
use rust_gl::geometry::Geometry;
use rust_gl::gpu::Gpu;
use rust_gl::node::Node;
use rust_gl::primitive::Primitive;
use rust_gl::program::{AttribName, Program, UniformName};
use rust_gl::select_pipeline::Rgb;
use rust_gl::transform::Transform;
use rust_gl::vertex::{COLOR_OFFSET, NORMAL_OFFSET, POSITION_OFFSET, UV_OFFSET, VERTEX_STRIDE};
use rust_gl::Context;

fn build_context() -> Context {
    let mut gpu = Gpu::new();
    let default_program = Program::new(
        &mut gpu,
        vec![
            (AttribName::InPosition, 0),
            (AttribName::InColor, 1),
            (AttribName::InNormal, 2),
            (AttribName::InUv, 3),
        ],
        vec![
            (UniformName::Transform, 1),
            (UniformName::NormalTransform, 2),
            (UniformName::View, 3),
            (UniformName::Proj, 4),
            (UniformName::LightColor, 5),
            (UniformName::LightPosition, 6),
            (UniformName::TexSampler, 7),
            (UniformName::SelectColor, 8),
        ],
    );
    let point_program = Program::new(
        &mut gpu,
        vec![(AttribName::Position, 0), (AttribName::PointSize, 1)],
        vec![(UniformName::Color, 1)],
    );
    let select_program = Program::new(
        &mut gpu,
        vec![(AttribName::InPosition, 0)],
        vec![(UniformName::Transform, 1), (UniformName::Color, 2)],
    );
    Context::new(gpu, 640, 480, Transform::identity(), default_program, point_program,
        select_program)
}

#[test]
fn new_context_holds_one_cube_root() {
    let ctx = build_context();
    assert_eq!(ctx.nodes.len(), 1);
    assert_eq!(ctx.nodes[0].id, 0);
    assert_eq!(ctx.nodes[0].transform, Transform::identity());
    assert!(ctx.nodes[0].children.is_empty());
    assert_eq!(ctx.nodes[0].primitive.index_count, 36);
    assert_eq!(ctx.texture.width, 2);
    let fb_tex = ctx.offscreen_framebuffer.texture.as_ref().unwrap();
    assert_eq!(fb_tex.width, 640);
    assert_eq!(fb_tex.height, 480);
}

#[test]
fn select_pass_encodes_the_cube_root_color() {
    let ctx = build_context();
    let rotation = Transform::identity();
    let draws = ctx.select_draws(&rotation);
    // One command for the single cube node, carrying its assigned color.
    assert_eq!(draws.len(), 1);
    assert_eq!(draws[0].index_count, 36);
    assert_eq!(draws[0].transform, Transform::identity());
    let color = draws[0].color;
    // Reading back a pixel of that color from inside the cube's footprint
    // resolves to the root node.
    let mut ctx = ctx;
    assert_eq!(ctx.resolve_pick(color), Some(0));
    assert_eq!(ctx.mouse.selected_node, Some(0));
}

#[test]
fn picking_the_background_selects_nothing() {
    let mut ctx = build_context();
    let picked = ctx.resolve_pick(Rgb { r: 255, g: 255, b: 255 });
    assert_eq!(picked, None);
    assert_eq!(ctx.mouse.selected_node, None);
}

#[test]
fn draw_emits_the_frame_plan_in_order() {
    let mut ctx = build_context();
    let rotation = Transform::translation(ONE, 0, 0);
    let plan = ctx.draw(&rotation);

    assert_eq!(plan.background, Rgb { r: 255, g: 255, b: 255 });
    assert_eq!(plan.view, Transform::identity());
    assert_eq!(plan.draws.len(), 1);
    // Root world transform: the frame rotation composed with the identity
    // local transform.
    assert_eq!(plan.draws[0].transform, rotation);
    assert_eq!(plan.draws[0].index_count, 36);

    // The vertex layout states the byte contract of the Vertex record.
    assert_eq!(plan.layout.len(), 4);
    assert_eq!(plan.layout[0].byte_offset, POSITION_OFFSET);
    assert_eq!(plan.layout[0].components, 3);
    assert_eq!(plan.layout[1].byte_offset, COLOR_OFFSET);
    assert_eq!(plan.layout[1].components, 4);
    assert_eq!(plan.layout[2].byte_offset, NORMAL_OFFSET);
    assert_eq!(plan.layout[2].components, 3);
    assert_eq!(plan.layout[3].byte_offset, UV_OFFSET);
    assert_eq!(plan.layout[3].components, 2);
    for binding in &plan.layout {
        assert_eq!(binding.byte_stride, VERTEX_STRIDE);
    }
}

#[test]
fn draw_resets_input_but_keeps_selection() {
    let mut ctx = build_context();
    let color = ctx.select_draws(&Transform::identity())[0].color;
    assert_eq!(ctx.resolve_pick(color), Some(0));

    ctx.mouse.left_click = true;
    ctx.mouse.drag = rust_gl::mouse::Vec2i { x: 5, y: 6 };

    let rotation = Transform::identity();
    let plan = ctx.draw(&rotation);
    // The selected node is highlighted in the frame that consumed the pick.
    assert_eq!(plan.draws[0].select_color, rust_gl::node::Tint { r: 26214, g: 26214, b: 6553, a: 0 });
    assert!(!ctx.mouse.left_click);
    assert_eq!(ctx.mouse.drag, rust_gl::mouse::Vec2i { x: 0, y: 0 });
    assert_eq!(ctx.mouse.selected_node, Some(0));

    // A second frame without new host events: the reset is idempotent.
    let plan2 = ctx.draw(&rotation);
    assert!(!ctx.mouse.left_click);
    assert_eq!(ctx.mouse.drag, rust_gl::mouse::Vec2i { x: 0, y: 0 });
    assert_eq!(ctx.mouse.selected_node, Some(0));
    assert_eq!(plan2.draws.len(), 1);
}

#[test]
fn add_node_assigns_fresh_colors_and_rejects_duplicates() {
    let mut ctx = build_context();

    let cube = Geometry::cube();
    let prim = Primitive::new(&mut ctx.gpu, &cube);
    let mut second = Node::new(prim);
    second.id = 1;
    assert!(ctx.add_node(second));
    assert_eq!(ctx.nodes.len(), 2);

    let draws = ctx.select_draws(&Transform::identity());
    assert_eq!(draws.len(), 2);
    assert_ne!(draws[0].color, draws[1].color);
    let mut ctx2 = ctx;
    assert_eq!(ctx2.resolve_pick(draws[1].color), Some(1));

    // A node whose id is already assigned is refused.
    let cube2 = Geometry::cube();
    let prim2 = Primitive::new(&mut ctx2.gpu, &cube2);
    let duplicate = Node::new(prim2);
    // Node::new gives id 0, which the default root already holds.
    assert!(!ctx2.add_node(duplicate));
    assert_eq!(ctx2.nodes.len(), 2);
}
