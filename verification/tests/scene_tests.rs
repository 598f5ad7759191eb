use rust_gl::fixed::ONE;
use rust_gl::geometry::Geometry;
use rust_gl::gpu::Gpu;
use rust_gl::mouse::{Mouse, Vec2i};
use rust_gl::node::{collect_node_draws, generate_node_colors, Node, Tint};
use rust_gl::primitive::Primitive;
use rust_gl::select_pipeline::{ColorMap, Rgb};
use rust_gl::transform::Transform;

#[test]
fn identity_composes_to_identity() {
    let id = Transform::identity();
    assert_eq!(id.compose(&id), id);
}

#[test]
fn translations_compose_by_adding_offsets() {
    let a = Transform::translation(ONE, 0, -ONE);
    let b = Transform::translation(2 * ONE, 3 * ONE, 0);
    let c = a.compose(&b);
    assert_eq!(c.tx, 3 * ONE);
    assert_eq!(c.ty, 3 * ONE);
    assert_eq!(c.tz, -ONE);
    assert_eq!(c.rxx, ONE);
    assert_eq!(c.rxy, 0);
    assert_eq!(c.rzz, ONE);
}

#[test]
fn quarter_turn_composes_to_half_turn() {
    // Rotation by 90 degrees about z: x -> y, y -> -x.
    let rz90 = Transform {
        rxx: 0, rxy: -ONE, rxz: 0,
        ryx: ONE, ryy: 0, ryz: 0,
        rzx: 0, rzy: 0, rzz: ONE,
        tx: 0, ty: 0, tz: 0,
    };
    let rz180 = rz90.compose(&rz90);
    assert_eq!(rz180.rxx, -ONE);
    assert_eq!(rz180.rxy, 0);
    assert_eq!(rz180.ryx, 0);
    assert_eq!(rz180.ryy, -ONE);
    assert_eq!(rz180.rzz, ONE);
}

#[test]
fn inverse_of_translation_negates_it() {
    let t = Transform::translation(5 * ONE, -2 * ONE, ONE);
    let inv = t.inverse();
    assert_eq!(inv.tx, -5 * ONE);
    assert_eq!(inv.ty, 2 * ONE);
    assert_eq!(inv.tz, -ONE);
    assert_eq!(inv.rxx, ONE);
}

#[test]
fn mouse_reset_is_idempotent() {
    let mut m = Mouse::new();
    m.pos = Vec2i { x: 10, y: 20 };
    m.drag = Vec2i { x: 3, y: -4 };
    m.left_click = true;
    m.left_down = true;
    m.selected_node = Some(7);

    m.reset();
    assert_eq!(m.drag, Vec2i { x: 0, y: 0 });
    assert!(!m.left_click);
    assert!(m.left_down);
    assert_eq!(m.selected_node, Some(7));
    let snapshot = (m.pos, m.prev, m.drag, m.left_click, m.left_down, m.selected_node);

    m.reset();
    let again = (m.pos, m.prev, m.drag, m.left_click, m.left_down, m.selected_node);
    assert_eq!(snapshot, again);
}

#[test]
fn color_assignment_gives_each_node_its_own_color() {
    let mut gpu = Gpu::new();
    let cube = Geometry::cube();
    let mut root = Node::new(Primitive::new(&mut gpu, &cube));
    root.id = 1;
    let mut child = Node::new(Primitive::new(&mut gpu, &cube));
    child.id = 2;
    root.children.push(child);

    let mut colors = ColorMap::new();
    assert!(generate_node_colors(&mut colors, &root));
    let c1 = colors.color_of(1).unwrap();
    let c2 = colors.color_of(2).unwrap();
    assert_ne!(c1, c2);
    assert_eq!(colors.resolve(c1), Some(1));
    assert_eq!(colors.resolve(c2), Some(2));
}

#[test]
fn color_assignment_rejects_duplicate_ids() {
    let mut gpu = Gpu::new();
    let cube = Geometry::cube();
    let mut root = Node::new(Primitive::new(&mut gpu, &cube));
    root.id = 3;
    let mut child = Node::new(Primitive::new(&mut gpu, &cube));
    child.id = 3;
    root.children.push(child);

    let mut colors = ColorMap::new();
    assert!(!generate_node_colors(&mut colors, &root));
}

#[test]
fn color_map_rejects_taken_colors_and_background() {
    let mut colors = ColorMap::new();
    assert!(colors.insert(1, Rgb { r: 0, g: 0, b: 7 }));
    // Same color for another id is refused.
    assert!(!colors.insert(2, Rgb { r: 0, g: 0, b: 7 }));
    // Same id again is refused.
    assert!(!colors.insert(1, Rgb { r: 0, g: 0, b: 8 }));
    // The background color is never assignable.
    assert!(!colors.insert(3, Rgb { r: 255, g: 255, b: 255 }));
    assert_eq!(colors.resolve(Rgb { r: 255, g: 255, b: 255 }), None);
    assert_eq!(colors.resolve(Rgb { r: 0, g: 0, b: 7 }), Some(1));
}

#[test]
fn traversal_accumulates_world_transforms_parent_first() {
    let mut gpu = Gpu::new();
    let cube = Geometry::cube();
    let mut root = Node::new(Primitive::new(&mut gpu, &cube));
    root.id = 1;
    root.transform = Transform::translation(ONE, 0, 0);
    let mut child = Node::new(Primitive::new(&mut gpu, &cube));
    child.id = 2;
    child.transform = Transform::translation(0, 2 * ONE, 0);
    root.children.push(child);

    let parent = Transform::identity();
    let mut out = Vec::new();
    collect_node_draws(&root, &parent, None, &gpu, &mut out);

    assert_eq!(out.len(), 2);
    // Parent before child.
    assert_eq!(out[0].transform.tx, ONE);
    assert_eq!(out[0].transform.ty, 0);
    // Child world transform composes the parent's world with its local one.
    assert_eq!(out[1].transform.tx, ONE);
    assert_eq!(out[1].transform.ty, 2 * ONE);
    // No node selected: zero tint everywhere.
    assert_eq!(out[0].select_color, Tint { r: 0, g: 0, b: 0, a: 0 });
    assert_eq!(out[1].select_color, Tint { r: 0, g: 0, b: 0, a: 0 });
    // The normal transform is the inverse of the world transform.
    assert_eq!(out[1].normal_transform.tx, -ONE);
    assert_eq!(out[1].normal_transform.ty, -2 * ONE);
}

#[test]
fn traversal_highlights_only_the_selected_node() {
    let mut gpu = Gpu::new();
    let cube = Geometry::cube();
    let mut root = Node::new(Primitive::new(&mut gpu, &cube));
    root.id = 1;
    let mut child = Node::new(Primitive::new(&mut gpu, &cube));
    child.id = 2;
    root.children.push(child);

    let parent = Transform::identity();
    let mut out = Vec::new();
    collect_node_draws(&root, &parent, Some(2), &gpu, &mut out);

    assert_eq!(out.len(), 2);
    assert_eq!(out[0].select_color, Tint { r: 0, g: 0, b: 0, a: 0 });
    assert_eq!(out[1].select_color, Tint { r: 26214, g: 26214, b: 6553, a: 0 });
}
