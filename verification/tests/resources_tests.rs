use rust_gl::frame_buffer::create_select_framebuffer;
use rust_gl::geometry::Geometry;
use rust_gl::gpu::Gpu;
use rust_gl::image::Image;
use rust_gl::primitive::Primitive;
use rust_gl::program::{attrib_ident, uniform_ident, AttribName, Program, UniformName};
use rust_gl::texture::Texture;

#[test]
fn gpu_allocates_distinct_handles() {
    let mut gpu = Gpu::new();
    let a = gpu.allocate();
    let b = gpu.allocate();
    let c = gpu.allocate();
    assert_ne!(a, b);
    assert_ne!(b, c);
    assert_ne!(a, c);
}

#[test]
fn primitive_records_index_count_and_distinct_buffers() {
    let mut gpu = Gpu::new();
    let cube = Geometry::cube();
    let prim = Primitive::new(&mut gpu, &cube);
    assert_eq!(prim.index_count, 36);
    assert_ne!(prim.vertex_buffer, prim.index_buffer);
    let bind = prim.bind(&gpu);
    assert_eq!(bind.vertex_buffer, prim.vertex_buffer);
    assert_eq!(bind.index_buffer, prim.index_buffer);
    let call = prim.draw(&gpu);
    assert_eq!(call.index_count, 36);
    prim.destroy(&mut gpu);
}

#[test]
fn texture_defaults_to_2x2_checkerboard() {
    let mut gpu = Gpu::new();
    let tex = Texture::new(&mut gpu);
    assert_eq!(tex.width, 2);
    assert_eq!(tex.height, 2);
    tex.destroy(&mut gpu);
}

#[test]
fn texture_upload_resizes_storage() {
    let mut gpu = Gpu::new();
    let mut tex = Texture::new(&mut gpu);
    tex.upload(None, 640, 480);
    assert_eq!(tex.width, 640);
    assert_eq!(tex.height, 480);
    tex.destroy(&mut gpu);
}

#[test]
fn select_framebuffer_owns_canvas_sized_texture() {
    let mut gpu = Gpu::new();
    let fb = create_select_framebuffer(&mut gpu, 800, 600);
    assert!(fb.frame.is_some());
    assert!(fb.color.is_none());
    assert!(fb.depth.is_some());
    let tex = fb.texture.as_ref().unwrap();
    assert_eq!(tex.width, 800);
    assert_eq!(tex.height, 600);
    fb.destroy(&mut gpu);
}

#[test]
fn program_location_lookup_finds_first_entry() {
    let mut gpu = Gpu::new();
    let program = Program::new(
        &mut gpu,
        vec![(AttribName::InPosition, 0), (AttribName::InColor, 1)],
        vec![(UniformName::Transform, 7), (UniformName::View, 9)],
    );
    assert_eq!(program.get_attrib_loc(AttribName::InPosition), 0);
    assert_eq!(program.get_attrib_loc(AttribName::InColor), 1);
    assert_eq!(program.get_uniform_loc(UniformName::Transform), Some(7));
    assert_eq!(program.get_uniform_loc(UniformName::View), Some(9));
}

#[test]
fn program_location_lookup_tolerates_absent_names() {
    let mut gpu = Gpu::new();
    let program = Program::new(&mut gpu, vec![(AttribName::InPosition, 0)], vec![]);
    assert_eq!(program.get_attrib_loc(AttribName::InUv), -1);
    assert_eq!(program.get_uniform_loc(UniformName::Proj), None);
}

#[test]
fn shader_identifiers_match_the_declared_names() {
    assert_eq!(attrib_ident(AttribName::InPosition), "in_position");
    assert_eq!(attrib_ident(AttribName::Position), "position");
    assert_eq!(attrib_ident(AttribName::PointSize), "point_size");
    assert_eq!(uniform_ident(UniformName::NormalTransform), "normal_transform");
    assert_eq!(uniform_ident(UniformName::SelectColor), "select_color");
    assert_eq!(uniform_ident(UniformName::TexSampler), "tex_sampler");
    assert_eq!(uniform_ident(UniformName::LightPosition), "light_position");
}

#[test]
fn image_new_is_one_white_pixel() {
    let img = Image::new();
    assert_eq!(img.width, 1);
    assert_eq!(img.height, 1);
    assert_eq!(img.data, vec![255, 255, 255, 255]);
}

#[test]
fn image_from_raw_keeps_data() {
    let bytes = [1u8, 2, 3, 4, 5, 6, 7, 8];
    let img = Image::from_raw(&bytes, 2, 1);
    assert_eq!(img.width, 2);
    assert_eq!(img.height, 1);
    assert_eq!(img.data, bytes.to_vec());
}

#[test]
fn image_from_vec_keeps_data() {
    let img = Image::from_vec(vec![9u8, 8, 7, 6], 1, 1);
    assert_eq!(img.width, 1);
    assert_eq!(img.height, 1);
    assert_eq!(img.data, vec![9, 8, 7, 6]);
}

#[test]
fn image_from_png_round_trips_rgba_pixels() {
    let pixels: Vec<u8> = vec![10, 20, 30, 255, 40, 50, 60, 128];
    let mut encoded: Vec<u8> = Vec::new();
    {
        let mut encoder = png::Encoder::new(&mut encoded, 2, 1);
        encoder.set_color(png::ColorType::Rgba);
        encoder.set_depth(png::BitDepth::Eight);
        let mut writer = encoder.write_header().unwrap();
        writer.write_image_data(&pixels).unwrap();
    }
    let img = Image::from_png(&encoded).unwrap();
    assert_eq!(img.width, 2);
    assert_eq!(img.height, 1);
    assert_eq!(img.data, pixels);
}

#[test]
fn image_from_png_rejects_garbage() {
    assert!(Image::from_png(&[1, 2, 3, 4, 5]).is_none());
}
