//! The point render pipeline: a minimal attribute set for point primitives
//! plus a flat color uniform. Declared but not exercised by the default
//! scene; kept available for point-cloud style geometry.

use vstd::prelude::*;

use crate::program::{spec_attrib_loc, spec_uniform_loc, AttribName, Program, UniformName};

verus! {

/// The point-primitive pipeline: its program, the locations of the
/// `position` and `point_size` attributes, and the flat `color` uniform.
pub struct PointPipeline {
    pub program: Program,
    pub position_loc: i32,
    pub point_size_loc: i32,
    pub color_loc: Option<u32>,
}

impl PointPipeline {
    /// Builds the pipeline around a linked program, capturing its attribute
    /// and uniform locations.
    pub fn new(program: Program) -> (r: PointPipeline)
        ensures
            r.program == program,
            r.position_loc == spec_attrib_loc(program.attribs@, AttribName::Position),
            r.point_size_loc == spec_attrib_loc(program.attribs@, AttribName::PointSize),
            r.color_loc == spec_uniform_loc(program.uniforms@, UniformName::Color),
    {
        let position_loc = program.get_attrib_loc(AttribName::Position);
        let point_size_loc = program.get_attrib_loc(AttribName::PointSize);
        let color_loc = program.get_uniform_loc(UniformName::Color);
        PointPipeline { program, position_loc, point_size_loc, color_loc }
    }
}

} // verus!
