//! The default render pipeline: the lit, textured opaque pass. Binds the
//! full vertex layout (position, color, normal, texture coordinates) and
//! captures the per-draw transform uniforms at construction.

use vstd::prelude::*;

use crate::program::{spec_uniform_loc, AttribBinding, AttribName, Program, UniformName};
use crate::vertex::{COLOR_OFFSET, NORMAL_OFFSET, POSITION_OFFSET, UV_OFFSET, VERTEX_STRIDE};

verus! {

/// The lit+textured pipeline: its program and the two per-draw uniform
/// locations it re-uploads for every node.
pub struct DefaultPipeline {
    pub program: Program,
    pub transform_loc: Option<u32>,
    pub normal_transform_loc: Option<u32>,
}

/// The vertex layout of the default pipeline: the four attributes, each
/// reading 4-byte components at the `Vertex` field offsets, all with the
/// `Vertex` byte stride.
pub open spec fn spec_default_layout(p: Program) -> Seq<AttribBinding> {
    seq![
        AttribBinding {
            location: crate::program::spec_attrib_loc(p.attribs@, AttribName::InPosition),
            components: 3,
            byte_offset: POSITION_OFFSET,
            byte_stride: VERTEX_STRIDE,
        },
        AttribBinding {
            location: crate::program::spec_attrib_loc(p.attribs@, AttribName::InColor),
            components: 4,
            byte_offset: COLOR_OFFSET,
            byte_stride: VERTEX_STRIDE,
        },
        AttribBinding {
            location: crate::program::spec_attrib_loc(p.attribs@, AttribName::InNormal),
            components: 3,
            byte_offset: NORMAL_OFFSET,
            byte_stride: VERTEX_STRIDE,
        },
        AttribBinding {
            location: crate::program::spec_attrib_loc(p.attribs@, AttribName::InUv),
            components: 2,
            byte_offset: UV_OFFSET,
            byte_stride: VERTEX_STRIDE,
        },
    ]
}

impl DefaultPipeline {
    /// Builds the pipeline around a linked program, capturing the
    /// `transform` and `normal_transform` uniform locations.
    pub fn new(program: Program) -> (r: DefaultPipeline)
        ensures
            r.program == program,
            r.transform_loc == spec_uniform_loc(program.uniforms@, UniformName::Transform),
            r.normal_transform_loc == spec_uniform_loc(
                program.uniforms@,
                UniformName::NormalTransform,
            ),
    {
        let transform_loc = program.get_uniform_loc(UniformName::Transform);
        let normal_transform_loc = program.get_uniform_loc(UniformName::NormalTransform);
        DefaultPipeline { program, transform_loc, normal_transform_loc }
    }

    /// The fixed vertex-attribute layout of this pipeline: position, color,
    /// normal and texture coordinates at the `Vertex` byte offsets. The host
    /// shell configures and enables each binding in order.
    pub fn bind_attribs(&self) -> (r: Vec<AttribBinding>)
        ensures
            r@ == spec_default_layout(self.program),
    {
        let position_loc = self.program.get_attrib_loc(AttribName::InPosition);
        let color_loc = self.program.get_attrib_loc(AttribName::InColor);
        let normal_loc = self.program.get_attrib_loc(AttribName::InNormal);
        let uv_loc = self.program.get_attrib_loc(AttribName::InUv);
        let r = vec![
            AttribBinding {
                location: position_loc,
                components: 3,
                byte_offset: POSITION_OFFSET,
                byte_stride: VERTEX_STRIDE,
            },
            AttribBinding {
                location: color_loc,
                components: 4,
                byte_offset: COLOR_OFFSET,
                byte_stride: VERTEX_STRIDE,
            },
            AttribBinding {
                location: normal_loc,
                components: 3,
                byte_offset: NORMAL_OFFSET,
                byte_stride: VERTEX_STRIDE,
            },
            AttribBinding {
                location: uv_loc,
                components: 2,
                byte_offset: UV_OFFSET,
                byte_stride: VERTEX_STRIDE,
            },
        ];
        proof {
            assert(r@ =~= spec_default_layout(self.program));
        }
        r
    }
}

} // verus!
