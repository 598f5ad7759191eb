//! Linked shader programs: the owned program handle plus the attribute and
//! uniform locations the linker assigned, looked up by name on demand.
//!
//! The host shell compiles and links each shader pair — failing fatally,
//! with the driver's diagnostic text, if compilation or linking fails — and
//! hands the resulting location tables to `Program::new`. An absent
//! location (a name the shader compiler optimized out) is a valid result:
//! lookups return `-1` (attributes) or `None` (uniforms) and callers must
//! tolerate it.

use vstd::prelude::*;

use crate::gpu::Gpu;

verus! {

/// The vertex-attribute names the three shader pairs declare.
#[derive(Clone, Copy, PartialEq, Eq, Structural, Debug)]
pub enum AttribName {
    Position,
    PointSize,
    InPosition,
    InColor,
    InNormal,
    InUv,
}

/// The uniform names the three shader pairs declare.
#[derive(Clone, Copy, PartialEq, Eq, Structural, Debug)]
pub enum UniformName {
    Transform,
    NormalTransform,
    View,
    Proj,
    LightColor,
    LightPosition,
    TexSampler,
    SelectColor,
    Color,
}

/// The GLSL identifier of an attribute name, as a specification sequence.
pub open spec fn spec_attrib_ident(n: AttribName) -> Seq<char> {
    match n {
        AttribName::Position => "position"@,
        AttribName::PointSize => "point_size"@,
        AttribName::InPosition => "in_position"@,
        AttribName::InColor => "in_color"@,
        AttribName::InNormal => "in_normal"@,
        AttribName::InUv => "in_uv"@,
    }
}

/// The GLSL identifier of a uniform name, as a specification sequence.
pub open spec fn spec_uniform_ident(n: UniformName) -> Seq<char> {
    match n {
        UniformName::Transform => "transform"@,
        UniformName::NormalTransform => "normal_transform"@,
        UniformName::View => "view"@,
        UniformName::Proj => "proj"@,
        UniformName::LightColor => "light_color"@,
        UniformName::LightPosition => "light_position"@,
        UniformName::TexSampler => "tex_sampler"@,
        UniformName::SelectColor => "select_color"@,
        UniformName::Color => "color"@,
    }
}

/// The GLSL identifier under which the host shell queries an attribute's
/// location.
pub fn attrib_ident(n: AttribName) -> (r: &'static str)
    ensures
        r@ == spec_attrib_ident(n),
{
    match n {
        AttribName::Position => "position",
        AttribName::PointSize => "point_size",
        AttribName::InPosition => "in_position",
        AttribName::InColor => "in_color",
        AttribName::InNormal => "in_normal",
        AttribName::InUv => "in_uv",
    }
}

/// The GLSL identifier under which the host shell queries a uniform's
/// location.
pub fn uniform_ident(n: UniformName) -> (r: &'static str)
    ensures
        r@ == spec_uniform_ident(n),
{
    match n {
        UniformName::Transform => "transform",
        UniformName::NormalTransform => "normal_transform",
        UniformName::View => "view",
        UniformName::Proj => "proj",
        UniformName::LightColor => "light_color",
        UniformName::LightPosition => "light_position",
        UniformName::TexSampler => "tex_sampler",
        UniformName::SelectColor => "select_color",
        UniformName::Color => "color",
    }
}

/// One fixed vertex-attribute binding: which attribute location reads how
/// many 4-byte components, at which byte offset, with which byte stride.
#[derive(Clone, Copy, PartialEq, Eq, Structural, Debug)]
pub struct AttribBinding {
    pub location: i32,
    pub components: u32,
    pub byte_offset: u32,
    pub byte_stride: u32,
}

/// A command for the host shell: make this program current.
#[derive(Clone, Copy, PartialEq, Eq, Structural, Debug)]
pub struct UseProgram {
    pub handle: u64,
}

/// First attribute location recorded under `name`, or `-1` if the linker
/// reported none — the same absent marker the graphics API uses.
pub open spec fn spec_attrib_loc(s: Seq<(AttribName, i32)>, name: AttribName) -> i32
    decreases s.len(),
{
    if s.len() == 0 {
        -1i32
    } else if s[0].0 == name {
        s[0].1
    } else {
        spec_attrib_loc(s.drop_first(), name)
    }
}

/// First uniform location recorded under `name`, or `None` if the linker
/// reported none.
pub open spec fn spec_uniform_loc(s: Seq<(UniformName, u32)>, name: UniformName) -> Option<u32>
    decreases s.len(),
{
    if s.len() == 0 {
        None
    } else if s[0].0 == name {
        Some(s[0].1)
    } else {
        spec_uniform_loc(s.drop_first(), name)
    }
}

/// One linked shader program: the owned GPU handle and the attribute and
/// uniform locations the linker assigned.
pub struct Program {
    pub handle: u64,
    pub attribs: Vec<(AttribName, i32)>,
    pub uniforms: Vec<(UniformName, u32)>,
}

impl Program {
    /// The program handle is live in the given ledger.
    pub open spec fn live_in(self, gpu: Gpu) -> bool {
        gpu.live().contains(self.handle)
    }

    /// Records a program the host shell has compiled and linked: allocates
    /// the owned handle and keeps the location tables the linker reported.
    pub fn new(gpu: &mut Gpu, attribs: Vec<(AttribName, i32)>, uniforms: Vec<(UniformName, u32)>)
        -> (r: Program)
        requires
            old(gpu).wf(),
            old(gpu).next_handle() < u64::MAX,
        ensures
            final(gpu).wf(),
            r.attribs@ == attribs@,
            r.uniforms@ == uniforms@,
            r.live_in(*final(gpu)),
            !old(gpu).live().contains(r.handle),
            final(gpu).live() == old(gpu).live().insert(r.handle),
            final(gpu).next_handle() == old(gpu).next_handle() + 1,
    {
        let handle = gpu.allocate();
        Program { handle, attribs, uniforms }
    }

    /// The command that makes this program current. Requires the handle to
    /// still be live.
    pub fn bind(&self, gpu: &Gpu) -> (c: UseProgram)
        requires
            self.live_in(*gpu),
        ensures
            c == (UseProgram { handle: self.handle }),
    {
        UseProgram { handle: self.handle }
    }

    /// Looks up an attribute location by name: the first recorded entry, or
    /// `-1` if the name is absent from the linked program.
    pub fn get_attrib_loc(&self, name: AttribName) -> (r: i32)
        ensures
            r == spec_attrib_loc(self.attribs@, name),
    {
        let n = self.attribs.len();
        proof {
            assert(self.attribs@.skip(0) =~= self.attribs@);
        }
        for i in 0..n
            invariant
                n == self.attribs@.len(),
                spec_attrib_loc(self.attribs@, name) == spec_attrib_loc(
                    self.attribs@.skip(i as int),
                    name,
                ),
        {
            let entry = self.attribs[i];
            proof {
                assert(self.attribs@.skip(i as int)[0] == self.attribs@[i as int]);
                assert(self.attribs@.skip(i as int).drop_first() =~= self.attribs@.skip(
                    i as int + 1,
                ));
            }
            if entry.0 == name {
                return entry.1;
            }
        }
        proof {
            assert(self.attribs@.skip(n as int).len() == 0);
        }
        -1
    }

    /// Looks up a uniform location by name: the first recorded entry, or
    /// `None` if the name is absent from the linked program. Callers must
    /// tolerate `None`: uniform uploads to an absent location no-op.
    pub fn get_uniform_loc(&self, name: UniformName) -> (r: Option<u32>)
        ensures
            r == spec_uniform_loc(self.uniforms@, name),
    {
        let n = self.uniforms.len();
        proof {
            assert(self.uniforms@.skip(0) =~= self.uniforms@);
        }
        for i in 0..n
            invariant
                n == self.uniforms@.len(),
                spec_uniform_loc(self.uniforms@, name) == spec_uniform_loc(
                    self.uniforms@.skip(i as int),
                    name,
                ),
        {
            let entry = self.uniforms[i];
            proof {
                assert(self.uniforms@.skip(i as int)[0] == self.uniforms@[i as int]);
                assert(self.uniforms@.skip(i as int).drop_first() =~= self.uniforms@.skip(
                    i as int + 1,
                ));
            }
            if entry.0 == name {
                return Some(entry.1);
            }
        }
        proof {
            assert(self.uniforms@.skip(n as int).len() == 0);
        }
        None
    }

    /// Releases the program handle, exactly once.
    pub fn destroy(self, gpu: &mut Gpu)
        requires
            old(gpu).wf(),
            self.live_in(*old(gpu)),
        ensures
            final(gpu).wf(),
            final(gpu).live() == old(gpu).live().remove(self.handle),
            !final(gpu).live().contains(self.handle),
            final(gpu).next_handle() == old(gpu).next_handle(),
    {
        gpu.release(self.handle);
    }
}

} // verus!
