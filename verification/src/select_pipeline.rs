//! The selection render pipeline and its color-to-node mapping. The
//! selection pass renders every node with a flat, per-node-unique RGB
//! color — no lighting, blending or anti-aliasing — so a rendered pixel's
//! color losslessly encodes exactly one node id.
//!
//! Colors are derived deterministically from node ids, which guarantees the
//! id-to-color mapping is injective and never collides with the white
//! background the main pass clears to.

use std::collections::HashMap;

use vstd::prelude::*;

use crate::program::{spec_attrib_loc, spec_uniform_loc, AttribBinding, AttribName, Program,
    UniformName};
use crate::vertex::{POSITION_OFFSET, VERTEX_STRIDE};

verus! {

broadcast use vstd::std_specs::hash::group_hash_axioms;

/// The packed form of the background color the main pass clears to: white.
/// A pixel reading back as white means no node was rendered there.
pub const BACKGROUND_PACKED: u32 = 0xFFFFFF;

/// An 8-bit RGB color, as the selection pass draws it and the pixel
/// read-back reports it.
#[derive(Clone, Copy, PartialEq, Eq, Structural, Debug)]
pub struct Rgb {
    pub r: u8,
    pub g: u8,
    pub b: u8,
}

/// A color packed into one integer: `r * 2^16 + g * 2^8 + b`.
pub open spec fn pack_spec(c: Rgb) -> u32 {
    (c.r * 0x10000 + c.g * 0x100 + c.b) as u32
}

/// The color a packed value below 2^24 stands for.
pub open spec fn unpack_spec(v: u32) -> Rgb {
    Rgb { r: (v / 0x10000) as u8, g: ((v / 0x100) % 0x100) as u8, b: (v % 0x100) as u8 }
}

/// Packs a color into one integer.
pub fn pack(c: Rgb) -> (r: u32)
    ensures
        r == pack_spec(c),
        r < 0x1000000,
{
    (c.r as u32) * 0x10000 + (c.g as u32) * 0x100 + (c.b as u32)
}

/// Unpacks an integer below 2^24 into a color; packing the result gives the
/// integer back.
pub fn unpack(v: u32) -> (r: Rgb)
    requires
        v < 0x1000000,
    ensures
        r == unpack_spec(v),
        pack_spec(r) == v,
{
    proof {
        lemma_pack_unpack(v);
    }
    Rgb { r: (v / 0x10000) as u8, g: ((v / 0x100) % 0x100) as u8, b: (v % 0x100) as u8 }
}

/// Packing is the inverse of unpacking on values below 2^24.
pub proof fn lemma_pack_unpack(v: u32)
    requires
        v < 0x1000000,
    ensures
        pack_spec(unpack_spec(v)) == v,
        unpack_spec(v).r < 0x100,
{
    let x = v as int;
    vstd::arithmetic::div_mod::lemma_fundamental_div_mod(x, 0x100);
    vstd::arithmetic::div_mod::lemma_fundamental_div_mod(x / 0x100, 0x100);
    vstd::arithmetic::div_mod::lemma_div_denominator(x, 0x100, 0x100);
    assert(x / 0x10000 < 0x100) by (nonlinear_arith)
        requires
            0 <= x < 0x1000000,
    ;
}

/// The bidirectional node-id/color mapping the picking subsystem uses:
/// id-to-color forward for drawing the selection pass, color-to-id reverse
/// for resolving a read-back pixel. Both directions are populated together
/// and kept exact inverses of one another.
pub struct ColorMap {
    fwd: HashMap<u32, u32>,
    rev: HashMap<u32, u32>,
}

impl ColorMap {
    /// The forward mapping: node id to packed color.
    pub closed spec fn ids(self) -> Map<u32, u32> {
        self.fwd@
    }

    /// The reverse mapping: packed color to node id.
    pub closed spec fn colors(self) -> Map<u32, u32> {
        self.rev@
    }

    /// The two directions are exact inverses, every assigned color is a
    /// packed RGB value, and no assigned color is the background.
    pub closed spec fn wf(self) -> bool {
        &&& forall|id: u32| #[trigger]
            self.fwd@.contains_key(id) ==> self.fwd@[id] < 0x1000000 && self.fwd@[id]
                != BACKGROUND_PACKED && self.rev@.contains_key(self.fwd@[id])
                && self.rev@[self.fwd@[id]] == id
        &&& forall|c: u32| #[trigger]
            self.rev@.contains_key(c) ==> self.fwd@.contains_key(self.rev@[c])
                && self.fwd@[self.rev@[c]] == c
    }

    /// What resolving a packed color yields: the id it was assigned to, or
    /// nothing.
    pub open spec fn spec_resolve(self, c: u32) -> Option<u32> {
        if self.colors().contains_key(c) {
            Some(self.colors()[c])
        } else {
            None
        }
    }

    /// An empty mapping.
    pub fn new() -> (r: ColorMap)
        ensures
            r.wf(),
            r.ids() == Map::<u32, u32>::empty(),
            r.colors() == Map::<u32, u32>::empty(),
    {
        ColorMap { fwd: HashMap::new(), rev: HashMap::new() }
    }

    /// Assigns `color` to `id`, in both directions at once. Refused — with
    /// the mapping left unchanged — exactly when the id is already
    /// assigned, the color is already taken, or the color is the
    /// background.
    pub fn insert(&mut self, id: u32, color: Rgb) -> (ok: bool)
        requires
            old(self).wf(),
        ensures
            final(self).wf(),
            ok == (!old(self).ids().contains_key(id) && !old(self).colors().contains_key(
                pack_spec(color),
            ) && pack_spec(color) != BACKGROUND_PACKED),
            ok ==> final(self).ids() == old(self).ids().insert(id, pack_spec(color))
                && final(self).colors() == old(self).colors().insert(pack_spec(color), id),
            !ok ==> final(self).ids() == old(self).ids() && final(self).colors() == old(
                self,
            ).colors(),
    {
        let packed = pack(color);
        if packed == BACKGROUND_PACKED {
            return false;
        }
        if self.fwd.contains_key(&id) {
            return false;
        }
        if self.rev.contains_key(&packed) {
            return false;
        }
        self.fwd.insert(id, packed);
        self.rev.insert(packed, id);
        true
    }

    /// The color assigned to a node id, if any.
    pub fn color_of(&self, id: u32) -> (r: Option<Rgb>)
        requires
            self.wf(),
        ensures
            match r {
                Some(c) => self.ids().contains_key(id) && pack_spec(c) == self.ids()[id] && c
                    == unpack_spec(self.ids()[id]),
                None => !self.ids().contains_key(id),
            },
    {
        match self.fwd.get(&id) {
            Some(packed) => {
                let p = *packed;
                Some(unpack(p))
            },
            None => None,
        }
    }

    /// Resolves a read-back pixel color to the node id it encodes, or
    /// `None` for a color no node was assigned (in particular the
    /// background).
    pub fn resolve(&self, color: Rgb) -> (r: Option<u32>)
        requires
            self.wf(),
        ensures
            r == self.spec_resolve(pack_spec(color)),
    {
        let packed = pack(color);
        match self.rev.get(&packed) {
            Some(id) => Some(*id),
            None => None,
        }
    }
}

/// The color assignment is injective: two node ids with the same assigned
/// color are the same id.
pub proof fn lemma_color_injective(m: ColorMap, a: u32, b: u32)
    requires
        m.wf(),
        m.ids().contains_key(a),
        m.ids().contains_key(b),
        m.ids()[a] == m.ids()[b],
    ensures
        a == b,
{
}

/// Resolving the color assigned to a node id gives that id back: the
/// selection pass round-trip, at the mapping level.
pub proof fn lemma_resolve_roundtrip(m: ColorMap, id: u32)
    requires
        m.wf(),
        m.ids().contains_key(id),
    ensures
        m.spec_resolve(m.ids()[id]) == Some(id),
{
}

/// A pixel carrying the background color resolves to no node: the
/// background is never assigned.
pub proof fn lemma_background_resolves_to_none(m: ColorMap)
    requires
        m.wf(),
    ensures
        m.spec_resolve(BACKGROUND_PACKED) is None,
{
    if m.colors().contains_key(BACKGROUND_PACKED) {
        let id = m.colors()[BACKGROUND_PACKED];
        assert(m.ids().contains_key(id) && m.ids()[id] == BACKGROUND_PACKED);
    }
}

/// The color a node id was assigned — as the selection pass draws it, an
/// unpacked RGB value — packs back to the assigned value and resolves to
/// that id.
pub proof fn lemma_assigned_color_resolves(m: ColorMap, id: u32)
    requires
        m.wf(),
        m.ids().contains_key(id),
    ensures
        pack_spec(unpack_spec(m.ids()[id])) == m.ids()[id],
        m.spec_resolve(pack_spec(unpack_spec(m.ids()[id]))) == Some(id),
{
    lemma_pack_unpack(m.ids()[id]);
    lemma_resolve_roundtrip(m, id);
}

/// The selection pipeline: its program, the captured `transform` and flat
/// `color` uniform locations, and the per-node color mapping.
pub struct SelectPipeline {
    pub program: Program,
    pub transform_loc: Option<u32>,
    pub color_loc: Option<u32>,
    pub node_colors: ColorMap,
}

/// The vertex layout of the selection pipeline: position only, at the same
/// stride as the full vertex layout, so the pass reuses the same vertex
/// buffers.
pub open spec fn spec_select_layout(p: Program) -> Seq<AttribBinding> {
    seq![
        AttribBinding {
            location: spec_attrib_loc(p.attribs@, AttribName::InPosition),
            components: 3,
            byte_offset: POSITION_OFFSET,
            byte_stride: VERTEX_STRIDE,
        },
    ]
}

impl SelectPipeline {
    /// Builds the pipeline around a linked program, capturing its uniform
    /// locations, with no colors assigned yet.
    pub fn new(program: Program) -> (r: SelectPipeline)
        ensures
            r.program == program,
            r.transform_loc == spec_uniform_loc(program.uniforms@, UniformName::Transform),
            r.color_loc == spec_uniform_loc(program.uniforms@, UniformName::Color),
            r.node_colors.wf(),
            r.node_colors.ids() == Map::<u32, u32>::empty(),
            r.node_colors.colors() == Map::<u32, u32>::empty(),
    {
        let transform_loc = program.get_uniform_loc(UniformName::Transform);
        let color_loc = program.get_uniform_loc(UniformName::Color);
        SelectPipeline { program, transform_loc, color_loc, node_colors: ColorMap::new() }
    }

    /// The fixed vertex-attribute layout of this pipeline: position only.
    pub fn bind_attribs(&self) -> (r: Vec<AttribBinding>)
        ensures
            r@ == spec_select_layout(self.program),
    {
        let position_loc = self.program.get_attrib_loc(AttribName::InPosition);
        let r = vec![
            AttribBinding {
                location: position_loc,
                components: 3,
                byte_offset: POSITION_OFFSET,
                byte_stride: VERTEX_STRIDE,
            },
        ];
        proof {
            assert(r@ =~= spec_select_layout(self.program));
        }
        r
    }
}

} // verus!
