//! Vertex layouts: the static layout of a position+color vertex, and layouts
//! packed from the input formats that shader reflection reports.
use vstd::prelude::*;

use gfx_hal::format::Format;
use rendy::mesh::{AsVertex, PosColor, VertexFormat};

verus! {

/// The float vector formats a vertex attribute can have.
#[derive(Clone, Copy, Debug, PartialEq, Eq, Structural)]
pub enum AttributeFormat {
    R32Sfloat,
    Rg32Sfloat,
    Rgb32Sfloat,
    Rgba32Sfloat,
}

/// Size in bytes of one element of the format: one, two, three or four
/// 32-bit floats.
pub open spec fn format_size(f: AttributeFormat) -> nat {
    match f {
        AttributeFormat::R32Sfloat => 4,
        AttributeFormat::Rg32Sfloat => 8,
        AttributeFormat::Rgb32Sfloat => 12,
        AttributeFormat::Rgba32Sfloat => 16,
    }
}

/// Most attributes a reflected layout may have: the mesh library numbers
/// attributes that share a name with an 8-bit index.
pub const MAX_ATTRIBUTES: usize = 256;

/// One attribute of a vertex: its format and its byte offset in the vertex.
#[derive(Clone, Copy, Debug, PartialEq, Eq, Structural)]
pub struct VertexAttribute {
    pub format: AttributeFormat,
    pub offset: u32,
}

/// The layout of one vertex in a vertex buffer, advanced once per vertex.
#[derive(Clone, Debug)]
pub struct VertexLayout {
    pub attributes: Vec<VertexAttribute>,
    pub stride: u32,
}

/// Total size in bytes of the formats laid out one after another.
pub open spec fn packed_size(fs: Seq<AttributeFormat>) -> nat
    decreases fs.len(),
{
    if fs.len() == 0 {
        0
    } else {
        packed_size(fs.drop_last()) + format_size(fs.last())
    }
}

/// The attributes of the formats laid out one after another, without gaps.
pub open spec fn packed_attributes(fs: Seq<AttributeFormat>) -> Seq<VertexAttribute> {
    Seq::new(
        fs.len(),
        |i: int| VertexAttribute { format: fs[i], offset: packed_size(fs.take(i)) as u32 },
    )
}

/// The offsets of the formats laid out one after another, without gaps.
pub open spec fn packed_offsets(fs: Seq<AttributeFormat>) -> Seq<u32> {
    Seq::new(fs.len(), |i: int| packed_size(fs.take(i)) as u32)
}

/// The formats of a vertex with a position and an RGBA color.
pub open spec fn pos_color_formats() -> Seq<AttributeFormat> {
    seq![AttributeFormat::Rgb32Sfloat, AttributeFormat::Rgba32Sfloat]
}

/// Whether `l` is the tightly packed layout of the formats `fs`.
pub open spec fn is_packed_layout(l: VertexLayout, fs: Seq<AttributeFormat>) -> bool {
    &&& l.attributes@ == packed_attributes(fs)
    &&& l.stride as nat == packed_size(fs)
}

/// Relies on rendy's `VertexFormat::new` over a list of (format, name) pairs
/// that all share one name: each attribute is placed right after the one
/// before it, in list order, and the stride is the end of the last one. It
/// panics on an empty list, and the shared name's 8-bit index overflows past
/// 256 attributes.
#[verifier::external_body]
fn pack_formats(formats: &Vec<AttributeFormat>) -> (r: (Vec<u32>, u32))
    requires
        1 <= formats@.len() <= MAX_ATTRIBUTES,
    ensures
        r.0@ == packed_offsets(formats@),
        r.1 as nat == packed_size(formats@),
{
    let pairs: Vec<(Format, &str)> = formats.iter().map(|f| (match f {
        AttributeFormat::R32Sfloat => Format::R32Sfloat,
        AttributeFormat::Rg32Sfloat => Format::Rg32Sfloat,
        AttributeFormat::Rgb32Sfloat => Format::Rgb32Sfloat,
        AttributeFormat::Rgba32Sfloat => Format::Rgba32Sfloat,
    }, "input")).collect();
    let packed = VertexFormat::new(pairs);
    (packed.attributes.iter().map(|a| a.element().offset).collect(), packed.stride)
}

/// Lays the formats out one after another, in order, as shader reflection
/// reports the inputs of a vertex shader. `None` for an empty list and for
/// more than `MAX_ATTRIBUTES` formats.
pub fn layout_from_formats(formats: &Vec<AttributeFormat>) -> (r: Option<VertexLayout>)
    ensures
        r is Some <==> 1 <= formats@.len() <= MAX_ATTRIBUTES,
        r matches Some(l) ==> is_packed_layout(l, formats@),
{
    if formats.len() == 0 || formats.len() > MAX_ATTRIBUTES {
        return None;
    }
    let (offsets, stride) = pack_formats(formats);
    let mut attributes: Vec<VertexAttribute> = Vec::new();
    let mut i: usize = 0;
    while i < formats.len()
        invariant
            i <= formats@.len(),
            offsets@ == packed_offsets(formats@),
            attributes@ == packed_attributes(formats@).take(i as int),
        decreases formats@.len() - i,
    {
        attributes.push(VertexAttribute { format: formats[i], offset: offsets[i] });
        proof {
            assert(attributes@ =~= packed_attributes(formats@).take(i as int + 1));
        }
        i = i + 1;
    }
    proof {
        assert(attributes@ =~= packed_attributes(formats@));
    }
    Some(VertexLayout { attributes, stride })
}

/// Two format lists with the same packed attributes are the same list.
pub(crate) proof fn lemma_packed_attributes_injective(a: Seq<AttributeFormat>, b: Seq<AttributeFormat>)
    requires
        packed_attributes(a) == packed_attributes(b),
    ensures
        a == b,
{
    assert(packed_attributes(a).len() == a.len());
    assert forall|i: int| 0 <= i < a.len() implies a[i] == b[i] by {
        assert(packed_attributes(a)[i].format == a[i]);
        assert(packed_attributes(b)[i].format == b[i]);
    }
    assert(a =~= b);
}

/// Relies on rendy's `PosColor::vertex()`: a position (`Rgb32Sfloat`) at
/// offset 0, then an RGBA color (`Rgba32Sfloat`) at offset 12, in a vertex of
/// 28 bytes. Formats outside the four float vectors come back as `None`.
#[verifier::external_body]
fn pos_color_input() -> (r: (Vec<Option<AttributeFormat>>, Vec<u32>, u32))
    ensures
        r.0@ == seq![Some(AttributeFormat::Rgb32Sfloat), Some(AttributeFormat::Rgba32Sfloat)],
        r.1@ == seq![0u32, 12u32],
        r.2 == 28,
{
    let v = PosColor::vertex();
    let formats = v.attributes.iter().map(|a| match a.element().format {
        Format::R32Sfloat => Some(AttributeFormat::R32Sfloat),
        Format::Rg32Sfloat => Some(AttributeFormat::Rg32Sfloat),
        Format::Rgb32Sfloat => Some(AttributeFormat::Rgb32Sfloat),
        Format::Rgba32Sfloat => Some(AttributeFormat::Rgba32Sfloat),
        _ => None,
    });
    (formats.collect(), v.attributes.iter().map(|a| a.element().offset).collect(), v.stride)
}

/// The static layout of a vertex with a position and an RGBA color, as the
/// mesh library declares it.
pub fn pos_color_layout() -> (r: VertexLayout)
    ensures
        is_packed_layout(r, pos_color_formats()),
        r.stride == 28,
{
    let (formats, offsets, stride) = pos_color_input();
    let mut attributes: Vec<VertexAttribute> = Vec::new();
    attributes.push(VertexAttribute { format: formats[0].unwrap(), offset: offsets[0] });
    attributes.push(VertexAttribute { format: formats[1].unwrap(), offset: offsets[1] });
    let r = VertexLayout { attributes, stride };
    proof {
        lemma_pos_color_packing();
        assert(r.attributes@ =~= packed_attributes(pos_color_formats()));
    }
    r
}

pub(crate) proof fn lemma_pos_color_packing()
    ensures
        packed_size(pos_color_formats().take(0)) == 0,
        packed_size(pos_color_formats().take(1)) == 12,
        packed_size(pos_color_formats()) == 28,
{
    let fs = pos_color_formats();
    reveal_with_fuel(packed_size, 3);
    assert(fs.take(1).drop_last() =~= fs.take(0));
    assert(fs.drop_last() =~= fs.take(1));
}

} // verus!
