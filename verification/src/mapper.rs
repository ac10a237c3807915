//! The type mapper: pure lookup functions from shader-side type
//! descriptions to host-side type names, vertex formats with their byte
//! sizes, and binding-descriptor type names.  Every unsupported shape maps
//! to nothing, so that generation fails rather than emit wrong code.
use vstd::prelude::*;

use crate::model::AddrSpace;
use crate::model::ImageClassTag;
use crate::model::ImageDim;
use crate::model::ScalarDesc;
use crate::model::ScalarKind;
use crate::model::StageSet;
use crate::model::TypeDecl;
use crate::model::TypeDeclV;
use crate::model::TypeShape;
use crate::model::TypeShapeV;
use crate::text::dec_str;
use crate::text::push_dec;

verus! {

/// The view of an optional owned text value.
pub open spec fn opt_string_view(o: Option<String>) -> Option<Seq<char>> {
    match o {
        Some(s) => Some(s@),
        None => None,
    }
}

/// The host scalar type name for a shader scalar: only 32-bit floats and
/// integers are supported.
pub open spec fn spec_scalar_name(s: ScalarDesc) -> Option<Seq<char>> {
    if s.width == 4 {
        match s.kind {
            ScalarKind::Float => Some("f32"@),
            ScalarKind::Sint => Some("i32"@),
            ScalarKind::Uint => Some("u32"@),
            _ => None,
        }
    } else {
        None
    }
}

/// The host type name a struct member's type maps to: scalars map to host
/// scalars, vectors to fixed-size arrays, the 4x4 float matrix to the
/// dedicated matrix type, and fixed-size arrays to host arrays of the
/// element mapping.  Every other shape is unsupported.
pub open spec fn spec_rust_type(ts: Seq<TypeDeclV>, ty: int) -> Option<Seq<char>>
    decreases (if ty >= 0 { ty } else { 0 }),
{
    if 0 <= ty < ts.len() {
        match ts[ty].shape {
            TypeShapeV::Scalar(s) => spec_scalar_name(s),
            TypeShapeV::Vector { size, scalar } => match spec_scalar_name(scalar) {
                Some(sn) => {
                    if 2 <= size <= 4 {
                        Some("["@ + sn + "; "@ + dec_str(size as nat) + "]"@)
                    } else {
                        None
                    }
                },
                None => None,
            },
            TypeShapeV::Matrix { columns, rows, scalar } => {
                if columns == 4 && rows == 4 && scalar == (ScalarDesc {
                    kind: ScalarKind::Float,
                    width: 4,
                }) {
                    Some("glam::Mat4"@)
                } else {
                    None
                }
            },
            TypeShapeV::Array { base, size } => {
                if 0 <= base < ty {
                    match size {
                        Some(n) => match spec_rust_type(ts, base) {
                            Some(e) => Some("["@ + e + "; "@ + dec_str(n as nat) + "]"@),
                            None => None,
                        },
                        None => None,
                    }
                } else {
                    None
                }
            },
            _ => None,
        }
    } else {
        None
    }
}

/// The host scalar type name for a shader scalar.
fn scalar_name(s: &ScalarDesc) -> (r: Option<&'static str>)
    ensures
        match r {
            Some(t) => spec_scalar_name(*s) == Some(t@),
            None => spec_scalar_name(*s) is None,
        },
{
    if s.width == 4 {
        match s.kind {
            ScalarKind::Float => Some("f32"),
            ScalarKind::Sint => Some("i32"),
            ScalarKind::Uint => Some("u32"),
            _ => None,
        }
    } else {
        None
    }
}

/// Map a struct member's type to its host type name, or nothing where the
/// shape is unsupported.
pub fn rust_type(types: &Vec<TypeDecl>, ty: usize) -> (r: Option<String>)
    ensures
        opt_string_view(r) == spec_rust_type(types.deep_view(), ty as int),
    decreases ty,
{
    proof {
        if ty < types@.len() {
            assert(types.deep_view()[ty as int] == types@[ty as int].deep_view());
        }
    }
    if ty >= types.len() {
        return None;
    }
    let td = &types[ty];
    match &td.shape {
        TypeShape::Scalar(s) => match scalar_name(s) {
            Some(t) => Some(String::from_str(t)),
            None => None,
        },
        TypeShape::Vector { size, scalar } => match scalar_name(scalar) {
            Some(sn) => {
                if 2 <= *size && *size <= 4 {
                    let mut out = String::new();
                    out.append("[");
                    out.append(sn);
                    out.append("; ");
                    push_dec(&mut out, *size as u64);
                    out.append("]");
                    proof {
                        assert(out@ =~= "["@ + sn@ + "; "@ + dec_str(*size as nat) + "]"@);
                    }
                    Some(out)
                } else {
                    None
                }
            },
            None => None,
        },
        TypeShape::Matrix { columns, rows, scalar } => {
            if *columns == 4 && *rows == 4 && scalar.width == 4 && matches!(
                scalar.kind,
                ScalarKind::Float,
            ) {
                Some(String::from_str("glam::Mat4"))
            } else {
                None
            }
        },
        TypeShape::Array { base, size } => {
            if *base < ty {
                match size {
                    Some(n) => match rust_type(types, *base) {
                        Some(e) => {
                            let mut out = String::new();
                            out.append("[");
                            out.append(e.as_str());
                            out.append("; ");
                            push_dec(&mut out, *n as u64);
                            out.append("]");
                            proof {
                                assert(out@ =~= "["@ + e@ + "; "@ + dec_str(*n as nat) + "]"@);
                            }
                            Some(out)
                        },
                        None => None,
                    },
                    None => None,
                }
            } else {
                None
            }
        },
        _ => None,
    }
}

/// The fixed enumeration of supported hardware vertex formats: 1 to 4
/// component 32-bit float, unsigned and signed integer formats.
#[derive(Debug, Clone, Copy, PartialEq, Eq, Structural)]
pub enum VertexFormat {
    Float32,
    Float32x2,
    Float32x3,
    Float32x4,
    Uint32,
    Uint32x2,
    Uint32x3,
    Uint32x4,
    Sint32,
    Sint32x2,
    Sint32x3,
    Sint32x4,
}

/// The vertex format a vertex struct member's type maps to, if any.
pub open spec fn spec_vertex_format(ts: Seq<TypeDeclV>, ty: int) -> Option<VertexFormat> {
    if 0 <= ty < ts.len() {
        match ts[ty].shape {
            TypeShapeV::Scalar(s) => {
                if s.width == 4 {
                    match s.kind {
                        ScalarKind::Float => Some(VertexFormat::Float32),
                        ScalarKind::Uint => Some(VertexFormat::Uint32),
                        ScalarKind::Sint => Some(VertexFormat::Sint32),
                        _ => None,
                    }
                } else {
                    None
                }
            },
            TypeShapeV::Vector { size, scalar } => {
                if scalar.width == 4 {
                    match scalar.kind {
                        ScalarKind::Float => {
                            if size == 2 {
                                Some(VertexFormat::Float32x2)
                            } else if size == 3 {
                                Some(VertexFormat::Float32x3)
                            } else if size == 4 {
                                Some(VertexFormat::Float32x4)
                            } else {
                                None
                            }
                        },
                        ScalarKind::Uint => {
                            if size == 2 {
                                Some(VertexFormat::Uint32x2)
                            } else if size == 3 {
                                Some(VertexFormat::Uint32x3)
                            } else if size == 4 {
                                Some(VertexFormat::Uint32x4)
                            } else {
                                None
                            }
                        },
                        ScalarKind::Sint => {
                            if size == 2 {
                                Some(VertexFormat::Sint32x2)
                            } else if size == 3 {
                                Some(VertexFormat::Sint32x3)
                            } else if size == 4 {
                                Some(VertexFormat::Sint32x4)
                            } else {
                                None
                            }
                        },
                        _ => None,
                    }
                } else {
                    None
                }
            },
            _ => None,
        }
    } else {
        None
    }
}

/// The name of a vertex format, as the generated attribute table spells
/// it.
pub open spec fn spec_format_name(f: VertexFormat) -> Seq<char> {
    match f {
        VertexFormat::Float32 => "Float32"@,
        VertexFormat::Float32x2 => "Float32x2"@,
        VertexFormat::Float32x3 => "Float32x3"@,
        VertexFormat::Float32x4 => "Float32x4"@,
        VertexFormat::Uint32 => "Uint32"@,
        VertexFormat::Uint32x2 => "Uint32x2"@,
        VertexFormat::Uint32x3 => "Uint32x3"@,
        VertexFormat::Uint32x4 => "Uint32x4"@,
        VertexFormat::Sint32 => "Sint32"@,
        VertexFormat::Sint32x2 => "Sint32x2"@,
        VertexFormat::Sint32x3 => "Sint32x3"@,
        VertexFormat::Sint32x4 => "Sint32x4"@,
    }
}

/// The byte size of one vertex format: four bytes per 32-bit component.
pub open spec fn spec_format_size(f: VertexFormat) -> nat {
    match f {
        VertexFormat::Float32 => 4,
        VertexFormat::Float32x2 => 8,
        VertexFormat::Float32x3 => 12,
        VertexFormat::Float32x4 => 16,
        VertexFormat::Uint32 => 4,
        VertexFormat::Uint32x2 => 8,
        VertexFormat::Uint32x3 => 12,
        VertexFormat::Uint32x4 => 16,
        VertexFormat::Sint32 => 4,
        VertexFormat::Sint32x2 => 8,
        VertexFormat::Sint32x3 => 12,
        VertexFormat::Sint32x4 => 16,
    }
}

/// Map a vertex struct member's type to its vertex format.
pub fn vertex_format(types: &Vec<TypeDecl>, ty: usize) -> (r: Option<VertexFormat>)
    ensures
        r == spec_vertex_format(types.deep_view(), ty as int),
{
    proof {
        if ty < types@.len() {
            assert(types.deep_view()[ty as int] == types@[ty as int].deep_view());
        }
    }
    if ty >= types.len() {
        return None;
    }
    match &types[ty].shape {
        TypeShape::Scalar(s) => {
            if s.width == 4 {
                match s.kind {
                    ScalarKind::Float => Some(VertexFormat::Float32),
                    ScalarKind::Uint => Some(VertexFormat::Uint32),
                    ScalarKind::Sint => Some(VertexFormat::Sint32),
                    _ => None,
                }
            } else {
                None
            }
        },
        TypeShape::Vector { size, scalar } => {
            if scalar.width == 4 {
                match scalar.kind {
                    ScalarKind::Float => {
                        if *size == 2 {
                            Some(VertexFormat::Float32x2)
                        } else if *size == 3 {
                            Some(VertexFormat::Float32x3)
                        } else if *size == 4 {
                            Some(VertexFormat::Float32x4)
                        } else {
                            None
                        }
                    },
                    ScalarKind::Uint => {
                        if *size == 2 {
                            Some(VertexFormat::Uint32x2)
                        } else if *size == 3 {
                            Some(VertexFormat::Uint32x3)
                        } else if *size == 4 {
                            Some(VertexFormat::Uint32x4)
                        } else {
                            None
                        }
                    },
                    ScalarKind::Sint => {
                        if *size == 2 {
                            Some(VertexFormat::Sint32x2)
                        } else if *size == 3 {
                            Some(VertexFormat::Sint32x3)
                        } else if *size == 4 {
                            Some(VertexFormat::Sint32x4)
                        } else {
                            None
                        }
                    },
                    _ => None,
                }
            } else {
                None
            }
        },
        _ => None,
    }
}

/// The name of a vertex format.
pub fn format_name(f: VertexFormat) -> (r: &'static str)
    ensures
        r@ == spec_format_name(f),
{
    match f {
        VertexFormat::Float32 => "Float32",
        VertexFormat::Float32x2 => "Float32x2",
        VertexFormat::Float32x3 => "Float32x3",
        VertexFormat::Float32x4 => "Float32x4",
        VertexFormat::Uint32 => "Uint32",
        VertexFormat::Uint32x2 => "Uint32x2",
        VertexFormat::Uint32x3 => "Uint32x3",
        VertexFormat::Uint32x4 => "Uint32x4",
        VertexFormat::Sint32 => "Sint32",
        VertexFormat::Sint32x2 => "Sint32x2",
        VertexFormat::Sint32x3 => "Sint32x3",
        VertexFormat::Sint32x4 => "Sint32x4",
    }
}

/// The byte size of one vertex format.
pub fn format_size(f: VertexFormat) -> (r: u64)
    ensures
        r == spec_format_size(f),
{
    match f {
        VertexFormat::Float32 => 4,
        VertexFormat::Float32x2 => 8,
        VertexFormat::Float32x3 => 12,
        VertexFormat::Float32x4 => 16,
        VertexFormat::Uint32 => 4,
        VertexFormat::Uint32x2 => 8,
        VertexFormat::Uint32x3 => 12,
        VertexFormat::Uint32x4 => 16,
        VertexFormat::Sint32 => 4,
        VertexFormat::Sint32x2 => 8,
        VertexFormat::Sint32x3 => 12,
        VertexFormat::Sint32x4 => 16,
    }
}

/// The binding-type descriptor a buffer's address space maps to: uniform,
/// read-only storage or read-write storage.
pub open spec fn spec_buffer_binding_type(space: AddrSpace) -> Option<Seq<char>> {
    match space {
        AddrSpace::Uniform => Some("wgpu::BufferBindingType::Uniform"@),
        AddrSpace::StorageRead => Some("wgpu::BufferBindingType::Storage { read_only: true }"@),
        AddrSpace::StorageReadWrite => Some(
            "wgpu::BufferBindingType::Storage { read_only: false }"@,
        ),
        _ => None,
    }
}

/// The binding-type descriptor a buffer's address space maps to.
pub fn buffer_binding_type(space: AddrSpace) -> (r: Option<&'static str>)
    ensures
        match r {
            Some(t) => spec_buffer_binding_type(space) == Some(t@),
            None => spec_buffer_binding_type(space) is None,
        },
{
    match space {
        AddrSpace::Uniform => Some("wgpu::BufferBindingType::Uniform"),
        AddrSpace::StorageRead => Some("wgpu::BufferBindingType::Storage { read_only: true }"),
        AddrSpace::StorageReadWrite => Some(
            "wgpu::BufferBindingType::Storage { read_only: false }",
        ),
        AddrSpace::HandleSpace => None,
        AddrSpace::Other => None,
    }
}

/// The stage-visibility flags for the module's stage set; exactly the four
/// combinations vertex, fragment, vertex with fragment, and compute are
/// supported.
pub open spec fn spec_stage_flags(s: StageSet) -> Option<Seq<char>> {
    if s == (StageSet { vertex: true, fragment: true, compute: false, other: false }) {
        Some("wgpu::ShaderStages::VERTEX_FRAGMENT"@)
    } else if s == (StageSet { vertex: false, fragment: false, compute: true, other: false }) {
        Some("wgpu::ShaderStages::COMPUTE"@)
    } else if s == (StageSet { vertex: true, fragment: false, compute: false, other: false }) {
        Some("wgpu::ShaderStages::VERTEX"@)
    } else if s == (StageSet { vertex: false, fragment: true, compute: false, other: false }) {
        Some("wgpu::ShaderStages::FRAGMENT"@)
    } else {
        None
    }
}

/// The stage-visibility flags for the module's stage set.
pub fn stage_flags(s: StageSet) -> (r: Option<&'static str>)
    ensures
        match r {
            Some(t) => spec_stage_flags(s) == Some(t@),
            None => spec_stage_flags(s) is None,
        },
{
    if s.vertex && s.fragment && !s.compute && !s.other {
        Some("wgpu::ShaderStages::VERTEX_FRAGMENT")
    } else if !s.vertex && !s.fragment && s.compute && !s.other {
        Some("wgpu::ShaderStages::COMPUTE")
    } else if s.vertex && !s.fragment && !s.compute && !s.other {
        Some("wgpu::ShaderStages::VERTEX")
    } else if !s.vertex && s.fragment && !s.compute && !s.other {
        Some("wgpu::ShaderStages::FRAGMENT")
    } else {
        None
    }
}

/// Whether a module is a compute module: its stage set is exactly the
/// compute stage.  A compute module binds to compute passes, every other
/// one to render passes.
pub open spec fn spec_is_compute(s: StageSet) -> bool {
    s == (StageSet { vertex: false, fragment: false, compute: true, other: false })
}

/// Whether a module is a compute module.
pub fn is_compute(s: StageSet) -> (r: bool)
    ensures
        r == spec_is_compute(s),
{
    !s.vertex && !s.fragment && s.compute && !s.other
}

/// The texture view dimension name for an image dimension.
pub open spec fn spec_view_dimension(d: ImageDim) -> Seq<char> {
    match d {
        ImageDim::D1 => "wgpu::TextureViewDimension::D1"@,
        ImageDim::D2 => "wgpu::TextureViewDimension::D2"@,
        ImageDim::D3 => "wgpu::TextureViewDimension::D3"@,
        ImageDim::Cube => "wgpu::TextureViewDimension::Cube"@,
    }
}

/// The texture view dimension name for an image dimension.
pub fn view_dimension(d: ImageDim) -> (r: &'static str)
    ensures
        r@ == spec_view_dimension(d),
{
    match d {
        ImageDim::D1 => "wgpu::TextureViewDimension::D1",
        ImageDim::D2 => "wgpu::TextureViewDimension::D2",
        ImageDim::D3 => "wgpu::TextureViewDimension::D3",
        ImageDim::Cube => "wgpu::TextureViewDimension::Cube",
    }
}

/// The texture sample type for an image class: sampled images are
/// filterable floats and depth images are depth; storage and external
/// images are unsupported.
pub open spec fn spec_sample_type(c: ImageClassTag) -> Option<Seq<char>> {
    match c {
        ImageClassTag::Sampled => Some("wgpu::TextureSampleType::Float { filterable: true }"@),
        ImageClassTag::Depth => Some("wgpu::TextureSampleType::Depth"@),
        _ => None,
    }
}

/// The texture sample type for an image class.
pub fn sample_type(c: ImageClassTag) -> (r: Option<&'static str>)
    ensures
        match r {
            Some(t) => spec_sample_type(c) == Some(t@),
            None => spec_sample_type(c) is None,
        },
{
    match c {
        ImageClassTag::Sampled => Some("wgpu::TextureSampleType::Float { filterable: true }"),
        ImageClassTag::Depth => Some("wgpu::TextureSampleType::Depth"),
        ImageClassTag::Storage => None,
        ImageClassTag::Other => None,
    }
}

/// The sampler binding type: comparison samplers bind as comparison,
/// every other sampler as filtering.
pub open spec fn spec_sampler_type(comparison: bool) -> Seq<char> {
    if comparison {
        "wgpu::SamplerBindingType::Comparison"@
    } else {
        "wgpu::SamplerBindingType::Filtering"@
    }
}

/// The sampler binding type.
pub fn sampler_type(comparison: bool) -> (r: &'static str)
    ensures
        r@ == spec_sampler_type(comparison),
{
    if comparison {
        "wgpu::SamplerBindingType::Comparison"
    } else {
        "wgpu::SamplerBindingType::Filtering"
    }
}

} // verus!
