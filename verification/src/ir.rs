//! The boundary to the external shader IR.
//!
//! The parsed module is an opaque value of the `naga` crate.  Three
//! uninterpreted names describe what it holds — its global variables, its
//! type table and its entry points, each as a sequence of plain values —
//! and small trusted accessors read one indexed item at a time, so that the
//! verified reflection pass can walk the module with ordinary loops.
use vstd::prelude::*;

use crate::model::AddrSpace;
use crate::model::EntryPointV;
use crate::model::GlobalV;
use crate::model::ImageClassTag;
use crate::model::ImageDim;
use crate::model::ScalarDesc;
use crate::model::ScalarKind;
use crate::model::Stage;
use crate::model::StructMember;
use crate::model::StructMemberV;
use crate::model::TypeDeclV;
use crate::model::TypeShapeV;

verus! {

#[verifier::external_type_specification]
#[verifier::external_body]
pub struct ExModule(naga::Module);

/// The global variable declarations the module holds, in arena order.
pub uninterp spec fn ir_globals(m: naga::Module) -> Seq<GlobalV>;

/// The type table the module holds, in arena order.
pub uninterp spec fn ir_types(m: naga::Module) -> Seq<TypeDeclV>;

/// The entry points the module holds, in declaration order.
pub uninterp spec fn ir_entry_points(m: naga::Module) -> Seq<EntryPointV>;

/// The constructor a type shape was built with.
#[derive(Debug, Clone, Copy, PartialEq, Eq, Structural)]
pub enum ShapeTag {
    Scalar,
    Vector,
    Matrix,
    Array,
    Struct,
    Image,
    Sampler,
    Other,
}

/// The tag of a type shape.
pub open spec fn shape_tag(s: TypeShapeV) -> ShapeTag {
    match s {
        TypeShapeV::Scalar(..) => ShapeTag::Scalar,
        TypeShapeV::Vector { .. } => ShapeTag::Vector,
        TypeShapeV::Matrix { .. } => ShapeTag::Matrix,
        TypeShapeV::Array { .. } => ShapeTag::Array,
        TypeShapeV::Struct { .. } => ShapeTag::Struct,
        TypeShapeV::Image { .. } => ShapeTag::Image,
        TypeShapeV::Sampler { .. } => ShapeTag::Sampler,
        TypeShapeV::Other => ShapeTag::Other,
    }
}

/// The members of a struct shape; empty for any other shape.
pub open spec fn struct_members(s: TypeShapeV) -> Seq<StructMemberV> {
    match s {
        TypeShapeV::Struct { members } => members,
        _ => Seq::empty(),
    }
}

/// The view of an optional owned name.
pub open spec fn opt_name_view(o: Option<String>) -> Option<Seq<char>> {
    match o {
        Some(n) => Some(n@),
        None => None,
    }
}

/// Whether the WGSL front end accepts this source text.
pub uninterp spec fn wgsl_parses(s: Seq<char>) -> bool;

/// The global variable declarations this source text parses to.
pub uninterp spec fn parsed_globals(s: Seq<char>) -> Seq<GlobalV>;

/// The type table this source text parses to.
pub uninterp spec fn parsed_types(s: Seq<char>) -> Seq<TypeDeclV>;

/// The entry points this source text parses to.
pub uninterp spec fn parsed_entry_points(s: Seq<char>) -> Seq<EntryPointV>;

/// Relies on `naga::front::wgsl::parse_str`: parses WGSL source into the
/// IR module, or reports a parse error for malformed source.  The parser
/// is a function of the source text alone, so the module's contents are
/// pinned to the source by name.
#[verifier::external_body]
pub(crate) fn parse_wgsl(source: &str) -> (r: Option<naga::Module>)
    ensures
        r is Some <==> wgsl_parses(source@),
        match r {
            Some(m) => ir_globals(m) == parsed_globals(source@) && ir_types(m) == parsed_types(
                source@,
            ) && ir_entry_points(m) == parsed_entry_points(source@),
            None => true,
        },
{
    naga::front::wgsl::parse_str(source).ok()
}

/// Relies on `naga::Module::global_variables` and `Arena::len`.
#[verifier::external_body]
pub(crate) fn global_count(m: &naga::Module) -> (r: usize)
    ensures
        r == ir_globals(*m).len(),
{
    m.global_variables.len()
}

/// Relies on `naga::GlobalVariable::name`.
#[verifier::external_body]
pub(crate) fn global_name_at(m: &naga::Module, i: usize) -> (r: Option<String>)
    requires
        i < ir_globals(*m).len(),
    ensures
        opt_name_view(r) == ir_globals(*m)[i as int].name,
{
    m.global_variables.iter().nth(i).unwrap().1.name.clone()
}

/// Relies on `naga::GlobalVariable::binding` and
/// `naga::ResourceBinding`'s `group` and `binding` fields.
#[verifier::external_body]
pub(crate) fn global_binding_at(m: &naga::Module, i: usize) -> (r: Option<(u32, u32)>)
    requires
        i < ir_globals(*m).len(),
    ensures
        r == ir_globals(*m)[i as int].binding,
{
    let g = m.global_variables.iter().nth(i).unwrap().1;
    g.binding.as_ref().map(|b| (b.group, b.binding))
}

/// Relies on `naga::GlobalVariable::space` and `naga::AddressSpace`:
/// a storage space is read-write exactly when its access flags allow
/// stores.
#[verifier::external_body]
pub(crate) fn global_space_at(m: &naga::Module, i: usize) -> (r: AddrSpace)
    requires
        i < ir_globals(*m).len(),
    ensures
        r == ir_globals(*m)[i as int].space,
{
    match m.global_variables.iter().nth(i).unwrap().1.space {
        naga::AddressSpace::Uniform => AddrSpace::Uniform,
        naga::AddressSpace::Storage { access } => {
            if access.contains(naga::StorageAccess::STORE) {
                AddrSpace::StorageReadWrite
            } else {
                AddrSpace::StorageRead
            }
        },
        naga::AddressSpace::Handle => AddrSpace::HandleSpace,
        _ => AddrSpace::Other,
    }
}

/// Relies on `naga::GlobalVariable::ty` and `Handle::index`; a global's
/// type handle always indexes into the module's own type arena.
#[verifier::external_body]
pub(crate) fn global_ty_at(m: &naga::Module, i: usize) -> (r: usize)
    requires
        i < ir_globals(*m).len(),
    ensures
        r as int == ir_globals(*m)[i as int].ty,
        r < ir_types(*m).len(),
{
    m.global_variables.iter().nth(i).unwrap().1.ty.index()
}

/// Relies on `naga::Module::types` and `UniqueArena::len`.
#[verifier::external_body]
pub(crate) fn type_count(m: &naga::Module) -> (r: usize)
    ensures
        r == ir_types(*m).len(),
{
    m.types.len()
}

/// Relies on `naga::Type::name`.
#[verifier::external_body]
pub(crate) fn type_name_at(m: &naga::Module, i: usize) -> (r: Option<String>)
    requires
        i < ir_types(*m).len(),
    ensures
        opt_name_view(r) == ir_types(*m)[i as int].name,
{
    m.types.iter().nth(i).unwrap().1.name.clone()
}

/// Relies on `naga::Type::inner` and the constructors of
/// `naga::TypeInner`.
#[verifier::external_body]
pub(crate) fn type_tag_at(m: &naga::Module, i: usize) -> (r: ShapeTag)
    requires
        i < ir_types(*m).len(),
    ensures
        r == shape_tag(ir_types(*m)[i as int].shape),
{
    match &m.types.iter().nth(i).unwrap().1.inner {
        naga::TypeInner::Scalar(..) => ShapeTag::Scalar,
        naga::TypeInner::Vector { .. } => ShapeTag::Vector,
        naga::TypeInner::Matrix { .. } => ShapeTag::Matrix,
        naga::TypeInner::Array { .. } => ShapeTag::Array,
        naga::TypeInner::Struct { .. } => ShapeTag::Struct,
        naga::TypeInner::Image { .. } => ShapeTag::Image,
        naga::TypeInner::Sampler { .. } => ShapeTag::Sampler,
        _ => ShapeTag::Other,
    }
}

/// Relies on `naga::TypeInner::Scalar` and `naga::Scalar`'s `kind` and
/// `width` fields.
#[verifier::external_body]
pub(crate) fn type_scalar_at(m: &naga::Module, i: usize) -> (r: ScalarDesc)
    requires
        i < ir_types(*m).len(),
        shape_tag(ir_types(*m)[i as int].shape) == ShapeTag::Scalar,
    ensures
        ir_types(*m)[i as int].shape == TypeShapeV::Scalar(r),
{
    match &m.types.iter().nth(i).unwrap().1.inner {
        naga::TypeInner::Scalar(s) => convert_scalar(*s),
        _ => ScalarDesc { kind: ScalarKind::Other, width: 0 },
    }
}

/// Relies on `naga::TypeInner::Vector`: its size is one of 2, 3 or 4.
#[verifier::external_body]
pub(crate) fn type_vector_at(m: &naga::Module, i: usize) -> (r: (u32, ScalarDesc))
    requires
        i < ir_types(*m).len(),
        shape_tag(ir_types(*m)[i as int].shape) == ShapeTag::Vector,
    ensures
        ir_types(*m)[i as int].shape == (TypeShapeV::Vector { size: r.0, scalar: r.1 }),
{
    match &m.types.iter().nth(i).unwrap().1.inner {
        naga::TypeInner::Vector { size, scalar } => (*size as u32, convert_scalar(*scalar)),
        _ => (0, ScalarDesc { kind: ScalarKind::Other, width: 0 }),
    }
}

/// Relies on `naga::TypeInner::Matrix`: columns and rows are each one of
/// 2, 3 or 4.
#[verifier::external_body]
pub(crate) fn type_matrix_at(m: &naga::Module, i: usize) -> (r: (u32, u32, ScalarDesc))
    requires
        i < ir_types(*m).len(),
        shape_tag(ir_types(*m)[i as int].shape) == ShapeTag::Matrix,
    ensures
        ir_types(*m)[i as int].shape == (TypeShapeV::Matrix {
            columns: r.0,
            rows: r.1,
            scalar: r.2,
        }),
{
    match &m.types.iter().nth(i).unwrap().1.inner {
        naga::TypeInner::Matrix { columns, rows, scalar } => (
            *columns as u32,
            *rows as u32,
            convert_scalar(*scalar),
        ),
        _ => (0, 0, ScalarDesc { kind: ScalarKind::Other, width: 0 }),
    }
}

/// Relies on `naga::TypeInner::Array`: the element type's handle always
/// precedes the array type itself in the arena, and only
/// `ArraySize::Constant` carries a fixed length.
#[verifier::external_body]
pub(crate) fn type_array_at(m: &naga::Module, i: usize) -> (r: (usize, Option<u32>))
    requires
        i < ir_types(*m).len(),
        shape_tag(ir_types(*m)[i as int].shape) == ShapeTag::Array,
    ensures
        ir_types(*m)[i as int].shape == (TypeShapeV::Array { base: r.0 as int, size: r.1 }),
        r.0 < i,
{
    match &m.types.iter().nth(i).unwrap().1.inner {
        naga::TypeInner::Array { base, size, .. } => {
            let n = match size {
                naga::ArraySize::Constant(c) => Some(c.get()),
                _ => None,
            };
            (base.index(), n)
        },
        _ => (0, None),
    }
}

/// Relies on `naga::TypeInner::Struct` and `Vec::len`.
#[verifier::external_body]
pub(crate) fn type_member_count(m: &naga::Module, i: usize) -> (r: usize)
    requires
        i < ir_types(*m).len(),
        shape_tag(ir_types(*m)[i as int].shape) == ShapeTag::Struct,
    ensures
        r == struct_members(ir_types(*m)[i as int].shape).len(),
{
    match &m.types.iter().nth(i).unwrap().1.inner {
        naga::TypeInner::Struct { members, .. } => members.len(),
        _ => 0,
    }
}

/// Relies on `naga::StructMember`'s `name`, `ty` and `binding` fields:
/// only a `Binding::Location` carries an attribute location, and a
/// member's type handle indexes into the module's type arena.
#[verifier::external_body]
pub(crate) fn type_member_at(m: &naga::Module, i: usize, j: usize) -> (r: StructMember)
    requires
        i < ir_types(*m).len(),
        shape_tag(ir_types(*m)[i as int].shape) == ShapeTag::Struct,
        j < struct_members(ir_types(*m)[i as int].shape).len(),
    ensures
        r@ == struct_members(ir_types(*m)[i as int].shape)[j as int],
        r.ty < ir_types(*m).len(),
{
    match &m.types.iter().nth(i).unwrap().1.inner {
        naga::TypeInner::Struct { members, .. } => {
            let mem = &members[j];
            let location = match &mem.binding {
                Some(naga::Binding::Location { location, .. }) => Some(*location),
                _ => None,
            };
            StructMember { name: mem.name.clone(), ty: mem.ty.index(), location }
        },
        _ => StructMember { name: None, ty: 0, location: None },
    }
}

/// Relies on `naga::TypeInner::Image` and `naga::ImageDimension`.
#[verifier::external_body]
pub(crate) fn type_image_dim_at(m: &naga::Module, i: usize) -> (r: ImageDim)
    requires
        i < ir_types(*m).len(),
        shape_tag(ir_types(*m)[i as int].shape) == ShapeTag::Image,
    ensures
        exists|c: ImageClassTag|
            ir_types(*m)[i as int].shape == (TypeShapeV::Image { dim: r, class: c }),
{
    match &m.types.iter().nth(i).unwrap().1.inner {
        naga::TypeInner::Image { dim, .. } => match dim {
            naga::ImageDimension::D1 => ImageDim::D1,
            naga::ImageDimension::D2 => ImageDim::D2,
            naga::ImageDimension::D3 => ImageDim::D3,
            naga::ImageDimension::Cube => ImageDim::Cube,
        },
        _ => ImageDim::D1,
    }
}

/// Relies on `naga::TypeInner::Image` and the constructors of
/// `naga::ImageClass`.
#[verifier::external_body]
pub(crate) fn type_image_class_at(m: &naga::Module, i: usize) -> (r: ImageClassTag)
    requires
        i < ir_types(*m).len(),
        shape_tag(ir_types(*m)[i as int].shape) == ShapeTag::Image,
    ensures
        exists|d: ImageDim|
            ir_types(*m)[i as int].shape == (TypeShapeV::Image { dim: d, class: r }),
{
    match &m.types.iter().nth(i).unwrap().1.inner {
        naga::TypeInner::Image { class, .. } => match class {
            naga::ImageClass::Sampled { .. } => ImageClassTag::Sampled,
            naga::ImageClass::Depth { .. } => ImageClassTag::Depth,
            naga::ImageClass::Storage { .. } => ImageClassTag::Storage,
            naga::ImageClass::External => ImageClassTag::Other,
        },
        _ => ImageClassTag::Other,
    }
}

/// Relies on `naga::TypeInner::Sampler`'s `comparison` field.
#[verifier::external_body]
pub(crate) fn type_sampler_at(m: &naga::Module, i: usize) -> (r: bool)
    requires
        i < ir_types(*m).len(),
        shape_tag(ir_types(*m)[i as int].shape) == ShapeTag::Sampler,
    ensures
        ir_types(*m)[i as int].shape == (TypeShapeV::Sampler { comparison: r }),
{
    match &m.types.iter().nth(i).unwrap().1.inner {
        naga::TypeInner::Sampler { comparison } => *comparison,
        _ => false,
    }
}

/// Relies on `naga::Module::entry_points` and `Vec::len`.
#[verifier::external_body]
pub(crate) fn entry_count(m: &naga::Module) -> (r: usize)
    ensures
        r == ir_entry_points(*m).len(),
{
    m.entry_points.len()
}

/// Relies on `naga::EntryPoint::stage` and the constructors of
/// `naga::ShaderStage`.
#[verifier::external_body]
pub(crate) fn entry_stage_at(m: &naga::Module, i: usize) -> (r: Stage)
    requires
        i < ir_entry_points(*m).len(),
    ensures
        r == ir_entry_points(*m)[i as int].stage,
{
    match m.entry_points[i].stage {
        naga::ShaderStage::Vertex => Stage::Vertex,
        naga::ShaderStage::Fragment => Stage::Fragment,
        naga::ShaderStage::Compute => Stage::Compute,
        _ => Stage::Other,
    }
}

/// Relies on `naga::EntryPoint::function` and
/// `naga::Function::arguments`.
#[verifier::external_body]
pub(crate) fn entry_arg_count(m: &naga::Module, i: usize) -> (r: usize)
    requires
        i < ir_entry_points(*m).len(),
    ensures
        r == ir_entry_points(*m)[i as int].arg_types.len(),
{
    m.entry_points[i].function.arguments.len()
}

/// Relies on `naga::FunctionArgument::ty` and `Handle::index`; an
/// argument's type handle indexes into the module's type arena.
#[verifier::external_body]
pub(crate) fn entry_arg_ty_at(m: &naga::Module, i: usize, j: usize) -> (r: usize)
    requires
        i < ir_entry_points(*m).len(),
        j < ir_entry_points(*m)[i as int].arg_types.len(),
    ensures
        r as int == ir_entry_points(*m)[i as int].arg_types[j as int],
        r < ir_types(*m).len(),
{
    m.entry_points[i].function.arguments[j].ty.index()
}

#[verifier::external_type_specification]
#[verifier::external_body]
pub struct ExNagaScalar(naga::Scalar);

/// Relies on `naga::Scalar`'s `kind` and `width` fields; converts the
/// IR's scalar description into the model's, shared by the scalar, vector
/// and matrix accessors.
#[verifier::external_body]
fn convert_scalar(s: naga::Scalar) -> ScalarDesc {
    ScalarDesc {
        kind: match s.kind {
            naga::ScalarKind::Sint => ScalarKind::Sint,
            naga::ScalarKind::Uint => ScalarKind::Uint,
            naga::ScalarKind::Float => ScalarKind::Float,
            naga::ScalarKind::Bool => ScalarKind::Bool,
            _ => ScalarKind::Other,
        },
        width: s.width as u32,
    }
}

} // verus!
