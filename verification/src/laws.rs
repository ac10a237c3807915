//! Laws of the generation pipeline, each proved once and for all: when
//! generation succeeds, which structural error it reports when it cannot,
//! what the type mappings yield for the supported shapes, and how stage
//! visibility and the pass choice behave.
use vstd::prelude::*;

use crate::emit::attr_item_text;
use crate::emit::attrs_rest_text;
use crate::emit::attrs_text;
use crate::emit::entries_text;
use crate::emit::entry_text;
use crate::emit::entry_ty_text;
use crate::emit::group_block_text;
use crate::emit::group_blocks_text;
use crate::emit::impl_entries_text;
use crate::emit::impl_entry_text;
use crate::emit::layout_field_text;
use crate::emit::layout_fields_text;
use crate::emit::sizes_sum;
use crate::emit::spec_generate;
use crate::emit::spec_resource_text;
use crate::emit::struct_block_text;
use crate::emit::struct_fields_text;
use crate::emit::structs_text;
use crate::emit::vertex_input_text;
use crate::emit::vertex_inputs_text;
use crate::mapper::spec_buffer_binding_type;
use crate::mapper::spec_format_size;
use crate::mapper::spec_is_compute;
use crate::mapper::spec_rust_type;
use crate::mapper::spec_sample_type;
use crate::mapper::spec_stage_flags;
use crate::mapper::spec_vertex_format;
use crate::model::GroupBindingV;
use crate::model::GroupDataV;
use crate::model::ResourceKind;
use crate::model::ScalarDesc;
use crate::model::ScalarKind;
use crate::model::ShaderInfoV;
use crate::model::StageSet;
use crate::model::StructMemberV;
use crate::model::TypeDeclV;
use crate::model::TypeShapeV;
use crate::model::VertexInputV;
use crate::validate::find_dup;
use crate::validate::first_dup_in;
use crate::validate::spec_consecutive;
use crate::validate::spec_validate;
use crate::CreateModuleError;

verus! {

/// A binding the emitter supports: it carries a name, its kind has a
/// layout field type, and its type-specific descriptor exists.
pub open spec fn supported_binding(b: GroupBindingV) -> bool {
    &&& b.name is Some
    &&& match b.kind {
        ResourceKind::Buffer { space } => spec_buffer_binding_type(space) is Some,
        ResourceKind::Texture { dim, class } => spec_sample_type(class) is Some,
        ResourceKind::Sampler { .. } => true,
        ResourceKind::Unsupported => false,
    }
}

/// A type table entry the struct emitter supports: a struct has a name and
/// every member a name and a supported host type; other entries emit
/// nothing and are always fine.
pub open spec fn supported_struct(t: TypeDeclV, ts: Seq<TypeDeclV>) -> bool {
    match t.shape {
        TypeShapeV::Struct { members } => {
            &&& t.name is Some
            &&& forall|j: int|
                0 <= j < members.len() ==> (#[trigger] members[j]).name is Some && spec_rust_type(
                    ts,
                    members[j].ty,
                ) is Some
        },
        _ => true,
    }
}

/// A vertex input the emitter supports: every field maps to a vertex
/// format and the total size fits the emitted constant's type.
pub open spec fn supported_vertex_input(vi: VertexInputV, ts: Seq<TypeDeclV>) -> bool {
    &&& forall|j: int|
        0 <= j < vi.fields.len() ==> spec_vertex_format(ts, (#[trigger] vi.fields[j]).ty as int)
            is Some
    &&& sizes_sum(vi.fields, ts) <= u64::MAX
}

/// A whole reflection model the emitter supports.
pub open spec fn supported_model(info: ShaderInfoV) -> bool {
    &&& spec_stage_flags(info.stages) is Some
    &&& forall|k: int| 0 <= k < info.types.len() ==> supported_struct(#[trigger] info.types[k], info.types)
    &&& forall|g: int, j: int|
        0 <= g < info.groups.len() && 0 <= j < info.groups[g].bindings.len() ==> supported_binding(
            #[trigger] info.groups[g].bindings[j],
        )
    &&& forall|k: int|
        0 <= k < info.vertex_inputs.len() ==> supported_vertex_input(
            #[trigger] info.vertex_inputs[k],
            info.types,
        )
}

proof fn lemma_struct_fields_ok(members: Seq<StructMemberV>, ts: Seq<TypeDeclV>, lvl: nat)
    requires
        forall|j: int|
            0 <= j < members.len() ==> (#[trigger] members[j]).name is Some && spec_rust_type(
                ts,
                members[j].ty,
            ) is Some,
    ensures
        struct_fields_text(members, ts, lvl) is Ok,
    decreases members.len(),
{
    if members.len() > 0 {
        assert(members[0].name is Some);
        let tail = members.drop_first();
        assert(forall|j: int| 0 <= j < tail.len() ==> tail[j] == members[j + 1]);
        lemma_struct_fields_ok(tail, ts, lvl);
    }
}

proof fn lemma_structs_ok(rem: Seq<TypeDeclV>, ts: Seq<TypeDeclV>, lvl: nat)
    requires
        forall|k: int| 0 <= k < rem.len() ==> supported_struct(#[trigger] rem[k], ts),
    ensures
        structs_text(rem, ts, lvl) is Ok,
    decreases rem.len(),
{
    if rem.len() > 0 {
        assert(supported_struct(rem[0], ts));
        match rem[0].shape {
            TypeShapeV::Struct { members } => {
                lemma_struct_fields_ok(members, ts, lvl + 4);
            },
            _ => {},
        }
        assert(struct_block_text(rem[0], ts, lvl) is Ok);
        let tail = rem.drop_first();
        assert(forall|k: int| 0 <= k < tail.len() ==> tail[k] == rem[k + 1]);
        lemma_structs_ok(tail, ts, lvl);
    }
}

proof fn lemma_layout_fields_ok(bs: Seq<GroupBindingV>, lvl: nat)
    requires
        forall|j: int| 0 <= j < bs.len() ==> supported_binding(#[trigger] bs[j]),
    ensures
        layout_fields_text(bs, lvl) is Ok,
    decreases bs.len(),
{
    if bs.len() > 0 {
        assert(supported_binding(bs[0]));
        assert(layout_field_text(bs[0], lvl) is Ok);
        let tail = bs.drop_first();
        assert(forall|j: int| 0 <= j < tail.len() ==> tail[j] == bs[j + 1]);
        lemma_layout_fields_ok(tail, lvl);
    }
}

proof fn lemma_entries_ok(bs: Seq<GroupBindingV>, stages: StageSet, lvl: nat)
    requires
        spec_stage_flags(stages) is Some,
        forall|j: int| 0 <= j < bs.len() ==> supported_binding(#[trigger] bs[j]),
    ensures
        entries_text(bs, stages, lvl) is Ok,
    decreases bs.len(),
{
    if bs.len() > 0 {
        assert(supported_binding(bs[0]));
        assert(entry_ty_text(bs[0].kind, lvl) is Ok);
        assert(entry_text(bs[0], stages, lvl) is Ok);
        let tail = bs.drop_first();
        assert(forall|j: int| 0 <= j < tail.len() ==> tail[j] == bs[j + 1]);
        lemma_entries_ok(tail, stages, lvl);
    }
}

proof fn lemma_impl_entries_ok(bs: Seq<GroupBindingV>, lvl: nat)
    requires
        forall|j: int| 0 <= j < bs.len() ==> supported_binding(#[trigger] bs[j]),
    ensures
        impl_entries_text(bs, lvl) is Ok,
    decreases bs.len(),
{
    if bs.len() > 0 {
        assert(supported_binding(bs[0]));
        assert(spec_resource_text(bs[0]) is Ok);
        assert(impl_entry_text(bs[0], lvl) is Ok);
        let tail = bs.drop_first();
        assert(forall|j: int| 0 <= j < tail.len() ==> tail[j] == bs[j + 1]);
        lemma_impl_entries_ok(tail, lvl);
    }
}

#[verifier::rlimit(60)]
proof fn lemma_group_blocks_ok(gs: Seq<GroupDataV>, stages: StageSet)
    requires
        spec_stage_flags(stages) is Some,
        forall|g: int, j: int|
            0 <= g < gs.len() && 0 <= j < gs[g].bindings.len() ==> supported_binding(
                #[trigger] gs[g].bindings[j],
            ),
    ensures
        group_blocks_text(gs, stages) is Ok,
        forall|g: int| 0 <= g < gs.len() ==> group_block_text(#[trigger] gs[g], stages) is Ok,
    decreases gs.len(),
{
    if gs.len() > 0 {
        assert(forall|j: int| 0 <= j < gs[0].bindings.len() ==> supported_binding(
            #[trigger] gs[0].bindings[j],
        ));
        lemma_layout_fields_ok(gs[0].bindings, 4);
        lemma_entries_ok(gs[0].bindings, stages, 12);
        lemma_impl_entries_ok(gs[0].bindings, 20);
        assert(group_block_text(gs[0], stages) is Ok);
        let tail = gs.drop_first();
        assert(forall|g: int| 0 <= g < tail.len() ==> tail[g] == gs[g + 1]);
        lemma_group_blocks_ok(tail, stages);
        assert forall|g: int| 0 <= g < gs.len() implies group_block_text(
            #[trigger] gs[g],
            stages,
        ) is Ok by {
            if g > 0 {
                assert(tail[g - 1] == gs[g]);
            }
        }
    }
}

proof fn lemma_attrs_rest_ok(fields: Seq<crate::model::VertexField>, ts: Seq<TypeDeclV>)
    requires
        forall|j: int|
            0 <= j < fields.len() ==> spec_vertex_format(ts, (#[trigger] fields[j]).ty as int)
                is Some,
    ensures
        attrs_rest_text(fields, ts) is Ok,
    decreases fields.len(),
{
    if fields.len() > 0 {
        assert(attr_item_text(fields[0], ts) is Ok);
        let tail = fields.drop_first();
        assert(forall|j: int| 0 <= j < tail.len() ==> tail[j] == fields[j + 1]);
        lemma_attrs_rest_ok(tail, ts);
    }
}

proof fn lemma_vertex_inputs_ok(rem: Seq<VertexInputV>, ts: Seq<TypeDeclV>)
    requires
        forall|k: int| 0 <= k < rem.len() ==> supported_vertex_input(#[trigger] rem[k], ts),
    ensures
        vertex_inputs_text(rem, ts) is Ok,
    decreases rem.len(),
{
    if rem.len() > 0 {
        assert(supported_vertex_input(rem[0], ts));
        if rem[0].fields.len() > 0 {
            let tailf = rem[0].fields.drop_first();
            assert(forall|j: int| 0 <= j < tailf.len() ==> tailf[j] == rem[0].fields[j + 1]);
            lemma_attrs_rest_ok(tailf, ts);
        }
        assert(attrs_text(rem[0].fields, ts) is Ok);
        assert(vertex_input_text(rem[0], ts) is Ok);
        let tail = rem.drop_first();
        assert(forall|k: int| 0 <= k < tail.len() ==> tail[k] == rem[k + 1]);
        lemma_vertex_inputs_ok(tail, ts);
    }
}

/// For every reflection model whose bind-group indices are exactly `0..N`,
/// whose binding indices are unique inside each group, and whose types,
/// bindings and vertex inputs the generator supports, generation succeeds;
/// the bind groups module holds one layout/descriptor/wrapper block per
/// group, and the groups stand in ascending group order.
pub proof fn lemma_generation_succeeds(info: ShaderInfoV, path: Seq<char>)
    requires
        spec_consecutive(info.groups),
        find_dup(info.groups) is None,
        supported_model(info),
    ensures
        spec_generate(info, path) is Ok,
        group_blocks_text(info.groups, info.stages) is Ok,
        forall|g: int|
            0 <= g < info.groups.len() ==> group_block_text(#[trigger] info.groups[g], info.stages)
                is Ok,
        forall|g: int|
            0 <= g < info.groups.len() ==> (#[trigger] info.groups[g]).group_index as int == g,
{
    assert(spec_validate(info.groups) is Ok);
    lemma_structs_ok(info.types, info.types, 0);
    lemma_group_blocks_ok(info.groups, info.stages);
    lemma_vertex_inputs_ok(info.vertex_inputs, info.types);
}

/// For every reflection model whose group indices are not exactly
/// `0, 1, ...` in order, generation fails with the non-consecutive-groups
/// error, whatever the binding indices look like.
pub proof fn lemma_gap_rejected(info: ShaderInfoV, path: Seq<char>)
    requires
        !spec_consecutive(info.groups),
    ensures
        spec_generate(info, path) == Err::<Seq<char>, CreateModuleError>(
            CreateModuleError::NonConsecutiveBindGroups,
        ),
{
}

proof fn lemma_first_dup_some(bs: Seq<GroupBindingV>, i: int)
    requires
        crate::model::bindings_sorted(bs),
        0 <= i,
        i + 1 < bs.len(),
        bs[i].binding_index == bs[i + 1].binding_index,
    ensures
        first_dup_in(bs) is Some,
    decreases i,
{
    if bs[0].binding_index == bs[1].binding_index {
    } else {
        let tail = bs.drop_first();
        assert(forall|j: int| 0 <= j < tail.len() ==> tail[j] == bs[j + 1]);
        assert(i >= 1);
        lemma_first_dup_some(tail, i - 1);
    }
}

proof fn lemma_first_dup_witness(bs: Seq<GroupBindingV>)
    requires
        first_dup_in(bs) is Some,
    ensures
        exists|i: int|
            0 <= i && i + 1 < bs.len() && (#[trigger] bs[i]).binding_index == bs[i
                + 1].binding_index && bs[i].binding_index == first_dup_in(bs)->Some_0,
    decreases bs.len(),
{
    if bs[0].binding_index == bs[1].binding_index {
        let z: int = 0;
        assert(bs[z].binding_index == bs[z + 1].binding_index);
    } else {
        let tail = bs.drop_first();
        assert(forall|j: int| 0 <= j < tail.len() ==> tail[j] == bs[j + 1]);
        lemma_first_dup_witness(tail);
        let i = choose|i: int|
            0 <= i && i + 1 < tail.len() && (#[trigger] tail[i]).binding_index == tail[i
                + 1].binding_index && tail[i].binding_index == first_dup_in(tail)->Some_0;
        assert(bs[i + 1].binding_index == bs[i + 2].binding_index);
    }
}

proof fn lemma_find_dup_some(gs: Seq<GroupDataV>, g: int)
    requires
        0 <= g < gs.len(),
        first_dup_in(gs[g].bindings) is Some,
    ensures
        find_dup(gs) is Some,
    decreases g,
{
    if first_dup_in(gs[0].bindings) is Some {
    } else {
        let tail = gs.drop_first();
        assert(forall|j: int| 0 <= j < tail.len() ==> tail[j] == gs[j + 1]);
        assert(g >= 1);
        lemma_find_dup_some(tail, g - 1);
    }
}

proof fn lemma_find_dup_witness(gs: Seq<GroupDataV>)
    requires
        find_dup(gs) is Some,
    ensures
        exists|g: int|
            0 <= g < gs.len() && first_dup_in((#[trigger] gs[g]).bindings) == Some(
                find_dup(gs)->Some_0,
            ),
    decreases gs.len(),
{
    if first_dup_in(gs[0].bindings) is Some {
        assert(first_dup_in(gs[0].bindings) == Some(find_dup(gs)->Some_0));
    } else {
        let tail = gs.drop_first();
        assert(forall|j: int| 0 <= j < tail.len() ==> tail[j] == gs[j + 1]);
        lemma_find_dup_witness(tail);
        let g = choose|g: int|
            0 <= g < tail.len() && first_dup_in((#[trigger] tail[g]).bindings) == Some(
                find_dup(tail)->Some_0,
            );
        assert(first_dup_in(gs[g + 1].bindings) == Some(find_dup(gs)->Some_0));
    }
}

/// For every reflection model with consecutive group indices, sorted
/// bindings, and two bindings sharing one index inside one group,
/// generation fails with the duplicate-binding error, and the index that
/// the error carries is itself shared by two neighbouring bindings of some
/// group.
pub proof fn lemma_duplicate_rejected(
    info: ShaderInfoV,
    path: Seq<char>,
    g: int,
    i: int,
    j: int,
)
    requires
        spec_consecutive(info.groups),
        crate::model::groups_sorted(info.groups),
        0 <= g < info.groups.len(),
        0 <= i < j < info.groups[g].bindings.len(),
        info.groups[g].bindings[i].binding_index == info.groups[g].bindings[j].binding_index,
    ensures
        spec_generate(info, path) == Err::<Seq<char>, CreateModuleError>(
            CreateModuleError::DuplicateBinding { binding: find_dup(info.groups)->Some_0 },
        ),
        exists|g2: int, i2: int|
            0 <= g2 < info.groups.len() && 0 <= i2 && i2 + 1 < info.groups[g2].bindings.len() && (
            #[trigger] info.groups[g2].bindings[i2]).binding_index == info.groups[g2].bindings[i2
                + 1].binding_index && info.groups[g2].bindings[i2].binding_index == find_dup(
                info.groups,
            )->Some_0,
{
    let bs = info.groups[g].bindings;
    assert(crate::model::bindings_sorted(bs));
    assert(bs[i].binding_index <= bs[i + 1].binding_index);
    assert(i + 1 == j || bs[i + 1].binding_index <= bs[j].binding_index);
    assert(bs[i].binding_index == bs[i + 1].binding_index);
    lemma_first_dup_some(bs, i);
    lemma_find_dup_some(info.groups, g);
    lemma_find_dup_witness(info.groups);
    let b = find_dup(info.groups)->Some_0;
    let g2 = choose|g2: int|
        0 <= g2 < info.groups.len() && first_dup_in((#[trigger] info.groups[g2]).bindings) == Some(
            b,
        );
    lemma_first_dup_witness(info.groups[g2].bindings);
    let bs2 = info.groups[g2].bindings;
    let i2 = choose|i2: int|
        0 <= i2 && i2 + 1 < bs2.len() && (#[trigger] bs2[i2]).binding_index == bs2[i2
            + 1].binding_index && bs2[i2].binding_index == first_dup_in(bs2)->Some_0;
    assert(info.groups[g2].bindings[i2].binding_index == b);
}

/// Where one binding index `b` is the only one shared inside any group,
/// the duplicate-binding error carries exactly that index `b`.
pub proof fn lemma_duplicate_rejected_unique(
    info: ShaderInfoV,
    path: Seq<char>,
    g: int,
    i: int,
    j: int,
    b: u32,
)
    requires
        spec_consecutive(info.groups),
        crate::model::groups_sorted(info.groups),
        0 <= g < info.groups.len(),
        0 <= i < j < info.groups[g].bindings.len(),
        info.groups[g].bindings[i].binding_index == b,
        info.groups[g].bindings[j].binding_index == b,
        forall|g2: int, i2: int, j2: int|
            0 <= g2 < info.groups.len() && 0 <= i2 < j2 < info.groups[g2].bindings.len() && (
            #[trigger] info.groups[g2].bindings[i2]).binding_index == (
            #[trigger] info.groups[g2].bindings[j2]).binding_index
                ==> info.groups[g2].bindings[i2].binding_index == b,
    ensures
        spec_generate(info, path) == Err::<Seq<char>, CreateModuleError>(
            CreateModuleError::DuplicateBinding { binding: b },
        ),
{
    lemma_duplicate_rejected(info, path, g, i, j);
    let (g2, i2): (int, int) = choose|g2: int, i2: int|
        0 <= g2 < info.groups.len() && 0 <= i2 && i2 + 1 < info.groups[g2].bindings.len() && (
        #[trigger] info.groups[g2].bindings[i2]).binding_index == info.groups[g2].bindings[i2
            + 1].binding_index && info.groups[g2].bindings[i2].binding_index == find_dup(
            info.groups,
        )->Some_0;
    assert(info.groups[g2].bindings[i2].binding_index == info.groups[g2].bindings[i2
        + 1].binding_index);
    assert(info.groups[g2].bindings[i2].binding_index == b);
}

/// The struct-member mapping is total over the supported shapes: 32-bit
/// float and integer vectors of width 2 to 4 map to fixed-size arrays of
/// that width, and the 4x4 float matrix maps to the dedicated matrix type.
/// The vertex format of such a vector carries four bytes per component:
/// 8, 12 and 16 bytes for widths 2, 3 and 4.
pub proof fn lemma_vector_and_matrix_mapping(ts: Seq<TypeDeclV>, ty: int, size: u32, kind: ScalarKind)
    requires
        0 <= ty < ts.len(),
        2 <= size <= 4,
        kind == ScalarKind::Float || kind == ScalarKind::Uint || kind == ScalarKind::Sint,
    ensures
        ts[ty].shape == (TypeShapeV::Vector {
            size,
            scalar: ScalarDesc { kind, width: 4 },
        }) ==> {
            &&& spec_rust_type(ts, ty) is Some
            &&& spec_vertex_format(ts, ty) is Some
            &&& spec_format_size(spec_vertex_format(ts, ty)->Some_0) == 4 * size
        },
        ts[ty].shape == (TypeShapeV::Matrix {
            columns: 4,
            rows: 4,
            scalar: ScalarDesc { kind: ScalarKind::Float, width: 4 },
        }) ==> spec_rust_type(ts, ty) == Some("glam::Mat4"@),
{
}

/// Stage-visibility mapping is exhaustive over exactly the four supported
/// combinations — vertex, fragment, vertex with fragment, and compute —
/// the compute flags are emitted exactly for the compute-only stage set,
/// so compute and render visibility are never mixed, and the pass type
/// follows from whether the stage set is exactly compute.
pub proof fn lemma_stage_flags_exhaustive(s: StageSet)
    ensures
        spec_stage_flags(s) is Some <==> (s == (StageSet {
            vertex: true,
            fragment: true,
            compute: false,
            other: false,
        }) || s == (StageSet { vertex: false, fragment: false, compute: true, other: false }) || s
            == (StageSet { vertex: true, fragment: false, compute: false, other: false }) || s == (
        StageSet { vertex: false, fragment: true, compute: false, other: false })),
        spec_stage_flags(s) is Some ==> (spec_is_compute(s) <==> spec_stage_flags(s) == Some(
            "wgpu::ShaderStages::COMPUTE"@,
        )),
        crate::emit::spec_pass_type(spec_is_compute(s)) == if spec_is_compute(s) {
            "wgpu::ComputePass<'a>"@
        } else {
            "wgpu::RenderPass<'a>"@
        },
{
    reveal_strlit("wgpu::ShaderStages::VERTEX_FRAGMENT");
    reveal_strlit("wgpu::ShaderStages::COMPUTE");
    reveal_strlit("wgpu::ShaderStages::VERTEX");
    reveal_strlit("wgpu::ShaderStages::FRAGMENT");
    assert("wgpu::ShaderStages::VERTEX_FRAGMENT"@.len() == 35);
    assert("wgpu::ShaderStages::COMPUTE"@.len() == 27);
    assert("wgpu::ShaderStages::VERTEX"@.len() == 26);
    assert("wgpu::ShaderStages::FRAGMENT"@.len() == 28);
}

} // verus!
