//! The IR adapter: one verified pass over the parsed shader module that
//! builds the reflection model — the type table, the bind groups (grouped
//! and sorted), the stage set, and the vertex input structs.
use vstd::prelude::*;

use crate::ir;
use crate::ir::ShapeTag;
use crate::model::classify;
use crate::model::deep;
use crate::model::entries_of;
use crate::model::entry_of_global;
use crate::model::fields_of_members;
use crate::model::groups_of_entries;
use crate::model::groups_sorted;
use crate::model::input_of_arg;
use crate::model::inputs_of_args;
use crate::model::insert_binding;
use crate::model::insert_entry;
use crate::model::lemma_groups_of_entries_sorted;
use crate::model::lemma_insert_binding_pos;
use crate::model::lemma_insert_entry_pos;
use crate::model::spec_groups;
use crate::model::spec_reflect;
use crate::model::spec_stages;
use crate::model::spec_vertex_inputs;
use crate::model::type_entry_wf;
use crate::model::types_wf;
use crate::model::AddrSpace;
use crate::model::BindingEntryV;
use crate::model::GroupBinding;
use crate::model::GroupData;
use crate::model::GroupDataV;
use crate::model::ResourceKind;
use crate::model::ScalarDesc;
use crate::model::ShaderInfo;
use crate::model::Stage;
use crate::model::StageSet;
use crate::model::StructMember;
use crate::model::TypeDecl;
use crate::model::TypeShape;
use crate::model::TypeShapeV;
use crate::model::VertexField;
use crate::model::VertexInput;

verus! {

/// Classify a binding's resource kind from its address space and the shape
/// of its type.
fn classify_kind(space: AddrSpace, shape: &TypeShape) -> (r: ResourceKind)
    ensures
        r == classify(space, shape@),
{
    match shape {
        TypeShape::Struct { .. } => ResourceKind::Buffer { space },
        TypeShape::Image { dim, class } => ResourceKind::Texture { dim: *dim, class: *class },
        TypeShape::Sampler { comparison } => ResourceKind::Sampler { comparison: *comparison },
        _ => ResourceKind::Unsupported,
    }
}

/// Read the module's whole type table into the model's form.
fn collect_types(m: &naga::Module) -> (r: Vec<TypeDecl>)
    ensures
        r.deep_view() == ir::ir_types(*m),
        types_wf(ir::ir_types(*m)),
{
    let n = ir::type_count(m);
    let mut r: Vec<TypeDecl> = Vec::new();
    let mut i: usize = 0;
    while i < n
        invariant
            i <= n,
            n == ir::ir_types(*m).len(),
            deep(r@) == ir::ir_types(*m).take(i as int),
            forall|k: int| 0 <= k < i ==> type_entry_wf(ir::ir_types(*m), k),
        decreases n - i,
    {
        let ghost spec_shape = ir::ir_types(*m)[i as int].shape;
        let tag = ir::type_tag_at(m, i);
        let shape: TypeShape = match tag {
            ShapeTag::Scalar => TypeShape::Scalar(ir::type_scalar_at(m, i)),
            ShapeTag::Vector => {
                let v: (u32, ScalarDesc) = ir::type_vector_at(m, i);
                TypeShape::Vector { size: v.0, scalar: v.1 }
            },
            ShapeTag::Matrix => {
                let v: (u32, u32, ScalarDesc) = ir::type_matrix_at(m, i);
                TypeShape::Matrix { columns: v.0, rows: v.1, scalar: v.2 }
            },
            ShapeTag::Array => {
                let v: (usize, Option<u32>) = ir::type_array_at(m, i);
                TypeShape::Array { base: v.0, size: v.1 }
            },
            ShapeTag::Struct => {
                let count = ir::type_member_count(m, i);
                let mut members: Vec<StructMember> = Vec::new();
                let mut j: usize = 0;
                while j < count
                    invariant
                        j <= count,
                        i < ir::ir_types(*m).len(),
                        spec_shape == ir::ir_types(*m)[i as int].shape,
                        ir::shape_tag(spec_shape) == ShapeTag::Struct,
                        count == ir::struct_members(spec_shape).len(),
                        deep(members@) == ir::struct_members(spec_shape).take(j as int),
                        forall|k: int|
                            0 <= k < j ==> 0 <= (#[trigger] ir::struct_members(spec_shape)[k]).ty
                                < ir::ir_types(*m).len(),
                    decreases count - j,
                {
                    let ghost pre = deep(members@);
                    let mem = ir::type_member_at(m, i, j);
                    members.push(mem);
                    proof {
                        assert(deep(members@) =~= pre.push(mem@));
                        assert(deep(members@) =~= ir::struct_members(spec_shape).take(
                            (j + 1) as int,
                        ));
                    }
                    j = j + 1;
                }
                proof {
                    assert(ir::struct_members(spec_shape).take(count as int) =~= ir::struct_members(
                        spec_shape,
                    ));
                    assert(spec_shape == (TypeShapeV::Struct {
                        members: ir::struct_members(spec_shape),
                    }));
                }
                TypeShape::Struct { members }
            },
            ShapeTag::Image => {
                let dim = ir::type_image_dim_at(m, i);
                let class = ir::type_image_class_at(m, i);
                proof {
                    let c0 = choose|c: crate::model::ImageClassTag|
                        spec_shape == (TypeShapeV::Image { dim, class: c });
                    let d0 = choose|d: crate::model::ImageDim|
                        spec_shape == (TypeShapeV::Image { dim: d, class });
                    assert(spec_shape == (TypeShapeV::Image { dim, class: c0 }));
                    assert(spec_shape == (TypeShapeV::Image { dim: d0, class }));
                }
                TypeShape::Image { dim, class }
            },
            ShapeTag::Sampler => {
                let comparison = ir::type_sampler_at(m, i);
                TypeShape::Sampler { comparison }
            },
            ShapeTag::Other => {
                proof {
                    assert(spec_shape == TypeShapeV::Other);
                }
                TypeShape::Other
            },
        };
        let name = ir::type_name_at(m, i);
        let decl = TypeDecl { name, shape };
        proof {
            assert(decl@ == ir::ir_types(*m)[i as int]);
            assert(type_entry_wf(ir::ir_types(*m), i as int));
        }
        let ghost pre = deep(r@);
        r.push(decl);
        proof {
            assert(deep(r@) =~= pre.push(decl@));
            assert(deep(r@) =~= ir::ir_types(*m).take((i + 1) as int));
        }
        i = i + 1;
    }
    proof {
        assert(ir::ir_types(*m).take(n as int) =~= ir::ir_types(*m));
        assert(r.deep_view() =~= deep(r@));
    }
    r
}

/// Insert one binding into the group list, keeping groups sorted by group
/// index and bindings sorted by binding index inside their group.
fn insert_group_binding(groups: &mut Vec<GroupData>, group_index: u32, b: GroupBinding)
    ensures
        deep(final(groups)@) == insert_entry(
            deep(old(groups)@),
            BindingEntryV { group: group_index, binding: b@ },
        ),
{
    let ghost gs0 = deep(old(groups)@);
    let ghost e = BindingEntryV { group: group_index, binding: b@ };
    let mut p: usize = 0;
    while p < groups.len() && groups[p].group_index < group_index
        invariant
            p <= groups.len(),
            *groups == *old(groups),
            gs0 == deep(groups@),
            forall|i: int| 0 <= i < p ==> (#[trigger] gs0[i]).group_index < group_index,
        decreases groups.len() - p,
    {
        proof {
            assert(gs0[p as int] == groups@[p as int].deep_view());
        }
        p = p + 1;
    }
    proof {
        if p < groups.len() {
            assert(gs0[p as int] == groups@[p as int].deep_view());
        }
        lemma_insert_entry_pos(gs0, e, p as int);
    }
    if p < groups.len() && groups[p].group_index == group_index {
        let ghost pre = groups@;
        let mut g = groups.remove(p);
        let ghost bs0 = deep(g.bindings@);
        proof {
            assert(gs0[p as int] == pre[p as int].deep_view());
            assert(bs0 == gs0[p as int].bindings);
        }
        let mut q: usize = 0;
        while q < g.bindings.len() && g.bindings[q].binding_index <= b.binding_index
            invariant
                q <= g.bindings.len(),
                bs0 == deep(g.bindings@),
                forall|i: int| 0 <= i < q ==> (#[trigger] bs0[i]).binding_index <= b.binding_index,
            decreases g.bindings.len() - q,
        {
            proof {
                assert(bs0[q as int] == g.bindings@[q as int].deep_view());
            }
            q = q + 1;
        }
        proof {
            if q < g.bindings.len() {
                assert(bs0[q as int] == g.bindings@[q as int].deep_view());
            }
            lemma_insert_binding_pos(bs0, b@, q as int);
        }
        g.bindings.insert(q, b);
        proof {
            assert(deep(g.bindings@) =~= bs0.take(q as int) + seq![b@] + bs0.skip(q as int));
            assert(g@ == (GroupDataV {
                group_index: gs0[p as int].group_index,
                bindings: insert_binding(gs0[p as int].bindings, b@),
            }));
        }
        groups.insert(p, g);
        proof {
            assert(deep(groups@) =~= gs0.update(
                p as int,
                GroupDataV {
                    group_index: gs0[p as int].group_index,
                    bindings: insert_binding(gs0[p as int].bindings, b@),
                },
            ));
        }
    } else {
        let mut bs: Vec<GroupBinding> = Vec::new();
        bs.push(b);
        let g = GroupData { group_index, bindings: bs };
        proof {
            assert(g@.bindings =~= seq![b@]);
        }
        groups.insert(p, g);
        proof {
            assert(deep(groups@) =~= gs0.take(p as int) + seq![
                GroupDataV { group_index, bindings: seq![b@] },
            ] + gs0.skip(p as int));
        }
    }
}

/// Gather the module's globals that carry a binding attribute into bind
/// groups, grouped by group index and sorted.
fn collect_groups(m: &naga::Module, types: &Vec<TypeDecl>) -> (r: Vec<GroupData>)
    requires
        types.deep_view() == ir::ir_types(*m),
    ensures
        r.deep_view() == spec_groups(ir::ir_globals(*m), ir::ir_types(*m)),
{
    let n = ir::global_count(m);
    let mut groups: Vec<GroupData> = Vec::new();
    let mut i: usize = 0;
    while i < n
        invariant
            i <= n,
            n == ir::ir_globals(*m).len(),
            types.deep_view() == ir::ir_types(*m),
            deep(groups@) == groups_of_entries(
                entries_of(ir::ir_globals(*m).take(i as int), ir::ir_types(*m)),
            ),
        decreases n - i,
    {
        let ghost g_spec = ir::ir_globals(*m)[i as int];
        let ghost es = entries_of(ir::ir_globals(*m).take(i as int), ir::ir_types(*m));
        proof {
            assert(ir::ir_globals(*m).take((i + 1) as int).drop_last() =~= ir::ir_globals(*m).take(
                i as int,
            ));
            assert(ir::ir_globals(*m).take((i + 1) as int).last() == g_spec);
        }
        let gb = ir::global_binding_at(m, i);
        match gb {
            Some(pair) => {
                let name = ir::global_name_at(m, i);
                let space = ir::global_space_at(m, i);
                let ty = ir::global_ty_at(m, i);
                proof {
                    assert(types.deep_view()[ty as int] == types@[ty as int].deep_view());
                }
                let kind = classify_kind(space, &types[ty].shape);
                let b = GroupBinding { binding_index: pair.1, name, kind, ty };
                let ghost e = BindingEntryV { group: pair.0, binding: b@ };
                proof {
                    assert(entry_of_global(g_spec, ir::ir_types(*m)) == Some(e));
                    assert(entries_of(ir::ir_globals(*m).take((i + 1) as int), ir::ir_types(*m))
                        == es + seq![e]);
                }
                insert_group_binding(&mut groups, pair.0, b);
                proof {
                    assert((es + seq![e]).drop_last() =~= es);
                    assert((es + seq![e]).last() == e);
                    assert(groups_of_entries(es + seq![e]) == insert_entry(
                        groups_of_entries(es),
                        e,
                    ));
                }
            },
            None => {
                proof {
                    assert(entry_of_global(g_spec, ir::ir_types(*m)) is None);
                    assert(entries_of(ir::ir_globals(*m).take((i + 1) as int), ir::ir_types(*m))
                        =~= es);
                }
            },
        }
        i = i + 1;
    }
    proof {
        assert(ir::ir_globals(*m).take(n as int) =~= ir::ir_globals(*m));
        assert(groups.deep_view() =~= deep(groups@));
    }
    groups
}

/// The union of the stages of the module's entry points.
fn collect_stages(m: &naga::Module) -> (r: StageSet)
    ensures
        r == spec_stages(ir::ir_entry_points(*m)),
{
    let n = ir::entry_count(m);
    let mut vertex = false;
    let mut fragment = false;
    let mut compute = false;
    let mut other = false;
    let mut i: usize = 0;
    while i < n
        invariant
            i <= n,
            n == ir::ir_entry_points(*m).len(),
            vertex == exists|k: int|
                0 <= k < i && ir::ir_entry_points(*m)[k].stage == Stage::Vertex,
            fragment == exists|k: int|
                0 <= k < i && ir::ir_entry_points(*m)[k].stage == Stage::Fragment,
            compute == exists|k: int|
                0 <= k < i && ir::ir_entry_points(*m)[k].stage == Stage::Compute,
            other == exists|k: int|
                0 <= k < i && ir::ir_entry_points(*m)[k].stage == Stage::Other,
        decreases n - i,
    {
        let st = ir::entry_stage_at(m, i);
        match st {
            Stage::Vertex => {
                vertex = true;
            },
            Stage::Fragment => {
                fragment = true;
            },
            Stage::Compute => {
                compute = true;
            },
            Stage::Other => {
                other = true;
            },
        }
        i = i + 1;
    }
    StageSet { vertex, fragment, compute, other }
}

/// The vertex attribute fields of one struct's members, in declaration
/// order.
fn collect_fields(members: &Vec<StructMember>) -> (r: Vec<VertexField>)
    ensures
        r.deep_view() == fields_of_members(members.deep_view()),
{
    let ghost ms = members.deep_view();
    let mut r: Vec<VertexField> = Vec::new();
    let mut k: usize = 0;
    while k < members.len()
        invariant
            k <= members.len(),
            ms == members.deep_view(),
            members@.len() == ms.len(),
            deep(r@) == fields_of_members(ms.take(k as int)),
        decreases members.len() - k,
    {
        proof {
            assert(ms.take((k + 1) as int).drop_last() =~= ms.take(k as int));
            assert(ms[k as int] == members@[k as int].deep_view());
            assert(ms.take((k + 1) as int).last() == ms[k as int]);
        }
        let ghost pre = deep(r@);
        match members[k].location {
            Some(loc) => {
                r.push(VertexField { location: loc, ty: members[k].ty });
                proof {
                    assert(deep(r@) =~= pre.push(
                        VertexField { location: loc, ty: members@[k as int].ty },
                    ));
                    assert(deep(r@) =~= fields_of_members(ms.take((k + 1) as int)));
                }
            },
            None => {
                proof {
                    assert(deep(r@) =~= fields_of_members(ms.take((k + 1) as int)));
                }
            },
        }
        k = k + 1;
    }
    proof {
        assert(ms.take(members@.len() as int) =~= ms);
        assert(r.deep_view() =~= deep(r@));
    }
    r
}

/// The vertex input structs of the module's vertex entry points.
fn collect_vertex_inputs(m: &naga::Module, types: &Vec<TypeDecl>) -> (r: Vec<VertexInput>)
    requires
        types.deep_view() == ir::ir_types(*m),
    ensures
        r.deep_view() == spec_vertex_inputs(ir::ir_entry_points(*m), ir::ir_types(*m)),
{
    let n = ir::entry_count(m);
    let mut r: Vec<VertexInput> = Vec::new();
    let mut i: usize = 0;
    while i < n
        invariant
            i <= n,
            n == ir::ir_entry_points(*m).len(),
            types.deep_view() == ir::ir_types(*m),
            deep(r@) == spec_vertex_inputs(
                ir::ir_entry_points(*m).take(i as int),
                ir::ir_types(*m),
            ),
        decreases n - i,
    {
        let ghost ep = ir::ir_entry_points(*m)[i as int];
        proof {
            assert(ir::ir_entry_points(*m).take((i + 1) as int).drop_last()
                =~= ir::ir_entry_points(*m).take(i as int));
            assert(ir::ir_entry_points(*m).take((i + 1) as int).last() == ep);
        }
        let st = ir::entry_stage_at(m, i);
        if matches!(st, Stage::Vertex) {
            let argc = ir::entry_arg_count(m, i);
            let mut j: usize = 0;
            while j < argc
                invariant
                    j <= argc,
                    i < ir::ir_entry_points(*m).len(),
                    ep == ir::ir_entry_points(*m)[i as int],
                    argc == ep.arg_types.len(),
                    types.deep_view() == ir::ir_types(*m),
                    deep(r@) == spec_vertex_inputs(
                        ir::ir_entry_points(*m).take(i as int),
                        ir::ir_types(*m),
                    ) + inputs_of_args(ep.arg_types.take(j as int), ir::ir_types(*m)),
                decreases argc - j,
            {
                proof {
                    assert(ep.arg_types.take((j + 1) as int).drop_last() =~= ep.arg_types.take(
                        j as int,
                    ));
                    assert(ep.arg_types.take((j + 1) as int).last() == ep.arg_types[j as int]);
                }
                let ty = ir::entry_arg_ty_at(m, i, j);
                proof {
                    assert(types.deep_view()[ty as int] == types@[ty as int].deep_view());
                }
                let ghost pre = deep(r@);
                let td = &types[ty];
                match (&td.name, &td.shape) {
                    (Some(nm), TypeShape::Struct { members }) => {
                        let fields = collect_fields(members);
                        let vi = VertexInput { name: nm.clone(), fields };
                        proof {
                            assert(input_of_arg(ep.arg_types[j as int], ir::ir_types(*m)) == Some(
                                vi@,
                            ));
                        }
                        r.push(vi);
                        proof {
                            assert(deep(r@) =~= pre.push(vi@));
                            assert(deep(r@) =~= spec_vertex_inputs(
                                ir::ir_entry_points(*m).take(i as int),
                                ir::ir_types(*m),
                            ) + inputs_of_args(
                                ep.arg_types.take((j + 1) as int),
                                ir::ir_types(*m),
                            ));
                        }
                    },
                    _ => {
                        proof {
                            assert(input_of_arg(ep.arg_types[j as int], ir::ir_types(*m)) is None);
                            assert(deep(r@) =~= spec_vertex_inputs(
                                ir::ir_entry_points(*m).take(i as int),
                                ir::ir_types(*m),
                            ) + inputs_of_args(
                                ep.arg_types.take((j + 1) as int),
                                ir::ir_types(*m),
                            ));
                        }
                    },
                }
                j = j + 1;
            }
            proof {
                assert(ep.arg_types.take(argc as int) =~= ep.arg_types);
                assert(deep(r@) =~= spec_vertex_inputs(
                    ir::ir_entry_points(*m).take((i + 1) as int),
                    ir::ir_types(*m),
                ));
            }
        } else {
            proof {
                assert(deep(r@) =~= spec_vertex_inputs(
                    ir::ir_entry_points(*m).take((i + 1) as int),
                    ir::ir_types(*m),
                ));
            }
        }
        i = i + 1;
    }
    proof {
        assert(ir::ir_entry_points(*m).take(n as int) =~= ir::ir_entry_points(*m));
        assert(r.deep_view() =~= deep(r@));
    }
    r
}

/// Build the whole reflection model of a parsed module.
pub fn reflect_module(m: &naga::Module) -> (info: ShaderInfo)
    ensures
        info@ == spec_reflect(ir::ir_globals(*m), ir::ir_types(*m), ir::ir_entry_points(*m)),
        types_wf(info@.types),
        groups_sorted(info@.groups),
{
    let types = collect_types(m);
    let groups = collect_groups(m, &types);
    let stages = collect_stages(m);
    let vertex_inputs = collect_vertex_inputs(m, &types);
    proof {
        lemma_groups_of_entries_sorted(entries_of(ir::ir_globals(*m), ir::ir_types(*m)));
    }
    ShaderInfo { types, groups, stages, vertex_inputs }
}

} // verus!
