//! The code emitter: produces the generated source text from the validated
//! reflection model.  Emission is deterministic — groups ascending,
//! bindings ascending within a group, struct declarations in type table
//! order — and either yields the whole text or fails with a structured
//! error, never partial output.
use vstd::prelude::*;

use crate::mapper::buffer_binding_type;
use crate::mapper::format_name;
use crate::mapper::format_size;
use crate::mapper::is_compute;
use crate::mapper::rust_type;
use crate::mapper::sample_type;
use crate::mapper::sampler_type;
use crate::mapper::spec_buffer_binding_type;
use crate::mapper::spec_format_name;
use crate::mapper::spec_format_size;
use crate::mapper::spec_is_compute;
use crate::mapper::spec_rust_type;
use crate::mapper::spec_sample_type;
use crate::mapper::spec_sampler_type;
use crate::mapper::spec_stage_flags;
use crate::mapper::spec_vertex_format;
use crate::mapper::spec_view_dimension;
use crate::mapper::stage_flags;
use crate::mapper::vertex_format;
use crate::mapper::view_dimension;
use crate::model::GroupBinding;
use crate::model::GroupBindingV;
use crate::model::GroupData;
use crate::model::GroupDataV;
use crate::model::ResourceKind;
use crate::model::ShaderInfo;
use crate::model::StageSet;
use crate::model::StructMember;
use crate::model::StructMemberV;
use crate::model::TypeDecl;
use crate::model::TypeDeclV;
use crate::model::TypeShapeV;
use crate::model::VertexField;
use crate::model::VertexInput;
use crate::model::VertexInputV;
use crate::text::dec_str;
use crate::text::push_dec;
use crate::text::push_spaces;
use crate::text::spaces;
use crate::CreateModuleError;

verus! {

/// How a fallible writer relates the text before and after the call to its
/// specified emission: on success exactly the specified text was appended;
/// on failure the specified error is returned.
pub open spec fn emit_ok(
    pre: Seq<char>,
    post: Seq<char>,
    r: Result<(), CreateModuleError>,
    spec: Result<Seq<char>, CreateModuleError>,
) -> bool {
    match spec {
        Ok(t) => r is Ok && post == pre + t,
        Err(e) => r == Err::<(), CreateModuleError>(e) && pre.is_prefix_of(post),
    }
}

/// The text of one struct field declaration line.
pub open spec fn struct_field_text(m: StructMemberV, ts: Seq<TypeDeclV>, lvl: nat) -> Result<
    Seq<char>,
    CreateModuleError,
> {
    match m.name {
        Some(nm) => match spec_rust_type(ts, m.ty) {
            Some(t) => Ok(spaces(lvl) + "pub "@ + nm + ": "@ + t + ","@ + "\n"@),
            None => Err(CreateModuleError::UnsupportedFeature),
        },
        None => Err(CreateModuleError::UnsupportedFeature),
    }
}

/// The field declaration lines of a struct's members, in declaration
/// order.
pub open spec fn struct_fields_text(
    rem: Seq<StructMemberV>,
    ts: Seq<TypeDeclV>,
    lvl: nat,
) -> Result<Seq<char>, CreateModuleError>
    decreases rem.len(),
{
    if rem.len() == 0 {
        Ok(Seq::empty())
    } else {
        match struct_field_text(rem[0], ts, lvl) {
            Ok(t) => match struct_fields_text(rem.drop_first(), ts, lvl) {
                Ok(rest) => Ok(t + rest),
                Err(e) => Err(e),
            },
            Err(e) => Err(e),
        }
    }
}

/// The declaration block of one shader struct: the layout attributes, the
/// struct header, its fields and the closing brace.  A type that is not a
/// struct contributes nothing.
pub open spec fn struct_block_text(t: TypeDeclV, ts: Seq<TypeDeclV>, lvl: nat) -> Result<
    Seq<char>,
    CreateModuleError,
> {
    match t.shape {
        TypeShapeV::Struct { members } => match t.name {
            Some(nm) => match struct_fields_text(members, ts, lvl + 4) {
                Ok(fields) => Ok(
                    spaces(lvl) + "#[repr(C)]\n"@ + spaces(lvl)
                        + "#[derive(Debug, Copy, Clone, PartialEq, bytemuck::Pod, bytemuck::Zeroable)]\n"@
                        + spaces(lvl) + "pub struct "@ + nm + " {\n"@ + fields + spaces(lvl)
                        + "}\n"@,
                ),
                Err(e) => Err(e),
            },
            None => Err(CreateModuleError::UnsupportedFeature),
        },
        _ => Ok(Seq::empty()),
    }
}

/// The declaration blocks of all shader structs, in type table order.
pub open spec fn structs_text(rem: Seq<TypeDeclV>, ts: Seq<TypeDeclV>, lvl: nat) -> Result<
    Seq<char>,
    CreateModuleError,
>
    decreases rem.len(),
{
    if rem.len() == 0 {
        Ok(Seq::empty())
    } else {
        match struct_block_text(rem[0], ts, lvl) {
            Ok(t) => match structs_text(rem.drop_first(), ts, lvl) {
                Ok(rest) => Ok(t + rest),
                Err(e) => Err(e),
            },
            Err(e) => Err(e),
        }
    }
}

/// Write one struct field declaration line.
fn write_struct_member(
    f: &mut String,
    indent: usize,
    member: &StructMember,
    types: &Vec<TypeDecl>,
) -> (r: Result<(), CreateModuleError>)
    ensures
        emit_ok(old(f)@, final(f)@, r, struct_field_text(member@, types.deep_view(), indent as nat)),
{
    let nm = match &member.name {
        Some(n) => n,
        None => {
            return Err(CreateModuleError::UnsupportedFeature);
        },
    };
    let t = match rust_type(types, member.ty) {
        Some(t) => t,
        None => {
            return Err(CreateModuleError::UnsupportedFeature);
        },
    };
    push_spaces(f, indent);
    f.append("pub ");
    f.append(nm.as_str());
    f.append(": ");
    f.append(t.as_str());
    f.append(",");
    f.append("\n");
    proof {
        assert(f@ =~= old(f)@ + (spaces(indent as nat) + "pub "@ + nm@ + ": "@ + t@ + ","@
            + "\n"@));
    }
    Ok(())
}

/// Write the field declaration lines for a struct's members.
pub fn write_struct_members(
    f: &mut String,
    indent: usize,
    members: &Vec<StructMember>,
    types: &Vec<TypeDecl>,
) -> (r: Result<(), CreateModuleError>)
    ensures
        emit_ok(
            old(f)@,
            final(f)@,
            r,
            struct_fields_text(members.deep_view(), types.deep_view(), indent as nat),
        ),
{
    let ghost ms = members.deep_view();
    let ghost ts = types.deep_view();
    let ghost lvl = indent as nat;
    let ghost mut acc: Seq<char> = Seq::empty();
    proof {
        assert(ms.skip(0) =~= ms);
        assert(f@ =~= old(f)@ + acc);
        match struct_fields_text(ms, ts, lvl) {
            Ok(rest) => {
                assert(acc + rest =~= rest);
            },
            Err(_) => {},
        }
    }
    let mut k: usize = 0;
    while k < members.len()
        invariant
            k <= members.len(),
            ms == members.deep_view(),
            ts == types.deep_view(),
            lvl == indent as nat,
            ms.len() == members@.len(),
            f@ == old(f)@ + acc,
            match struct_fields_text(ms.skip(k as int), ts, lvl) {
                Ok(rest) => struct_fields_text(ms, ts, lvl) == Ok::<Seq<char>, CreateModuleError>(
                    acc + rest,
                ),
                Err(e) => struct_fields_text(ms, ts, lvl) == Err::<Seq<char>, CreateModuleError>(e),
            },
        decreases members.len() - k,
    {
        proof {
            assert(ms[k as int] == members@[k as int].deep_view());
            assert(ms.skip(k as int)[0] == ms[k as int]);
            assert(ms.skip(k as int).drop_first() =~= ms.skip(k + 1));
        }
        match write_struct_member(f, indent, &members[k], types) {
            Ok(_) => {
                proof {
                    let ghost acc0 = acc;
                    let t = struct_field_text(ms[k as int], ts, lvl)->Ok_0;
                    assert(f@ =~= old(f)@ + (acc0 + t));
                    acc = acc0 + t;
                    match struct_fields_text(ms.skip(k + 1), ts, lvl) {
                        Ok(r2) => {
                            assert(acc0 + (t + r2) =~= acc + r2);
                        },
                        Err(_) => {},
                    }
                }
            },
            Err(e) => {
                return Err(e);
            },
        }
        k = k + 1;
    }
    proof {
        assert(ms.skip(members@.len() as int).len() == 0);
        match struct_fields_text(ms, ts, lvl) {
            Ok(rest) => {
                assert(acc + Seq::<char>::empty() =~= acc);
            },
            Err(_) => {},
        }
    }
    Ok(())
}

/// Write the declaration block of one shader struct.
fn write_struct_block(
    f: &mut String,
    indent: usize,
    t: &TypeDecl,
    types: &Vec<TypeDecl>,
) -> (r: Result<(), CreateModuleError>)
    requires
        indent + 4 <= usize::MAX,
    ensures
        emit_ok(old(f)@, final(f)@, r, struct_block_text(t@, types.deep_view(), indent as nat)),
{
    let members = match &t.shape {
        crate::model::TypeShape::Struct { members } => members,
        _ => {
            return Ok(());
        },
    };
    let nm = match &t.name {
        Some(n) => n,
        None => {
            return Err(CreateModuleError::UnsupportedFeature);
        },
    };
    push_spaces(f, indent);
    f.append("#[repr(C)]\n");
    push_spaces(f, indent);
    f.append("#[derive(Debug, Copy, Clone, PartialEq, bytemuck::Pod, bytemuck::Zeroable)]\n");
    push_spaces(f, indent);
    f.append("pub struct ");
    f.append(nm.as_str());
    f.append(" {\n");
    match write_struct_members(f, indent + 4, members, types) {
        Ok(_) => {},
        Err(e) => {
            return Err(e);
        },
    }
    push_spaces(f, indent);
    f.append("}\n");
    proof {
        let lvl = indent as nat;
        let fields = struct_fields_text(
            members.deep_view(),
            types.deep_view(),
            lvl + 4,
        )->Ok_0;
        assert(f@ =~= old(f)@ + (spaces(lvl) + "#[repr(C)]\n"@ + spaces(lvl)
            + "#[derive(Debug, Copy, Clone, PartialEq, bytemuck::Pod, bytemuck::Zeroable)]\n"@
            + spaces(lvl) + "pub struct "@ + nm@ + " {\n"@ + fields + spaces(lvl) + "}\n"@));
    }
    Ok(())
}

/// Write the declaration blocks for all shader structs, in type table
/// order.
pub fn write_structs(f: &mut String, indent: usize, info: &ShaderInfo) -> (r: Result<
    (),
    CreateModuleError,
>)
    requires
        indent + 4 <= usize::MAX,
    ensures
        emit_ok(
            old(f)@,
            final(f)@,
            r,
            structs_text(info.types.deep_view(), info.types.deep_view(), indent as nat),
        ),
{
    let ghost ts = info.types.deep_view();
    let ghost lvl = indent as nat;
    let ghost mut acc: Seq<char> = Seq::empty();
    proof {
        assert(ts.skip(0) =~= ts);
        assert(f@ =~= old(f)@ + acc);
        match structs_text(ts, ts, lvl) {
            Ok(rest) => {
                assert(acc + rest =~= rest);
            },
            Err(_) => {},
        }
    }
    let mut k: usize = 0;
    while k < info.types.len()
        invariant
            k <= info.types.len(),
            ts == info.types.deep_view(),
            lvl == indent as nat,
            indent + 4 <= usize::MAX,
            ts.len() == info.types@.len(),
            f@ == old(f)@ + acc,
            match structs_text(ts.skip(k as int), ts, lvl) {
                Ok(rest) => structs_text(ts, ts, lvl) == Ok::<Seq<char>, CreateModuleError>(
                    acc + rest,
                ),
                Err(e) => structs_text(ts, ts, lvl) == Err::<Seq<char>, CreateModuleError>(e),
            },
        decreases info.types.len() - k,
    {
        proof {
            assert(ts[k as int] == info.types@[k as int].deep_view());
            assert(ts.skip(k as int)[0] == ts[k as int]);
            assert(ts.skip(k as int).drop_first() =~= ts.skip(k + 1));
        }
        match write_struct_block(f, indent, &info.types[k], &info.types) {
            Ok(_) => {
                proof {
                    let ghost acc0 = acc;
                    let t = struct_block_text(ts[k as int], ts, lvl)->Ok_0;
                    assert(f@ =~= old(f)@ + (acc0 + t));
                    acc = acc0 + t;
                    match structs_text(ts.skip(k + 1), ts, lvl) {
                        Ok(r2) => {
                            assert(acc0 + (t + r2) =~= acc + r2);
                        },
                        Err(_) => {},
                    }
                }
            },
            Err(e) => {
                return Err(e);
            },
        }
        k = k + 1;
    }
    proof {
        assert(ts.skip(info.types@.len() as int).len() == 0);
        match structs_text(ts, ts, lvl) {
            Ok(rest) => {
                assert(acc + Seq::<char>::empty() =~= acc);
            },
            Err(_) => {},
        }
    }
    Ok(())
}

/// The pass type a bind operation attaches to: compute modules bind to
/// compute passes, render modules to render passes.
pub open spec fn spec_pass_type(compute: bool) -> Seq<char> {
    if compute {
        "wgpu::ComputePass<'a>"@
    } else {
        "wgpu::RenderPass<'a>"@
    }
}

/// The pass type a bind operation attaches to.
fn pass_type(compute: bool) -> (r: &'static str)
    ensures
        r@ == spec_pass_type(compute),
{
    if compute {
        "wgpu::ComputePass<'a>"
    } else {
        "wgpu::RenderPass<'a>"
    }
}

/// The borrowed resource type one binding expects in the layout struct.
pub open spec fn spec_layout_field_type(kind: ResourceKind) -> Option<Seq<char>> {
    match kind {
        ResourceKind::Buffer { .. } => Some("wgpu::BufferBinding<'a>"@),
        ResourceKind::Texture { .. } => Some("&'a wgpu::TextureView"@),
        ResourceKind::Sampler { .. } => Some("&'a wgpu::Sampler"@),
        ResourceKind::Unsupported => None,
    }
}

/// The text of one field of the layout struct.
pub open spec fn layout_field_text(b: GroupBindingV, lvl: nat) -> Result<
    Seq<char>,
    CreateModuleError,
> {
    match b.name {
        Some(nm) => match spec_layout_field_type(b.kind) {
            Some(ft) => Ok(spaces(lvl + 4) + "pub "@ + nm + ": "@ + ft + ",\n"@),
            None => Err(CreateModuleError::UnsupportedFeature),
        },
        None => Err(CreateModuleError::UnsupportedFeature),
    }
}

/// The fields of the layout struct, one per binding in binding order.
pub open spec fn layout_fields_text(rem: Seq<GroupBindingV>, lvl: nat) -> Result<
    Seq<char>,
    CreateModuleError,
>
    decreases rem.len(),
{
    if rem.len() == 0 {
        Ok(Seq::empty())
    } else {
        match layout_field_text(rem[0], lvl) {
            Ok(t) => match layout_fields_text(rem.drop_first(), lvl) {
                Ok(rest) => Ok(t + rest),
                Err(e) => Err(e),
            },
            Err(e) => Err(e),
        }
    }
}

/// The binding-payload struct of one group: the borrowed resource each
/// binding expects, keyed by binding name.
pub open spec fn layout_text(g: GroupDataV, lvl: nat) -> Result<Seq<char>, CreateModuleError> {
    match layout_fields_text(g.bindings, lvl) {
        Ok(fs) => Ok(
            spaces(lvl) + "pub struct BindGroupLayout"@ + dec_str(g.group_index as nat) + "<'a> {\n"@
                + fs + spaces(lvl) + "}\n"@,
        ),
        Err(e) => Err(e),
    }
}

/// Write one field of the layout struct.
fn write_layout_field(f: &mut String, indent: usize, b: &GroupBinding) -> (r: Result<
    (),
    CreateModuleError,
>)
    requires
        indent + 4 <= usize::MAX,
    ensures
        emit_ok(old(f)@, final(f)@, r, layout_field_text(b@, indent as nat)),
{
    let nm = match &b.name {
        Some(n) => n,
        None => {
            return Err(CreateModuleError::UnsupportedFeature);
        },
    };
    let ft: &str = match b.kind {
        ResourceKind::Buffer { .. } => "wgpu::BufferBinding<'a>",
        ResourceKind::Texture { .. } => "&'a wgpu::TextureView",
        ResourceKind::Sampler { .. } => "&'a wgpu::Sampler",
        ResourceKind::Unsupported => {
            return Err(CreateModuleError::UnsupportedFeature);
        },
    };
    push_spaces(f, indent + 4);
    f.append("pub ");
    f.append(nm.as_str());
    f.append(": ");
    f.append(ft);
    f.append(",\n");
    proof {
        assert(f@ =~= old(f)@ + (spaces(indent as nat + 4) + "pub "@ + nm@ + ": "@ + ft@
            + ",\n"@));
    }
    Ok(())
}

/// Write the binding-payload struct of one group.
pub fn write_bind_group_layout(f: &mut String, indent: usize, group: &GroupData) -> (r: Result<
    (),
    CreateModuleError,
>)
    requires
        indent + 4 <= usize::MAX,
    ensures
        emit_ok(old(f)@, final(f)@, r, layout_text(group@, indent as nat)),
{
    let ghost bs = group.bindings.deep_view();
    let ghost lvl = indent as nat;
    push_spaces(f, indent);
    f.append("pub struct BindGroupLayout");
    push_dec(f, group.group_index as u64);
    f.append("<'a> {\n");
    let ghost head = spaces(lvl) + "pub struct BindGroupLayout"@ + dec_str(
        group.group_index as nat,
    ) + "<'a> {\n"@;
    let ghost mut acc: Seq<char> = head;
    proof {
        assert(bs.skip(0) =~= bs);
        assert(f@ =~= old(f)@ + acc);
    }
    let mut k: usize = 0;
    while k < group.bindings.len()
        invariant
            k <= group.bindings.len(),
            bs == group.bindings.deep_view(),
            lvl == indent as nat,
            indent + 4 <= usize::MAX,
            bs.len() == group.bindings@.len(),
            f@ == old(f)@ + acc,
            match layout_fields_text(bs.skip(k as int), lvl) {
                Ok(rest) => layout_fields_text(bs, lvl) matches Ok(all) && head + all == acc + rest,
                Err(e) => layout_fields_text(bs, lvl) == Err::<Seq<char>, CreateModuleError>(e),
            },
        decreases group.bindings.len() - k,
    {
        proof {
            assert(bs[k as int] == group.bindings@[k as int].deep_view());
            assert(bs.skip(k as int)[0] == bs[k as int]);
            assert(bs.skip(k as int).drop_first() =~= bs.skip(k + 1));
        }
        match write_layout_field(f, indent, &group.bindings[k]) {
            Ok(_) => {
                proof {
                    let ghost acc0 = acc;
                    let t = layout_field_text(bs[k as int], lvl)->Ok_0;
                    assert(f@ =~= old(f)@ + (acc0 + t));
                    acc = acc0 + t;
                    match layout_fields_text(bs.skip(k + 1), lvl) {
                        Ok(r2) => {
                            let all = layout_fields_text(bs, lvl)->Ok_0;
                            assert(head + all =~= acc0 + (t + r2));
                            assert(acc0 + (t + r2) =~= acc + r2);
                        },
                        Err(_) => {},
                    }
                }
            },
            Err(e) => {
                return Err(e);
            },
        }
        k = k + 1;
    }
    push_spaces(f, indent);
    f.append("}\n");
    proof {
        assert(bs.skip(group.bindings@.len() as int).len() == 0);
        let all = layout_fields_text(bs, lvl)->Ok_0;
        assert(head + all =~= acc + Seq::<char>::empty());
        assert(acc + Seq::<char>::empty() =~= acc);
        assert(f@ =~= old(f)@ + (head + all + spaces(lvl) + "}\n"@));
    }
    Ok(())
}

/// The type-specific part of one layout entry.
pub open spec fn entry_ty_text(kind: ResourceKind, lvl: nat) -> Result<
    Seq<char>,
    CreateModuleError,
> {
    match kind {
        ResourceKind::Buffer { space } => match spec_buffer_binding_type(space) {
            Some(bbt) => Ok(
                spaces(lvl + 4) + "ty: wgpu::BindingType::Buffer {\n"@ + spaces(lvl + 4)
                    + "    ty: "@ + bbt + ",\n"@ + spaces(lvl + 4)
                    + "    has_dynamic_offset: false,\n"@ + spaces(lvl + 4)
                    + "    min_binding_size: None,\n"@ + spaces(lvl + 4) + "},\n"@,
            ),
            None => Err(CreateModuleError::UnsupportedFeature),
        },
        ResourceKind::Texture { dim, class } => match spec_sample_type(class) {
            Some(st) => Ok(
                spaces(lvl + 4) + "ty: wgpu::BindingType::Texture {\n"@ + spaces(lvl + 4)
                    + "    multisampled: false,\n"@ + spaces(lvl + 4) + "    view_dimension: "@
                    + spec_view_dimension(dim) + ",\n"@ + spaces(lvl + 4) + "    sample_type: "@
                    + st + ",\n"@ + spaces(lvl + 4) + "},\n"@,
            ),
            None => Err(CreateModuleError::UnsupportedFeature),
        },
        ResourceKind::Sampler { comparison } => Ok(
            spaces(lvl + 4) + "ty: wgpu::BindingType::Sampler("@ + spec_sampler_type(comparison)
                + "),\n"@,
        ),
        ResourceKind::Unsupported => Err(CreateModuleError::UnsupportedFeature),
    }
}

/// The text of one layout entry: the binding index, the stage visibility
/// and the type-specific descriptor.
pub open spec fn entry_text(b: GroupBindingV, stages: StageSet, lvl: nat) -> Result<
    Seq<char>,
    CreateModuleError,
> {
    match spec_stage_flags(stages) {
        Some(fl) => match entry_ty_text(b.kind, lvl) {
            Ok(typart) => Ok(
                spaces(lvl) + "wgpu::BindGroupLayoutEntry {\n"@ + spaces(lvl) + "    binding: "@
                    + dec_str(b.binding_index as nat) + "u32,\n"@ + spaces(lvl)
                    + "    visibility: "@ + fl + ",\n"@ + typart + spaces(lvl)
                    + "    count: None,\n"@ + spaces(lvl) + "},\n"@,
            ),
            Err(e) => Err(e),
        },
        None => Err(CreateModuleError::UnsupportedFeature),
    }
}

/// The layout entries of one group, in binding order.
pub open spec fn entries_text(rem: Seq<GroupBindingV>, stages: StageSet, lvl: nat) -> Result<
    Seq<char>,
    CreateModuleError,
>
    decreases rem.len(),
{
    if rem.len() == 0 {
        Ok(Seq::empty())
    } else {
        match entry_text(rem[0], stages, lvl) {
            Ok(t) => match entries_text(rem.drop_first(), stages, lvl) {
                Ok(rest) => Ok(t + rest),
                Err(e) => Err(e),
            },
            Err(e) => Err(e),
        }
    }
}

/// The layout-descriptor value of one group: one entry per binding, in
/// binding order.
pub open spec fn layout_descriptor_text(g: GroupDataV, stages: StageSet, lvl: nat) -> Result<
    Seq<char>,
    CreateModuleError,
> {
    match entries_text(g.bindings, stages, lvl + 8) {
        Ok(es) => Ok(
            spaces(lvl) + "const LAYOUT_DESCRIPTOR"@ + dec_str(g.group_index as nat)
                + ": wgpu::BindGroupLayoutDescriptor = wgpu::BindGroupLayoutDescriptor {\n"@
                + spaces(lvl) + "    label: None,\n"@ + spaces(lvl) + "    entries: &[\n"@ + es
                + spaces(lvl) + "    ]\n"@ + spaces(lvl) + "};\n"@,
        ),
        Err(e) => Err(e),
    }
}

/// Write the type-specific part of one layout entry.
#[verifier::rlimit(60)]
fn write_entry_ty(f: &mut String, kind: ResourceKind, indent: usize) -> (r: Result<
    (),
    CreateModuleError,
>)
    requires
        indent + 4 <= usize::MAX,
    ensures
        emit_ok(old(f)@, final(f)@, r, entry_ty_text(kind, indent as nat)),
{
    let ghost lvl = indent as nat;
    match kind {
        ResourceKind::Buffer { space } => {
            let bbt = match buffer_binding_type(space) {
                Some(s) => s,
                None => {
                    return Err(CreateModuleError::UnsupportedFeature);
                },
            };
            push_spaces(f, indent + 4);
            f.append("ty: wgpu::BindingType::Buffer {\n");
            push_spaces(f, indent + 4);
            f.append("    ty: ");
            f.append(bbt);
            f.append(",\n");
            push_spaces(f, indent + 4);
            f.append("    has_dynamic_offset: false,\n");
            push_spaces(f, indent + 4);
            f.append("    min_binding_size: None,\n");
            push_spaces(f, indent + 4);
            f.append("},\n");
            proof {
                assert(f@ =~= old(f)@ + (spaces(lvl + 4) + "ty: wgpu::BindingType::Buffer {\n"@
                    + spaces(lvl + 4) + "    ty: "@ + bbt@ + ",\n"@ + spaces(lvl + 4)
                    + "    has_dynamic_offset: false,\n"@ + spaces(lvl + 4)
                    + "    min_binding_size: None,\n"@ + spaces(lvl + 4) + "},\n"@));
            }
        },
        ResourceKind::Texture { dim, class } => {
            let st = match sample_type(class) {
                Some(s) => s,
                None => {
                    return Err(CreateModuleError::UnsupportedFeature);
                },
            };
            push_spaces(f, indent + 4);
            f.append("ty: wgpu::BindingType::Texture {\n");
            push_spaces(f, indent + 4);
            f.append("    multisampled: false,\n");
            push_spaces(f, indent + 4);
            f.append("    view_dimension: ");
            f.append(view_dimension(dim));
            f.append(",\n");
            push_spaces(f, indent + 4);
            f.append("    sample_type: ");
            f.append(st);
            f.append(",\n");
            push_spaces(f, indent + 4);
            f.append("},\n");
            proof {
                assert(f@ =~= old(f)@ + (spaces(lvl + 4) + "ty: wgpu::BindingType::Texture {\n"@
                    + spaces(lvl + 4) + "    multisampled: false,\n"@ + spaces(lvl + 4)
                    + "    view_dimension: "@ + spec_view_dimension(dim) + ",\n"@ + spaces(
                    lvl + 4,
                ) + "    sample_type: "@ + st@ + ",\n"@ + spaces(lvl + 4) + "},\n"@));
            }
        },
        ResourceKind::Sampler { comparison } => {
            push_spaces(f, indent + 4);
            f.append("ty: wgpu::BindingType::Sampler(");
            f.append(sampler_type(comparison));
            f.append("),\n");
            proof {
                assert(f@ =~= old(f)@ + (spaces(lvl + 4) + "ty: wgpu::BindingType::Sampler("@
                    + spec_sampler_type(comparison) + "),\n"@));
            }
        },
        ResourceKind::Unsupported => {
            return Err(CreateModuleError::UnsupportedFeature);
        },
    }
    Ok(())
}

/// Write one layout entry.
pub fn write_bind_group_layout_entry(
    f: &mut String,
    binding: &GroupBinding,
    indent: usize,
    shader_stages: StageSet,
) -> (r: Result<(), CreateModuleError>)
    requires
        indent + 4 <= usize::MAX,
    ensures
        emit_ok(old(f)@, final(f)@, r, entry_text(binding@, shader_stages, indent as nat)),
{
    let fl = match stage_flags(shader_stages) {
        Some(s) => s,
        None => {
            return Err(CreateModuleError::UnsupportedFeature);
        },
    };
    let ghost lvl = indent as nat;
    push_spaces(f, indent);
    f.append("wgpu::BindGroupLayoutEntry {\n");
    push_spaces(f, indent);
    f.append("    binding: ");
    push_dec(f, binding.binding_index as u64);
    f.append("u32,\n");
    push_spaces(f, indent);
    f.append("    visibility: ");
    f.append(fl);
    f.append(",\n");
    let ghost head = spaces(lvl) + "wgpu::BindGroupLayoutEntry {\n"@ + spaces(lvl)
        + "    binding: "@ + dec_str(binding.binding_index as nat) + "u32,\n"@ + spaces(lvl)
        + "    visibility: "@ + fl@ + ",\n"@;
    proof {
        assert(f@ =~= old(f)@ + head);
    }
    match write_entry_ty(f, binding.kind, indent) {
        Ok(_) => {},
        Err(e) => {
            return Err(e);
        },
    }
    push_spaces(f, indent);
    f.append("    count: None,\n");
    push_spaces(f, indent);
    f.append("},\n");
    proof {
        assert(f@ =~= old(f)@ + (head + entry_ty_text(binding@.kind, lvl)->Ok_0 + spaces(lvl)
            + "    count: None,\n"@ + spaces(lvl) + "},\n"@));
    }
    Ok(())
}

/// Write the layout-descriptor value of one group.
pub fn write_bind_group_layout_descriptor(
    f: &mut String,
    indent: usize,
    group: &GroupData,
    shader_stages: StageSet,
) -> (r: Result<(), CreateModuleError>)
    requires
        indent + 12 <= usize::MAX,
    ensures
        emit_ok(old(f)@, final(f)@, r, layout_descriptor_text(group@, shader_stages, indent as nat)),
{
    let ghost bs = group.bindings.deep_view();
    let ghost lvl = indent as nat;
    push_spaces(f, indent);
    f.append("const LAYOUT_DESCRIPTOR");
    push_dec(f, group.group_index as u64);
    f.append(": wgpu::BindGroupLayoutDescriptor = wgpu::BindGroupLayoutDescriptor {\n");
    push_spaces(f, indent);
    f.append("    label: None,\n");
    push_spaces(f, indent);
    f.append("    entries: &[\n");
    let ghost head = spaces(lvl) + "const LAYOUT_DESCRIPTOR"@ + dec_str(group.group_index as nat)
        + ": wgpu::BindGroupLayoutDescriptor = wgpu::BindGroupLayoutDescriptor {\n"@ + spaces(lvl)
        + "    label: None,\n"@ + spaces(lvl) + "    entries: &[\n"@;
    let ghost mut acc: Seq<char> = head;
    proof {
        assert(bs.skip(0) =~= bs);
        assert(f@ =~= old(f)@ + acc);
    }
    let mut k: usize = 0;
    while k < group.bindings.len()
        invariant
            k <= group.bindings.len(),
            bs == group.bindings.deep_view(),
            lvl == indent as nat,
            indent + 12 <= usize::MAX,
            bs.len() == group.bindings@.len(),
            f@ == old(f)@ + acc,
            match entries_text(bs.skip(k as int), shader_stages, lvl + 8) {
                Ok(rest) => entries_text(bs, shader_stages, lvl + 8) matches Ok(all) && head + all
                    == acc + rest,
                Err(e) => entries_text(bs, shader_stages, lvl + 8) == Err::<
                    Seq<char>,
                    CreateModuleError,
                >(e),
            },
        decreases group.bindings.len() - k,
    {
        proof {
            assert(bs[k as int] == group.bindings@[k as int].deep_view());
            assert(bs.skip(k as int)[0] == bs[k as int]);
            assert(bs.skip(k as int).drop_first() =~= bs.skip(k + 1));
        }
        match write_bind_group_layout_entry(f, &group.bindings[k], indent + 8, shader_stages) {
            Ok(_) => {
                proof {
                    let ghost acc0 = acc;
                    let t = entry_text(bs[k as int], shader_stages, lvl + 8)->Ok_0;
                    assert(f@ =~= old(f)@ + (acc0 + t));
                    acc = acc0 + t;
                    match entries_text(bs.skip(k + 1), shader_stages, lvl + 8) {
                        Ok(r2) => {
                            let all = entries_text(bs, shader_stages, lvl + 8)->Ok_0;
                            assert(head + all =~= acc0 + (t + r2));
                            assert(acc0 + (t + r2) =~= acc + r2);
                        },
                        Err(_) => {},
                    }
                }
            },
            Err(e) => {
                return Err(e);
            },
        }
        k = k + 1;
    }
    push_spaces(f, indent);
    f.append("    ]\n");
    push_spaces(f, indent);
    f.append("};\n");
    proof {
        assert(bs.skip(group.bindings@.len() as int).len() == 0);
        let all = entries_text(bs, shader_stages, lvl + 8)->Ok_0;
        assert(head + all =~= acc + Seq::<char>::empty());
        assert(acc + Seq::<char>::empty() =~= acc);
        assert(f@ =~= old(f)@ + (head + all + spaces(lvl) + "    ]\n"@ + spaces(lvl) + "};\n"@));
    }
    Ok(())
}

/// The opening of one group's wrapper implementation: the layout accessor
/// and the head of the constructor.
pub open spec fn impl_head_text(gi: u32, lvl: nat) -> Seq<char> {
    spaces(lvl) + "impl BindGroup"@ + dec_str(gi as nat) + " {\n"@ + spaces(lvl)
        + "    pub fn get_bind_group_layout(device: &wgpu::Device) -> wgpu::BindGroupLayout {\n"@
        + spaces(lvl) + "        device.create_bind_group_layout(&LAYOUT_DESCRIPTOR"@ + dec_str(
        gi as nat,
    ) + ")\n"@ + spaces(lvl) + "    }\n"@ + spaces(lvl) + "\n"@ + spaces(lvl)
        + "    pub fn from_bindings(device: &wgpu::Device, bindings: BindGroupLayout"@ + dec_str(
        gi as nat,
    ) + ") -> Self {\n"@ + spaces(lvl)
        + "        let bind_group_layout = device.create_bind_group_layout(&LAYOUT_DESCRIPTOR"@
        + dec_str(gi as nat) + ");\n"@ + spaces(lvl)
        + "        let bind_group = device.create_bind_group(&wgpu::BindGroupDescriptor {\n"@
        + spaces(lvl) + "            layout: &bind_group_layout,\n"@ + spaces(lvl)
        + "            entries: &[\n"@
}

/// The closing of one group's wrapper implementation: the end of the
/// constructor and the bind operation, which records the group index.
pub open spec fn impl_foot_text(gi: u32, stages: StageSet, lvl: nat) -> Seq<char> {
    spaces(lvl + 4) + "        ],\n"@ + spaces(lvl + 4) + "        label: None,\n"@ + spaces(
        lvl + 4,
    ) + "    });\n"@ + spaces(lvl + 4) + "    Self(bind_group)\n"@ + spaces(lvl + 4) + "}\n"@
        + spaces(lvl) + "\n"@ + spaces(lvl) + "    pub fn set<'a>(&'a self, render_pass: &mut "@
        + spec_pass_type(spec_is_compute(stages)) + ") {\n"@ + spaces(lvl)
        + "        render_pass.set_bind_group("@ + dec_str(gi as nat) + "u32, &self.0, &[]);\n"@
        + spaces(lvl) + "    }\n"@ + spaces(lvl) + "}\n"@
}

/// The resource expression of one constructor entry.
pub open spec fn spec_resource_text(b: GroupBindingV) -> Result<Seq<char>, CreateModuleError> {
    match b.name {
        Some(nm) => match b.kind {
            ResourceKind::Buffer { .. } => Ok(
                "wgpu::BindingResource::Buffer(bindings."@ + nm + ")"@,
            ),
            ResourceKind::Texture { .. } => Ok(
                "wgpu::BindingResource::TextureView(bindings."@ + nm + ")"@,
            ),
            ResourceKind::Sampler { .. } => Ok(
                "wgpu::BindingResource::Sampler(bindings."@ + nm + ")"@,
            ),
            ResourceKind::Unsupported => Err(CreateModuleError::UnsupportedFeature),
        },
        None => Err(CreateModuleError::UnsupportedFeature),
    }
}

/// The text of one constructor entry.
pub open spec fn impl_entry_text(b: GroupBindingV, lvl: nat) -> Result<
    Seq<char>,
    CreateModuleError,
> {
    match spec_resource_text(b) {
        Ok(res) => Ok(
            spaces(lvl) + "wgpu::BindGroupEntry {\n"@ + spaces(lvl) + "    binding: "@ + dec_str(
                b.binding_index as nat,
            ) + "u32,\n"@ + spaces(lvl) + "    resource: "@ + res + ",\n"@ + spaces(lvl) + "},\n"@,
        ),
        Err(e) => Err(e),
    }
}

/// The constructor entries of one group, in binding order.
pub open spec fn impl_entries_text(rem: Seq<GroupBindingV>, lvl: nat) -> Result<
    Seq<char>,
    CreateModuleError,
>
    decreases rem.len(),
{
    if rem.len() == 0 {
        Ok(Seq::empty())
    } else {
        match impl_entry_text(rem[0], lvl) {
            Ok(t) => match impl_entries_text(rem.drop_first(), lvl) {
                Ok(rest) => Ok(t + rest),
                Err(e) => Err(e),
            },
            Err(e) => Err(e),
        }
    }
}

/// The whole wrapper implementation of one group: the layout accessor, the
/// constructor from a binding payload, and the bind operation.
pub open spec fn impl_text(g: GroupDataV, stages: StageSet, lvl: nat) -> Result<
    Seq<char>,
    CreateModuleError,
> {
    match impl_entries_text(g.bindings, lvl + 16) {
        Ok(es) => Ok(impl_head_text(g.group_index, lvl) + es + impl_foot_text(
            g.group_index,
            stages,
            lvl,
        )),
        Err(e) => Err(e),
    }
}

/// Write the opening of one group's wrapper implementation.
fn write_impl_head(f: &mut String, indent: usize, gi: u32)
    ensures
        final(f)@ == old(f)@ + impl_head_text(gi, indent as nat),
{
    let ghost lvl = indent as nat;
    push_spaces(f, indent);
    f.append("impl BindGroup");
    push_dec(f, gi as u64);
    f.append(" {\n");
    push_spaces(f, indent);
    f.append("    pub fn get_bind_group_layout(device: &wgpu::Device) -> wgpu::BindGroupLayout {\n");
    push_spaces(f, indent);
    f.append("        device.create_bind_group_layout(&LAYOUT_DESCRIPTOR");
    push_dec(f, gi as u64);
    f.append(")\n");
    push_spaces(f, indent);
    f.append("    }\n");
    push_spaces(f, indent);
    f.append("\n");
    push_spaces(f, indent);
    f.append("    pub fn from_bindings(device: &wgpu::Device, bindings: BindGroupLayout");
    push_dec(f, gi as u64);
    f.append(") -> Self {\n");
    push_spaces(f, indent);
    f.append("        let bind_group_layout = device.create_bind_group_layout(&LAYOUT_DESCRIPTOR");
    push_dec(f, gi as u64);
    f.append(");\n");
    push_spaces(f, indent);
    f.append("        let bind_group = device.create_bind_group(&wgpu::BindGroupDescriptor {\n");
    push_spaces(f, indent);
    f.append("            layout: &bind_group_layout,\n");
    push_spaces(f, indent);
    f.append("            entries: &[\n");
    proof {
        assert(f@ =~= old(f)@ + impl_head_text(gi, lvl));
    }
}

/// Write the closing of one group's wrapper implementation.
#[verifier::rlimit(60)]
fn write_impl_foot(f: &mut String, indent: usize, gi: u32, shader_stages: StageSet)
    requires
        indent + 4 <= usize::MAX,
    ensures
        final(f)@ == old(f)@ + impl_foot_text(gi, shader_stages, indent as nat),
{
    let ghost lvl = indent as nat;
    push_spaces(f, indent + 4);
    f.append("        ],\n");
    push_spaces(f, indent + 4);
    f.append("        label: None,\n");
    push_spaces(f, indent + 4);
    f.append("    });\n");
    push_spaces(f, indent + 4);
    f.append("    Self(bind_group)\n");
    push_spaces(f, indent + 4);
    f.append("}\n");
    push_spaces(f, indent);
    f.append("\n");
    push_spaces(f, indent);
    f.append("    pub fn set<'a>(&'a self, render_pass: &mut ");
    f.append(pass_type(is_compute(shader_stages)));
    f.append(") {\n");
    push_spaces(f, indent);
    f.append("        render_pass.set_bind_group(");
    push_dec(f, gi as u64);
    f.append("u32, &self.0, &[]);\n");
    push_spaces(f, indent);
    f.append("    }\n");
    push_spaces(f, indent);
    f.append("}\n");
    proof {
        assert(f@ =~= old(f)@ + impl_foot_text(gi, shader_stages, lvl));
    }
}

/// Write one constructor entry.
fn write_impl_entry(f: &mut String, indent: usize, b: &GroupBinding) -> (r: Result<
    (),
    CreateModuleError,
>)
    ensures
        emit_ok(old(f)@, final(f)@, r, impl_entry_text(b@, indent as nat)),
{
    let ghost lvl = indent as nat;
    let nm = match &b.name {
        Some(n) => n,
        None => {
            return Err(CreateModuleError::UnsupportedFeature);
        },
    };
    let res_head: &str = match b.kind {
        ResourceKind::Buffer { .. } => "wgpu::BindingResource::Buffer(bindings.",
        ResourceKind::Texture { .. } => "wgpu::BindingResource::TextureView(bindings.",
        ResourceKind::Sampler { .. } => "wgpu::BindingResource::Sampler(bindings.",
        ResourceKind::Unsupported => {
            return Err(CreateModuleError::UnsupportedFeature);
        },
    };
    proof {
        assert(spec_resource_text(b@) == Ok::<Seq<char>, CreateModuleError>(
            res_head@ + nm@ + ")"@,
        ));
    }
    push_spaces(f, indent);
    f.append("wgpu::BindGroupEntry {\n");
    push_spaces(f, indent);
    f.append("    binding: ");
    push_dec(f, b.binding_index as u64);
    f.append("u32,\n");
    push_spaces(f, indent);
    f.append("    resource: ");
    f.append(res_head);
    f.append(nm.as_str());
    f.append(")");
    f.append(",\n");
    push_spaces(f, indent);
    f.append("},\n");
    proof {
        assert(f@ =~= old(f)@ + (spaces(lvl) + "wgpu::BindGroupEntry {\n"@ + spaces(lvl)
            + "    binding: "@ + dec_str(b.binding_index as nat) + "u32,\n"@ + spaces(lvl)
            + "    resource: "@ + (res_head@ + nm@ + ")"@) + ",\n"@ + spaces(lvl) + "},\n"@));
    }
    Ok(())
}

/// Write the whole wrapper implementation of one group.
pub fn impl_bind_group(
    f: &mut String,
    indent: usize,
    group: &GroupData,
    shader_stages: StageSet,
) -> (r: Result<(), CreateModuleError>)
    requires
        indent + 16 <= usize::MAX,
    ensures
        emit_ok(old(f)@, final(f)@, r, impl_text(group@, shader_stages, indent as nat)),
{
    let ghost bs = group.bindings.deep_view();
    let ghost lvl = indent as nat;
    write_impl_head(f, indent, group.group_index);
    let ghost head = impl_head_text(group@.group_index, lvl);
    let ghost mut acc: Seq<char> = head;
    proof {
        assert(bs.skip(0) =~= bs);
        assert(f@ =~= old(f)@ + acc);
    }
    let mut k: usize = 0;
    while k < group.bindings.len()
        invariant
            k <= group.bindings.len(),
            bs == group.bindings.deep_view(),
            lvl == indent as nat,
            indent + 16 <= usize::MAX,
            bs.len() == group.bindings@.len(),
            f@ == old(f)@ + acc,
            match impl_entries_text(bs.skip(k as int), lvl + 16) {
                Ok(rest) => impl_entries_text(bs, lvl + 16) matches Ok(all) && head + all == acc
                    + rest,
                Err(e) => impl_entries_text(bs, lvl + 16) == Err::<Seq<char>, CreateModuleError>(e),
            },
        decreases group.bindings.len() - k,
    {
        proof {
            assert(bs[k as int] == group.bindings@[k as int].deep_view());
            assert(bs.skip(k as int)[0] == bs[k as int]);
            assert(bs.skip(k as int).drop_first() =~= bs.skip(k + 1));
        }
        match write_impl_entry(f, indent + 16, &group.bindings[k]) {
            Ok(_) => {
                proof {
                    let ghost acc0 = acc;
                    let t = impl_entry_text(bs[k as int], lvl + 16)->Ok_0;
                    assert(f@ =~= old(f)@ + (acc0 + t));
                    acc = acc0 + t;
                    match impl_entries_text(bs.skip(k + 1), lvl + 16) {
                        Ok(r2) => {
                            let all = impl_entries_text(bs, lvl + 16)->Ok_0;
                            assert(head + all =~= acc0 + (t + r2));
                            assert(acc0 + (t + r2) =~= acc + r2);
                        },
                        Err(_) => {},
                    }
                }
            },
            Err(e) => {
                return Err(e);
            },
        }
        k = k + 1;
    }
    write_impl_foot(f, indent, group.group_index, shader_stages);
    proof {
        assert(bs.skip(group.bindings@.len() as int).len() == 0);
        let all = impl_entries_text(bs, lvl + 16)->Ok_0;
        assert(head + all =~= acc + Seq::<char>::empty());
        assert(acc + Seq::<char>::empty() =~= acc);
        assert(f@ =~= old(f)@ + (head + all + impl_foot_text(group@.group_index, shader_stages, lvl)));
    }
    Ok(())
}

/// The attach lines of the bulk-bind helper, one per group in ascending
/// group order.
pub open spec fn set_lines_text(gs: Seq<GroupDataV>, lvl: nat) -> Seq<char>
    decreases gs.len(),
{
    if gs.len() == 0 {
        Seq::empty()
    } else {
        set_lines_text(gs.drop_last(), lvl) + (spaces(lvl + 4) + "bind_groups.bind_group"@
            + dec_str(gs.last().group_index as nat) + ".set(pass);\n"@)
    }
}

/// The bulk-bind helper: takes every group's wrapper and attaches each to
/// the pass, in ascending group order.
pub open spec fn set_bind_groups_text(gs: Seq<GroupDataV>, lvl: nat, compute: bool) -> Seq<char> {
    spaces(lvl) + "pub fn set_bind_groups<'a>(\n"@ + spaces(lvl) + "    pass: &mut "@
        + spec_pass_type(compute) + ",\n"@ + spaces(lvl) + "    bind_groups: BindGroups<'a>,\n"@
        + spaces(lvl) + ") {\n"@ + set_lines_text(gs, lvl) + spaces(lvl) + "}\n"@
}

/// Write the bulk-bind helper.
pub fn write_set_bind_groups(
    f: &mut String,
    indent: usize,
    bind_group_data: &Vec<GroupData>,
    compute: bool,
)
    requires
        indent + 4 <= usize::MAX,
    ensures
        final(f)@ == old(f)@ + set_bind_groups_text(
            bind_group_data.deep_view(),
            indent as nat,
            compute,
        ),
{
    let ghost gs = bind_group_data.deep_view();
    let ghost lvl = indent as nat;
    push_spaces(f, indent);
    f.append("pub fn set_bind_groups<'a>(\n");
    push_spaces(f, indent);
    f.append("    pass: &mut ");
    f.append(pass_type(compute));
    f.append(",\n");
    push_spaces(f, indent);
    f.append("    bind_groups: BindGroups<'a>,\n");
    push_spaces(f, indent);
    f.append(") {\n");
    let ghost head = spaces(lvl) + "pub fn set_bind_groups<'a>(\n"@ + spaces(lvl)
        + "    pass: &mut "@ + spec_pass_type(compute) + ",\n"@ + spaces(lvl)
        + "    bind_groups: BindGroups<'a>,\n"@ + spaces(lvl) + ") {\n"@;
    proof {
        assert(f@ =~= old(f)@ + head);
        assert(set_lines_text(gs.take(0), lvl) =~= Seq::<char>::empty());
        assert(f@ =~= old(f)@ + head + set_lines_text(gs.take(0), lvl));
    }
    let mut k: usize = 0;
    while k < bind_group_data.len()
        invariant
            k <= bind_group_data.len(),
            gs == bind_group_data.deep_view(),
            lvl == indent as nat,
            indent + 4 <= usize::MAX,
            gs.len() == bind_group_data@.len(),
            f@ == old(f)@ + head + set_lines_text(gs.take(k as int), lvl),
        decreases bind_group_data.len() - k,
    {
        proof {
            assert(gs[k as int] == bind_group_data@[k as int].deep_view());
            assert(gs.take((k + 1) as int).drop_last() =~= gs.take(k as int));
            assert(gs.take((k + 1) as int).last() == gs[k as int]);
        }
        push_spaces(f, indent + 4);
        f.append("bind_groups.bind_group");
        push_dec(f, bind_group_data[k].group_index as u64);
        f.append(".set(pass);\n");
        proof {
            assert(f@ =~= old(f)@ + head + set_lines_text(gs.take((k + 1) as int), lvl));
        }
        k = k + 1;
    }
    push_spaces(f, indent);
    f.append("}\n");
    proof {
        assert(gs.take(bind_group_data@.len() as int) =~= gs);
        assert(f@ =~= old(f)@ + set_bind_groups_text(gs, lvl, compute));
    }
}

/// The block one group contributes to the bind groups module: its wrapper
/// struct, its payload struct, its layout descriptor and its
/// implementation.
pub open spec fn group_block_text(g: GroupDataV, stages: StageSet) -> Result<
    Seq<char>,
    CreateModuleError,
> {
    match layout_text(g, 4) {
        Ok(l) => match layout_descriptor_text(g, stages, 4) {
            Ok(d) => match impl_text(g, stages, 4) {
                Ok(im) => Ok(
                    "    pub struct BindGroup"@ + dec_str(g.group_index as nat)
                        + "(wgpu::BindGroup);\n"@ + l + d + im,
                ),
                Err(e) => Err(e),
            },
            Err(e) => Err(e),
        },
        Err(e) => Err(e),
    }
}

/// The per-group blocks of the bind groups module, in ascending group
/// order.
pub open spec fn group_blocks_text(rem: Seq<GroupDataV>, stages: StageSet) -> Result<
    Seq<char>,
    CreateModuleError,
>
    decreases rem.len(),
{
    if rem.len() == 0 {
        Ok(Seq::empty())
    } else {
        match group_block_text(rem[0], stages) {
            Ok(t) => match group_blocks_text(rem.drop_first(), stages) {
                Ok(rest) => Ok(t + rest),
                Err(e) => Err(e),
            },
            Err(e) => Err(e),
        }
    }
}

/// The fields of the aggregate that carries one reference per group.
pub open spec fn bind_groups_fields_text(gs: Seq<GroupDataV>) -> Seq<char>
    decreases gs.len(),
{
    if gs.len() == 0 {
        Seq::empty()
    } else {
        bind_groups_fields_text(gs.drop_last()) + ("        pub bind_group"@ + dec_str(
            gs.last().group_index as nat,
        ) + ": &'a BindGroup"@ + dec_str(gs.last().group_index as nat) + ",\n"@)
    }
}

/// The whole bind groups module: per-group blocks, the aggregate struct
/// and the bulk-bind helper.
pub open spec fn bind_groups_module_text(gs: Seq<GroupDataV>, stages: StageSet) -> Result<
    Seq<char>,
    CreateModuleError,
> {
    match group_blocks_text(gs, stages) {
        Ok(blocks) => Ok(
            "pub mod bind_groups {\n"@ + blocks + "    pub struct BindGroups<'a> {\n"@
                + bind_groups_fields_text(gs) + "    }\n"@ + set_bind_groups_text(
                gs,
                4,
                spec_is_compute(stages),
            ) + "}\n"@,
        ),
        Err(e) => Err(e),
    }
}

/// Write one group's block of the bind groups module.
fn write_group_block(f: &mut String, group: &GroupData, shader_stages: StageSet) -> (r: Result<
    (),
    CreateModuleError,
>)
    ensures
        emit_ok(old(f)@, final(f)@, r, group_block_text(group@, shader_stages)),
{
    f.append("    pub struct BindGroup");
    push_dec(f, group.group_index as u64);
    f.append("(wgpu::BindGroup);\n");
    match write_bind_group_layout(f, 4, group) {
        Ok(_) => {},
        Err(e) => {
            return Err(e);
        },
    }
    match write_bind_group_layout_descriptor(f, 4, group, shader_stages) {
        Ok(_) => {},
        Err(e) => {
            return Err(e);
        },
    }
    match impl_bind_group(f, 4, group, shader_stages) {
        Ok(_) => {},
        Err(e) => {
            return Err(e);
        },
    }
    proof {
        assert(f@ =~= old(f)@ + ("    pub struct BindGroup"@ + dec_str(group@.group_index as nat)
            + "(wgpu::BindGroup);\n"@ + layout_text(group@, 4)->Ok_0 + layout_descriptor_text(
            group@,
            shader_stages,
            4,
        )->Ok_0 + impl_text(group@, shader_stages, 4)->Ok_0));
    }
    Ok(())
}

/// Write the per-group blocks of the bind groups module.
#[verifier::rlimit(100)]
fn write_group_blocks(
    f: &mut String,
    bind_group_data: &Vec<GroupData>,
    shader_stages: StageSet,
) -> (r: Result<(), CreateModuleError>)
    ensures
        emit_ok(
            old(f)@,
            final(f)@,
            r,
            group_blocks_text(bind_group_data.deep_view(), shader_stages),
        ),
{
    let ghost gs = bind_group_data.deep_view();
    let ghost mut acc: Seq<char> = Seq::empty();
    proof {
        assert(gs.skip(0) =~= gs);
        assert(f@ =~= old(f)@ + acc);
        match group_blocks_text(gs, shader_stages) {
            Ok(rest) => {
                assert(acc + rest =~= rest);
            },
            Err(_) => {},
        }
    }
    let mut k: usize = 0;
    while k < bind_group_data.len()
        invariant
            k <= bind_group_data.len(),
            gs == bind_group_data.deep_view(),
            gs.len() == bind_group_data@.len(),
            f@ == old(f)@ + acc,
            match group_blocks_text(gs.skip(k as int), shader_stages) {
                Ok(rest) => group_blocks_text(gs, shader_stages) == Ok::<
                    Seq<char>,
                    CreateModuleError,
                >(acc + rest),
                Err(e) => group_blocks_text(gs, shader_stages) == Err::<
                    Seq<char>,
                    CreateModuleError,
                >(e),
            },
        decreases bind_group_data.len() - k,
    {
        proof {
            assert(gs[k as int] == bind_group_data@[k as int].deep_view());
            assert(gs.skip(k as int)[0] == gs[k as int]);
            assert(gs.skip(k as int).drop_first() =~= gs.skip(k + 1));
        }
        match write_group_block(f, &bind_group_data[k], shader_stages) {
            Ok(_) => {
                proof {
                    let ghost acc0 = acc;
                    let t = group_block_text(gs[k as int], shader_stages)->Ok_0;
                    assert(f@ =~= old(f)@ + (acc0 + t));
                    acc = acc0 + t;
                    match group_blocks_text(gs.skip(k + 1), shader_stages) {
                        Ok(r2) => {
                            assert(acc0 + (t + r2) =~= acc + r2);
                        },
                        Err(_) => {},
                    }
                }
            },
            Err(e) => {
                return Err(e);
            },
        }
        k = k + 1;
    }
    proof {
        assert(gs.skip(bind_group_data@.len() as int).len() == 0);
        match group_blocks_text(gs, shader_stages) {
            Ok(rest) => {
                assert(acc + Seq::<char>::empty() =~= acc);
            },
            Err(_) => {},
        }
    }
    Ok(())
}

/// Write the aggregate struct that carries one reference per group.
fn write_bind_groups_struct(f: &mut String, bind_group_data: &Vec<GroupData>)
    ensures
        final(f)@ == old(f)@ + ("    pub struct BindGroups<'a> {\n"@ + bind_groups_fields_text(
            bind_group_data.deep_view(),
        ) + "    }\n"@),
{
    let ghost gs = bind_group_data.deep_view();
    f.append("    pub struct BindGroups<'a> {\n");
    let ghost head = "    pub struct BindGroups<'a> {\n"@;
    proof {
        assert(f@ =~= old(f)@ + head);
        assert(bind_groups_fields_text(gs.take(0)) =~= Seq::<char>::empty());
        assert(f@ =~= old(f)@ + head + bind_groups_fields_text(gs.take(0)));
    }
    let mut k: usize = 0;
    while k < bind_group_data.len()
        invariant
            k <= bind_group_data.len(),
            gs == bind_group_data.deep_view(),
            gs.len() == bind_group_data@.len(),
            f@ == old(f)@ + head + bind_groups_fields_text(gs.take(k as int)),
        decreases bind_group_data.len() - k,
    {
        proof {
            assert(gs[k as int] == bind_group_data@[k as int].deep_view());
            assert(gs.take((k + 1) as int).drop_last() =~= gs.take(k as int));
            assert(gs.take((k + 1) as int).last() == gs[k as int]);
        }
        f.append("        pub bind_group");
        push_dec(f, bind_group_data[k].group_index as u64);
        f.append(": &'a BindGroup");
        push_dec(f, bind_group_data[k].group_index as u64);
        f.append(",\n");
        proof {
            assert(f@ =~= old(f)@ + head + bind_groups_fields_text(gs.take((k + 1) as int)));
        }
        k = k + 1;
    }
    f.append("    }\n");
    proof {
        assert(gs.take(bind_group_data@.len() as int) =~= gs);
        assert(f@ =~= old(f)@ + (head + bind_groups_fields_text(gs) + "    }\n"@));
    }
}

/// Write the whole bind groups module.
#[verifier::rlimit(100)]
pub fn write_bind_groups_module(
    f: &mut String,
    bind_group_data: &Vec<GroupData>,
    shader_stages: StageSet,
) -> (r: Result<(), CreateModuleError>)
    ensures
        emit_ok(
            old(f)@,
            final(f)@,
            r,
            bind_groups_module_text(bind_group_data.deep_view(), shader_stages),
        ),
{
    let ghost gs = bind_group_data.deep_view();
    f.append("pub mod bind_groups {\n");
    match write_group_blocks(f, bind_group_data, shader_stages) {
        Ok(_) => {},
        Err(e) => {
            return Err(e);
        },
    }
    write_bind_groups_struct(f, bind_group_data);
    let compute = is_compute(shader_stages);
    write_set_bind_groups(f, 4, bind_group_data, compute);
    f.append("}\n");
    proof {
        assert(f@ =~= old(f)@ + bind_groups_module_text(gs, shader_stages)->Ok_0);
    }
    Ok(())
}

/// The text of one vertex attribute: its location and its format name.
pub open spec fn attr_item_text(field: VertexField, ts: Seq<TypeDeclV>) -> Result<
    Seq<char>,
    CreateModuleError,
> {
    match spec_vertex_format(ts, field.ty as int) {
        Some(vf) => Ok(dec_str(field.location as nat) + " => "@ + spec_format_name(vf)),
        None => Err(CreateModuleError::UnsupportedFeature),
    }
}

/// The attributes after the first one, each preceded by the separator.
pub open spec fn attrs_rest_text(rem: Seq<VertexField>, ts: Seq<TypeDeclV>) -> Result<
    Seq<char>,
    CreateModuleError,
>
    decreases rem.len(),
{
    if rem.len() == 0 {
        Ok(Seq::empty())
    } else {
        match attr_item_text(rem[0], ts) {
            Ok(t) => match attrs_rest_text(rem.drop_first(), ts) {
                Ok(rest) => Ok(", "@ + t + rest),
                Err(e) => Err(e),
            },
            Err(e) => Err(e),
        }
    }
}

/// The whole attribute list of one vertex input struct, in member order.
pub open spec fn attrs_text(fields: Seq<VertexField>, ts: Seq<TypeDeclV>) -> Result<
    Seq<char>,
    CreateModuleError,
> {
    if fields.len() == 0 {
        Ok(Seq::empty())
    } else {
        match attr_item_text(fields[0], ts) {
            Ok(h) => match attrs_rest_text(fields.drop_first(), ts) {
                Ok(rest) => Ok(h + rest),
                Err(e) => Err(e),
            },
            Err(e) => Err(e),
        }
    }
}

/// The unpadded sum of the fields' vertex format byte sizes; a field
/// without a format counts as nothing, and is rejected by the attribute
/// list instead.
pub open spec fn sizes_sum(fields: Seq<VertexField>, ts: Seq<TypeDeclV>) -> nat
    decreases fields.len(),
{
    if fields.len() == 0 {
        0
    } else {
        sizes_sum(fields.drop_last(), ts) + match spec_vertex_format(ts, fields.last().ty as int) {
            Some(vf) => spec_format_size(vf),
            None => 0,
        }
    }
}

/// A prefix never sums to more than the whole list.
proof fn lemma_sizes_sum_prefix(fields: Seq<VertexField>, ts: Seq<TypeDeclV>, k: int)
    requires
        0 <= k <= fields.len(),
    ensures
        sizes_sum(fields.take(k), ts) <= sizes_sum(fields, ts),
    decreases fields.len(),
{
    if k == fields.len() {
        assert(fields.take(k) =~= fields);
    } else {
        assert(fields.drop_last().take(k) =~= fields.take(k));
        lemma_sizes_sum_prefix(fields.drop_last(), ts, k);
    }
}

/// The attribute table and total size of one vertex input struct.
pub open spec fn vertex_input_text(vi: VertexInputV, ts: Seq<TypeDeclV>) -> Result<
    Seq<char>,
    CreateModuleError,
> {
    match attrs_text(vi.fields, ts) {
        Ok(attrs) => {
            if sizes_sum(vi.fields, ts) > u64::MAX {
                Err(CreateModuleError::UnsupportedFeature)
            } else {
                Ok(
                    spaces(4) + "impl super::"@ + vi.name + " {\n"@ + spaces(4)
                        + "    pub const VERTEX_ATTRIBUTES: [wgpu::VertexAttribute; "@ + dec_str(
                        vi.fields.len(),
                    ) + "] = wgpu::vertex_attr_array!["@ + attrs + "];\n"@ + spaces(4)
                        + "    /// The total size in bytes of all fields without considering padding or alignment.\n"@
                        + spaces(4) + "    pub const SIZE_IN_BYTES: u64 = "@ + dec_str(
                        sizes_sum(vi.fields, ts),
                    ) + ";\n"@ + spaces(4) + "}\n"@,
                )
            }
        },
        Err(e) => Err(e),
    }
}

/// The blocks of all vertex input structs, in order.
pub open spec fn vertex_inputs_text(rem: Seq<VertexInputV>, ts: Seq<TypeDeclV>) -> Result<
    Seq<char>,
    CreateModuleError,
>
    decreases rem.len(),
{
    if rem.len() == 0 {
        Ok(Seq::empty())
    } else {
        match vertex_input_text(rem[0], ts) {
            Ok(t) => match vertex_inputs_text(rem.drop_first(), ts) {
                Ok(rest) => Ok(t + rest),
                Err(e) => Err(e),
            },
            Err(e) => Err(e),
        }
    }
}

/// The vertex module: one attribute table and size per vertex input
/// struct.
pub open spec fn vertex_module_text(inputs: Seq<VertexInputV>, ts: Seq<TypeDeclV>) -> Result<
    Seq<char>,
    CreateModuleError,
> {
    match vertex_inputs_text(inputs, ts) {
        Ok(inner) => Ok("pub mod vertex {\n"@ + inner + "}\n"@),
        Err(e) => Err(e),
    }
}

/// Write one vertex attribute.
fn write_attr(f: &mut String, field: VertexField, types: &Vec<TypeDecl>) -> (r: Result<
    (),
    CreateModuleError,
>)
    ensures
        emit_ok(old(f)@, final(f)@, r, attr_item_text(field, types.deep_view())),
{
    let vf = match vertex_format(types, field.ty) {
        Some(v) => v,
        None => {
            return Err(CreateModuleError::UnsupportedFeature);
        },
    };
    push_dec(f, field.location as u64);
    f.append(" => ");
    f.append(format_name(vf));
    proof {
        assert(f@ =~= old(f)@ + (dec_str(field.location as nat) + " => "@ + spec_format_name(vf)));
    }
    Ok(())
}

/// Write the whole attribute list of one vertex input struct.
fn write_attrs(f: &mut String, fields: &Vec<VertexField>, types: &Vec<TypeDecl>) -> (r: Result<
    (),
    CreateModuleError,
>)
    ensures
        emit_ok(old(f)@, final(f)@, r, attrs_text(fields.deep_view(), types.deep_view())),
{
    let ghost fs = fields.deep_view();
    let ghost ts = types.deep_view();
    if fields.len() == 0 {
        proof {
            assert(f@ =~= old(f)@ + Seq::<char>::empty());
        }
        return Ok(());
    }
    proof {
        assert(fs[0] == fields@[0].deep_view());
    }
    match write_attr(f, fields[0], types) {
        Ok(_) => {},
        Err(e) => {
            return Err(e);
        },
    }
    let ghost head = attr_item_text(fs[0], ts)->Ok_0;
    let ghost mut acc: Seq<char> = head;
    proof {
        assert(fs.drop_first() =~= fs.skip(1));
        assert(f@ =~= old(f)@ + acc);
        match attrs_rest_text(fs.skip(1), ts) {
            Ok(rest) => {
                assert(head + rest =~= acc + rest);
            },
            Err(_) => {},
        }
    }
    let mut k: usize = 1;
    while k < fields.len()
        invariant
            1 <= k <= fields.len(),
            fs == fields.deep_view(),
            ts == types.deep_view(),
            fs.len() == fields@.len(),
            attr_item_text(fs[0], ts) is Ok,
            head == attr_item_text(fs[0], ts)->Ok_0,
            f@ == old(f)@ + acc,
            match attrs_rest_text(fs.skip(k as int), ts) {
                Ok(rest) => attrs_rest_text(fs.skip(1), ts) matches Ok(all) && head + all == acc
                    + rest,
                Err(e) => attrs_rest_text(fs.skip(1), ts) == Err::<Seq<char>, CreateModuleError>(e),
            },
        decreases fields.len() - k,
    {
        proof {
            assert(fs[k as int] == fields@[k as int].deep_view());
            assert(fs.skip(k as int)[0] == fs[k as int]);
            assert(fs.skip(k as int).drop_first() =~= fs.skip(k + 1));
        }
        f.append(", ");
        match write_attr(f, fields[k], types) {
            Ok(_) => {
                proof {
                    let ghost acc0 = acc;
                    let t = attr_item_text(fs[k as int], ts)->Ok_0;
                    assert(f@ =~= old(f)@ + (acc0 + (", "@ + t)));
                    acc = acc0 + (", "@ + t);
                    match attrs_rest_text(fs.skip(k + 1), ts) {
                        Ok(r2) => {
                            let all = attrs_rest_text(fs.skip(1), ts)->Ok_0;
                            assert(head + all =~= acc0 + ((", "@ + t) + r2));
                            assert(acc0 + ((", "@ + t) + r2) =~= acc + r2);
                        },
                        Err(_) => {},
                    }
                }
            },
            Err(e) => {
                return Err(e);
            },
        }
        k = k + 1;
    }
    proof {
        assert(fs.skip(fields@.len() as int).len() == 0);
        let all = attrs_rest_text(fs.skip(1), ts)->Ok_0;
        assert(head + all =~= acc + Seq::<char>::empty());
        assert(acc + Seq::<char>::empty() =~= acc);
    }
    Ok(())
}

/// Sum the fields' vertex format byte sizes, or report that the sum does
/// not fit the size constant's type.
fn sum_vertex_sizes(fields: &Vec<VertexField>, types: &Vec<TypeDecl>) -> (r: Option<u64>)
    ensures
        match r {
            Some(s) => s == sizes_sum(fields.deep_view(), types.deep_view()),
            None => sizes_sum(fields.deep_view(), types.deep_view()) > u64::MAX,
        },
{
    let ghost fs = fields.deep_view();
    let ghost ts = types.deep_view();
    let mut total: u64 = 0;
    proof {
        assert(sizes_sum(fs.take(0), ts) == 0) by {
            assert(fs.take(0).len() == 0);
        }
    }
    let mut k: usize = 0;
    while k < fields.len()
        invariant
            k <= fields.len(),
            fs == fields.deep_view(),
            ts == types.deep_view(),
            fs.len() == fields@.len(),
            total == sizes_sum(fs.take(k as int), ts),
        decreases fields.len() - k,
    {
        proof {
            assert(fs[k as int] == fields@[k as int].deep_view());
            assert(fs.take((k + 1) as int).drop_last() =~= fs.take(k as int));
            assert(fs.take((k + 1) as int).last() == fs[k as int]);
        }
        let sz: u64 = match vertex_format(types, fields[k].ty) {
            Some(v) => format_size(v),
            None => 0,
        };
        if sz > u64::MAX - total {
            proof {
                lemma_sizes_sum_prefix(fs, ts, k + 1);
            }
            return None;
        }
        total = total + sz;
        k = k + 1;
    }
    proof {
        assert(fs.take(fields@.len() as int) =~= fs);
    }
    Some(total)
}

/// Write the attribute table and total size of one vertex input struct.
fn write_vertex_input(f: &mut String, vi: &VertexInput, types: &Vec<TypeDecl>) -> (r: Result<
    (),
    CreateModuleError,
>)
    ensures
        emit_ok(old(f)@, final(f)@, r, vertex_input_text(vi@, types.deep_view())),
{
    let ghost ts = types.deep_view();
    push_spaces(f, 4);
    f.append("impl super::");
    f.append(vi.name.as_str());
    f.append(" {\n");
    push_spaces(f, 4);
    f.append("    pub const VERTEX_ATTRIBUTES: [wgpu::VertexAttribute; ");
    push_dec(f, vi.fields.len() as u64);
    f.append("] = wgpu::vertex_attr_array![");
    let ghost head = spaces(4) + "impl super::"@ + vi.name@ + " {\n"@ + spaces(4)
        + "    pub const VERTEX_ATTRIBUTES: [wgpu::VertexAttribute; "@ + dec_str(
        vi@.fields.len(),
    ) + "] = wgpu::vertex_attr_array!["@;
    proof {
        assert(f@ =~= old(f)@ + head);
    }
    match write_attrs(f, &vi.fields, types) {
        Ok(_) => {},
        Err(e) => {
            return Err(e);
        },
    }
    let size = match sum_vertex_sizes(&vi.fields, types) {
        Some(s) => s,
        None => {
            return Err(CreateModuleError::UnsupportedFeature);
        },
    };
    f.append("];\n");
    push_spaces(f, 4);
    f.append(
        "    /// The total size in bytes of all fields without considering padding or alignment.\n",
    );
    push_spaces(f, 4);
    f.append("    pub const SIZE_IN_BYTES: u64 = ");
    push_dec(f, size);
    f.append(";\n");
    push_spaces(f, 4);
    f.append("}\n");
    proof {
        let attrs = attrs_text(vi@.fields, ts)->Ok_0;
        assert(f@ =~= old(f)@ + (head + attrs + "];\n"@ + spaces(4)
            + "    /// The total size in bytes of all fields without considering padding or alignment.\n"@
            + spaces(4) + "    pub const SIZE_IN_BYTES: u64 = "@ + dec_str(
            sizes_sum(vi@.fields, ts),
        ) + ";\n"@ + spaces(4) + "}\n"@));
    }
    Ok(())
}

/// Write the attribute tables for all vertex input structs.
pub fn write_vertex_input_structs(f: &mut String, info: &ShaderInfo) -> (r: Result<
    (),
    CreateModuleError,
>)
    ensures
        emit_ok(
            old(f)@,
            final(f)@,
            r,
            vertex_inputs_text(info.vertex_inputs.deep_view(), info.types.deep_view()),
        ),
{
    let ghost vs = info.vertex_inputs.deep_view();
    let ghost ts = info.types.deep_view();
    let ghost mut acc: Seq<char> = Seq::empty();
    proof {
        assert(vs.skip(0) =~= vs);
        assert(f@ =~= old(f)@ + acc);
        match vertex_inputs_text(vs, ts) {
            Ok(rest) => {
                assert(acc + rest =~= rest);
            },
            Err(_) => {},
        }
    }
    let mut k: usize = 0;
    while k < info.vertex_inputs.len()
        invariant
            k <= info.vertex_inputs.len(),
            vs == info.vertex_inputs.deep_view(),
            ts == info.types.deep_view(),
            vs.len() == info.vertex_inputs@.len(),
            f@ == old(f)@ + acc,
            match vertex_inputs_text(vs.skip(k as int), ts) {
                Ok(rest) => vertex_inputs_text(vs, ts) == Ok::<Seq<char>, CreateModuleError>(
                    acc + rest,
                ),
                Err(e) => vertex_inputs_text(vs, ts) == Err::<Seq<char>, CreateModuleError>(e),
            },
        decreases info.vertex_inputs.len() - k,
    {
        proof {
            assert(vs[k as int] == info.vertex_inputs@[k as int].deep_view());
            assert(vs.skip(k as int)[0] == vs[k as int]);
            assert(vs.skip(k as int).drop_first() =~= vs.skip(k + 1));
        }
        match write_vertex_input(f, &info.vertex_inputs[k], &info.types) {
            Ok(_) => {
                proof {
                    let ghost acc0 = acc;
                    let t = vertex_input_text(vs[k as int], ts)->Ok_0;
                    assert(f@ =~= old(f)@ + (acc0 + t));
                    acc = acc0 + t;
                    match vertex_inputs_text(vs.skip(k + 1), ts) {
                        Ok(r2) => {
                            assert(acc0 + (t + r2) =~= acc + r2);
                        },
                        Err(_) => {},
                    }
                }
            },
            Err(e) => {
                return Err(e);
            },
        }
        k = k + 1;
    }
    proof {
        assert(vs.skip(info.vertex_inputs@.len() as int).len() == 0);
        match vertex_inputs_text(vs, ts) {
            Ok(rest) => {
                assert(acc + Seq::<char>::empty() =~= acc);
            },
            Err(_) => {},
        }
    }
    Ok(())
}

/// Write the vertex module.
pub fn write_vertex_module(f: &mut String, info: &ShaderInfo) -> (r: Result<
    (),
    CreateModuleError,
>)
    ensures
        emit_ok(
            old(f)@,
            final(f)@,
            r,
            vertex_module_text(info.vertex_inputs.deep_view(), info.types.deep_view()),
        ),
{
    f.append("pub mod vertex {\n");
    match write_vertex_input_structs(f, info) {
        Ok(_) => {},
        Err(e) => {
            return Err(e);
        },
    }
    f.append("}\n");
    proof {
        let inner = vertex_inputs_text(
            info.vertex_inputs.deep_view(),
            info.types.deep_view(),
        )->Ok_0;
        assert(f@ =~= old(f)@ + ("pub mod vertex {\n"@ + inner + "}\n"@));
    }
    Ok(())
}

/// The shader-module factory: loads the shader source referenced by the
/// given path.
pub open spec fn shader_factory_text(path: Seq<char>) -> Seq<char> {
    "pub fn create_shader_module(device: &wgpu::Device) -> wgpu::ShaderModule {\n"@
        + "    device.create_shader_module(&wgpu::ShaderModuleDescriptor {\n"@
        + "        label: None,\n"@
        + "        source: wgpu::ShaderSource::Wgsl(std::borrow::Cow::Borrowed(inclu"@
        + "de_str!(\""@ + path + "\")))\n"@ + "    })\n"@ + "}\n"@
}

/// Write the shader-module factory.
fn write_shader_factory(f: &mut String, wgsl_path: &str)
    ensures
        final(f)@ == old(f)@ + shader_factory_text(wgsl_path@),
{
    f.append("pub fn create_shader_module(device: &wgpu::Device) -> wgpu::ShaderModule {\n");
    f.append("    device.create_shader_module(&wgpu::ShaderModuleDescriptor {\n");
    f.append("        label: None,\n");
    f.append("        source: wgpu::ShaderSource::Wgsl(std::borrow::Cow::Borrowed(inclu");
    f.append("de_str!(\"");
    f.append(wgsl_path);
    f.append("\")))\n");
    f.append("    })\n");
    f.append("}\n");
    proof {
        assert(f@ =~= old(f)@ + shader_factory_text(wgsl_path@));
    }
}

/// One line of the pipeline-layout list: the layout accessor of one group.
pub open spec fn pl_line_text(g: GroupDataV) -> Seq<char> {
    "&bind_groups::BindGroup"@ + dec_str(g.group_index as nat)
        + "::get_bind_group_layout(device),"@
}

/// The pipeline-layout lines, joined with a line break and the list's
/// indentation, in ascending group order.
pub open spec fn pl_join_text(gs: Seq<GroupDataV>) -> Seq<char>
    decreases gs.len(),
{
    if gs.len() == 0 {
        Seq::empty()
    } else if gs.len() == 1 {
        pl_line_text(gs[0])
    } else {
        pl_join_text(gs.drop_last()) + "\n            "@ + pl_line_text(gs.last())
    }
}

/// The pipeline-layout factory: the groups' layouts in ascending group
/// order, which is what makes consecutive group indices necessary.
pub open spec fn pipeline_factory_text(gs: Seq<GroupDataV>) -> Seq<char> {
    "pub fn create_pipeline_layout(device: &wgpu::Device) -> wgpu::PipelineLayout {\n"@
        + "    device.create_pipeline_layout(&wgpu::PipelineLayoutDescriptor {\n"@
        + "        label: None,\n"@ + "        bind_group_layouts: &[\n"@ + "            "@
        + pl_join_text(gs) + "\n"@ + "        ],\n"@ + "        push_constant_ranges: &[],\n"@
        + "    })\n"@ + "}\n"@
}

/// Write the pipeline-layout factory.
fn write_pipeline_factory(f: &mut String, bind_group_data: &Vec<GroupData>)
    ensures
        final(f)@ == old(f)@ + pipeline_factory_text(bind_group_data.deep_view()),
{
    let ghost gs = bind_group_data.deep_view();
    f.append("pub fn create_pipeline_layout(device: &wgpu::Device) -> wgpu::PipelineLayout {\n");
    f.append("    device.create_pipeline_layout(&wgpu::PipelineLayoutDescriptor {\n");
    f.append("        label: None,\n");
    f.append("        bind_group_layouts: &[\n");
    f.append("            ");
    let ghost head = "pub fn create_pipeline_layout(device: &wgpu::Device) -> wgpu::PipelineLayout {\n"@
        + "    device.create_pipeline_layout(&wgpu::PipelineLayoutDescriptor {\n"@
        + "        label: None,\n"@ + "        bind_group_layouts: &[\n"@ + "            "@;
    proof {
        assert(f@ =~= old(f)@ + head);
        assert(pl_join_text(gs.take(0)) =~= Seq::<char>::empty());
        assert(f@ =~= old(f)@ + head + pl_join_text(gs.take(0)));
    }
    let mut k: usize = 0;
    while k < bind_group_data.len()
        invariant
            k <= bind_group_data.len(),
            gs == bind_group_data.deep_view(),
            gs.len() == bind_group_data@.len(),
            f@ == old(f)@ + head + pl_join_text(gs.take(k as int)),
        decreases bind_group_data.len() - k,
    {
        proof {
            assert(gs[k as int] == bind_group_data@[k as int].deep_view());
            assert(gs.take((k + 1) as int).drop_last() =~= gs.take(k as int));
            assert(gs.take((k + 1) as int).last() == gs[k as int]);
        }
        if k > 0 {
            f.append("\n            ");
        }
        f.append("&bind_groups::BindGroup");
        push_dec(f, bind_group_data[k].group_index as u64);
        f.append("::get_bind_group_layout(device),");
        proof {
            assert(f@ =~= old(f)@ + head + pl_join_text(gs.take((k + 1) as int)));
        }
        k = k + 1;
    }
    f.append("\n");
    f.append("        ],\n");
    f.append("        push_constant_ranges: &[],\n");
    f.append("    })\n");
    f.append("}\n");
    proof {
        assert(gs.take(bind_group_data@.len() as int) =~= gs);
        assert(f@ =~= old(f)@ + pipeline_factory_text(gs));
    }
}

/// The whole generated source for one validated reflection model: struct
/// declarations, the bind groups module, the vertex module and the two
/// factories — or the first structural or support error found.
pub open spec fn spec_generate(info: crate::model::ShaderInfoV, path: Seq<char>) -> Result<
    Seq<char>,
    CreateModuleError,
> {
    match crate::validate::spec_validate(info.groups) {
        Err(e) => Err(e),
        Ok(_) => match structs_text(info.types, info.types, 0) {
            Err(e) => Err(e),
            Ok(s1) => match bind_groups_module_text(info.groups, info.stages) {
                Err(e) => Err(e),
                Ok(s2) => match vertex_module_text(info.vertex_inputs, info.types) {
                    Err(e) => Err(e),
                    Ok(s3) => Ok(
                        s1 + s2 + s3 + shader_factory_text(path) + pipeline_factory_text(
                            info.groups,
                        ),
                    ),
                },
            },
        },
    }
}

/// Produce the whole generated source text for one reflection model, or
/// the first error: the structural violations found by validation, or an
/// unsupported type shape, image class, access mode or stage combination
/// found during emission.
pub fn generate_shader_text(info: &ShaderInfo, wgsl_path: &str) -> (r: Result<
    String,
    CreateModuleError,
>)
    ensures
        match spec_generate(info@, wgsl_path@) {
            Ok(t) => r matches Ok(s) && s@ == t,
            Err(e) => r == Err::<String, CreateModuleError>(e),
        },
{
    match crate::validate::validate_bind_groups(&info.groups) {
        Ok(_) => {},
        Err(e) => {
            return Err(e);
        },
    }
    let mut out = String::new();
    match write_structs(&mut out, 0, info) {
        Ok(_) => {},
        Err(e) => {
            return Err(e);
        },
    }
    match write_bind_groups_module(&mut out, &info.groups, info.stages) {
        Ok(_) => {},
        Err(e) => {
            return Err(e);
        },
    }
    match write_vertex_module(&mut out, info) {
        Ok(_) => {},
        Err(e) => {
            return Err(e);
        },
    }
    write_shader_factory(&mut out, wgsl_path);
    write_pipeline_factory(&mut out, &info.groups);
    proof {
        let s1 = structs_text(info@.types, info@.types, 0)->Ok_0;
        let s2 = bind_groups_module_text(info@.groups, info@.stages)->Ok_0;
        let s3 = vertex_module_text(info@.vertex_inputs, info@.types)->Ok_0;
        assert(out@ =~= s1 + s2 + s3 + shader_factory_text(wgsl_path@) + pipeline_factory_text(
            info@.groups,
        ));
    }
    Ok(out)
}

} // verus!
