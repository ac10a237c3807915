//! The reflection model: a normalized, library-owned description of a
//! shader's resource interface, extracted once per generation call from the
//! parsed shader IR and then consumed by the validator and the emitter.
//!
//! Bind groups are kept sorted by group index, and bindings inside one group
//! sorted by binding index, so that emission is deterministic.
use vstd::prelude::*;

verus! {

/// Scalar kinds the shader IR can declare.
#[derive(Debug, Clone, Copy, PartialEq, Eq, Structural)]
pub enum ScalarKind {
    Sint,
    Uint,
    Float,
    Bool,
    Other,
}

/// A scalar type: its kind and its width in bytes.
#[derive(Debug, Clone, Copy, PartialEq, Eq, Structural)]
pub struct ScalarDesc {
    pub kind: ScalarKind,
    pub width: u32,
}

/// The number of dimensions a texture has.
#[derive(Debug, Clone, Copy, PartialEq, Eq, Structural)]
pub enum ImageDim {
    D1,
    D2,
    D3,
    Cube,
}

/// The class of a texture: sampled colour, depth, or a storage image.
#[derive(Debug, Clone, Copy, PartialEq, Eq, Structural)]
pub enum ImageClassTag {
    Sampled,
    Depth,
    Storage,
    Other,
}

/// The address space of a shader global, reduced to what binding
/// classification needs.
#[derive(Debug, Clone, Copy, PartialEq, Eq, Structural)]
pub enum AddrSpace {
    Uniform,
    StorageRead,
    StorageReadWrite,
    HandleSpace,
    Other,
}

/// A programmable shader stage.
#[derive(Debug, Clone, Copy, PartialEq, Eq, Structural)]
pub enum Stage {
    Vertex,
    Fragment,
    Compute,
    Other,
}

/// One member of a shader-side struct type: its declared name, a key into
/// the type table, and its attribute location if it carries one.
#[derive(Debug, Clone)]
pub struct StructMember {
    pub name: Option<String>,
    pub ty: usize,
    pub location: Option<u32>,
}

/// Spec-level counterpart of [`StructMember`].
pub ghost struct StructMemberV {
    pub name: Option<Seq<char>>,
    pub ty: int,
    pub location: Option<u32>,
}

impl View for StructMember {
    type V = StructMemberV;

    open spec fn view(&self) -> StructMemberV {
        StructMemberV {
            name: match self.name {
                Some(ref n) => Some(n@),
                None => None,
            },
            ty: self.ty as int,
            location: self.location,
        }
    }
}

impl DeepView for StructMember {
    type V = StructMemberV;

    open spec fn deep_view(&self) -> StructMemberV {
        self.view()
    }
}

/// The shape of one type in the shader's type table.  Array element types
/// are back-references (keys) into the same table.
#[derive(Debug, Clone)]
pub enum TypeShape {
    Scalar(ScalarDesc),
    Vector { size: u32, scalar: ScalarDesc },
    Matrix { columns: u32, rows: u32, scalar: ScalarDesc },
    Array { base: usize, size: Option<u32> },
    Struct { members: Vec<StructMember> },
    Image { dim: ImageDim, class: ImageClassTag },
    Sampler { comparison: bool },
    Other,
}

/// Spec-level counterpart of [`TypeShape`].
pub ghost enum TypeShapeV {
    Scalar(ScalarDesc),
    Vector { size: u32, scalar: ScalarDesc },
    Matrix { columns: u32, rows: u32, scalar: ScalarDesc },
    Array { base: int, size: Option<u32> },
    Struct { members: Seq<StructMemberV> },
    Image { dim: ImageDim, class: ImageClassTag },
    Sampler { comparison: bool },
    Other,
}

impl View for TypeShape {
    type V = TypeShapeV;

    open spec fn view(&self) -> TypeShapeV {
        match self {
            TypeShape::Scalar(s) => TypeShapeV::Scalar(*s),
            TypeShape::Vector { size, scalar } => TypeShapeV::Vector {
                size: *size,
                scalar: *scalar,
            },
            TypeShape::Matrix { columns, rows, scalar } => TypeShapeV::Matrix {
                columns: *columns,
                rows: *rows,
                scalar: *scalar,
            },
            TypeShape::Array { base, size } => TypeShapeV::Array {
                base: *base as int,
                size: *size,
            },
            TypeShape::Struct { members } => TypeShapeV::Struct { members: members.deep_view() },
            TypeShape::Image { dim, class } => TypeShapeV::Image { dim: *dim, class: *class },
            TypeShape::Sampler { comparison } => TypeShapeV::Sampler { comparison: *comparison },
            TypeShape::Other => TypeShapeV::Other,
        }
    }
}

impl DeepView for TypeShape {
    type V = TypeShapeV;

    open spec fn deep_view(&self) -> TypeShapeV {
        self.view()
    }
}

/// One entry of the shader's type table: its declared name, if any, and its
/// shape.
#[derive(Debug, Clone)]
pub struct TypeDecl {
    pub name: Option<String>,
    pub shape: TypeShape,
}

/// Spec-level counterpart of [`TypeDecl`].
pub ghost struct TypeDeclV {
    pub name: Option<Seq<char>>,
    pub shape: TypeShapeV,
}

impl View for TypeDecl {
    type V = TypeDeclV;

    open spec fn view(&self) -> TypeDeclV {
        TypeDeclV {
            name: match self.name {
                Some(ref n) => Some(n@),
                None => None,
            },
            shape: self.shape@,
        }
    }
}

impl DeepView for TypeDecl {
    type V = TypeDeclV;

    open spec fn deep_view(&self) -> TypeDeclV {
        self.view()
    }
}

/// The resource kind of one binding, classified from the shape of its type.
#[derive(Debug, Clone, Copy, PartialEq, Eq, Structural)]
pub enum ResourceKind {
    /// A uniform or storage buffer; which one is told by the address space.
    Buffer { space: AddrSpace },
    /// A texture binding.
    Texture { dim: ImageDim, class: ImageClassTag },
    /// A sampler binding, plain or comparison.
    Sampler { comparison: bool },
    /// A global whose type shape no binding can be generated for.
    Unsupported,
}

/// One resource binding inside a bind group.
#[derive(Debug, Clone)]
pub struct GroupBinding {
    pub binding_index: u32,
    pub name: Option<String>,
    pub kind: ResourceKind,
    pub ty: usize,
}

/// Spec-level counterpart of [`GroupBinding`].
pub ghost struct GroupBindingV {
    pub binding_index: u32,
    pub name: Option<Seq<char>>,
    pub kind: ResourceKind,
    pub ty: int,
}

impl View for GroupBinding {
    type V = GroupBindingV;

    open spec fn view(&self) -> GroupBindingV {
        GroupBindingV {
            binding_index: self.binding_index,
            name: match self.name {
                Some(ref n) => Some(n@),
                None => None,
            },
            kind: self.kind,
            ty: self.ty as int,
        }
    }
}

impl DeepView for GroupBinding {
    type V = GroupBindingV;

    open spec fn deep_view(&self) -> GroupBindingV {
        self.view()
    }
}

/// One bind group: its group index and its bindings, sorted by binding
/// index.
#[derive(Debug, Clone)]
pub struct GroupData {
    pub group_index: u32,
    pub bindings: Vec<GroupBinding>,
}

/// Spec-level counterpart of [`GroupData`].
pub ghost struct GroupDataV {
    pub group_index: u32,
    pub bindings: Seq<GroupBindingV>,
}

impl View for GroupData {
    type V = GroupDataV;

    open spec fn view(&self) -> GroupDataV {
        GroupDataV { group_index: self.group_index, bindings: self.bindings.deep_view() }
    }
}

impl DeepView for GroupData {
    type V = GroupDataV;

    open spec fn deep_view(&self) -> GroupDataV {
        self.view()
    }
}

/// The union, over all entry points, of the stages present in the module.
#[derive(Debug, Clone, Copy, PartialEq, Eq, Structural)]
pub struct StageSet {
    pub vertex: bool,
    pub fragment: bool,
    pub compute: bool,
    pub other: bool,
}

/// One field of a vertex input struct: its attribute location and its type
/// key.
#[derive(Debug, Clone, Copy, PartialEq, Eq, Structural)]
pub struct VertexField {
    pub location: u32,
    pub ty: usize,
}

impl View for VertexField {
    type V = VertexField;

    open spec fn view(&self) -> VertexField {
        *self
    }
}

impl DeepView for VertexField {
    type V = VertexField;

    open spec fn deep_view(&self) -> VertexField {
        *self
    }
}

/// A shader struct used as a vertex entry point input, with its fields in
/// declaration order.
#[derive(Debug, Clone)]
pub struct VertexInput {
    pub name: String,
    pub fields: Vec<VertexField>,
}

/// Spec-level counterpart of [`VertexInput`].
pub ghost struct VertexInputV {
    pub name: Seq<char>,
    pub fields: Seq<VertexField>,
}

impl View for VertexInput {
    type V = VertexInputV;

    open spec fn view(&self) -> VertexInputV {
        VertexInputV { name: self.name@, fields: self.fields.deep_view() }
    }
}

impl DeepView for VertexInput {
    type V = VertexInputV;

    open spec fn deep_view(&self) -> VertexInputV {
        self.view()
    }
}

/// The whole reflection model of one shader module.
#[derive(Debug, Clone)]
pub struct ShaderInfo {
    /// The shader's type table, in IR declaration order.
    pub types: Vec<TypeDecl>,
    /// Bind groups, sorted ascending by group index.
    pub groups: Vec<GroupData>,
    /// The union of entry point stages.
    pub stages: StageSet,
    /// Vertex entry point input structs, in entry point and argument order.
    pub vertex_inputs: Vec<VertexInput>,
}

/// Spec-level counterpart of [`ShaderInfo`].
pub ghost struct ShaderInfoV {
    pub types: Seq<TypeDeclV>,
    pub groups: Seq<GroupDataV>,
    pub stages: StageSet,
    pub vertex_inputs: Seq<VertexInputV>,
}

impl View for ShaderInfo {
    type V = ShaderInfoV;

    open spec fn view(&self) -> ShaderInfoV {
        ShaderInfoV {
            types: self.types.deep_view(),
            groups: self.groups.deep_view(),
            stages: self.stages,
            vertex_inputs: self.vertex_inputs.deep_view(),
        }
    }
}

/// A shader global as the IR reports it, before grouping.
pub ghost struct GlobalV {
    pub name: Option<Seq<char>>,
    pub binding: Option<(u32, u32)>,
    pub space: AddrSpace,
    pub ty: int,
}

/// An entry point as the IR reports it: its stage and the type keys of its
/// arguments.
pub ghost struct EntryPointV {
    pub stage: Stage,
    pub arg_types: Seq<int>,
}

/// A binding together with the group index it was declared under.
pub ghost struct BindingEntryV {
    pub group: u32,
    pub binding: GroupBindingV,
}

/// Classify a global's resource kind from its address space and the shape
/// of its type: a struct is a buffer, an image a texture, a sampler a
/// sampler; anything else cannot be bound.
pub open spec fn classify(space: AddrSpace, shape: TypeShapeV) -> ResourceKind {
    match shape {
        TypeShapeV::Struct { .. } => ResourceKind::Buffer { space },
        TypeShapeV::Image { dim, class } => ResourceKind::Texture { dim, class },
        TypeShapeV::Sampler { comparison } => ResourceKind::Sampler { comparison },
        _ => ResourceKind::Unsupported,
    }
}

/// The binding entry a single global contributes, if it carries a binding
/// attribute.
pub open spec fn entry_of_global(g: GlobalV, types: Seq<TypeDeclV>) -> Option<BindingEntryV> {
    match g.binding {
        Some((group, binding)) => Some(
            BindingEntryV {
                group,
                binding: GroupBindingV {
                    binding_index: binding,
                    name: g.name,
                    kind: if 0 <= g.ty < types.len() {
                        classify(g.space, types[g.ty].shape)
                    } else {
                        ResourceKind::Unsupported
                    },
                    ty: g.ty,
                },
            },
        ),
        None => None,
    }
}

/// All binding entries of the module's globals, in declaration order.
pub open spec fn entries_of(globals: Seq<GlobalV>, types: Seq<TypeDeclV>) -> Seq<BindingEntryV>
    decreases globals.len(),
{
    if globals.len() == 0 {
        Seq::empty()
    } else {
        entries_of(globals.drop_last(), types) + match entry_of_global(globals.last(), types) {
            Some(e) => seq![e],
            None => Seq::empty(),
        }
    }
}

/// Insert a binding into a group's binding list, keeping the list sorted by
/// binding index; a binding with an index already present goes after it.
pub open spec fn insert_binding(bs: Seq<GroupBindingV>, b: GroupBindingV) -> Seq<GroupBindingV>
    decreases bs.len(),
{
    if bs.len() == 0 {
        seq![b]
    } else if b.binding_index < bs[0].binding_index {
        seq![b] + bs
    } else {
        seq![bs[0]] + insert_binding(bs.drop_first(), b)
    }
}

/// Insert one binding entry into the group list, keeping groups sorted by
/// group index and creating the group if it is not present yet.
pub open spec fn insert_entry(gs: Seq<GroupDataV>, e: BindingEntryV) -> Seq<GroupDataV>
    decreases gs.len(),
{
    if gs.len() == 0 {
        seq![GroupDataV { group_index: e.group, bindings: seq![e.binding] }]
    } else if e.group < gs[0].group_index {
        seq![GroupDataV { group_index: e.group, bindings: seq![e.binding] }] + gs
    } else if e.group == gs[0].group_index {
        seq![
            GroupDataV {
                group_index: gs[0].group_index,
                bindings: insert_binding(gs[0].bindings, e.binding),
            },
        ] + gs.drop_first()
    } else {
        seq![gs[0]] + insert_entry(gs.drop_first(), e)
    }
}

/// The bind group list built from a sequence of binding entries.
pub open spec fn groups_of_entries(es: Seq<BindingEntryV>) -> Seq<GroupDataV>
    decreases es.len(),
{
    if es.len() == 0 {
        Seq::empty()
    } else {
        insert_entry(groups_of_entries(es.drop_last()), es.last())
    }
}

/// The bind groups of a module: its globals' binding entries, grouped by
/// group index and sorted.
pub open spec fn spec_groups(globals: Seq<GlobalV>, types: Seq<TypeDeclV>) -> Seq<GroupDataV> {
    groups_of_entries(entries_of(globals, types))
}

/// The union of the stages of the module's entry points.
pub open spec fn spec_stages(entries: Seq<EntryPointV>) -> StageSet {
    StageSet {
        vertex: exists|i: int| 0 <= i < entries.len() && entries[i].stage == Stage::Vertex,
        fragment: exists|i: int| 0 <= i < entries.len() && entries[i].stage == Stage::Fragment,
        compute: exists|i: int| 0 <= i < entries.len() && entries[i].stage == Stage::Compute,
        other: exists|i: int| 0 <= i < entries.len() && entries[i].stage == Stage::Other,
    }
}

/// The vertex attribute fields of a struct's members: one per member that
/// carries a location, in declaration order.
pub open spec fn fields_of_members(members: Seq<StructMemberV>) -> Seq<VertexField>
    decreases members.len(),
{
    if members.len() == 0 {
        Seq::empty()
    } else {
        fields_of_members(members.drop_last()) + match members.last().location {
            Some(loc) => seq![
                VertexField { location: loc, ty: members.last().ty as usize },
            ],
            None => Seq::empty(),
        }
    }
}

/// The vertex input struct an argument type key yields, if it names a
/// struct.
pub open spec fn input_of_arg(ty: int, types: Seq<TypeDeclV>) -> Option<VertexInputV> {
    if 0 <= ty < types.len() {
        match types[ty].shape {
            TypeShapeV::Struct { members } => match types[ty].name {
                Some(n) => Some(VertexInputV { name: n, fields: fields_of_members(members) }),
                None => None,
            },
            _ => None,
        }
    } else {
        None
    }
}

/// The vertex input structs of one argument list, in order.
pub open spec fn inputs_of_args(args: Seq<int>, types: Seq<TypeDeclV>) -> Seq<VertexInputV>
    decreases args.len(),
{
    if args.len() == 0 {
        Seq::empty()
    } else {
        inputs_of_args(args.drop_last(), types) + match input_of_arg(args.last(), types) {
            Some(v) => seq![v],
            None => Seq::empty(),
        }
    }
}

/// The vertex input structs of the module: those of each vertex entry
/// point's arguments, in entry point order.
pub open spec fn spec_vertex_inputs(entries: Seq<EntryPointV>, types: Seq<TypeDeclV>) -> Seq<
    VertexInputV,
>
    decreases entries.len(),
{
    if entries.len() == 0 {
        Seq::empty()
    } else {
        spec_vertex_inputs(entries.drop_last(), types) + if entries.last().stage == Stage::Vertex {
            inputs_of_args(entries.last().arg_types, types)
        } else {
            Seq::empty()
        }
    }
}

/// The whole reflection model as a function of what the IR reports.
pub open spec fn spec_reflect(
    globals: Seq<GlobalV>,
    types: Seq<TypeDeclV>,
    entries: Seq<EntryPointV>,
) -> ShaderInfoV {
    ShaderInfoV {
        types,
        groups: spec_groups(globals, types),
        stages: spec_stages(entries),
        vertex_inputs: spec_vertex_inputs(entries, types),
    }
}

/// The element-wise view of a sequence of viewable values; the same
/// sequence a `Vec` of them views to under `deep_view`.
pub open spec fn deep<T: DeepView>(s: Seq<T>) -> Seq<T::V> {
    Seq::new(s.len(), |i: int| s[i].deep_view())
}

/// Well-formedness of one type table entry: an array's element type
/// precedes it in the table, and a struct's member types are keys into the
/// table.
pub open spec fn type_entry_wf(ts: Seq<TypeDeclV>, k: int) -> bool {
    match ts[k].shape {
        TypeShapeV::Array { base, size } => 0 <= base < k,
        TypeShapeV::Struct { members } => forall|j: int|
            0 <= j < members.len() ==> 0 <= (#[trigger] members[j]).ty < ts.len(),
        _ => true,
    }
}

/// Well-formedness of the whole type table.
pub open spec fn types_wf(ts: Seq<TypeDeclV>) -> bool {
    forall|k: int| 0 <= k < ts.len() ==> #[trigger] type_entry_wf(ts, k)
}

/// Bindings sorted ascending (non-strictly) by binding index.
pub open spec fn bindings_sorted(bs: Seq<GroupBindingV>) -> bool {
    forall|i: int, j: int|
        0 <= i < j < bs.len() ==> bs[i].binding_index <= bs[j].binding_index
}

/// Groups sorted strictly ascending by group index, each with sorted,
/// non-empty bindings.
pub open spec fn groups_sorted(gs: Seq<GroupDataV>) -> bool {
    &&& forall|i: int, j: int| 0 <= i < j < gs.len() ==> gs[i].group_index < gs[j].group_index
    &&& forall|i: int| 0 <= i < gs.len() ==> bindings_sorted(#[trigger] gs[i].bindings)
    &&& forall|i: int| 0 <= i < gs.len() ==> (#[trigger] gs[i].bindings).len() > 0
}

proof fn lemma_insert_binding_sorted(bs: Seq<GroupBindingV>, b: GroupBindingV)
    requires
        bindings_sorted(bs),
    ensures
        bindings_sorted(insert_binding(bs, b)),
        insert_binding(bs, b).len() == bs.len() + 1,
        forall|k: int|
            0 <= k < insert_binding(bs, b).len() ==> (#[trigger] insert_binding(bs, b)[k]
                == b || exists|m: int| 0 <= m < bs.len() && insert_binding(bs, b)[k] == bs[m]),
    decreases bs.len(),
{
    let r = insert_binding(bs, b);
    if bs.len() == 0 {
    } else if b.binding_index < bs[0].binding_index {
        assert forall|k: int| 0 <= k < r.len() implies (r[k] == b || exists|m: int|
            0 <= m < bs.len() && r[k] == bs[m]) by {
            if k > 0 {
                assert(r[k] == bs[k - 1]);
            }
        }
    } else {
        let tail = bs.drop_first();
        assert(bindings_sorted(tail)) by {
            assert(forall|i: int, j: int|
                0 <= i < j < tail.len() ==> tail[i].binding_index <= tail[j].binding_index) by {
                assert(forall|i: int| 0 <= i < tail.len() ==> tail[i] == bs[i + 1]);
            }
        }
        lemma_insert_binding_sorted(tail, b);
        let rt = insert_binding(tail, b);
        assert(r == seq![bs[0]] + rt);
        assert forall|i: int, j: int| 0 <= i < j < r.len() implies r[i].binding_index
            <= r[j].binding_index by {
            if i == 0 {
                assert(r[0] == bs[0]);
                assert(r[j] == rt[j - 1]);
                assert(rt[j - 1] == b || exists|m: int| 0 <= m < tail.len() && rt[j - 1] == tail[m]);
                if rt[j - 1] == b {
                } else {
                    let m = choose|m: int| 0 <= m < tail.len() && rt[j - 1] == tail[m];
                    assert(tail[m] == bs[m + 1]);
                }
            } else {
                assert(r[i] == rt[i - 1] && r[j] == rt[j - 1]);
            }
        }
        assert forall|k: int| 0 <= k < r.len() implies (r[k] == b || exists|m: int|
            0 <= m < bs.len() && r[k] == bs[m]) by {
            if k == 0 {
                assert(r[0] == bs[0]);
            } else {
                assert(r[k] == rt[k - 1]);
                if rt[k - 1] != b {
                    let m = choose|m: int| 0 <= m < tail.len() && rt[k - 1] == tail[m];
                    assert(r[k] == bs[m + 1]);
                }
            }
        }
    }
}

proof fn lemma_insert_entry_sorted(gs: Seq<GroupDataV>, e: BindingEntryV)
    requires
        groups_sorted(gs),
    ensures
        groups_sorted(insert_entry(gs, e)),
    decreases gs.len(),
{
    let r = insert_entry(gs, e);
    if gs.len() == 0 {
        assert(r[0].bindings == seq![e.binding]);
    } else if e.group < gs[0].group_index {
        assert forall|i: int, j: int| 0 <= i < j < r.len() implies r[i].group_index
            < r[j].group_index by {
            if i > 0 {
                assert(r[i] == gs[i - 1] && r[j] == gs[j - 1]);
            } else {
                assert(r[j] == gs[j - 1]);
            }
        }
        assert(forall|i: int| 0 <= i < r.len() && i > 0 ==> r[i] == gs[i - 1]);
        assert(r[0].bindings == seq![e.binding]);
    } else if e.group == gs[0].group_index {
        lemma_insert_binding_sorted(gs[0].bindings, e.binding);
        assert(forall|i: int| 0 < i < r.len() ==> r[i] == gs[i]);
        assert(r[0].group_index == gs[0].group_index);
    } else {
        let tail = gs.drop_first();
        assert(groups_sorted(tail)) by {
            assert(forall|i: int| 0 <= i < tail.len() ==> tail[i] == gs[i + 1]);
        }
        lemma_insert_entry_sorted(tail, e);
        let rt = insert_entry(tail, e);
        assert(r == seq![gs[0]] + rt);
        lemma_insert_entry_members(tail, e);
        assert forall|i: int, j: int| 0 <= i < j < r.len() implies r[i].group_index
            < r[j].group_index by {
            if i == 0 {
                assert(r[0] == gs[0]);
                assert(r[j] == rt[j - 1]);
                assert(rt[j - 1].group_index == e.group || exists|m: int|
                    0 <= m < tail.len() && rt[j - 1].group_index == tail[m].group_index);
                if rt[j - 1].group_index == e.group {
                } else {
                    let m = choose|m: int|
                        0 <= m < tail.len() && rt[j - 1].group_index == tail[m].group_index;
                    assert(tail[m] == gs[m + 1]);
                }
            } else {
                assert(r[i] == rt[i - 1] && r[j] == rt[j - 1]);
            }
        }
        assert(forall|i: int| 0 < i < r.len() ==> r[i] == rt[i - 1]);
        assert(r[0] == gs[0]);
    }
}

/// Every group of the inserted list carries either the new entry's group
/// index or one already present.
proof fn lemma_insert_entry_members(gs: Seq<GroupDataV>, e: BindingEntryV)
    ensures
        forall|k: int|
            0 <= k < insert_entry(gs, e).len() ==> ((#[trigger] insert_entry(gs, e)[k]).group_index
                == e.group || exists|m: int|
                0 <= m < gs.len() && insert_entry(gs, e)[k].group_index == gs[m].group_index),
    decreases gs.len(),
{
    let r = insert_entry(gs, e);
    if gs.len() == 0 {
    } else if e.group < gs[0].group_index {
        assert forall|k: int| 0 <= k < r.len() implies (r[k].group_index == e.group || exists|m: int|
            0 <= m < gs.len() && r[k].group_index == gs[m].group_index) by {
            if k > 0 {
                assert(r[k] == gs[k - 1]);
            }
        }
    } else if e.group == gs[0].group_index {
        assert forall|k: int| 0 <= k < r.len() implies (r[k].group_index == e.group || exists|m: int|
            0 <= m < gs.len() && r[k].group_index == gs[m].group_index) by {
            if k > 0 {
                assert(r[k] == gs[k]);
            }
        }
    } else {
        let tail = gs.drop_first();
        lemma_insert_entry_members(tail, e);
        let rt = insert_entry(tail, e);
        assert forall|k: int| 0 <= k < r.len() implies (r[k].group_index == e.group || exists|m: int|
            0 <= m < gs.len() && r[k].group_index == gs[m].group_index) by {
            if k == 0 {
                assert(r[0] == gs[0]);
            } else {
                assert(r[k] == rt[k - 1]);
                if rt[k - 1].group_index != e.group {
                    let m = choose|m: int|
                        0 <= m < tail.len() && rt[k - 1].group_index == tail[m].group_index;
                    assert(gs[m + 1] == tail[m]);
                }
            }
        }
    }
}

/// The group list built from any entry sequence is sorted: groups strictly
/// ascending by index, bindings ascending inside each group, and no empty
/// group.
pub proof fn lemma_groups_of_entries_sorted(es: Seq<BindingEntryV>)
    ensures
        groups_sorted(groups_of_entries(es)),
    decreases es.len(),
{
    if es.len() == 0 {
    } else {
        lemma_groups_of_entries_sorted(es.drop_last());
        lemma_insert_entry_sorted(groups_of_entries(es.drop_last()), es.last());
    }
}

/// Positional form of [`insert_binding`]: inserting at the first position
/// whose binding index exceeds the new one splits the sequence there.
pub proof fn lemma_insert_binding_pos(bs: Seq<GroupBindingV>, b: GroupBindingV, p: int)
    requires
        0 <= p <= bs.len(),
        forall|i: int| 0 <= i < p ==> (#[trigger] bs[i]).binding_index <= b.binding_index,
        p < bs.len() ==> b.binding_index < bs[p].binding_index,
    ensures
        insert_binding(bs, b) == bs.take(p) + seq![b] + bs.skip(p),
    decreases bs.len(),
{
    if bs.len() == 0 {
        assert(bs.take(0) + seq![b] + bs.skip(0) =~= seq![b]);
    } else if p == 0 {
        assert(bs.take(0) + seq![b] + bs.skip(0) =~= seq![b] + bs);
    } else {
        let tail = bs.drop_first();
        assert(forall|i: int| 0 <= i < tail.len() ==> tail[i] == bs[i + 1]);
        lemma_insert_binding_pos(tail, b, p - 1);
        assert(seq![bs[0]] + (tail.take(p - 1) + seq![b] + tail.skip(p - 1)) =~= bs.take(p)
            + seq![b] + bs.skip(p));
    }
}

/// Positional form of [`insert_entry`]: the entry lands at the first
/// position whose group index is not below its own, either merged into an
/// equal group or as a fresh group.
pub proof fn lemma_insert_entry_pos(gs: Seq<GroupDataV>, e: BindingEntryV, p: int)
    requires
        0 <= p <= gs.len(),
        forall|i: int| 0 <= i < p ==> (#[trigger] gs[i]).group_index < e.group,
        p < gs.len() ==> gs[p].group_index >= e.group,
    ensures
        p < gs.len() && gs[p].group_index == e.group ==> insert_entry(gs, e) == gs.update(
            p,
            GroupDataV {
                group_index: gs[p].group_index,
                bindings: insert_binding(gs[p].bindings, e.binding),
            },
        ),
        !(p < gs.len() && gs[p].group_index == e.group) ==> insert_entry(gs, e) == gs.take(p)
            + seq![GroupDataV { group_index: e.group, bindings: seq![e.binding] }] + gs.skip(p),
    decreases gs.len(),
{
    if gs.len() == 0 {
        assert(gs.take(0) + seq![GroupDataV { group_index: e.group, bindings: seq![e.binding] }]
            + gs.skip(0) =~= seq![GroupDataV { group_index: e.group, bindings: seq![e.binding] }]);
    } else if p == 0 {
        if gs[0].group_index == e.group {
            assert(seq![
                GroupDataV {
                    group_index: gs[0].group_index,
                    bindings: insert_binding(gs[0].bindings, e.binding),
                },
            ] + gs.drop_first() =~= gs.update(
                0,
                GroupDataV {
                    group_index: gs[0].group_index,
                    bindings: insert_binding(gs[0].bindings, e.binding),
                },
            ));
        } else {
            assert(gs.take(0) + seq![
                GroupDataV { group_index: e.group, bindings: seq![e.binding] },
            ] + gs.skip(0) =~= seq![GroupDataV { group_index: e.group, bindings: seq![e.binding] }]
                + gs);
        }
    } else {
        let tail = gs.drop_first();
        assert(forall|i: int| 0 <= i < tail.len() ==> tail[i] == gs[i + 1]);
        lemma_insert_entry_pos(tail, e, p - 1);
        if p < gs.len() && gs[p].group_index == e.group {
            assert(tail[p - 1] == gs[p]);
            assert(seq![gs[0]] + tail.update(
                p - 1,
                GroupDataV {
                    group_index: gs[p].group_index,
                    bindings: insert_binding(gs[p].bindings, e.binding),
                },
            ) =~= gs.update(
                p,
                GroupDataV {
                    group_index: gs[p].group_index,
                    bindings: insert_binding(gs[p].bindings, e.binding),
                },
            ));
        } else {
            assert(seq![gs[0]] + (tail.take(p - 1) + seq![
                GroupDataV { group_index: e.group, bindings: seq![e.binding] },
            ] + tail.skip(p - 1)) =~= gs.take(p) + seq![
                GroupDataV { group_index: e.group, bindings: seq![e.binding] },
            ] + gs.skip(p));
        }
    }
}

} // verus!
