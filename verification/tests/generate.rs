//! Tests of the reflection, validation and emission pipeline against real
//! WGSL sources parsed by naga.
use wgsl_to_wgpu::create_shader_module;
use wgsl_to_wgpu::emit;
use wgsl_to_wgpu::model::ShaderInfo;
use wgsl_to_wgpu::model::StageSet;
use wgsl_to_wgpu::reflect::reflect_module;
use wgsl_to_wgpu::CreateModuleError;

fn reflect(source: &str) -> ShaderInfo {
    let module = naga::front::wgsl::parse_str(source).unwrap();
    reflect_module(&module)
}

const COMPUTE: StageSet = StageSet { vertex: false, fragment: false, compute: true, other: false };

const VERTEX_FRAGMENT: StageSet = StageSet {
    vertex: true,
    fragment: true,
    compute: false,
    other: false,
};

const VERTEX: StageSet = StageSet { vertex: true, fragment: false, compute: false, other: false };

const FRAGMENT: StageSet = StageSet { vertex: false, fragment: true, compute: false, other: false };

#[test]
fn write_all_structs() {
    let source = "
        struct VectorsF32 {
            a: vec2<f32>,
            b: vec3<f32>,
            c: vec4<f32>,
        }

        struct VectorsU32 {
            a: vec2<u32>,
            b: vec3<u32>,
            c: vec4<u32>,
        }

        struct MatricesF32 {
            a: mat4x4<f32>,
        }

        struct StaticArrays {
            a: array<u32, 5>,
            b: array<f32, 3>,
            c: array<mat4x4<f32>, 512>,
        }

        @fragment
        fn main() -> @location(0) vec4<f32> {
            return vec4<f32>(0.0);
        }
    ";

    let info = reflect(source);
    let mut actual = String::new();
    emit::write_structs(&mut actual, 0, &info).unwrap();

    assert_eq!(
        "#[repr(C)]
#[derive(Debug, Copy, Clone, PartialEq, bytemuck::Pod, bytemuck::Zeroable)]
pub struct VectorsF32 {
    pub a: [f32; 2],
    pub b: [f32; 3],
    pub c: [f32; 4],
}
#[repr(C)]
#[derive(Debug, Copy, Clone, PartialEq, bytemuck::Pod, bytemuck::Zeroable)]
pub struct VectorsU32 {
    pub a: [u32; 2],
    pub b: [u32; 3],
    pub c: [u32; 4],
}
#[repr(C)]
#[derive(Debug, Copy, Clone, PartialEq, bytemuck::Pod, bytemuck::Zeroable)]
pub struct MatricesF32 {
    pub a: glam::Mat4,
}
#[repr(C)]
#[derive(Debug, Copy, Clone, PartialEq, bytemuck::Pod, bytemuck::Zeroable)]
pub struct StaticArrays {
    pub a: [u32; 5],
    pub b: [f32; 3],
    pub c: [glam::Mat4; 512],
}
",
        actual
    );
}

#[test]
fn bind_group_layouts_descriptors_compute() {
    // The actual content of the structs does not matter.
    // We only care about the groups and bindings.
    let source = "
        struct VertexInput0 { x: f32 }
        struct VertexWeight { x: f32 }
        struct Vertices { x: f32 }
        struct VertexWeights { x: f32 }
        struct Transforms { x: f32 }

        @group(0) @binding(0) var<storage, read> src : Vertices;
        @group(0) @binding(1) var<storage, read> vertex_weights : VertexWeights;
        @group(0) @binding(2) var<storage, read_write> dst : Vertices;

        @group(1) @binding(0) var<uniform> transforms: Transforms;

        @compute @workgroup_size(1)
        fn main() {}
    ";

    let info = reflect(source);
    let mut actual = String::new();
    for group in &info.groups {
        emit::write_bind_group_layout(&mut actual, 0, group).unwrap();
        emit::write_bind_group_layout_descriptor(&mut actual, 0, group, COMPUTE).unwrap();
    }

    assert_eq!(
        "pub struct BindGroupLayout0<'a> {
    pub src: wgpu::BufferBinding<'a>,
    pub vertex_weights: wgpu::BufferBinding<'a>,
    pub dst: wgpu::BufferBinding<'a>,
}
const LAYOUT_DESCRIPTOR0: wgpu::BindGroupLayoutDescriptor = wgpu::BindGroupLayoutDescriptor {
    label: None,
    entries: &[
        wgpu::BindGroupLayoutEntry {
            binding: 0u32,
            visibility: wgpu::ShaderStages::COMPUTE,
            ty: wgpu::BindingType::Buffer {
                ty: wgpu::BufferBindingType::Storage { read_only: true },
                has_dynamic_offset: false,
                min_binding_size: None,
            },
            count: None,
        },
        wgpu::BindGroupLayoutEntry {
            binding: 1u32,
            visibility: wgpu::ShaderStages::COMPUTE,
            ty: wgpu::BindingType::Buffer {
                ty: wgpu::BufferBindingType::Storage { read_only: true },
                has_dynamic_offset: false,
                min_binding_size: None,
            },
            count: None,
        },
        wgpu::BindGroupLayoutEntry {
            binding: 2u32,
            visibility: wgpu::ShaderStages::COMPUTE,
            ty: wgpu::BindingType::Buffer {
                ty: wgpu::BufferBindingType::Storage { read_only: false },
                has_dynamic_offset: false,
                min_binding_size: None,
            },
            count: None,
        },
    ]
};
pub struct BindGroupLayout1<'a> {
    pub transforms: wgpu::BufferBinding<'a>,
}
const LAYOUT_DESCRIPTOR1: wgpu::BindGroupLayoutDescriptor = wgpu::BindGroupLayoutDescriptor {
    label: None,
    entries: &[
        wgpu::BindGroupLayoutEntry {
            binding: 0u32,
            visibility: wgpu::ShaderStages::COMPUTE,
            ty: wgpu::BindingType::Buffer {
                ty: wgpu::BufferBindingType::Uniform,
                has_dynamic_offset: false,
                min_binding_size: None,
            },
            count: None,
        },
    ]
};
",
        actual
    );
}

#[test]
fn bind_group_layouts_descriptors_vertex_fragment() {
    // Test different texture and sampler types.
    let source = "
        struct Transforms { x: f32 }

        @group(0) @binding(0)
        var color_texture: texture_2d<f32>;
        @group(0) @binding(1)
        var color_sampler: sampler;
        @group(0) @binding(2)
        var depth_texture: texture_depth_2d;
        @group(0) @binding(3)
        var comparison_sampler: sampler_comparison;

        @group(1) @binding(0) var<uniform> transforms: Transforms;

        @vertex
        fn vs_main() -> @builtin(position) vec4<f32> {
            return vec4<f32>(0.0);
        }

        @fragment
        fn fs_main() -> @location(0) vec4<f32> {
            return vec4<f32>(0.0);
        }
    ";

    let info = reflect(source);
    let mut actual = String::new();
    for group in &info.groups {
        emit::write_bind_group_layout(&mut actual, 0, group).unwrap();
        emit::write_bind_group_layout_descriptor(&mut actual, 0, group, VERTEX_FRAGMENT).unwrap();
    }

    assert_eq!(
        "pub struct BindGroupLayout0<'a> {
    pub color_texture: &'a wgpu::TextureView,
    pub color_sampler: &'a wgpu::Sampler,
    pub depth_texture: &'a wgpu::TextureView,
    pub comparison_sampler: &'a wgpu::Sampler,
}
const LAYOUT_DESCRIPTOR0: wgpu::BindGroupLayoutDescriptor = wgpu::BindGroupLayoutDescriptor {
    label: None,
    entries: &[
        wgpu::BindGroupLayoutEntry {
            binding: 0u32,
            visibility: wgpu::ShaderStages::VERTEX_FRAGMENT,
            ty: wgpu::BindingType::Texture {
                multisampled: false,
                view_dimension: wgpu::TextureViewDimension::D2,
                sample_type: wgpu::TextureSampleType::Float { filterable: true },
            },
            count: None,
        },
        wgpu::BindGroupLayoutEntry {
            binding: 1u32,
            visibility: wgpu::ShaderStages::VERTEX_FRAGMENT,
            ty: wgpu::BindingType::Sampler(wgpu::SamplerBindingType::Filtering),
            count: None,
        },
        wgpu::BindGroupLayoutEntry {
            binding: 2u32,
            visibility: wgpu::ShaderStages::VERTEX_FRAGMENT,
            ty: wgpu::BindingType::Texture {
                multisampled: false,
                view_dimension: wgpu::TextureViewDimension::D2,
                sample_type: wgpu::TextureSampleType::Depth,
            },
            count: None,
        },
        wgpu::BindGroupLayoutEntry {
            binding: 3u32,
            visibility: wgpu::ShaderStages::VERTEX_FRAGMENT,
            ty: wgpu::BindingType::Sampler(wgpu::SamplerBindingType::Comparison),
            count: None,
        },
    ]
};
pub struct BindGroupLayout1<'a> {
    pub transforms: wgpu::BufferBinding<'a>,
}
const LAYOUT_DESCRIPTOR1: wgpu::BindGroupLayoutDescriptor = wgpu::BindGroupLayoutDescriptor {
    label: None,
    entries: &[
        wgpu::BindGroupLayoutEntry {
            binding: 0u32,
            visibility: wgpu::ShaderStages::VERTEX_FRAGMENT,
            ty: wgpu::BindingType::Buffer {
                ty: wgpu::BufferBindingType::Uniform,
                has_dynamic_offset: false,
                min_binding_size: None,
            },
            count: None,
        },
    ]
};
",
        actual
    );
}

#[test]
fn bind_group_layouts_descriptors_vertex() {
    let source = "
        struct Transforms { x: f32 }

        @group(0) @binding(0) var<uniform> transforms: Transforms;

        @vertex
        fn vs_main() -> @builtin(position) vec4<f32> {
            return vec4<f32>(0.0);
        }
    ";

    let info = reflect(source);
    let mut actual = String::new();
    for group in &info.groups {
        emit::write_bind_group_layout(&mut actual, 0, group).unwrap();
        emit::write_bind_group_layout_descriptor(&mut actual, 0, group, VERTEX).unwrap();
    }

    assert_eq!(
        "pub struct BindGroupLayout0<'a> {
    pub transforms: wgpu::BufferBinding<'a>,
}
const LAYOUT_DESCRIPTOR0: wgpu::BindGroupLayoutDescriptor = wgpu::BindGroupLayoutDescriptor {
    label: None,
    entries: &[
        wgpu::BindGroupLayoutEntry {
            binding: 0u32,
            visibility: wgpu::ShaderStages::VERTEX,
            ty: wgpu::BindingType::Buffer {
                ty: wgpu::BufferBindingType::Uniform,
                has_dynamic_offset: false,
                min_binding_size: None,
            },
            count: None,
        },
    ]
};
",
        actual
    );
}

#[test]
fn bind_group_layouts_descriptors_fragment() {
    let source = "
        struct Transforms { x: f32 }

        @group(0) @binding(0) var<uniform> transforms: Transforms;

        @fragment
        fn fs_main() -> @location(0) vec4<f32> {
            return vec4<f32>(0.0);
        }
    ";

    let info = reflect(source);
    let mut actual = String::new();
    for group in &info.groups {
        emit::write_bind_group_layout(&mut actual, 0, group).unwrap();
        emit::write_bind_group_layout_descriptor(&mut actual, 0, group, FRAGMENT).unwrap();
    }

    assert_eq!(
        "pub struct BindGroupLayout0<'a> {
    pub transforms: wgpu::BufferBinding<'a>,
}
const LAYOUT_DESCRIPTOR0: wgpu::BindGroupLayoutDescriptor = wgpu::BindGroupLayoutDescriptor {
    label: None,
    entries: &[
        wgpu::BindGroupLayoutEntry {
            binding: 0u32,
            visibility: wgpu::ShaderStages::FRAGMENT,
            ty: wgpu::BindingType::Buffer {
                ty: wgpu::BufferBindingType::Uniform,
                has_dynamic_offset: false,
                min_binding_size: None,
            },
            count: None,
        },
    ]
};
",
        actual
    );
}

#[test]
fn create_shader_module_consecutive_bind_groups() {
    let source = "
        struct A {
            f: vec4<f32>
        }
        @group(0) @binding(0) var<uniform> a: A;
        @group(1) @binding(0) var<uniform> b: A;

        @vertex
        fn vs_main() -> @builtin(position) vec4<f32> {
            return vec4<f32>(0.0);
        }

        @fragment
        fn fs_main() -> @location(0) vec4<f32> {
            return vec4<f32>(0.0);
        }
    ";

    create_shader_module(source, "shader.wgsl").unwrap();
}

#[test]
fn create_shader_module_non_consecutive_bind_groups() {
    let source = "
        @group(0) @binding(0) var<uniform> a: vec4<f32>;
        @group(1) @binding(0) var<uniform> b: vec4<f32>;
        @group(3) @binding(0) var<uniform> c: vec4<f32>;

        @fragment
        fn main() -> @location(0) vec4<f32> {
            return vec4<f32>(0.0);
        }
    ";

    let result = create_shader_module(source, "shader.wgsl");
    assert!(matches!(
        result,
        Err(CreateModuleError::NonConsecutiveBindGroups)
    ));
}

#[test]
fn create_shader_module_repeated_bindings() {
    let source = "
        struct A {
            f: vec4<f32>
        }
        @group(0) @binding(2) var<uniform> a: A;
        @group(0) @binding(2) var<uniform> b: A;

        @fragment
        fn main() -> @location(0) vec4<f32> {
            return vec4<f32>(0.0);
        }
    ";

    let result = create_shader_module(source, "shader.wgsl");
    assert!(matches!(
        result,
        Err(CreateModuleError::DuplicateBinding { binding: 2 })
    ));
}

#[test]
fn set_bind_groups_vertex_fragment() {
    let source = "
        struct Transforms { x: f32 }

        @group(0) @binding(0)
        var color_texture: texture_2d<f32>;
        @group(1) @binding(0) var<uniform> transforms: Transforms;

        @vertex
        fn vs_main() -> @builtin(position) vec4<f32> {
            return vec4<f32>(0.0);
        }

        @fragment
        fn fs_main() -> @location(0) vec4<f32> {
            return vec4<f32>(0.0);
        }
    ";

    let info = reflect(source);
    let mut actual = String::new();
    emit::write_set_bind_groups(&mut actual, 0, &info.groups, false);

    assert_eq!(
        "pub fn set_bind_groups<'a>(
    pass: &mut wgpu::RenderPass<'a>,
    bind_groups: BindGroups<'a>,
) {
    bind_groups.bind_group0.set(pass);
    bind_groups.bind_group1.set(pass);
}
",
        actual
    );
}

#[test]
fn set_bind_groups_compute() {
    let source = "
        struct Transforms { x: f32 }

        @group(0) @binding(0)
        var color_texture: texture_2d<f32>;
        @group(1) @binding(0) var<uniform> transforms: Transforms;

        @compute @workgroup_size(1)
        fn main() {}
    ";

    let info = reflect(source);
    let mut actual = String::new();
    emit::write_set_bind_groups(&mut actual, 0, &info.groups, true);

    // The only change is that the function takes a ComputePass instead.
    assert_eq!(
        "pub fn set_bind_groups<'a>(
    pass: &mut wgpu::ComputePass<'a>,
    bind_groups: BindGroups<'a>,
) {
    bind_groups.bind_group0.set(pass);
    bind_groups.bind_group1.set(pass);
}
",
        actual
    );
}
