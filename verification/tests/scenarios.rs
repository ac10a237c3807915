//! End-to-end scenarios over whole shaders, the stage-visibility table,
//! the vertex attribute tables, the error variants, and the small text
//! utilities.
use wgsl_to_wgpu::create_shader_module;
use wgsl_to_wgpu::mapper;
use wgsl_to_wgpu::model::StageSet;
use wgsl_to_wgpu::text::indent;
use wgsl_to_wgpu::text::write_indented;
use wgsl_to_wgpu::CreateModuleError;

#[test]
fn compute_storage_and_uniform_buffers_end_to_end() {
    let source = "
        struct Vertices { x: f32 }
        struct Transforms { x: f32 }

        @group(0) @binding(0) var<storage, read> src: Vertices;
        @group(0) @binding(1) var<storage, read_write> dst: Vertices;
        @group(1) @binding(0) var<uniform> transforms: Transforms;

        @compute @workgroup_size(1)
        fn main() {}
    ";

    let text = create_shader_module(source, "shader.wgsl").unwrap();

    // Group 0: one read-only and one read-write storage entry, both
    // visible to compute.
    assert!(text.contains(
        "const LAYOUT_DESCRIPTOR0: wgpu::BindGroupLayoutDescriptor = wgpu::BindGroupLayoutDescriptor {
        label: None,
        entries: &[
            wgpu::BindGroupLayoutEntry {
                binding: 0u32,
                visibility: wgpu::ShaderStages::COMPUTE,
                ty: wgpu::BindingType::Buffer {
                    ty: wgpu::BufferBindingType::Storage { read_only: true },"
    ));
    assert!(text.contains(
        "wgpu::BindGroupLayoutEntry {
                binding: 1u32,
                visibility: wgpu::ShaderStages::COMPUTE,
                ty: wgpu::BindingType::Buffer {
                    ty: wgpu::BufferBindingType::Storage { read_only: false },"
    ));
    // Group 1: one uniform entry, visible to compute.
    assert!(text.contains(
        "const LAYOUT_DESCRIPTOR1: wgpu::BindGroupLayoutDescriptor = wgpu::BindGroupLayoutDescriptor {
        label: None,
        entries: &[
            wgpu::BindGroupLayoutEntry {
                binding: 0u32,
                visibility: wgpu::ShaderStages::COMPUTE,
                ty: wgpu::BindingType::Buffer {
                    ty: wgpu::BufferBindingType::Uniform,"
    ));
    // The pipeline layout orders the two groups' layouts as [group0, group1].
    assert!(text.contains(
        "bind_group_layouts: &[
            &bind_groups::BindGroup0::get_bind_group_layout(device),
            &bind_groups::BindGroup1::get_bind_group_layout(device),
        ],"
    ));
    // A compute module binds to compute passes.
    assert!(text.contains("pass: &mut wgpu::ComputePass<'a>,"));
    assert!(!text.contains("pass: &mut wgpu::RenderPass<'a>,"));
}

#[test]
fn texture_and_sampler_end_to_end() {
    let source = "
        @group(0) @binding(0) var color_texture: texture_2d<f32>;
        @group(0) @binding(1) var color_sampler: sampler;

        @vertex
        fn vs_main() -> @builtin(position) vec4<f32> {
            return vec4<f32>(0.0);
        }

        @fragment
        fn fs_main() -> @location(0) vec4<f32> {
            return vec4<f32>(0.0);
        }
    ";

    let text = create_shader_module(source, "shader.wgsl").unwrap();

    assert!(text.contains(
        "wgpu::BindGroupLayoutEntry {
                binding: 0u32,
                visibility: wgpu::ShaderStages::VERTEX_FRAGMENT,
                ty: wgpu::BindingType::Texture {
                    multisampled: false,
                    view_dimension: wgpu::TextureViewDimension::D2,
                    sample_type: wgpu::TextureSampleType::Float { filterable: true },
                },
                count: None,
            },"
    ));
    assert!(text.contains(
        "wgpu::BindGroupLayoutEntry {
                binding: 1u32,
                visibility: wgpu::ShaderStages::VERTEX_FRAGMENT,
                ty: wgpu::BindingType::Sampler(wgpu::SamplerBindingType::Filtering),
                count: None,
            },"
    ));
    // A render module binds to render passes.
    assert!(text.contains("pass: &mut wgpu::RenderPass<'a>,"));
}

#[test]
fn vertex_attribute_table_and_size() {
    let source = "
        struct VertexInput {
            @location(0) position: vec3<f32>,
            @location(1) uv: vec2<f32>,
            @location(2) color: vec4<f32>,
        }

        @vertex
        fn vs_main(v: VertexInput) -> @builtin(position) vec4<f32> {
            return vec4<f32>(v.position, 1.0);
        }

        @fragment
        fn fs_main() -> @location(0) vec4<f32> {
            return vec4<f32>(0.0);
        }
    ";

    let text = create_shader_module(source, "shader.wgsl").unwrap();

    // One attribute per field in declaration order, and the unpadded size
    // 12 + 8 + 16 bytes.
    assert!(text.contains(
        "    impl super::VertexInput {
        pub const VERTEX_ATTRIBUTES: [wgpu::VertexAttribute; 3] = wgpu::vertex_attr_array![0 => Float32x3, 1 => Float32x2, 2 => Float32x4];"
    ));
    assert!(text.contains("pub const SIZE_IN_BYTES: u64 = 36;"));
}

#[test]
fn shader_module_factory_embeds_the_source_reference() {
    let source = "
        @fragment
        fn main() -> @location(0) vec4<f32> {
            return vec4<f32>(0.0);
        }
    ";

    let text = create_shader_module(source, "shaders/pbr.wgsl").unwrap();
    assert!(text.contains("\"shaders/pbr.wgsl\""));
    assert!(text.contains("pub fn create_shader_module(device: &wgpu::Device) -> wgpu::ShaderModule {"));
}

#[test]
fn try_create_shader_module_rejects_unparseable_source() {
    assert!(wgsl_to_wgpu::try_create_shader_module("not wgsl at all {", "shader.wgsl").is_none());

    let source = "
        @fragment
        fn main() -> @location(0) vec4<f32> {
            return vec4<f32>(0.0);
        }
    ";
    let checked = wgsl_to_wgpu::try_create_shader_module(source, "shader.wgsl").unwrap().unwrap();
    let direct = create_shader_module(source, "shader.wgsl").unwrap();
    assert_eq!(checked, direct);
}

#[test]
fn unsupported_matrix_shape_fails_generation() {
    let source = "
        struct Odd {
            m: mat3x3<f32>
        }
        @group(0) @binding(0) var<uniform> odd: Odd;

        @fragment
        fn main() -> @location(0) vec4<f32> {
            return vec4<f32>(0.0);
        }
    ";

    let result = create_shader_module(source, "shader.wgsl");
    assert!(matches!(result, Err(CreateModuleError::UnsupportedFeature)));
}

#[test]
fn stage_visibility_covers_exactly_four_combinations() {
    let vf = StageSet { vertex: true, fragment: true, compute: false, other: false };
    let c = StageSet { vertex: false, fragment: false, compute: true, other: false };
    let v = StageSet { vertex: true, fragment: false, compute: false, other: false };
    let f = StageSet { vertex: false, fragment: true, compute: false, other: false };
    assert_eq!(mapper::stage_flags(vf), Some("wgpu::ShaderStages::VERTEX_FRAGMENT"));
    assert_eq!(mapper::stage_flags(c), Some("wgpu::ShaderStages::COMPUTE"));
    assert_eq!(mapper::stage_flags(v), Some("wgpu::ShaderStages::VERTEX"));
    assert_eq!(mapper::stage_flags(f), Some("wgpu::ShaderStages::FRAGMENT"));

    let mixed = StageSet { vertex: true, fragment: false, compute: true, other: false };
    let empty = StageSet { vertex: false, fragment: false, compute: false, other: false };
    assert_eq!(mapper::stage_flags(mixed), None);
    assert_eq!(mapper::stage_flags(empty), None);

    assert!(mapper::is_compute(c));
    assert!(!mapper::is_compute(vf));
    assert!(!mapper::is_compute(mixed));
}

#[test]
fn vertex_formats_carry_four_bytes_per_component() {
    assert_eq!(mapper::format_size(mapper::VertexFormat::Float32), 4);
    assert_eq!(mapper::format_size(mapper::VertexFormat::Float32x2), 8);
    assert_eq!(mapper::format_size(mapper::VertexFormat::Float32x3), 12);
    assert_eq!(mapper::format_size(mapper::VertexFormat::Float32x4), 16);
    assert_eq!(mapper::format_size(mapper::VertexFormat::Uint32x4), 16);
    assert_eq!(mapper::format_name(mapper::VertexFormat::Sint32x2), "Sint32x2");
}

#[test]
fn indent_prefixes_every_line() {
    assert_eq!(indent("a\nb", 4), "    a\n    b");
    assert_eq!(indent("a\n", 4), "    a");
    assert_eq!(indent("", 4), "");
    assert_eq!(indent("x", 2), "  x");
    assert_eq!(indent("a\n\nb", 1), " a\n \n b");
}

#[test]
fn write_indented_appends_a_line_break() {
    let mut out = String::new();
    write_indented(&mut out, 4, "pub x: f32,");
    assert_eq!(out, "    pub x: f32,\n");
    write_indented(&mut out, 0, "}");
    assert_eq!(out, "    pub x: f32,\n}\n");
}

#[test]
fn empty_shader_generates_empty_layout_list() {
    let source = "
        @fragment
        fn main() -> @location(0) vec4<f32> {
            return vec4<f32>(0.0);
        }
    ";

    let text = create_shader_module(source, "shader.wgsl").unwrap();
    assert!(text.contains("pub mod bind_groups {"));
    assert!(text.contains("pub fn create_pipeline_layout(device: &wgpu::Device) -> wgpu::PipelineLayout {"));
}
