//! Generates typed Rust bindings from WGSL shaders: reflection of the
//! shader's resource interface, structural validation, and deterministic
//! emission of the host-side source text.
use vstd::prelude::*;

pub mod emit;
pub mod ir;
pub mod laws;
pub mod mapper;
pub mod model;
pub mod reflect;
pub mod validate;
pub mod text;

verus! {

/// Errors while generating Rust source for a WGSL shader module.
#[derive(Debug, Clone, Copy, PartialEq, Eq, Structural)]
pub enum CreateModuleError {
    /// Bind group sets must be consecutive and start from 0.
    NonConsecutiveBindGroups,
    /// Each binding resource must be associated with exactly one binding index.
    DuplicateBinding { binding: u32 },
    /// The shader uses a type shape, image class, access mode or stage
    /// combination that the generator does not support.
    UnsupportedFeature,
}

/// How the outcome of a generation call relates to the reflection model the
/// shader parsed to: the result is exactly what the verified generation
/// pipeline yields for that model and the given source path.
pub open spec fn generated_from(
    r: Result<String, CreateModuleError>,
    info: model::ShaderInfoV,
    wgsl_path: Seq<char>,
) -> bool {
    match emit::spec_generate(info, wgsl_path) {
        Ok(t) => r matches Ok(s) && s@ == t,
        Err(e) => r == Err::<String, CreateModuleError>(e),
    }
}

/// The reflection model a WGSL source text parses to.
pub open spec fn parsed_model(wgsl_source: Seq<char>) -> model::ShaderInfoV {
    model::spec_reflect(
        ir::parsed_globals(wgsl_source),
        ir::parsed_types(wgsl_source),
        ir::parsed_entry_points(wgsl_source),
    )
}

/// Parses the WGSL shader from `wgsl_source` and returns the generated Rust
/// module's source code.
///
/// The `wgsl_path` should be a valid path for the source-embedding macro
/// used in the generated file.
///
/// The input must be parseable WGSL; [`try_create_shader_module`] checks
/// that first and works on any input.  The result is exactly the verified
/// generation pipeline's outcome for the model the source parses to: the
/// full generated source on success, and otherwise the first structural
/// error (non-consecutive bind groups, or a duplicated binding index) or
/// the unsupported-feature error.
pub fn create_shader_module(wgsl_source: &str, wgsl_path: &str) -> (r: Result<
    String,
    CreateModuleError,
>)
    requires
        ir::wgsl_parses(wgsl_source@),
    ensures
        generated_from(r, parsed_model(wgsl_source@), wgsl_path@),
{
    match ir::parse_wgsl(wgsl_source) {
        Some(module) => {
            let info = reflect::reflect_module(&module);
            emit::generate_shader_text(&info, wgsl_path)
        },
        None => {
            // The precondition says the parser accepts this source, so this
            // arm cannot be reached.
            proof {
                assert(false);
            }
            Err(CreateModuleError::UnsupportedFeature)
        },
    }
}

/// Like [`create_shader_module`], but checks first whether the source is
/// parseable WGSL: nothing is generated for a source the parser rejects.
pub fn try_create_shader_module(wgsl_source: &str, wgsl_path: &str) -> (r: Option<
    Result<String, CreateModuleError>,
>)
    ensures
        match r {
            Some(res) => ir::wgsl_parses(wgsl_source@) && generated_from(
                res,
                parsed_model(wgsl_source@),
                wgsl_path@,
            ),
            None => !ir::wgsl_parses(wgsl_source@),
        },
{
    match ir::parse_wgsl(wgsl_source) {
        Some(_module) => Some(create_shader_module(wgsl_source, wgsl_path)),
        None => None,
    }
}

} // verus!
