//! Shader compilation is an external collaborator: a black-box compiler
//! takes a source path and a stage and returns bytecode plus an entry
//! point.  What the renderer decides — which stage macro, entry point
//! and source language each compile uses — is fixed here.

use vstd::prelude::*;

verus! {

/// The programmable stage a shader source is compiled for.
#[derive(Debug, Clone, Copy, PartialEq, Eq, Structural)]
pub enum ShaderType {
    Vertex,
    Fragment,
    Compute,
}

/// The language the shader source is written in.
#[derive(Debug, Clone, Copy, PartialEq, Eq, Structural)]
pub enum ShaderSourceLanguage {
    Glsl,
    Hlsl,
}

/// What one compiler invocation is configured with: the macro that
/// selects the stage's code in the shared source file, and the entry
/// point the compiled module is entered through.
#[derive(Debug, Clone)]
pub struct ShaderCompileConfig {
    pub language: ShaderSourceLanguage,
    pub stage_macro: &'static str,
    pub entry_point: &'static str,
}

/// Configure a compile: each stage defines its frequency macro; shared
/// sources use one `main` entry point, while the HLSL path names the
/// entry point per stage.
pub fn shader_compile_config(shader_type: ShaderType, language: ShaderSourceLanguage) -> (r:
    ShaderCompileConfig)
    ensures
        r.language == language,
        shader_type is Vertex ==> r.stage_macro@ == "SHADER_FREQUENCY_VERTEX"@,
        shader_type is Fragment ==> r.stage_macro@ == "SHADER_FREQUENCY_FRAGMENT"@,
        shader_type is Compute ==> r.stage_macro@ == "SHADER_FREQUENCY_COMPUTE"@,
        language is Glsl ==> r.entry_point@ == "main"@,
        language is Hlsl ==> {
            &&& (shader_type is Vertex ==> r.entry_point@ == "vert"@)
            &&& (shader_type is Fragment ==> r.entry_point@ == "frag"@)
            &&& (shader_type is Compute ==> r.entry_point@ == "comp"@)
        },
{
    let stage_macro: &'static str = match shader_type {
        ShaderType::Vertex => "SHADER_FREQUENCY_VERTEX",
        ShaderType::Fragment => "SHADER_FREQUENCY_FRAGMENT",
        ShaderType::Compute => "SHADER_FREQUENCY_COMPUTE",
    };
    let entry_point: &'static str = match language {
        ShaderSourceLanguage::Glsl => "main",
        ShaderSourceLanguage::Hlsl => match shader_type {
            ShaderType::Vertex => "vert",
            ShaderType::Fragment => "frag",
            ShaderType::Compute => "comp",
        },
    };
    ShaderCompileConfig { language, stage_macro, entry_point }
}

} // verus!
