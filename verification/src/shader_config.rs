//! The immutable shader snapshot that the producer sends wholesale per
//! update, and the hardware handle that names the device it runs on.

use vstd::prelude::*;

use crate::versioned::ContentEq;

verus! {

/// Entry point of the compute shader path.
pub const WGSL_ENTRY: &'static str = "main";

/// Entry point of the built-in vertex shader.
pub const WGSL_VERT_ENTRY: &'static str = "vs_main";

/// Entry point of the fragment shader path.
pub const WGSL_FRAG_ENTRY: &'static str = "fs_main";

/// Source dialect of a shader snapshot.
#[derive(Clone, Copy, PartialEq, Eq, Structural, Debug)]
pub enum ShaderLanguage {
    Wgsl,
}

impl ContentEq for ShaderLanguage {
    open spec fn eqv(&self, other: &Self) -> bool {
        *self == *other
    }

    fn eq_content(&self, other: &Self) -> (r: bool)
        ensures
            r == self.eqv(other),
    {
        match (self, other) {
            (ShaderLanguage::Wgsl, ShaderLanguage::Wgsl) => true,
        }
    }
}

/// Which backend variant renders the shader.
#[derive(Clone, Copy, PartialEq, Eq, Structural, Debug)]
pub enum ShaderBackend {
    FullCompute,
    FullFragment,
    General,
}

/// An immutable shader snapshot: a change to any field requires resending
/// the whole structure.
pub struct ShaderConfig {
    pub content: String,
    pub language: ShaderLanguage,
    pub backend: ShaderBackend,
}

impl ShaderConfig {
    /// An owned copy with the same content.
    pub fn duplicate(&self) -> (c: Self)
        ensures
            c.content@ == self.content@,
            c.language == self.language,
            c.backend == self.backend,
    {
        ShaderConfig {
            content: self.content.clone(),
            language: self.language,
            backend: self.backend,
        }
    }
}

impl Default for ShaderConfig {
    /// The fragment-backend starter shader.
    fn default() -> (c: Self)
        ensures
            c.content@ == default_fragment_source_spec(),
            c.language == ShaderLanguage::Wgsl,
            c.backend == ShaderBackend::FullFragment,
    {
        ShaderConfig {
            content: default_fragment_source().to_owned(),
            language: ShaderLanguage::Wgsl,
            backend: ShaderBackend::FullFragment,
        }
    }
}

/// The starter fragment shader: paints a plain gradient over the target.
pub fn default_fragment_source() -> (s: &'static str)
    ensures
        s@ == default_fragment_source_spec(),
{
    "@group(0) @binding(0) var<uniform> dims: vec2u;\n@fragment\nfn fs_main(@builtin(position) pos: vec4f) -> @location(0) vec4f {\n    let uv = pos.xy / vec2f(dims);\n    return vec4f(uv, 0.5, 1.0);\n}\n"
}

/// The characters of the starter fragment shader.
pub open spec fn default_fragment_source_spec() -> Seq<char> {
    "@group(0) @binding(0) var<uniform> dims: vec2u;\n@fragment\nfn fs_main(@builtin(position) pos: vec4f) -> @location(0) vec4f {\n    let uv = pos.xy / vec2f(dims);\n    return vec4f(uv, 0.5, 1.0);\n}\n"@
}

/// The starter compute shader: paints a plain gradient into the storage
/// texture.
pub fn default_compute_source() -> (s: &'static str)
    ensures
        s@ == default_compute_source_spec(),
{
    "@group(0) @binding(0) var target: texture_storage_2d<rgba8unorm, write>;\n@compute @workgroup_size(16, 16)\nfn main(@builtin(global_invocation_id) id: vec3u) {\n    let dims = textureDimensions(target);\n    if (id.x < dims.x && id.y < dims.y) {\n        let uv = vec2f(id.xy) / vec2f(dims);\n        textureStore(target, id.xy, vec4f(uv, 0.5, 1.0));\n    }\n}\n"
}

/// The characters of the starter compute shader.
pub open spec fn default_compute_source_spec() -> Seq<char> {
    "@group(0) @binding(0) var target: texture_storage_2d<rgba8unorm, write>;\n@compute @workgroup_size(16, 16)\nfn main(@builtin(global_invocation_id) id: vec3u) {\n    let dims = textureDimensions(target);\n    if (id.x < dims.x && id.y < dims.y) {\n        let uv = vec2f(id.xy) / vec2f(dims);\n        textureStore(target, id.xy, vec4f(uv, 0.5, 1.0));\n    }\n}\n"@
}

/// The built-in vertex shader of the fragment backend: one full-screen
/// triangle.
pub fn default_vertex_source() -> (s: &'static str)
    ensures
        s@ == default_vertex_source_spec(),
{
    "@vertex\nfn vs_main(@builtin(vertex_index) i: u32) -> @builtin(position) vec4f {\n    let x = f32(i32(i) - 1);\n    let y = f32(i32(i & 1u) * 2 - 1);\n    return vec4f(x * 3.0, y * 3.0, 0.0, 1.0);\n}\n"
}

/// The characters of the built-in vertex shader.
pub open spec fn default_vertex_source_spec() -> Seq<char> {
    "@vertex\nfn vs_main(@builtin(vertex_index) i: u32) -> @builtin(position) vec4f {\n    let x = f32(i32(i) - 1);\n    let y = f32(i32(i & 1u) * 2 - 1);\n    return vec4f(x * 3.0, y * 3.0, 0.0, 1.0);\n}\n"@
}

/// The hardware handle: a device and its queue, as the runtime that owns the
/// real objects names them. The engine never looks inside; it only threads
/// the handle through its stages and hands it back with each device request.
#[derive(Clone, Copy, PartialEq, Eq, Structural, Debug)]
pub struct GPUAdapterInfo {
    pub device_id: u64,
    pub queue_id: u64,
}

} // verus!
