//! The opaque graphics-device collaborator.
//!
//! The engine's own subject is the incremental bookkeeping: which resource
//! must be rebuilt, and when a frame must actually be drawn or copied. The
//! device work itself — allocating textures, compiling shader modules,
//! submitting command buffers — is hardware I/O that a runtime performs
//! through [`GraphicsDevice`]. Every resource is named here by a plain
//! handle; the runtime keeps the real objects and resolves handles to them.
//! [`crate::model_device::ModelDevice`] is a self-contained implementation
//! used to exercise the engine without hardware.

use vstd::prelude::*;

use crate::shader_config::{GPUAdapterInfo, ShaderLanguage};
use crate::versioned::ContentEq;

verus! {

/// A compiled shader module held by the runtime.
#[derive(Clone, Copy, PartialEq, Eq, Structural, Debug)]
pub struct ModuleHandle {
    pub id: u64,
}

/// A bind-group layout held by the runtime.
#[derive(Clone, Copy, PartialEq, Eq, Structural, Debug)]
pub struct BglHandle {
    pub id: u64,
}

/// A pipeline layout held by the runtime.
#[derive(Clone, Copy, PartialEq, Eq, Structural, Debug)]
pub struct PllHandle {
    pub id: u64,
}

/// A compute or render pipeline held by the runtime.
#[derive(Clone, Copy, PartialEq, Eq, Structural, Debug)]
pub struct PipelineHandle {
    pub id: u64,
}

/// A bind group held by the runtime.
#[derive(Clone, Copy, PartialEq, Eq, Structural, Debug)]
pub struct BindGroupHandle {
    pub id: u64,
}

/// A texture view held by the runtime.
#[derive(Clone, Copy, PartialEq, Eq, Structural, Debug)]
pub struct TextureViewHandle {
    pub id: u64,
}

/// A texture-to-texture copy helper held by the runtime.
#[derive(Clone, Copy, PartialEq, Eq, Structural, Debug)]
pub struct BlitterHandle {
    pub id: u64,
}

/// A uniform buffer held by the runtime.
#[derive(Clone, Copy, PartialEq, Eq, Structural, Debug)]
pub struct BufferHandle {
    pub id: u64,
}

/// A validation failure reported by the device's error-capture scope.
#[derive(PartialEq, Eq, Debug)]
pub struct CompileError {
    pub message: String,
}

impl CompileError {
    /// An owned copy with the same message.
    pub fn duplicate(&self) -> (e: Self)
        ensures
            e.message@ == self.message@,
    {
        CompileError { message: self.message.clone() }
    }
}

/// Pixel format of a texture the engine asks for.
#[derive(Clone, Copy, PartialEq, Eq, Structural, Debug)]
pub enum TextureFormat {
    Rgba8Unorm,
}

impl ContentEq for TextureFormat {
    open spec fn eqv(&self, other: &Self) -> bool {
        *self == *other
    }

    fn eq_content(&self, other: &Self) -> (r: bool)
        ensures
            r == self.eqv(other),
    {
        match (self, other) {
            (TextureFormat::Rgba8Unorm, TextureFormat::Rgba8Unorm) => true,
        }
    }
}

/// How the intermediate texture will be used, per backend variant.
#[derive(Clone, Copy, PartialEq, Eq, Structural, Debug)]
pub enum PreoutUsage {
    /// Written by a compute pass as a storage texture.
    ComputeTarget,
    /// Written by a render pass as a color attachment.
    FragmentTarget,
}

/// What a bind-group layout binds.
#[derive(Clone, Copy, PartialEq, Eq, Structural, Debug)]
pub enum BindingStyle {
    /// One write-only storage texture, visible to compute.
    StorageTexture,
    /// One uniform buffer, visible to fragment.
    UniformBuffer,
}

/// The single resource a bind group points at.
#[derive(Clone, Copy, PartialEq, Eq, Structural, Debug)]
pub enum BindTarget {
    TextureView(TextureViewHandle),
    Buffer(BufferHandle),
}

/// The recompute half of a frame submission.
#[derive(Clone, Copy, PartialEq, Eq, Debug)]
pub enum RecomputePass {
    /// Dispatch the compute pipeline over the given workgroup grid.
    Compute { pipeline: PipelineHandle, bind_group: BindGroupHandle, workgroups: (u32, u32) },
    /// Draw one full-target triangle pass into the intermediate view.
    Render { pipeline: PipelineHandle, bind_group: BindGroupHandle, target: TextureViewHandle },
}

/// The present half of a frame submission: copy the intermediate view into
/// the externally supplied output view.
#[derive(Clone, Copy, PartialEq, Eq, Structural, Debug)]
pub struct CopyPass {
    pub blitter: BlitterHandle,
    pub src: TextureViewHandle,
    pub dst: TextureViewHandle,
}

/// One tick's device work, batched into a single command-buffer submission:
/// the recompute pass is encoded first, the copy second, then one submit.
#[derive(Clone, Copy, PartialEq, Eq, Debug)]
pub struct FrameWork {
    pub recompute: Option<RecomputePass>,
    pub copy: Option<CopyPass>,
}

/// An output target slot of the double buffer: the view the engine copies
/// into, the identifier under which the runtime's presenter knows the
/// texture, and the size it was allocated at.
#[derive(Clone, Copy, PartialEq, Eq, Debug)]
pub struct TextureInfo {
    pub view: TextureViewHandle,
    pub id: u64,
    pub size: (u32, u32),
}

/// Everything a device was asked to do, per request kind and in order;
/// each record holds the request's arguments together with the returned
/// value. The engine's contracts speak of this log to say exactly which
/// requests a tick issues — and that what the engine caches is what the
/// device returned.
pub struct DeviceLog {
    pub layouts: Seq<(GPUAdapterInfo, BindingStyle, BglHandle)>,
    pub pipeline_layouts: Seq<(GPUAdapterInfo, BglHandle, PllHandle)>,
    pub texture_views: Seq<(GPUAdapterInfo, (u32, u32), PreoutUsage, TextureViewHandle)>,
    pub bind_groups: Seq<(GPUAdapterInfo, BglHandle, BindTarget, BindGroupHandle)>,
    pub uniform_buffers: Seq<(GPUAdapterInfo, u32, BufferHandle)>,
    pub uniform_writes: Seq<(GPUAdapterInfo, BufferHandle, (u32, u32))>,
    pub blitters: Seq<(GPUAdapterInfo, TextureFormat, BlitterHandle)>,
    pub compiles: Seq<(GPUAdapterInfo, Seq<char>, ShaderLanguage, Result<ModuleHandle, CompileError>)>,
    pub compute_pipelines: Seq<(GPUAdapterInfo, PllHandle, ModuleHandle, Seq<char>, PipelineHandle)>,
    pub render_pipelines: Seq<(GPUAdapterInfo, PllHandle, ModuleHandle, ModuleHandle, TextureFormat, Seq<char>, Seq<char>, Result<PipelineHandle, CompileError>)>,
    pub submits: Seq<(GPUAdapterInfo, FrameWork)>,
    pub output_textures: Seq<((u32, u32), TextureInfo)>,
    pub frees: Seq<u64>,
}

/// The log of a device that was asked nothing yet.
pub open spec fn log_empty() -> DeviceLog {
    DeviceLog {
        layouts: Seq::empty(),
        pipeline_layouts: Seq::empty(),
        texture_views: Seq::empty(),
        bind_groups: Seq::empty(),
        uniform_buffers: Seq::empty(),
        uniform_writes: Seq::empty(),
        blitters: Seq::empty(),
        compiles: Seq::empty(),
        compute_pipelines: Seq::empty(),
        render_pipelines: Seq::empty(),
        submits: Seq::empty(),
        output_textures: Seq::empty(),
        frees: Seq::empty(),
    }
}

impl DeviceLog {
    /// This log with one more `layout` request on record.
    pub open spec fn with_layout(self, rec: (GPUAdapterInfo, BindingStyle, BglHandle)) -> DeviceLog {
        DeviceLog {
            layouts: self.layouts.push(rec),
            pipeline_layouts: self.pipeline_layouts,
            texture_views: self.texture_views,
            bind_groups: self.bind_groups,
            uniform_buffers: self.uniform_buffers,
            uniform_writes: self.uniform_writes,
            blitters: self.blitters,
            compiles: self.compiles,
            compute_pipelines: self.compute_pipelines,
            render_pipelines: self.render_pipelines,
            submits: self.submits,
            output_textures: self.output_textures,
            frees: self.frees,
        }
    }

    /// This log with one more `pipeline layout` request on record.
    pub open spec fn with_pipeline_layout(self, rec: (GPUAdapterInfo, BglHandle, PllHandle)) -> DeviceLog {
        DeviceLog {
            layouts: self.layouts,
            pipeline_layouts: self.pipeline_layouts.push(rec),
            texture_views: self.texture_views,
            bind_groups: self.bind_groups,
            uniform_buffers: self.uniform_buffers,
            uniform_writes: self.uniform_writes,
            blitters: self.blitters,
            compiles: self.compiles,
            compute_pipelines: self.compute_pipelines,
            render_pipelines: self.render_pipelines,
            submits: self.submits,
            output_textures: self.output_textures,
            frees: self.frees,
        }
    }

    /// This log with one more `texture view` request on record.
    pub open spec fn with_texture_view(self, rec: (GPUAdapterInfo, (u32, u32), PreoutUsage, TextureViewHandle)) -> DeviceLog {
        DeviceLog {
            layouts: self.layouts,
            pipeline_layouts: self.pipeline_layouts,
            texture_views: self.texture_views.push(rec),
            bind_groups: self.bind_groups,
            uniform_buffers: self.uniform_buffers,
            uniform_writes: self.uniform_writes,
            blitters: self.blitters,
            compiles: self.compiles,
            compute_pipelines: self.compute_pipelines,
            render_pipelines: self.render_pipelines,
            submits: self.submits,
            output_textures: self.output_textures,
            frees: self.frees,
        }
    }

    /// This log with one more `bind group` request on record.
    pub open spec fn with_bind_group(self, rec: (GPUAdapterInfo, BglHandle, BindTarget, BindGroupHandle)) -> DeviceLog {
        DeviceLog {
            layouts: self.layouts,
            pipeline_layouts: self.pipeline_layouts,
            texture_views: self.texture_views,
            bind_groups: self.bind_groups.push(rec),
            uniform_buffers: self.uniform_buffers,
            uniform_writes: self.uniform_writes,
            blitters: self.blitters,
            compiles: self.compiles,
            compute_pipelines: self.compute_pipelines,
            render_pipelines: self.render_pipelines,
            submits: self.submits,
            output_textures: self.output_textures,
            frees: self.frees,
        }
    }

    /// This log with one more `uniform buffer` request on record.
    pub open spec fn with_uniform_buffer(self, rec: (GPUAdapterInfo, u32, BufferHandle)) -> DeviceLog {
        DeviceLog {
            layouts: self.layouts,
            pipeline_layouts: self.pipeline_layouts,
            texture_views: self.texture_views,
            bind_groups: self.bind_groups,
            uniform_buffers: self.uniform_buffers.push(rec),
            uniform_writes: self.uniform_writes,
            blitters: self.blitters,
            compiles: self.compiles,
            compute_pipelines: self.compute_pipelines,
            render_pipelines: self.render_pipelines,
            submits: self.submits,
            output_textures: self.output_textures,
            frees: self.frees,
        }
    }

    /// This log with one more `uniform write` request on record.
    pub open spec fn with_uniform_write(self, rec: (GPUAdapterInfo, BufferHandle, (u32, u32))) -> DeviceLog {
        DeviceLog {
            layouts: self.layouts,
            pipeline_layouts: self.pipeline_layouts,
            texture_views: self.texture_views,
            bind_groups: self.bind_groups,
            uniform_buffers: self.uniform_buffers,
            uniform_writes: self.uniform_writes.push(rec),
            blitters: self.blitters,
            compiles: self.compiles,
            compute_pipelines: self.compute_pipelines,
            render_pipelines: self.render_pipelines,
            submits: self.submits,
            output_textures: self.output_textures,
            frees: self.frees,
        }
    }

    /// This log with one more `blitter` request on record.
    pub open spec fn with_blitter(self, rec: (GPUAdapterInfo, TextureFormat, BlitterHandle)) -> DeviceLog {
        DeviceLog {
            layouts: self.layouts,
            pipeline_layouts: self.pipeline_layouts,
            texture_views: self.texture_views,
            bind_groups: self.bind_groups,
            uniform_buffers: self.uniform_buffers,
            uniform_writes: self.uniform_writes,
            blitters: self.blitters.push(rec),
            compiles: self.compiles,
            compute_pipelines: self.compute_pipelines,
            render_pipelines: self.render_pipelines,
            submits: self.submits,
            output_textures: self.output_textures,
            frees: self.frees,
        }
    }

    /// This log with one more `compile` request on record.
    pub open spec fn with_compile(self, rec: (GPUAdapterInfo, Seq<char>, ShaderLanguage, Result<ModuleHandle, CompileError>)) -> DeviceLog {
        DeviceLog {
            layouts: self.layouts,
            pipeline_layouts: self.pipeline_layouts,
            texture_views: self.texture_views,
            bind_groups: self.bind_groups,
            uniform_buffers: self.uniform_buffers,
            uniform_writes: self.uniform_writes,
            blitters: self.blitters,
            compiles: self.compiles.push(rec),
            compute_pipelines: self.compute_pipelines,
            render_pipelines: self.render_pipelines,
            submits: self.submits,
            output_textures: self.output_textures,
            frees: self.frees,
        }
    }

    /// This log with one more `compute pipeline` request on record.
    pub open spec fn with_compute_pipeline(self, rec: (GPUAdapterInfo, PllHandle, ModuleHandle, Seq<char>, PipelineHandle)) -> DeviceLog {
        DeviceLog {
            layouts: self.layouts,
            pipeline_layouts: self.pipeline_layouts,
            texture_views: self.texture_views,
            bind_groups: self.bind_groups,
            uniform_buffers: self.uniform_buffers,
            uniform_writes: self.uniform_writes,
            blitters: self.blitters,
            compiles: self.compiles,
            compute_pipelines: self.compute_pipelines.push(rec),
            render_pipelines: self.render_pipelines,
            submits: self.submits,
            output_textures: self.output_textures,
            frees: self.frees,
        }
    }

    /// This log with one more `render pipeline` request on record.
    pub open spec fn with_render_pipeline(self, rec: (GPUAdapterInfo, PllHandle, ModuleHandle, ModuleHandle, TextureFormat, Seq<char>, Seq<char>, Result<PipelineHandle, CompileError>)) -> DeviceLog {
        DeviceLog {
            layouts: self.layouts,
            pipeline_layouts: self.pipeline_layouts,
            texture_views: self.texture_views,
            bind_groups: self.bind_groups,
            uniform_buffers: self.uniform_buffers,
            uniform_writes: self.uniform_writes,
            blitters: self.blitters,
            compiles: self.compiles,
            compute_pipelines: self.compute_pipelines,
            render_pipelines: self.render_pipelines.push(rec),
            submits: self.submits,
            output_textures: self.output_textures,
            frees: self.frees,
        }
    }

    /// This log with one more `submit` request on record.
    pub open spec fn with_submit(self, rec: (GPUAdapterInfo, FrameWork)) -> DeviceLog {
        DeviceLog {
            layouts: self.layouts,
            pipeline_layouts: self.pipeline_layouts,
            texture_views: self.texture_views,
            bind_groups: self.bind_groups,
            uniform_buffers: self.uniform_buffers,
            uniform_writes: self.uniform_writes,
            blitters: self.blitters,
            compiles: self.compiles,
            compute_pipelines: self.compute_pipelines,
            render_pipelines: self.render_pipelines,
            submits: self.submits.push(rec),
            output_textures: self.output_textures,
            frees: self.frees,
        }
    }

    /// This log with one more `output texture` request on record.
    pub open spec fn with_output_texture(self, rec: ((u32, u32), TextureInfo)) -> DeviceLog {
        DeviceLog {
            layouts: self.layouts,
            pipeline_layouts: self.pipeline_layouts,
            texture_views: self.texture_views,
            bind_groups: self.bind_groups,
            uniform_buffers: self.uniform_buffers,
            uniform_writes: self.uniform_writes,
            blitters: self.blitters,
            compiles: self.compiles,
            compute_pipelines: self.compute_pipelines,
            render_pipelines: self.render_pipelines,
            submits: self.submits,
            output_textures: self.output_textures.push(rec),
            frees: self.frees,
        }
    }

    /// This log with one more `free` request on record.
    pub open spec fn with_free(self, rec: u64) -> DeviceLog {
        DeviceLog {
            layouts: self.layouts,
            pipeline_layouts: self.pipeline_layouts,
            texture_views: self.texture_views,
            bind_groups: self.bind_groups,
            uniform_buffers: self.uniform_buffers,
            uniform_writes: self.uniform_writes,
            blitters: self.blitters,
            compiles: self.compiles,
            compute_pipelines: self.compute_pipelines,
            render_pipelines: self.render_pipelines,
            submits: self.submits,
            output_textures: self.output_textures,
            frees: self.frees.push(rec),
        }
    }
}

/// Operations the engine requests of a graphics runtime.
///
/// Every returned handle is opaque: no contract constrains what a handle
/// is. What each method does promise is its entry in the request log —
/// exactly one record of its own kind, carrying the arguments and the
/// returned value, and nothing else — so that a caller's postconditions
/// can pin down which requests it issued.
pub trait GraphicsDevice {
    /// Everything this device was asked to do so far. Every implementation
    /// the verifier sees must override this with an honest record to meet
    /// the methods' log-growth contracts, as the model device does; the
    /// default exists only so that a runtime outside the verifier's view,
    /// which keeps no ghost record, can still implement the trait.
    open spec fn spec_log(&self) -> DeviceLog {
        log_empty()
    }

    /// One-entry bind-group layout of the given style.
    fn create_bind_group_layout(&mut self, hw: &GPUAdapterInfo, style: BindingStyle) -> (r:
        BglHandle)
        ensures
            final(self).spec_log() == old(self).spec_log().with_layout((*hw, style, r)),
    ;

    /// Pipeline layout over one bind-group layout.
    fn create_pipeline_layout(&mut self, hw: &GPUAdapterInfo, bgl: BglHandle) -> (r: PllHandle)
        ensures
            final(self).spec_log() == old(self).spec_log().with_pipeline_layout((*hw, bgl, r)),
    ;

    /// The intermediate (pre-output) texture and its view.
    fn create_texture_view(
        &mut self,
        hw: &GPUAdapterInfo,
        size: (u32, u32),
        usage: PreoutUsage,
    ) -> (r: TextureViewHandle)
        ensures
            final(self).spec_log() == old(self).spec_log().with_texture_view(
                (*hw, size, usage, r),
            ),
    ;

    /// Bind group pointing the layout's single entry at `target`.
    fn create_bind_group(
        &mut self,
        hw: &GPUAdapterInfo,
        bgl: BglHandle,
        target: BindTarget,
    ) -> (r: BindGroupHandle)
        ensures
            final(self).spec_log() == old(self).spec_log().with_bind_group(
                (*hw, bgl, target, r),
            ),
    ;

    /// Uniform buffer of the given byte size.
    fn create_uniform_buffer(&mut self, hw: &GPUAdapterInfo, size: u32) -> (r: BufferHandle)
        ensures
            final(self).spec_log() == old(self).spec_log().with_uniform_buffer((*hw, size, r)),
    ;

    /// Writes the output dimensions into the uniform buffer.
    fn write_uniforms(&mut self, hw: &GPUAdapterInfo, buf: BufferHandle, dims: (u32, u32))
        ensures
            final(self).spec_log() == old(self).spec_log().with_uniform_write((*hw, buf, dims)),
    ;

    /// Texture-to-texture copy helper for the given output format.
    fn create_blitter(&mut self, hw: &GPUAdapterInfo, format: TextureFormat) -> (r: BlitterHandle)
        ensures
            final(self).spec_log() == old(self).spec_log().with_blitter((*hw, format, r)),
    ;

    /// Compiles a shader module inside a validation error-capture scope;
    /// an `Err` is the captured failure, not a halt.
    fn create_shader_module(
        &mut self,
        hw: &GPUAdapterInfo,
        text: &String,
        lang: ShaderLanguage,
    ) -> (r: Result<ModuleHandle, CompileError>)
        ensures
            final(self).spec_log() == old(self).spec_log().with_compile((*hw, text@, lang, r)),
    ;

    /// Compute pipeline over the compiled module.
    fn create_compute_pipeline(
        &mut self,
        hw: &GPUAdapterInfo,
        layout: PllHandle,
        module: ModuleHandle,
        entry_point: &String,
    ) -> (r: PipelineHandle)
        ensures
            final(self).spec_log() == old(self).spec_log().with_compute_pipeline(
                (*hw, layout, module, entry_point@, r),
            ),
    ;

    /// Render pipeline over the vertex and fragment modules, inside a
    /// validation error-capture scope.
    fn create_render_pipeline(
        &mut self,
        hw: &GPUAdapterInfo,
        layout: PllHandle,
        vert_module: ModuleHandle,
        frag_module: ModuleHandle,
        format: TextureFormat,
        vert_entry: &String,
        frag_entry: &String,
    ) -> (r: Result<PipelineHandle, CompileError>)
        ensures
            final(self).spec_log() == old(self).spec_log().with_render_pipeline(
                (*hw, layout, vert_module, frag_module, format, vert_entry@, frag_entry@, r),
            ),
    ;

    /// Encodes the passes of `work` and submits them as one command buffer.
    fn submit_frame(&mut self, hw: &GPUAdapterInfo, work: FrameWork)
        ensures
            final(self).spec_log() == old(self).spec_log().with_submit((*hw, work)),
    ;

    /// Allocates a displayable output texture for the double buffer and
    /// registers it with the runtime's presenter.
    fn create_output_texture(&mut self, size: (u32, u32)) -> (r: TextureInfo)
        ensures
            final(self).spec_log() == old(self).spec_log().with_output_texture((size, r)),
    ;

    /// Releases a displayable output texture previously allocated.
    fn free_output_texture(&mut self, id: u64)
        ensures
            final(self).spec_log() == old(self).spec_log().with_free(id),
    ;
}

} // verus!
