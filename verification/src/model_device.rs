//! A self-contained graphics device: hands out handles from a counter,
//! accepts every non-empty shader, and records what was submitted.
//!
//! It lets the engine run end to end without hardware, and its bookkeeping
//! (submission count, last submitted work) is how a caller observes that the
//! engine issued exactly the device work it promised.

use vstd::prelude::*;

use crate::device::{
    log_empty, BglHandle, BindGroupHandle, BindTarget, BindingStyle, BlitterHandle, BufferHandle,
    CompileError, DeviceLog, FrameWork, GraphicsDevice, ModuleHandle, PipelineHandle, PllHandle,
    PreoutUsage, TextureFormat, TextureInfo, TextureViewHandle,
};
use crate::shader_config::{GPUAdapterInfo, ShaderLanguage};
use crate::versioned::{bump, spec_bump};

verus! {

/// How one allocation moves the device: the handed-out id is the next
/// fresh one, and nothing else changes.
pub open spec fn allocates_one(pre: ModelDevice, post: ModelDevice, id: u64) -> bool {
    &&& id == pre.spec_next_id()
    &&& post.spec_next_id() == spec_bump(pre.spec_next_id())
    &&& post.spec_submit_count() == pre.spec_submit_count()
    &&& post.spec_last_work() == pre.spec_last_work()
    &&& post.spec_freed_count() == pre.spec_freed_count()
    &&& post.spec_compile_count() == pre.spec_compile_count()
    &&& post.spec_last_compiled() == pre.spec_last_compiled()
}

/// A device left exactly as it was.
pub open spec fn device_unchanged(pre: ModelDevice, post: ModelDevice) -> bool {
    &&& post.spec_next_id() == pre.spec_next_id()
    &&& post.spec_submit_count() == pre.spec_submit_count()
    &&& post.spec_last_work() == pre.spec_last_work()
    &&& post.spec_freed_count() == pre.spec_freed_count()
    &&& post.spec_compile_count() == pre.spec_compile_count()
    &&& post.spec_last_compiled() == pre.spec_last_compiled()
}

/// A deterministic stand-in for real hardware.
pub struct ModelDevice {
    next_id: u64,
    submit_count: u64,
    last_work: Option<FrameWork>,
    freed_count: u64,
    compile_count: u64,
    last_compiled: Option<String>,
    log: Ghost<DeviceLog>,
}

impl ModelDevice {
    /// The id the next allocation will receive.
    pub closed spec fn spec_next_id(&self) -> u64 {
        self.next_id
    }

    /// How many command buffers were submitted so far.
    pub closed spec fn spec_submit_count(&self) -> u64 {
        self.submit_count
    }

    /// The most recently submitted work, if any.
    pub closed spec fn spec_last_work(&self) -> Option<FrameWork> {
        self.last_work
    }

    /// How many output textures were released so far.
    pub closed spec fn spec_freed_count(&self) -> u64 {
        self.freed_count
    }

    /// How many shader sources were handed to the compiler so far.
    pub closed spec fn spec_compile_count(&self) -> u64 {
        self.compile_count
    }

    /// The source most recently handed to the compiler, if any.
    pub closed spec fn spec_last_compiled(&self) -> Option<String> {
        self.last_compiled
    }

    /// A fresh device: ids start at 1, nothing asked of it yet.
    pub fn new() -> (d: Self)
        ensures
            d.spec_next_id() == 1,
            d.spec_submit_count() == 0,
            d.spec_last_work() is None,
            d.spec_freed_count() == 0,
            d.spec_compile_count() == 0,
            d.spec_last_compiled() is None,
            d.spec_log() == log_empty(),
    {
        ModelDevice {
            next_id: 1,
            submit_count: 0,
            last_work: None,
            freed_count: 0,
            compile_count: 0,
            last_compiled: None,
            log: Ghost(log_empty()),
        }
    }

    /// Takes the next fresh id.
    fn take_id(&mut self) -> (id: u64)
        ensures
            id == old(self).spec_next_id(),
            final(self).spec_next_id() == spec_bump(old(self).spec_next_id()),
            final(self).spec_submit_count() == old(self).spec_submit_count(),
            final(self).spec_last_work() == old(self).spec_last_work(),
            final(self).spec_freed_count() == old(self).spec_freed_count(),
            final(self).spec_compile_count() == old(self).spec_compile_count(),
            final(self).spec_last_compiled() == old(self).spec_last_compiled(),
            final(self).spec_log() == old(self).spec_log(),
    {
        let id = self.next_id;
        self.next_id = bump(self.next_id);
        id
    }

    pub fn submit_count(&self) -> (n: u64)
        ensures
            n == self.spec_submit_count(),
    {
        self.submit_count
    }

    pub fn last_work(&self) -> (w: &Option<FrameWork>)
        ensures
            *w == self.spec_last_work(),
    {
        &self.last_work
    }

    pub fn freed_count(&self) -> (n: u64)
        ensures
            n == self.spec_freed_count(),
    {
        self.freed_count
    }

    pub fn compile_count(&self) -> (n: u64)
        ensures
            n == self.spec_compile_count(),
    {
        self.compile_count
    }

    pub fn last_compiled(&self) -> (s: &Option<String>)
        ensures
            *s == self.spec_last_compiled(),
    {
        &self.last_compiled
    }
}

impl GraphicsDevice for ModelDevice {
    closed spec fn spec_log(&self) -> DeviceLog {
        self.log@
    }

    fn create_bind_group_layout(&mut self, hw: &GPUAdapterInfo, style: BindingStyle) -> (r:
        BglHandle)
        ensures
            allocates_one(*old(self), *final(self), r.id),
    {
        let r = BglHandle { id: self.take_id() };
        proof {
            self.log@ = self.log@.with_layout((*hw, style, r));
        }
        r
    }

    fn create_pipeline_layout(&mut self, hw: &GPUAdapterInfo, bgl: BglHandle) -> (r: PllHandle)
        ensures
            allocates_one(*old(self), *final(self), r.id),
    {
        let r = PllHandle { id: self.take_id() };
        proof {
            self.log@ = self.log@.with_pipeline_layout((*hw, bgl, r));
        }
        r
    }

    fn create_texture_view(
        &mut self,
        hw: &GPUAdapterInfo,
        size: (u32, u32),
        usage: PreoutUsage,
    ) -> (r: TextureViewHandle)
        ensures
            allocates_one(*old(self), *final(self), r.id),
    {
        let r = TextureViewHandle { id: self.take_id() };
        proof {
            self.log@ = self.log@.with_texture_view((*hw, size, usage, r));
        }
        r
    }

    fn create_bind_group(
        &mut self,
        hw: &GPUAdapterInfo,
        bgl: BglHandle,
        target: BindTarget,
    ) -> (r: BindGroupHandle)
        ensures
            allocates_one(*old(self), *final(self), r.id),
    {
        let r = BindGroupHandle { id: self.take_id() };
        proof {
            self.log@ = self.log@.with_bind_group((*hw, bgl, target, r));
        }
        r
    }

    fn create_uniform_buffer(&mut self, hw: &GPUAdapterInfo, size: u32) -> (r: BufferHandle)
        ensures
            allocates_one(*old(self), *final(self), r.id),
    {
        let r = BufferHandle { id: self.take_id() };
        proof {
            self.log@ = self.log@.with_uniform_buffer((*hw, size, r));
        }
        r
    }

    fn write_uniforms(&mut self, hw: &GPUAdapterInfo, buf: BufferHandle, dims: (u32, u32))
        ensures
            device_unchanged(*old(self), *final(self)),
    {
        proof {
            self.log@ = self.log@.with_uniform_write((*hw, buf, dims));
        }
    }

    fn create_blitter(&mut self, hw: &GPUAdapterInfo, format: TextureFormat) -> (r: BlitterHandle)
        ensures
            allocates_one(*old(self), *final(self), r.id),
    {
        let r = BlitterHandle { id: self.take_id() };
        proof {
            self.log@ = self.log@.with_blitter((*hw, format, r));
        }
        r
    }

    fn create_shader_module(
        &mut self,
        hw: &GPUAdapterInfo,
        text: &String,
        lang: ShaderLanguage,
    ) -> (r: Result<ModuleHandle, CompileError>)
        ensures
            final(self).spec_compile_count() == spec_bump(old(self).spec_compile_count()),
            final(self).spec_last_compiled() matches Some(s) && s@ == text@,
            final(self).spec_submit_count() == old(self).spec_submit_count(),
            final(self).spec_last_work() == old(self).spec_last_work(),
            final(self).spec_freed_count() == old(self).spec_freed_count(),
            text@.len() == 0 ==> (r matches Err(e) && e.message@ == "shader source is empty"@
                && final(self).spec_next_id() == old(self).spec_next_id()),
            text@.len() > 0 ==> (r matches Ok(m) && m.id == old(self).spec_next_id()
                && final(self).spec_next_id() == spec_bump(old(self).spec_next_id())),
    {
        self.compile_count = bump(self.compile_count);
        self.last_compiled = Some(text.clone());
        let r = if text.as_str().is_empty() {
            Err(CompileError { message: "shader source is empty".to_owned() })
        } else {
            Ok(ModuleHandle { id: self.take_id() })
        };
        proof {
            self.log@ = self.log@.with_compile((*hw, text@, lang, r));
        }
        r
    }

    fn create_compute_pipeline(
        &mut self,
        hw: &GPUAdapterInfo,
        layout: PllHandle,
        module: ModuleHandle,
        entry_point: &String,
    ) -> (r: PipelineHandle)
        ensures
            allocates_one(*old(self), *final(self), r.id),
    {
        let r = PipelineHandle { id: self.take_id() };
        proof {
            self.log@ = self.log@.with_compute_pipeline((*hw, layout, module, entry_point@, r));
        }
        r
    }

    fn create_render_pipeline(
        &mut self,
        hw: &GPUAdapterInfo,
        layout: PllHandle,
        vert_module: ModuleHandle,
        frag_module: ModuleHandle,
        format: TextureFormat,
        vert_entry: &String,
        frag_entry: &String,
    ) -> (r: Result<PipelineHandle, CompileError>)
        ensures
            r matches Ok(p) && allocates_one(*old(self), *final(self), p.id),
    {
        let r = Ok(PipelineHandle { id: self.take_id() });
        proof {
            self.log@ = self.log@.with_render_pipeline(
                (*hw, layout, vert_module, frag_module, format, vert_entry@, frag_entry@, r),
            );
        }
        r
    }

    fn submit_frame(&mut self, hw: &GPUAdapterInfo, work: FrameWork)
        ensures
            final(self).spec_submit_count() == spec_bump(old(self).spec_submit_count()),
            final(self).spec_last_work() == Some(work),
            final(self).spec_next_id() == old(self).spec_next_id(),
            final(self).spec_freed_count() == old(self).spec_freed_count(),
            final(self).spec_compile_count() == old(self).spec_compile_count(),
            final(self).spec_last_compiled() == old(self).spec_last_compiled(),
    {
        self.submit_count = bump(self.submit_count);
        self.last_work = Some(work);
        proof {
            self.log@ = self.log@.with_submit((*hw, work));
        }
    }

    fn create_output_texture(&mut self, size: (u32, u32)) -> (r: TextureInfo)
        ensures
            r.view.id == old(self).spec_next_id(),
            r.id == spec_bump(old(self).spec_next_id()),
            r.size == size,
            final(self).spec_next_id() == spec_bump(spec_bump(old(self).spec_next_id())),
            final(self).spec_submit_count() == old(self).spec_submit_count(),
            final(self).spec_last_work() == old(self).spec_last_work(),
            final(self).spec_freed_count() == old(self).spec_freed_count(),
            final(self).spec_compile_count() == old(self).spec_compile_count(),
            final(self).spec_last_compiled() == old(self).spec_last_compiled(),
    {
        let view = TextureViewHandle { id: self.take_id() };
        let id = self.take_id();
        let r = TextureInfo { view, id, size };
        proof {
            self.log@ = self.log@.with_output_texture((size, r));
        }
        r
    }

    fn free_output_texture(&mut self, id: u64)
        ensures
            final(self).spec_freed_count() == spec_bump(old(self).spec_freed_count()),
            final(self).spec_next_id() == old(self).spec_next_id(),
            final(self).spec_submit_count() == old(self).spec_submit_count(),
            final(self).spec_last_work() == old(self).spec_last_work(),
            final(self).spec_compile_count() == old(self).spec_compile_count(),
            final(self).spec_last_compiled() == old(self).spec_last_compiled(),
    {
        self.freed_count = bump(self.freed_count);
        proof {
            self.log@ = self.log@.with_free(id);
        }
    }
}

} // verus!
