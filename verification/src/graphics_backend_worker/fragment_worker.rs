//! The fragment backend: rebuilds a render pipeline around the user's
//! fragment shader and draws one full-target triangle pass into the
//! intermediate texture, then copies it to the output view.

use vstd::prelude::*;

use crate::device::{
    BindTarget, BindingStyle, BglHandle, BindGroupHandle, BlitterHandle, BufferHandle, CompileError,
    CopyPass, DeviceLog, FrameWork, GraphicsDevice, ModuleHandle, PipelineHandle, PllHandle,
    PreoutUsage, RecomputePass, TextureFormat, TextureViewHandle,
};
use crate::gate::{gate_fresh, gate_step_rel, vgate_fresh, vgate_step_rel, DirtyGate, VersionedGate};
use crate::memo::{stage_fresh, stage_step_rel, tuple1, tuple2, tuple3, tuple5, tuple7, Stage};
use crate::shader_config::{
    default_vertex_source, default_vertex_source_spec, GPUAdapterInfo, ShaderLanguage,
    WGSL_VERT_ENTRY,
};
use crate::versioned::{cell_fresh, spec_bump, VersionedCell};

verus! {

/// Per-tick state of the fragment backend: the one-time vertex module, one
/// memoizing stage per device resource, and the two gates that decide the
/// actual draw and the actual copy.
pub struct FragmentWorkerPart {
    pub vert: VersionedCell<ModuleHandle>,
    pub pov: Stage<TextureViewHandle>,
    pub pll: Stage<PllHandle>,
    pub pl: Stage<Result<PipelineHandle, CompileError>>,
    pub bgl: Stage<BglHandle>,
    pub bf: Stage<BufferHandle>,
    pub uv: Stage<()>,
    pub bg: Stage<BindGroupHandle>,
    pub preout_comp: VersionedGate,
    pub rendered_comp: DirtyGate,
}

/// The recompute gate's key: output size, pipeline, bind group, presentation
/// helper, uniform contents.
pub open spec fn frag_preout_tuple(post: FragmentWorkerPart, sz_v: u64, bl_v: u64) -> Seq<u64> {
    seq![
        sz_v,
        post.pl.spec_out_version(),
        post.bg.spec_out_version(),
        bl_v,
        post.uv.spec_out_version(),
    ]
}

/// The present gate's key: the recompute gate's own version, the
/// presentation helper, and the output view.
pub open spec fn frag_rendered_tuple(post: FragmentWorkerPart, bl_v: u64, ov_v: u64) -> Seq<u64> {
    seq![post.preout_comp.spec_version(), bl_v, ov_v]
}

/// Whether a submission can go out at all this tick: the hardware, the copy
/// helper, the intermediate view and the uniform contents must all exist
/// (the output view is checked before the gates even run).
pub open spec fn frag_presentable(
    post: FragmentWorkerPart,
    hw_has: bool,
    bl_has: bool,
) -> bool {
    &&& hw_has
    &&& bl_has
    &&& post.pov.spec_cached() is Some
    &&& post.uv.spec_cached() is Some
}

/// A compiled pipeline result with the cached failure masked off.
pub open spec fn ok_pipeline(
    cached: Option<Result<PipelineHandle, CompileError>>,
) -> Option<PipelineHandle> {
    match cached {
        Option::Some(Result::Ok(p)) => Option::Some(p),
        _ => Option::None,
    }
}

/// How a one-time vertex compile relates the vertex cell to the device's
/// returned result: a success is stored under the next version, a captured
/// failure leaves the cell untouched for a retry.
pub open spec fn vert_outcome_matches(
    pre_vert: VersionedCell<ModuleHandle>,
    post_vert: VersionedCell<ModuleHandle>,
    res: Result<ModuleHandle, CompileError>,
) -> bool {
    match res {
        Result::Ok(m) => post_vert.value == Some(m) && post_vert.version == spec_bump(
            pre_vert.version,
        ),
        Result::Err(_) => post_vert == pre_vert,
    }
}

/// The one command buffer a presenting fragment tick submits: the draw pass
/// when the recompute gate fired and a pipeline and bind group exist, the
/// copy when the present gate fired.
pub open spec fn frag_frame(
    post: FragmentWorkerPart,
    bl_val: BlitterHandle,
    ov_val: TextureViewHandle,
    recompute: bool,
    rerender: bool,
) -> FrameWork {
    FrameWork {
        recompute: if recompute {
            match (ok_pipeline(post.pl.spec_cached()), post.bg.spec_cached()) {
                (Option::Some(p), Option::Some(b)) => Some(
                    RecomputePass::Render {
                        pipeline: p,
                        bind_group: b,
                        target: post.pov.spec_cached().unwrap(),
                    },
                ),
                _ => None,
            }
        } else {
            None
        },
        copy: if rerender {
            Some(
                CopyPass {
                    blitter: bl_val,
                    src: post.pov.spec_cached().unwrap(),
                    dst: ov_val,
                },
            )
        } else {
            None
        },
    }
}

/// The complete tick relation of the fragment backend: how every stage,
/// gate and the vertex module move, and when the tick reports a presented
/// frame.
pub open spec fn frag_step_rel(
    pre: FragmentWorkerPart,
    post: FragmentWorkerPart,
    sz: VersionedCell<(u32, u32)>,
    hw: VersionedCell<GPUAdapterInfo>,
    md: VersionedCell<ModuleHandle>,
    ep: VersionedCell<String>,
    bl: VersionedCell<BlitterHandle>,
    render_on_invalid: bool,
    ov: VersionedCell<TextureViewHandle>,
    dev0: DeviceLog,
    dev1: DeviceLog,
    r: bool,
) -> bool {
    let stepped = render_on_invalid && ov.spec_has();
    let preout_tuple = frag_preout_tuple(post, sz.version, bl.version);
    let rendered_tuple = frag_rendered_tuple(post, bl.version, ov.version);
    let recompute = stepped && pre.preout_comp.spec_dirty(preout_tuple);
    let rerender = stepped && pre.rendered_comp.spec_dirty(rendered_tuple);
    let hwv = hw.value.unwrap();
    let vert_tried = !pre.vert.spec_has() && hw.spec_has();
    let bgl_ran = hw.spec_has() && pre.bgl.spec_needs(seq![hw.version]);
    let pll_ran = hw.spec_has() && post.bgl.spec_cached() is Some && pre.pll.spec_needs(
        seq![hw.version, post.bgl.spec_out_version()],
    );
    let pov_ran = hw.spec_has() && sz.spec_has() && pre.pov.spec_needs(
        seq![sz.version, 1, hw.version],
    );
    let bf_ran = hw.spec_has() && pre.bf.spec_needs(seq![hw.version]);
    let bg_ran = hw.spec_has() && post.bgl.spec_cached() is Some && post.bf.spec_cached() is Some
        && pre.bg.spec_needs(
        seq![hw.version, post.bgl.spec_out_version(), post.bf.spec_out_version()],
    );
    let pl_ran = hw.spec_has() && post.pll.spec_cached() is Some && post.vert.spec_has()
        && md.spec_has() && ep.spec_has() && pre.pl.spec_needs(
        seq![
            hw.version,
            post.pll.spec_out_version(),
            post.vert.version,
            md.version,
            1,
            1,
            ep.version,
        ],
    );
    let uv_ran = hw.spec_has() && post.bf.spec_cached() is Some && sz.spec_has()
        && pre.uv.spec_needs(seq![hw.version, post.bf.spec_out_version(), sz.version]);
    &&& (pre.vert.spec_has() || !hw.spec_has()) ==> post.vert == pre.vert
    &&& (!pre.vert.spec_has() && hw.spec_has()) ==> (post.vert == pre.vert || (
        post.vert.spec_has() && post.vert.version == spec_bump(pre.vert.version)
    ))
    &&& stage_step_rel(pre.bgl, post.bgl, hw.spec_has(), seq![hw.version])
    &&& stage_step_rel(
        pre.pll,
        post.pll,
        hw.spec_has() && post.bgl.spec_cached() is Some,
        seq![hw.version, post.bgl.spec_out_version()],
    )
    &&& stage_step_rel(
        pre.pov,
        post.pov,
        hw.spec_has() && sz.spec_has(),
        seq![sz.version, 1, hw.version],
    )
    &&& stage_step_rel(pre.bf, post.bf, hw.spec_has(), seq![hw.version])
    &&& stage_step_rel(
        pre.bg,
        post.bg,
        hw.spec_has() && post.bgl.spec_cached() is Some && post.bf.spec_cached() is Some,
        seq![hw.version, post.bgl.spec_out_version(), post.bf.spec_out_version()],
    )
    &&& stage_step_rel(
        pre.pl,
        post.pl,
        hw.spec_has() && post.pll.spec_cached() is Some && post.vert.spec_has() && md.spec_has()
            && ep.spec_has(),
        seq![
            hw.version,
            post.pll.spec_out_version(),
            post.vert.version,
            md.version,
            1,
            1,
            ep.version,
        ],
    )
    &&& stage_step_rel(
        pre.uv,
        post.uv,
        hw.spec_has() && post.bf.spec_cached() is Some && sz.spec_has(),
        seq![hw.version, post.bf.spec_out_version(), sz.version],
    )
    &&& vgate_step_rel(pre.preout_comp, post.preout_comp, stepped, preout_tuple, recompute)
    &&& gate_step_rel(pre.rendered_comp, post.rendered_comp, stepped, rendered_tuple, rerender)
    &&& r == ((recompute || rerender) && frag_presentable(post, hw.spec_has(), bl.spec_has()))
    &&& vert_tried ==> exists|res: Result<ModuleHandle, CompileError>|
        dev1.compiles == dev0.compiles.push(
            (hwv, default_vertex_source_spec(), ShaderLanguage::Wgsl, res),
        ) && #[trigger] vert_outcome_matches(pre.vert, post.vert, res)
    &&& !vert_tried ==> dev1.compiles == dev0.compiles
    &&& dev1.layouts == if bgl_ran {
        dev0.layouts.push((hwv, BindingStyle::UniformBuffer, post.bgl.spec_cached().unwrap()))
    } else {
        dev0.layouts
    }
    &&& dev1.pipeline_layouts == if pll_ran {
        dev0.pipeline_layouts.push(
            (hwv, post.bgl.spec_cached().unwrap(), post.pll.spec_cached().unwrap()),
        )
    } else {
        dev0.pipeline_layouts
    }
    &&& dev1.texture_views == if pov_ran {
        dev0.texture_views.push(
            (hwv, sz.value.unwrap(), PreoutUsage::FragmentTarget, post.pov.spec_cached().unwrap()),
        )
    } else {
        dev0.texture_views
    }
    &&& dev1.uniform_buffers == if bf_ran {
        dev0.uniform_buffers.push((hwv, 32, post.bf.spec_cached().unwrap()))
    } else {
        dev0.uniform_buffers
    }
    &&& dev1.bind_groups == if bg_ran {
        dev0.bind_groups.push(
            (
                hwv,
                post.bgl.spec_cached().unwrap(),
                BindTarget::Buffer(post.bf.spec_cached().unwrap()),
                post.bg.spec_cached().unwrap(),
            ),
        )
    } else {
        dev0.bind_groups
    }
    &&& dev1.render_pipelines == if pl_ran {
        dev0.render_pipelines.push(
            (
                hwv,
                post.pll.spec_cached().unwrap(),
                post.vert.value.unwrap(),
                md.value.unwrap(),
                TextureFormat::Rgba8Unorm,
                WGSL_VERT_ENTRY@,
                ep.value.unwrap()@,
                post.pl.spec_cached().unwrap(),
            ),
        )
    } else {
        dev0.render_pipelines
    }
    &&& dev1.uniform_writes == if uv_ran {
        dev0.uniform_writes.push((hwv, post.bf.spec_cached().unwrap(), sz.value.unwrap()))
    } else {
        dev0.uniform_writes
    }
    &&& dev1.submits == if r {
        dev0.submits.push((hwv, frag_frame(post, bl.value.unwrap(), ov.value.unwrap(), recompute, rerender)))
    } else {
        dev0.submits
    }
    &&& dev1.compute_pipelines == dev0.compute_pipelines
    &&& dev1.output_textures == dev0.output_textures
    &&& dev1.frees == dev0.frees
}

/// A fragment backend that has built nothing yet.
pub open spec fn frag_fresh(s: FragmentWorkerPart) -> bool {
    &&& cell_fresh(s.vert)
    &&& stage_fresh(s.pov)
    &&& stage_fresh(s.pll)
    &&& stage_fresh(s.pl)
    &&& stage_fresh(s.bgl)
    &&& stage_fresh(s.bf)
    &&& stage_fresh(s.uv)
    &&& stage_fresh(s.bg)
    &&& vgate_fresh(s.preout_comp)
    &&& gate_fresh(s.rendered_comp)
}

impl FragmentWorkerPart {
    /// A backend that has built nothing yet.
    pub fn new() -> (s: Self)
        ensures
            frag_fresh(s),
    {
        FragmentWorkerPart {
            vert: VersionedCell::new(),
            pov: Stage::new(),
            pll: Stage::new(),
            pl: Stage::new(),
            bgl: Stage::new(),
            bf: Stage::new(),
            uv: Stage::new(),
            bg: Stage::new(),
            preout_comp: VersionedGate::new(),
            rendered_comp: DirtyGate::new(),
        }
    }

    /// One tick of the fragment backend, in the fixed dependency order:
    /// bind-group layout, pipeline layout, intermediate view, uniform
    /// buffer, bind group, pipeline, uniform write; then the two gates, and
    /// at most one batched submission.
    #[verifier::rlimit(80)]
    pub fn step<D: GraphicsDevice>(
        &mut self,
        device: &mut D,
        preout_size: &VersionedCell<(u32, u32)>,
        hardware: &VersionedCell<GPUAdapterInfo>,
        module: &VersionedCell<ModuleHandle>,
        entry_point: &VersionedCell<String>,
        blitter: &VersionedCell<BlitterHandle>,
        render_output_on_invalidated: bool,
        output_view: &VersionedCell<TextureViewHandle>,
    ) -> (r: bool)
        ensures
            frag_step_rel(
                *old(self),
                *final(self),
                *preout_size,
                *hardware,
                *module,
                *entry_point,
                *blitter,
                render_output_on_invalidated,
                *output_view,
                old(device).spec_log(),
                final(device).spec_log(),
                r,
            ),
    {
        let mut uses_cell: VersionedCell<PreoutUsage> = VersionedCell::new();
        uses_cell.advance(Some(PreoutUsage::FragmentTarget));
        let mut out_fmt: VersionedCell<TextureFormat> = VersionedCell::new();
        out_fmt.advance(Some(TextureFormat::Rgba8Unorm));
        let mut vert_ep: VersionedCell<String> = VersionedCell::new();
        vert_ep.advance(Some(WGSL_VERT_ENTRY.to_owned()));

        // The built-in vertex module is created once, as soon as hardware
        // exists; a rejected vertex source stays absent and is retried.
        if let Some(hw) = hardware.value {
            if self.vert.value.is_none() {
                let vert_src = default_vertex_source().to_owned();
                let res = device.create_shader_module(&hw, &vert_src, ShaderLanguage::Wgsl);
                let ghost vert_res = res;
                match res {
                    Result::Ok(m) => self.vert.advance(Some(m)),
                    Result::Err(_) => {},
                }
                proof {
                    assert(vert_outcome_matches(old(self).vert, self.vert, vert_res));
                }
            }
        }

        // bind-group layout <- hardware
        if let Some(hw) = hardware.value {
            let t = tuple1(hardware.version);
            if self.bgl.needs_run(&t) {
                let out = device.create_bind_group_layout(&hw, BindingStyle::UniformBuffer);
                self.bgl.record(&t, out);
            }
        }

        // pipeline layout <- hardware, bind-group layout
        if let Some(hw) = hardware.value {
            if let Some(bgl_h) = *self.bgl.output() {
                let t = tuple2(hardware.version, self.bgl.output_version());
                if self.pll.needs_run(&t) {
                    let out = device.create_pipeline_layout(&hw, bgl_h);
                    self.pll.record(&t, out);
                }
            }
        }

        // intermediate texture view <- output size, usage, hardware
        if let Some(hw) = hardware.value {
            if let Some(sz) = preout_size.value {
                let t = tuple3(preout_size.version, uses_cell.version, hardware.version);
                if self.pov.needs_run(&t) {
                    let out = device.create_texture_view(&hw, sz, PreoutUsage::FragmentTarget);
                    self.pov.record(&t, out);
                }
            }
        }

        // uniform buffer <- hardware
        if let Some(hw) = hardware.value {
            let t = tuple1(hardware.version);
            if self.bf.needs_run(&t) {
                let out = device.create_uniform_buffer(&hw, 32);
                self.bf.record(&t, out);
            }
        }

        // bind group <- hardware, bind-group layout, uniform buffer
        if let Some(hw) = hardware.value {
            if let Some(bgl_h) = *self.bgl.output() {
                if let Some(buf_h) = *self.bf.output() {
                    let t = tuple3(
                        hardware.version,
                        self.bgl.output_version(),
                        self.bf.output_version(),
                    );
                    if self.bg.needs_run(&t) {
                        let out = device.create_bind_group(&hw, bgl_h, BindTarget::Buffer(buf_h));
                        self.bg.record(&t, out);
                    }
                }
            }
        }

        // pipeline <- hardware, pipeline layout, vertex module, fragment
        // module, output format, both entry points; a validation failure is
        // cached like a success, so an unchanged bad shader is not retried
        if let Some(hw) = hardware.value {
            if let Some(pll_h) = *self.pll.output() {
                if let Some(vm) = self.vert.value {
                    if let Some(fm) = module.value {
                        if let Some(ep_s) = entry_point.value.as_ref() {
                            let t = tuple7(
                                hardware.version,
                                self.pll.output_version(),
                                self.vert.version,
                                module.version,
                                out_fmt.version,
                                vert_ep.version,
                                entry_point.version,
                            );
                            if self.pl.needs_run(&t) {
                                let vep = vert_ep.value.as_ref().unwrap();
                                let out = device.create_render_pipeline(
                                    &hw,
                                    pll_h,
                                    vm,
                                    fm,
                                    TextureFormat::Rgba8Unorm,
                                    vep,
                                    ep_s,
                                );
                                self.pl.record(&t, out);
                            }
                        }
                    }
                }
            }
        }

        // uniform contents <- hardware, uniform buffer, output size
        if let Some(hw) = hardware.value {
            if let Some(buf_h) = *self.bf.output() {
                if let Some(sz) = preout_size.value {
                    let t = tuple3(
                        hardware.version,
                        self.bf.output_version(),
                        preout_size.version,
                    );
                    if self.uv.needs_run(&t) {
                        device.write_uniforms(&hw, buf_h, sz);
                        self.uv.record(&t, ());
                    }
                }
            }
        }

        // The gates run only when output is wanted and a target exists.
        if render_output_on_invalidated && output_view.value.is_some() {
            let pt = tuple5(
                preout_size.version,
                self.pl.output_version(),
                self.bg.output_version(),
                blitter.version,
                self.uv.output_version(),
            );
            let recompute = self.preout_comp.check_and_update(&pt);
            let rt = tuple3(
                self.preout_comp.get_version(),
                blitter.version,
                output_view.version,
            );
            let rerender = self.rendered_comp.check_and_update(&rt);
            if rerender || recompute {
                // One batched submission: a draw pass if due and possible,
                // the copy if due; a missing pipeline or bind group skips
                // only the draw, never the copy.
                if let Some(hw) = hardware.value {
                    if let Some(bl) = blitter.value {
                        if let Some(ov) = output_view.value {
                            if let Some(pv) = *self.pov.output() {
                                if self.uv.output().is_some() {
                                    let recompute_pass = if recompute {
                                        let safe_pl = match self.pl.output() {
                                            Option::Some(Result::Ok(p)) => Option::Some(*p),
                                            _ => Option::None,
                                        };
                                        match (safe_pl, *self.bg.output()) {
                                            (Option::Some(p), Option::Some(b)) => Some(
                                                RecomputePass::Render {
                                                    pipeline: p,
                                                    bind_group: b,
                                                    target: pv,
                                                },
                                            ),
                                            _ => None,
                                        }
                                    } else {
                                        None
                                    };
                                    let copy = if rerender {
                                        Some(CopyPass { blitter: bl, src: pv, dst: ov })
                                    } else {
                                        None
                                    };
                                    device.submit_frame(
                                        &hw,
                                        FrameWork { recompute: recompute_pass, copy },
                                    );
                                    return true;
                                }
                            }
                        }
                    }
                }
                return false;
            }
        }
        false
    }
}

} // verus!
