//! The compute backend: rebuilds a compute pipeline around the user's
//! compute shader and dispatches it over the intermediate storage texture,
//! then copies it to the output view.

use vstd::prelude::*;

use crate::device::{
    BindTarget, BindingStyle, BglHandle, BindGroupHandle, BlitterHandle, CopyPass, DeviceLog,
    FrameWork, GraphicsDevice, ModuleHandle, PipelineHandle, PllHandle, PreoutUsage, RecomputePass,
    TextureViewHandle,
};
use crate::gate::{gate_fresh, gate_step_rel, vgate_fresh, vgate_step_rel, DirtyGate, VersionedGate};
use crate::memo::{stage_fresh, stage_step_rel, tuple1, tuple2, tuple3, tuple4, Stage};
use crate::shader_config::GPUAdapterInfo;
use crate::versioned::VersionedCell;

verus! {

/// The workgroup grid is the output size divided by the fixed 16-wide
/// workgroup, rounded up.
pub open spec fn spec_div_ceil16(x: u32) -> int {
    (x + 15) / 16
}

/// Executable twin of [`spec_div_ceil16`].
pub fn div_ceil16(x: u32) -> (r: u32)
    ensures
        r == spec_div_ceil16(x),
{
    let wide: u64 = x as u64 + 15;
    let q: u64 = wide / 16;
    q as u32
}

/// Per-tick state of the compute backend: one memoizing stage per device
/// resource, and the two gates that decide the actual dispatch and the
/// actual copy.
pub struct ComputeWorkerPart {
    pub pov: Stage<TextureViewHandle>,
    pub pll: Stage<PllHandle>,
    pub pl: Stage<PipelineHandle>,
    pub bgl: Stage<BglHandle>,
    pub bg: Stage<BindGroupHandle>,
    pub preout_comp: VersionedGate,
    pub rendered_comp: DirtyGate,
}

/// The recompute gate's key: output size, pipeline, bind group,
/// presentation helper.
pub open spec fn comp_preout_tuple(post: ComputeWorkerPart, sz_v: u64, bl_v: u64) -> Seq<u64> {
    seq![sz_v, post.pl.spec_out_version(), post.bg.spec_out_version(), bl_v]
}

/// The present gate's key: the recompute gate's own version, the
/// presentation helper, and the output view.
pub open spec fn comp_rendered_tuple(post: ComputeWorkerPart, bl_v: u64, ov_v: u64) -> Seq<u64> {
    seq![post.preout_comp.spec_version(), bl_v, ov_v]
}

/// Whether a submission can go out at all this tick: the hardware, the copy
/// helper, the output view and the intermediate view must all exist.
pub open spec fn comp_presentable(
    post: ComputeWorkerPart,
    hw_has: bool,
    bl_has: bool,
    ov_has: bool,
) -> bool {
    &&& hw_has
    &&& bl_has
    &&& ov_has
    &&& post.pov.spec_cached() is Some
}

/// The one command buffer a presenting compute tick submits: the dispatch
/// when the recompute gate fired and a pipeline, bind group and size exist,
/// the copy when the present gate fired.
pub open spec fn comp_frame(
    post: ComputeWorkerPart,
    sz: VersionedCell<(u32, u32)>,
    bl_val: BlitterHandle,
    ov_val: TextureViewHandle,
    recompute: bool,
    rerender: bool,
) -> FrameWork {
    FrameWork {
        recompute: if recompute {
            match (post.pl.spec_cached(), post.bg.spec_cached(), sz.value) {
                (Option::Some(p), Option::Some(b), Option::Some(dims)) => Some(
                    RecomputePass::Compute {
                        pipeline: p,
                        bind_group: b,
                        workgroups: (
                            spec_div_ceil16(dims.0) as u32,
                            spec_div_ceil16(dims.1) as u32,
                        ),
                    },
                ),
                _ => None,
            }
        } else {
            None
        },
        copy: if rerender {
            Some(
                CopyPass {
                    blitter: bl_val,
                    src: post.pov.spec_cached().unwrap(),
                    dst: ov_val,
                },
            )
        } else {
            None
        },
    }
}

/// The complete tick relation of the compute backend.
pub open spec fn comp_step_rel(
    pre: ComputeWorkerPart,
    post: ComputeWorkerPart,
    sz: VersionedCell<(u32, u32)>,
    hw: VersionedCell<GPUAdapterInfo>,
    md: VersionedCell<ModuleHandle>,
    ep: VersionedCell<String>,
    bl: VersionedCell<BlitterHandle>,
    render_on_invalid: bool,
    ov: VersionedCell<TextureViewHandle>,
    dev0: DeviceLog,
    dev1: DeviceLog,
    r: bool,
) -> bool {
    let stepped = render_on_invalid;
    let preout_tuple = comp_preout_tuple(post, sz.version, bl.version);
    let rendered_tuple = comp_rendered_tuple(post, bl.version, ov.version);
    let recompute = stepped && pre.preout_comp.spec_dirty(preout_tuple);
    let rerender = stepped && pre.rendered_comp.spec_dirty(rendered_tuple);
    let hwv = hw.value.unwrap();
    let bgl_ran = hw.spec_has() && pre.bgl.spec_needs(seq![hw.version]);
    let pll_ran = hw.spec_has() && post.bgl.spec_cached() is Some && pre.pll.spec_needs(
        seq![hw.version, post.bgl.spec_out_version()],
    );
    let pov_ran = hw.spec_has() && sz.spec_has() && pre.pov.spec_needs(
        seq![sz.version, 1, hw.version],
    );
    let bg_ran = hw.spec_has() && post.bgl.spec_cached() is Some && post.pov.spec_cached() is Some
        && pre.bg.spec_needs(
        seq![hw.version, post.bgl.spec_out_version(), post.pov.spec_out_version()],
    );
    let pl_ran = hw.spec_has() && post.pll.spec_cached() is Some && md.spec_has() && ep.spec_has()
        && pre.pl.spec_needs(
        seq![hw.version, post.pll.spec_out_version(), md.version, ep.version],
    );
    &&& stage_step_rel(pre.bgl, post.bgl, hw.spec_has(), seq![hw.version])
    &&& stage_step_rel(
        pre.pll,
        post.pll,
        hw.spec_has() && post.bgl.spec_cached() is Some,
        seq![hw.version, post.bgl.spec_out_version()],
    )
    &&& stage_step_rel(
        pre.pov,
        post.pov,
        hw.spec_has() && sz.spec_has(),
        seq![sz.version, 1, hw.version],
    )
    &&& stage_step_rel(
        pre.bg,
        post.bg,
        hw.spec_has() && post.bgl.spec_cached() is Some && post.pov.spec_cached() is Some,
        seq![hw.version, post.bgl.spec_out_version(), post.pov.spec_out_version()],
    )
    &&& stage_step_rel(
        pre.pl,
        post.pl,
        hw.spec_has() && post.pll.spec_cached() is Some && md.spec_has() && ep.spec_has(),
        seq![hw.version, post.pll.spec_out_version(), md.version, ep.version],
    )
    &&& vgate_step_rel(pre.preout_comp, post.preout_comp, stepped, preout_tuple, recompute)
    &&& gate_step_rel(pre.rendered_comp, post.rendered_comp, stepped, rendered_tuple, rerender)
    &&& r == ((recompute || rerender) && comp_presentable(
        post,
        hw.spec_has(),
        bl.spec_has(),
        ov.spec_has(),
    ))
    &&& dev1.layouts == if bgl_ran {
        dev0.layouts.push((hwv, BindingStyle::StorageTexture, post.bgl.spec_cached().unwrap()))
    } else {
        dev0.layouts
    }
    &&& dev1.pipeline_layouts == if pll_ran {
        dev0.pipeline_layouts.push(
            (hwv, post.bgl.spec_cached().unwrap(), post.pll.spec_cached().unwrap()),
        )
    } else {
        dev0.pipeline_layouts
    }
    &&& dev1.texture_views == if pov_ran {
        dev0.texture_views.push(
            (hwv, sz.value.unwrap(), PreoutUsage::ComputeTarget, post.pov.spec_cached().unwrap()),
        )
    } else {
        dev0.texture_views
    }
    &&& dev1.bind_groups == if bg_ran {
        dev0.bind_groups.push(
            (
                hwv,
                post.bgl.spec_cached().unwrap(),
                BindTarget::TextureView(post.pov.spec_cached().unwrap()),
                post.bg.spec_cached().unwrap(),
            ),
        )
    } else {
        dev0.bind_groups
    }
    &&& dev1.compute_pipelines == if pl_ran {
        dev0.compute_pipelines.push(
            (
                hwv,
                post.pll.spec_cached().unwrap(),
                md.value.unwrap(),
                ep.value.unwrap()@,
                post.pl.spec_cached().unwrap(),
            ),
        )
    } else {
        dev0.compute_pipelines
    }
    &&& dev1.submits == if r {
        dev0.submits.push(
            (hwv, comp_frame(post, sz, bl.value.unwrap(), ov.value.unwrap(), recompute, rerender)),
        )
    } else {
        dev0.submits
    }
    &&& dev1.compiles == dev0.compiles
    &&& dev1.uniform_buffers == dev0.uniform_buffers
    &&& dev1.uniform_writes == dev0.uniform_writes
    &&& dev1.render_pipelines == dev0.render_pipelines
    &&& dev1.output_textures == dev0.output_textures
    &&& dev1.frees == dev0.frees
}

/// A compute backend that has built nothing yet.
pub open spec fn comp_fresh(s: ComputeWorkerPart) -> bool {
    &&& stage_fresh(s.pov)
    &&& stage_fresh(s.pll)
    &&& stage_fresh(s.pl)
    &&& stage_fresh(s.bgl)
    &&& stage_fresh(s.bg)
    &&& vgate_fresh(s.preout_comp)
    &&& gate_fresh(s.rendered_comp)
}

impl ComputeWorkerPart {
    /// A backend that has built nothing yet.
    pub fn new() -> (s: Self)
        ensures
            comp_fresh(s),
    {
        ComputeWorkerPart {
            pov: Stage::new(),
            pll: Stage::new(),
            pl: Stage::new(),
            bgl: Stage::new(),
            bg: Stage::new(),
            preout_comp: VersionedGate::new(),
            rendered_comp: DirtyGate::new(),
        }
    }

    /// One tick of the compute backend, in the fixed dependency order:
    /// bind-group layout, pipeline layout, intermediate view, bind group,
    /// pipeline; then the two gates, and at most one batched submission.
    #[verifier::rlimit(80)]
    pub fn step<D: GraphicsDevice>(
        &mut self,
        device: &mut D,
        preout_size: &VersionedCell<(u32, u32)>,
        hardware: &VersionedCell<GPUAdapterInfo>,
        module: &VersionedCell<ModuleHandle>,
        entry_point: &VersionedCell<String>,
        blitter: &VersionedCell<BlitterHandle>,
        render_output_on_invalidated: bool,
        output_view: &VersionedCell<TextureViewHandle>,
    ) -> (r: bool)
        ensures
            comp_step_rel(
                *old(self),
                *final(self),
                *preout_size,
                *hardware,
                *module,
                *entry_point,
                *blitter,
                render_output_on_invalidated,
                *output_view,
                old(device).spec_log(),
                final(device).spec_log(),
                r,
            ),
    {
        let mut uses_cell: VersionedCell<PreoutUsage> = VersionedCell::new();
        uses_cell.advance(Some(PreoutUsage::ComputeTarget));

        // bind-group layout <- hardware
        if let Some(hw) = hardware.value {
            let t = tuple1(hardware.version);
            if self.bgl.needs_run(&t) {
                let out = device.create_bind_group_layout(&hw, BindingStyle::StorageTexture);
                self.bgl.record(&t, out);
            }
        }

        // pipeline layout <- hardware, bind-group layout
        if let Some(hw) = hardware.value {
            if let Some(bgl_h) = *self.bgl.output() {
                let t = tuple2(hardware.version, self.bgl.output_version());
                if self.pll.needs_run(&t) {
                    let out = device.create_pipeline_layout(&hw, bgl_h);
                    self.pll.record(&t, out);
                }
            }
        }

        // intermediate texture view <- output size, usage, hardware
        if let Some(hw) = hardware.value {
            if let Some(sz) = preout_size.value {
                let t = tuple3(preout_size.version, uses_cell.version, hardware.version);
                if self.pov.needs_run(&t) {
                    let out = device.create_texture_view(&hw, sz, PreoutUsage::ComputeTarget);
                    self.pov.record(&t, out);
                }
            }
        }

        // bind group <- hardware, bind-group layout, intermediate view
        if let Some(hw) = hardware.value {
            if let Some(bgl_h) = *self.bgl.output() {
                if let Some(pv) = *self.pov.output() {
                    let t = tuple3(
                        hardware.version,
                        self.bgl.output_version(),
                        self.pov.output_version(),
                    );
                    if self.bg.needs_run(&t) {
                        let out = device.create_bind_group(
                            &hw,
                            bgl_h,
                            BindTarget::TextureView(pv),
                        );
                        self.bg.record(&t, out);
                    }
                }
            }
        }

        // pipeline <- hardware, pipeline layout, module, entry point
        if let Some(hw) = hardware.value {
            if let Some(pll_h) = *self.pll.output() {
                if let Some(m) = module.value {
                    if let Some(ep_s) = entry_point.value.as_ref() {
                        let t = tuple4(
                            hardware.version,
                            self.pll.output_version(),
                            module.version,
                            entry_point.version,
                        );
                        if self.pl.needs_run(&t) {
                            let out = device.create_compute_pipeline(&hw, pll_h, m, ep_s);
                            self.pl.record(&t, out);
                        }
                    }
                }
            }
        }

        // The gates run whenever output is wanted, even without a target.
        if render_output_on_invalidated {
            let pt = tuple4(
                preout_size.version,
                self.pl.output_version(),
                self.bg.output_version(),
                blitter.version,
            );
            let recompute = self.preout_comp.check_and_update(&pt);
            let rt = tuple3(
                self.preout_comp.get_version(),
                blitter.version,
                output_view.version,
            );
            let rerender = self.rendered_comp.check_and_update(&rt);
            if rerender || recompute {
                // One batched submission: a dispatch if due and possible,
                // the copy if due; a missing pipeline or bind group skips
                // only the dispatch, never the copy.
                if let Some(hw) = hardware.value {
                    if let Some(bl) = blitter.value {
                        if let Some(ov) = output_view.value {
                            if let Some(pv) = *self.pov.output() {
                                let recompute_pass = if recompute {
                                    match (*self.pl.output(), *self.bg.output(), preout_size.value) {
                                        (Option::Some(p), Option::Some(b), Option::Some(sz)) => Some(
                                            RecomputePass::Compute {
                                                pipeline: p,
                                                bind_group: b,
                                                workgroups: (div_ceil16(sz.0), div_ceil16(sz.1)),
                                            },
                                        ),
                                        _ => None,
                                    }
                                } else {
                                    None
                                };
                                let copy = if rerender {
                                    Some(CopyPass { blitter: bl, src: pv, dst: ov })
                                } else {
                                    None
                                };
                                device.submit_frame(
                                    &hw,
                                    FrameWork { recompute: recompute_pass, copy },
                                );
                                return true;
                            }
                        }
                    }
                }
                return false;
            }
        }
        false
    }
}

} // verus!
