//! The pipeline orchestrator: owns the full ordered chain of memoizing
//! stages that build device resources from the raw versioned inputs,
//! decides via two dirty gates whether to redo the rendering work and the
//! copy to the output, and issues at most one batched device submission per
//! tick.
//!
//! The worker is driven from outside: a runtime loop waits its pacing
//! interval, checks the kill mailbox, and calls [`Worker::step`] with the
//! graphics device. Everything the loop itself does is plain scheduling;
//! every decision lives here.

pub mod compute_worker;
pub mod fragment_worker;

use vstd::prelude::*;

use crate::communication::{BacktalkChannels, Mailbox, SettingsChannels};
use crate::device::{
    BlitterHandle, CompileError, DeviceLog, GraphicsDevice, ModuleHandle, TextureFormat,
    TextureViewHandle,
};
use crate::gate::{gate_fresh, gate_step_rel, DirtyGate};
use crate::graphics_backend_worker::compute_worker::{comp_fresh, comp_step_rel, ComputeWorkerPart};
use crate::graphics_backend_worker::fragment_worker::{
    frag_fresh, frag_step_rel, FragmentWorkerPart,
};
use crate::memo::{stage_fresh, stage_step_rel, tuple1, tuple2, tuple3, Stage};
use crate::shader_config::{GPUAdapterInfo, ShaderBackend, ShaderConfig, ShaderLanguage, WGSL_ENTRY};
use crate::versioned::{
    cell_fresh, spec_bump, spec_cell_if_changed, VersionedCell,
};

verus! {

/// Pops every pending message of a receiver and keeps only the newest:
/// a burst of updates collapses to its last element, an empty mailbox
/// yields nothing.
pub fn latest_from_receiver<T>(recvr: &mut Mailbox<T>) -> (r: Option<T>)
    ensures
        final(recvr).spec_pending() == Seq::<T>::empty(),
        old(recvr).spec_pending().len() == 0 ==> r is None,
        old(recvr).spec_pending().len() > 0 ==> r == Some(old(recvr).spec_pending().last()),
{
    recvr.drain_latest()
}

/// The worker's own copies of the raw inputs, each under its version
/// counter; advanced only at each tick's drain, never mutated in place
/// elsewhere.
pub struct VersionedSettings {
    pub shader_text: VersionedCell<String>,
    pub append_environment: VersionedCell<bool>,
    pub shader_lang: VersionedCell<ShaderLanguage>,
    pub preout_size: VersionedCell<(u32, u32)>,
    pub hardware: VersionedCell<GPUAdapterInfo>,
    pub output_texture_view: VersionedCell<TextureViewHandle>,
    pub output_texture_format: VersionedCell<TextureFormat>,
}

/// Settings that have received nothing yet.
pub open spec fn settings_fresh(s: VersionedSettings) -> bool {
    &&& cell_fresh(s.shader_text)
    &&& cell_fresh(s.append_environment)
    &&& cell_fresh(s.shader_lang)
    &&& cell_fresh(s.preout_size)
    &&& cell_fresh(s.hardware)
    &&& cell_fresh(s.output_texture_view)
    &&& cell_fresh(s.output_texture_format)
}

impl VersionedSettings {
    pub fn new() -> (s: Self)
        ensures
            settings_fresh(s),
    {
        VersionedSettings {
            shader_text: VersionedCell::new(),
            append_environment: VersionedCell::new(),
            shader_lang: VersionedCell::new(),
            preout_size: VersionedCell::new(),
            hardware: VersionedCell::new(),
            output_texture_view: VersionedCell::new(),
            output_texture_format: VersionedCell::new(),
        }
    }
}

/// The closed set of backend variants, selected once at construction and
/// dispatched through one uniform step.
pub enum ArbitraryWorker {
    ComputeWorker(ComputeWorkerPart),
    FragmentWorker(FragmentWorkerPart),
}

/// The tick relation of whichever backend variant is installed; the
/// variant itself never changes.
pub open spec fn arbitrary_step_rel(
    pre: ArbitraryWorker,
    post: ArbitraryWorker,
    sz: VersionedCell<(u32, u32)>,
    hw: VersionedCell<GPUAdapterInfo>,
    md: VersionedCell<ModuleHandle>,
    ep: VersionedCell<String>,
    bl: VersionedCell<BlitterHandle>,
    render_on_invalid: bool,
    ov: VersionedCell<TextureViewHandle>,
    dev0: DeviceLog,
    dev1: DeviceLog,
    r: bool,
) -> bool {
    match (pre, post) {
        (ArbitraryWorker::ComputeWorker(p0), ArbitraryWorker::ComputeWorker(p1)) => comp_step_rel(
            p0,
            p1,
            sz,
            hw,
            md,
            ep,
            bl,
            render_on_invalid,
            ov,
            dev0,
            dev1,
            r,
        ),
        (ArbitraryWorker::FragmentWorker(p0), ArbitraryWorker::FragmentWorker(p1)) => frag_step_rel(
            p0,
            p1,
            sz,
            hw,
            md,
            ep,
            bl,
            render_on_invalid,
            ov,
            dev0,
            dev1,
            r,
        ),
        _ => false,
    }
}

impl ArbitraryWorker {
    /// The variant a shader snapshot asks for, selected once at
    /// construction: the compute backend for a compute snapshot, the
    /// fragment backend otherwise (the general backend renders through the
    /// fragment path until it grows one of its own).
    pub fn for_backend(backend: ShaderBackend) -> (w: Self)
        ensures
            backend == ShaderBackend::FullCompute ==> (w matches ArbitraryWorker::ComputeWorker(p)
                && comp_fresh(p)),
            backend != ShaderBackend::FullCompute ==> (w matches ArbitraryWorker::FragmentWorker(
                p,
            ) && frag_fresh(p)),
    {
        match backend {
            ShaderBackend::FullCompute => ArbitraryWorker::ComputeWorker(ComputeWorkerPart::new()),
            ShaderBackend::FullFragment => ArbitraryWorker::FragmentWorker(
                FragmentWorkerPart::new(),
            ),
            ShaderBackend::General => ArbitraryWorker::FragmentWorker(FragmentWorkerPart::new()),
        }
    }

    /// One tick of the installed backend.
    pub fn step<D: GraphicsDevice>(
        &mut self,
        device: &mut D,
        preout_size: &VersionedCell<(u32, u32)>,
        hardware: &VersionedCell<GPUAdapterInfo>,
        module: &VersionedCell<ModuleHandle>,
        entry_point: &VersionedCell<String>,
        blitter: &VersionedCell<BlitterHandle>,
        render_output_on_invalidated: bool,
        output_view: &VersionedCell<TextureViewHandle>,
    ) -> (r: bool)
        ensures
            arbitrary_step_rel(
                *old(self),
                *final(self),
                *preout_size,
                *hardware,
                *module,
                *entry_point,
                *blitter,
                render_output_on_invalidated,
                *output_view,
                old(device).spec_log(),
                final(device).spec_log(),
                r,
            ),
    {
        match self {
            ArbitraryWorker::ComputeWorker(part) => part.step(
                device,
                preout_size,
                hardware,
                module,
                entry_point,
                blitter,
                render_output_on_invalidated,
                output_view,
            ),
            ArbitraryWorker::FragmentWorker(part) => part.step(
                device,
                preout_size,
                hardware,
                module,
                entry_point,
                blitter,
                render_output_on_invalidated,
                output_view,
            ),
        }
    }
}

/// The cached module result with failures masked off: what downstream
/// stages see of the shader module.
pub open spec fn ok_module(
    cached: Option<Result<ModuleHandle, CompileError>>,
) -> Option<ModuleHandle> {
    match cached {
        Option::Some(Result::Ok(m)) => Option::Some(m),
        _ => Option::None,
    }
}

/// A compile report mirrors the cached module result: the captured failure
/// when there is one, the all-clear otherwise.
pub open spec fn compile_report_matches(
    cached: Option<Result<ModuleHandle, CompileError>>,
    rep: Option<CompileError>,
) -> bool {
    match cached {
        Option::Some(Result::Err(e)) => rep matches Some(re) && re.message@ == e.message@,
        _ => rep is None,
    }
}

/// The orchestrator: the drained inputs, the backend, and the stages and
/// gate shared by both backend variants.
pub struct Worker {
    pub settings_recvrs: SettingsChannels,
    pub settings: VersionedSettings,
    pub backend: ArbitraryWorker,
    pub render_on_invalid: bool,
    pub blitter: Stage<BlitterHandle>,
    pub mod_comp: Stage<Result<ModuleHandle, CompileError>>,
    pub when_send_comp_errs: DirtyGate,
}

/// The settings after one drain of the mailboxes: each field takes the
/// newest pending message, the shader text and the output size only under a
/// fresh version when the content actually changed, and the output format
/// is re-offered every tick under the same equality gate, so its version
/// settles and never moves again.
pub open spec fn spec_read_settings(pre: Worker) -> VersionedSettings {
    let sc = pre.settings_recvrs.shader_content.spec_pending();
    let hv = pre.settings_recvrs.hardware.spec_pending();
    let ov = pre.settings_recvrs.output_texture_view.spec_pending();
    let ps = pre.settings_recvrs.preout_size.spec_pending();
    VersionedSettings {
        shader_text: if sc.len() == 0 {
            pre.settings.shader_text
        } else {
            spec_cell_if_changed(pre.settings.shader_text, Some(sc.last().content))
        },
        append_environment: pre.settings.append_environment,
        shader_lang: if sc.len() == 0 {
            pre.settings.shader_lang
        } else {
            spec_cell_if_changed(pre.settings.shader_lang, Some(sc.last().language))
        },
        preout_size: if ps.len() == 0 {
            pre.settings.preout_size
        } else {
            spec_cell_if_changed(pre.settings.preout_size, Some(ps.last()))
        },
        hardware: if hv.len() == 0 {
            pre.settings.hardware
        } else {
            (VersionedCell {
                value: Some(hv.last()),
                version: spec_bump(pre.settings.hardware.version),
            })
        },
        output_texture_view: if ov.len() == 0 {
            pre.settings.output_texture_view
        } else {
            (VersionedCell {
                value: Some(ov.last()),
                version: spec_bump(pre.settings.output_texture_view.version),
            })
        },
        output_texture_format: spec_cell_if_changed(
            pre.settings.output_texture_format,
            Some(TextureFormat::Rgba8Unorm),
        ),
    }
}

/// The device requests the orchestrator issues itself, before handing over
/// to the backend: the shader compile when the module stage reruns, with
/// the freshly drained text, and the copy-helper creation when due.
pub open spec fn worker_own_log(pre: Worker, post: Worker, dev0: DeviceLog) -> DeviceLog {
    let w1 = spec_read_settings(pre);
    let mod_ready = w1.hardware.spec_has() && w1.shader_text.spec_has()
        && w1.shader_lang.spec_has();
    let mod_tuple = seq![w1.hardware.version, w1.shader_text.version, w1.shader_lang.version];
    let l1 = if mod_ready && pre.mod_comp.spec_needs(mod_tuple) {
        dev0.with_compile(
            (
                w1.hardware.value.unwrap(),
                w1.shader_text.value.unwrap()@,
                w1.shader_lang.value.unwrap(),
                post.mod_comp.spec_cached().unwrap(),
            ),
        )
    } else {
        dev0
    };
    let blit_ready = w1.hardware.spec_has() && w1.output_texture_format.spec_has();
    let blit_tuple = seq![w1.hardware.version, w1.output_texture_format.version];
    if blit_ready && pre.blitter.spec_needs(blit_tuple) {
        l1.with_blitter(
            (
                w1.hardware.value.unwrap(),
                w1.output_texture_format.value.unwrap(),
                post.blitter.spec_cached().unwrap(),
            ),
        )
    } else {
        l1
    }
}

/// The complete tick relation of the orchestrator: how the mailboxes, the
/// versioned inputs, the module and copy-helper stages, the compile-report
/// gate, the backend and the backtalk channels move in one step, and when
/// the tick reports a presentable frame.
pub open spec fn worker_step_rel(
    pre: Worker,
    post: Worker,
    bt_pre: BacktalkChannels,
    bt_post: BacktalkChannels,
    dev0: DeviceLog,
    dev1: DeviceLog,
    r: bool,
) -> bool {
    let w1 = spec_read_settings(pre);
    let mod_ready = w1.hardware.spec_has() && w1.shader_text.spec_has()
        && w1.shader_lang.spec_has();
    let mod_tuple = seq![
        w1.hardware.version,
        w1.shader_text.version,
        w1.shader_lang.version,
    ];
    let comp_fired = pre.when_send_comp_errs.spec_dirty(
        seq![post.mod_comp.spec_out_version()],
    );
    let module_cell = (VersionedCell {
        value: ok_module(post.mod_comp.spec_cached()),
        version: post.mod_comp.spec_out_version(),
    });
    let blitter_cell = (VersionedCell {
        value: post.blitter.spec_cached(),
        version: post.blitter.spec_out_version(),
    });
    &&& post.settings.shader_text == w1.shader_text
    &&& post.settings.shader_lang == w1.shader_lang
    &&& post.settings.preout_size == w1.preout_size
    &&& post.settings.hardware == w1.hardware
    &&& post.settings.output_texture_format == w1.output_texture_format
    &&& post.settings.append_environment == w1.append_environment
    &&& r ==> post.settings.output_texture_view.value is None
        && post.settings.output_texture_view.version
            == spec_bump(w1.output_texture_view.version)
    &&& !r ==> post.settings.output_texture_view == w1.output_texture_view
    &&& post.settings_recvrs.shader_content.spec_pending()
        == Seq::<ShaderConfig>::empty()
    &&& post.settings_recvrs.hardware.spec_pending()
        == Seq::<GPUAdapterInfo>::empty()
    &&& post.settings_recvrs.output_texture_view.spec_pending()
        == Seq::<TextureViewHandle>::empty()
    &&& post.settings_recvrs.preout_size.spec_pending()
        == Seq::<(u32, u32)>::empty()
    &&& post.settings_recvrs.kill == pre.settings_recvrs.kill
    &&& stage_step_rel(pre.mod_comp, post.mod_comp, mod_ready, mod_tuple)
    &&& gate_step_rel(
        pre.when_send_comp_errs,
        post.when_send_comp_errs,
        true,
        seq![post.mod_comp.spec_out_version()],
        comp_fired,
    )
    &&& comp_fired ==> exists|rep: Option<CompileError>|
        bt_post.compile_reports.spec_pending()
            == bt_pre.compile_reports.spec_pending().push(rep)
            && #[trigger] compile_report_matches(
                post.mod_comp.spec_cached(),
                rep,
            )
    &&& !comp_fired ==> bt_post.compile_reports == bt_pre.compile_reports
    &&& stage_step_rel(
        pre.blitter,
        post.blitter,
        w1.hardware.spec_has() && w1.output_texture_format.spec_has(),
        seq![w1.hardware.version, w1.output_texture_format.version],
    )
    &&& exists|ep: VersionedCell<String>|
        (ep.value matches Some(s) && s@ == WGSL_ENTRY@) && ep.version == 1
            && #[trigger] arbitrary_step_rel(
            pre.backend,
            post.backend,
            w1.preout_size,
            w1.hardware,
            module_cell,
            ep,
            blitter_cell,
            pre.render_on_invalid,
            w1.output_texture_view,
            worker_own_log(pre, post, dev0),
            dev1,
            r,
        )
    &&& r ==> bt_post.render_success.spec_pending()
        == bt_pre.render_success.spec_pending().push(())
    &&& !r ==> bt_post.render_success == bt_pre.render_success
    &&& post.render_on_invalid == pre.render_on_invalid
}

/// Monotonicity at the drain: no versioned setting's counter ever
/// decreases across one mailbox drain, whatever is pending.
pub proof fn lemma_read_settings_monotonic(pre: Worker)
    ensures
        ({
            let w1 = spec_read_settings(pre);
            &&& w1.shader_text.version >= pre.settings.shader_text.version
            &&& w1.shader_lang.version >= pre.settings.shader_lang.version
            &&& w1.preout_size.version >= pre.settings.preout_size.version
            &&& w1.hardware.version >= pre.settings.hardware.version
            &&& w1.output_texture_view.version >= pre.settings.output_texture_view.version
            &&& w1.output_texture_format.version >= pre.settings.output_texture_format.version
            &&& w1.append_environment.version >= pre.settings.append_environment.version
        }),
{
}

impl Worker {
    /// A worker on the receiving end of the given channels, with the
    /// backend variant the shader snapshot asks for installed and output
    /// wanted on invalidation.
    pub fn new(recvs: SettingsChannels, backend: ShaderBackend) -> (w: Worker)
        ensures
            w.settings_recvrs == recvs,
            settings_fresh(w.settings),
            backend == ShaderBackend::FullCompute ==> (w.backend matches
                ArbitraryWorker::ComputeWorker(p) && comp_fresh(p)),
            backend != ShaderBackend::FullCompute ==> (w.backend matches
                ArbitraryWorker::FragmentWorker(p) && frag_fresh(p)),
            w.render_on_invalid,
            stage_fresh(w.blitter),
            stage_fresh(w.mod_comp),
            gate_fresh(w.when_send_comp_errs),
    {
        Worker {
            settings_recvrs: recvs,
            settings: VersionedSettings::new(),
            backend: ArbitraryWorker::for_backend(backend),
            render_on_invalid: true,
            blitter: Stage::new(),
            mod_comp: Stage::new(),
            when_send_comp_errs: DirtyGate::new(),
        }
    }

    /// Whether the producer asked the worker's loop to stop; consumes one
    /// kill message.
    pub fn kill_requested(&mut self) -> (r: bool)
        ensures
            r == (old(self).settings_recvrs.kill.spec_pending().len() > 0),
            r ==> final(self).settings_recvrs.kill.spec_pending()
                == old(self).settings_recvrs.kill.spec_pending().drop_first(),
            !r ==> final(self).settings_recvrs.kill.spec_pending()
                == old(self).settings_recvrs.kill.spec_pending(),
            final(self).settings_recvrs.shader_content == old(self).settings_recvrs.shader_content,
            final(self).settings_recvrs.hardware == old(self).settings_recvrs.hardware,
            final(self).settings_recvrs.output_texture_view
                == old(self).settings_recvrs.output_texture_view,
            final(self).settings_recvrs.preout_size == old(self).settings_recvrs.preout_size,
            final(self).settings == old(self).settings,
            final(self).backend == old(self).backend,
            final(self).render_on_invalid == old(self).render_on_invalid,
            final(self).blitter == old(self).blitter,
            final(self).mod_comp == old(self).mod_comp,
            final(self).when_send_comp_errs == old(self).when_send_comp_errs,
    {
        self.settings_recvrs.kill.try_recv().is_some()
    }

    /// Drains every settings mailbox to its latest message into the
    /// versioned inputs; the kill mailbox is left to the loop.
    pub fn read_recvrs(&mut self)
        ensures
            final(self).settings == spec_read_settings(*old(self)),
            final(self).settings_recvrs.shader_content.spec_pending()
                == Seq::<ShaderConfig>::empty(),
            final(self).settings_recvrs.hardware.spec_pending() == Seq::<GPUAdapterInfo>::empty(),
            final(self).settings_recvrs.output_texture_view.spec_pending()
                == Seq::<TextureViewHandle>::empty(),
            final(self).settings_recvrs.preout_size.spec_pending() == Seq::<(u32, u32)>::empty(),
            final(self).settings_recvrs.kill == old(self).settings_recvrs.kill,
            final(self).backend == old(self).backend,
            final(self).render_on_invalid == old(self).render_on_invalid,
            final(self).blitter == old(self).blitter,
            final(self).mod_comp == old(self).mod_comp,
            final(self).when_send_comp_errs == old(self).when_send_comp_errs,
    {
        if let Some(cfg) = latest_from_receiver(&mut self.settings_recvrs.shader_content) {
            self.settings.shader_lang.advance_if_changed(Some(cfg.language));
            self.settings.shader_text.advance_if_changed(Some(cfg.content));
        }
        if let Some(hw) = latest_from_receiver(&mut self.settings_recvrs.hardware) {
            self.settings.hardware.advance(Some(hw));
        }
        if let Some(view) = latest_from_receiver(&mut self.settings_recvrs.output_texture_view) {
            self.settings.output_texture_view.advance(Some(view));
        }
        if let Some(sz) = latest_from_receiver(&mut self.settings_recvrs.preout_size) {
            self.settings.preout_size.advance_if_changed(Some(sz));
        }
        self.settings.output_texture_format.advance_if_changed(Some(TextureFormat::Rgba8Unorm));
    }

    /// One orchestrator tick: drain the mailboxes, rebuild the shader
    /// module if its inputs changed, report compile results when the module
    /// moved, rebuild the copy helper if due, run the backend, and on a
    /// presented frame drop the consumed output view and signal completion.
    /// Returns whether a presentable frame was produced.
    #[verifier::rlimit(80)]
    pub fn step<D: GraphicsDevice>(
        &mut self,
        device: &mut D,
        backtalk: &mut BacktalkChannels,
    ) -> (r: bool)
        ensures
            worker_step_rel(
                *old(self),
                *final(self),
                *old(backtalk),
                *final(backtalk),
                old(device).spec_log(),
                final(device).spec_log(),
                r,
            ),
    {
        self.read_recvrs();
        let ghost settings_after_read = self.settings;

        // shader module <- hardware, shader text, language; the result is
        // cached whole, so an unchanged failing shader is not re-attempted
        if let Some(hw) = self.settings.hardware.value {
            if self.settings.shader_text.value.is_some() {
                if let Some(lang) = self.settings.shader_lang.value {
                    let t = tuple3(
                        self.settings.hardware.version,
                        self.settings.shader_text.version,
                        self.settings.shader_lang.version,
                    );
                    if self.mod_comp.needs_run(&t) {
                        let text = self.settings.shader_text.value.as_ref().unwrap();
                        let out = device.create_shader_module(&hw, text, lang);
                        self.mod_comp.record(&t, out);
                    }
                }
            }
        }

        // one compile report per module version, failure or all-clear
        let mt = tuple1(self.mod_comp.output_version());
        if self.when_send_comp_errs.check_and_update(&mt) {
            let report: Option<CompileError> = match self.mod_comp.output() {
                Option::Some(Result::Err(e)) => Option::Some(e.duplicate()),
                _ => Option::None,
            };
            proof {
                assert(compile_report_matches(self.mod_comp.spec_cached(), report));
            }
            let ghost sent_report = report;
            backtalk.compile_reports.send(report);
            proof {
                assert(backtalk.compile_reports.spec_pending()
                    == old(backtalk).compile_reports.spec_pending().push(sent_report));
            }
        }

        // what downstream sees of the module: successes only, under the
        // module stage's own version so dirt tracking keys off the compile
        let successful_module: VersionedCell<ModuleHandle> = VersionedCell::from_parts(
            match self.mod_comp.output() {
                Option::Some(Result::Ok(m)) => Option::Some(*m),
                _ => Option::None,
            },
            self.mod_comp.output_version(),
        );

        // copy helper <- hardware, output format
        if let Some(hw) = self.settings.hardware.value {
            if let Some(fmt) = self.settings.output_texture_format.value {
                let t = tuple2(
                    self.settings.hardware.version,
                    self.settings.output_texture_format.version,
                );
                if self.blitter.needs_run(&t) {
                    let out = device.create_blitter(&hw, fmt);
                    self.blitter.record(&t, out);
                }
            }
        }
        let blitter_cell = self.blitter.as_cell();

        let mut entry_cell: VersionedCell<String> = VersionedCell::new();
        entry_cell.advance(Some(WGSL_ENTRY.to_owned()));

        let ghost mid_log = device.spec_log();
        proof {
            assert(mid_log == worker_own_log(*old(self), *self, old(device).spec_log()));
        }
        let rerendered = self.backend.step(
            device,
            &self.settings.preout_size,
            &self.settings.hardware,
            &successful_module,
            &entry_cell,
            &blitter_cell,
            self.render_on_invalid,
            &self.settings.output_texture_view,
        );

        if rerendered {
            // the consumed target is dropped; writing resumes only once the
            // producer supplies the next back buffer
            self.settings.output_texture_view.advance(None);
            backtalk.render_success.send(());
        }
        proof {
            let module_cell_g = (VersionedCell {
                value: ok_module(self.mod_comp.spec_cached()),
                version: self.mod_comp.spec_out_version(),
            });
            let blitter_cell_g = (VersionedCell {
                value: self.blitter.spec_cached(),
                version: self.blitter.spec_out_version(),
            });
            assert(mid_log == worker_own_log(*old(self), *self, old(device).spec_log()));
            assert(arbitrary_step_rel(
                old(self).backend,
                self.backend,
                settings_after_read.preout_size,
                settings_after_read.hardware,
                module_cell_g,
                entry_cell,
                blitter_cell_g,
                old(self).render_on_invalid,
                settings_after_read.output_texture_view,
                worker_own_log(*old(self), *self, old(device).spec_log()),
                device.spec_log(),
                rerendered,
            ));
        }
        rerendered
    }
}

} // verus!
