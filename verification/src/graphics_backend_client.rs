//! The producer-side surface of the engine: caches the last-sent settings,
//! pushes changed ones into the worker's mailboxes, and polls the backtalk
//! channel for completion signals and compile reports.
//!
//! The client owns the worker and the channels between them; a runtime loop
//! drives the worker through [`GraphicsClient::tick`].

use vstd::prelude::*;

use crate::communication::{
    backtalk_channels_empty, create_backtalk_pair, create_pair, BacktalkChannels,
};
use crate::device::{CompileError, GraphicsDevice, TextureViewHandle};
use crate::gate::gate_fresh;
use crate::graphics_backend_worker::{
    settings_fresh, worker_step_rel, ArbitraryWorker, Worker,
};
use crate::graphics_backend_worker::compute_worker::comp_fresh;
use crate::graphics_backend_worker::fragment_worker::frag_fresh;
use crate::memo::stage_fresh;
use crate::shader_config::{GPUAdapterInfo, ShaderBackend, ShaderConfig};

verus! {

/// The producer's shadow of what it last sent: a resend of an equal value
/// is suppressed here, before it even reaches a mailbox.
pub struct LocalSettings {
    pub preout_size: Option<(u32, u32)>,
    pub shader_cfg: ShaderConfig,
}

/// The producer-side handle on the engine.
pub struct GraphicsClient {
    pub local_settings: LocalSettings,
    pub worker: Worker,
    pub backtalk: BacktalkChannels,
}

impl GraphicsClient {
    /// A client over a fresh worker, with the initial shader snapshot
    /// already on its way to the worker.
    pub fn new(shader_cfg: ShaderConfig) -> (c: GraphicsClient)
        ensures
            c.local_settings.preout_size is None,
            c.local_settings.shader_cfg == shader_cfg,
            settings_fresh(c.worker.settings),
            shader_cfg.backend == ShaderBackend::FullCompute ==> (c.worker.backend matches
                ArbitraryWorker::ComputeWorker(p) && comp_fresh(p)),
            shader_cfg.backend != ShaderBackend::FullCompute ==> (c.worker.backend matches
                ArbitraryWorker::FragmentWorker(p) && frag_fresh(p)),
            c.worker.render_on_invalid,
            stage_fresh(c.worker.blitter),
            stage_fresh(c.worker.mod_comp),
            gate_fresh(c.worker.when_send_comp_errs),
            c.worker.settings_recvrs.shader_content.spec_pending().len() == 1,
            c.worker.settings_recvrs.shader_content.spec_pending()[0].content@
                == shader_cfg.content@,
            c.worker.settings_recvrs.shader_content.spec_pending()[0].language
                == shader_cfg.language,
            c.worker.settings_recvrs.shader_content.spec_pending()[0].backend
                == shader_cfg.backend,
            c.worker.settings_recvrs.hardware.spec_pending() == Seq::<GPUAdapterInfo>::empty(),
            c.worker.settings_recvrs.output_texture_view.spec_pending()
                == Seq::<TextureViewHandle>::empty(),
            c.worker.settings_recvrs.preout_size.spec_pending() == Seq::<(u32, u32)>::empty(),
            c.worker.settings_recvrs.kill.spec_pending() == Seq::<()>::empty(),
            backtalk_channels_empty(&c.backtalk),
    {
        let mut channels = create_pair();
        channels.shader_content.send(shader_cfg.duplicate());
        let backend = shader_cfg.backend;
        let worker = Worker::new(channels, backend);
        GraphicsClient {
            local_settings: LocalSettings { preout_size: None, shader_cfg },
            worker,
            backtalk: create_backtalk_pair(),
        }
    }

    /// The last output size this producer sent.
    pub fn get_preout_size(&self) -> (r: Option<(u32, u32)>)
        ensures
            r == self.local_settings.preout_size,
    {
        self.local_settings.preout_size
    }

    /// Sends a new output size, unless it equals the last-sent one — the
    /// producer-side debounce above the channel itself.
    pub fn set_preout_size(&mut self, size: (u32, u32))
        ensures
            (old(self).local_settings.preout_size matches Some(s) && s == size) ==> *final(self)
                == *old(self),
            !(old(self).local_settings.preout_size matches Some(s) && s == size) ==> {
                &&& final(self).local_settings.preout_size == Some(size)
                &&& final(self).local_settings.shader_cfg == old(self).local_settings.shader_cfg
                &&& final(self).worker.settings_recvrs.preout_size.spec_pending()
                    == old(self).worker.settings_recvrs.preout_size.spec_pending().push(size)
                &&& final(self).worker.settings_recvrs.shader_content
                    == old(self).worker.settings_recvrs.shader_content
                &&& final(self).worker.settings_recvrs.hardware
                    == old(self).worker.settings_recvrs.hardware
                &&& final(self).worker.settings_recvrs.output_texture_view
                    == old(self).worker.settings_recvrs.output_texture_view
                &&& final(self).worker.settings_recvrs.kill
                    == old(self).worker.settings_recvrs.kill
                &&& final(self).worker.settings == old(self).worker.settings
                &&& final(self).worker.backend == old(self).worker.backend
                &&& final(self).worker.render_on_invalid == old(self).worker.render_on_invalid
                &&& final(self).worker.blitter == old(self).worker.blitter
                &&& final(self).worker.mod_comp == old(self).worker.mod_comp
                &&& final(self).worker.when_send_comp_errs
                    == old(self).worker.when_send_comp_errs
                &&& final(self).backtalk == old(self).backtalk
            },
    {
        let same = match self.local_settings.preout_size {
            Option::Some(s) => s.0 == size.0 && s.1 == size.1,
            Option::None => false,
        };
        if !same {
            self.local_settings.preout_size = Some(size);
            self.worker.settings_recvrs.preout_size.send(size);
        }
    }

    /// Hands the worker its next output target.
    pub fn set_output_view(&mut self, output_view: TextureViewHandle)
        ensures
            final(self).worker.settings_recvrs.output_texture_view.spec_pending()
                == old(self).worker.settings_recvrs.output_texture_view.spec_pending().push(
                output_view,
            ),
            final(self).worker.settings_recvrs.shader_content
                == old(self).worker.settings_recvrs.shader_content,
            final(self).worker.settings_recvrs.hardware
                == old(self).worker.settings_recvrs.hardware,
            final(self).worker.settings_recvrs.preout_size
                == old(self).worker.settings_recvrs.preout_size,
            final(self).worker.settings_recvrs.kill == old(self).worker.settings_recvrs.kill,
            final(self).worker.settings == old(self).worker.settings,
            final(self).worker.backend == old(self).worker.backend,
            final(self).worker.render_on_invalid == old(self).worker.render_on_invalid,
            final(self).worker.blitter == old(self).worker.blitter,
            final(self).worker.mod_comp == old(self).worker.mod_comp,
            final(self).worker.when_send_comp_errs == old(self).worker.when_send_comp_errs,
            final(self).local_settings == old(self).local_settings,
            final(self).backtalk == old(self).backtalk,
    {
        self.worker.settings_recvrs.output_texture_view.send(output_view);
    }

    /// Hands the worker the hardware handle, once, at setup.
    pub fn set_hardware(&mut self, hw: GPUAdapterInfo)
        ensures
            final(self).worker.settings_recvrs.hardware.spec_pending()
                == old(self).worker.settings_recvrs.hardware.spec_pending().push(hw),
            final(self).worker.settings_recvrs.shader_content
                == old(self).worker.settings_recvrs.shader_content,
            final(self).worker.settings_recvrs.output_texture_view
                == old(self).worker.settings_recvrs.output_texture_view,
            final(self).worker.settings_recvrs.preout_size
                == old(self).worker.settings_recvrs.preout_size,
            final(self).worker.settings_recvrs.kill == old(self).worker.settings_recvrs.kill,
            final(self).worker.settings == old(self).worker.settings,
            final(self).worker.backend == old(self).worker.backend,
            final(self).worker.render_on_invalid == old(self).worker.render_on_invalid,
            final(self).worker.blitter == old(self).worker.blitter,
            final(self).worker.mod_comp == old(self).worker.mod_comp,
            final(self).worker.when_send_comp_errs == old(self).worker.when_send_comp_errs,
            final(self).local_settings == old(self).local_settings,
            final(self).backtalk == old(self).backtalk,
    {
        self.worker.settings_recvrs.hardware.send(hw);
    }

    /// Replaces the shader text in the cached snapshot and resends the
    /// whole snapshot — unless the text equals the last-sent one, in which
    /// case nothing moves: the producer-side debounce above the channel
    /// itself.
    pub fn set_shader_text(&mut self, text: String)
        ensures
            old(self).local_settings.shader_cfg.content@ == text@ ==> *final(self) == *old(self),
            old(self).local_settings.shader_cfg.content@ != text@ ==> {
                &&& final(self).local_settings.shader_cfg.content == text
                &&& final(self).local_settings.shader_cfg.language
                    == old(self).local_settings.shader_cfg.language
                &&& final(self).local_settings.shader_cfg.backend
                    == old(self).local_settings.shader_cfg.backend
                &&& final(self).local_settings.preout_size == old(self).local_settings.preout_size
                &&& ({
                    let p = final(self).worker.settings_recvrs.shader_content.spec_pending();
                    let q = old(self).worker.settings_recvrs.shader_content.spec_pending();
                    &&& p.len() == q.len() + 1
                    &&& p.drop_last() == q
                    &&& p.last().content@ == text@
                    &&& p.last().language == old(self).local_settings.shader_cfg.language
                    &&& p.last().backend == old(self).local_settings.shader_cfg.backend
                })
                &&& final(self).worker.settings_recvrs.hardware
                    == old(self).worker.settings_recvrs.hardware
                &&& final(self).worker.settings_recvrs.output_texture_view
                    == old(self).worker.settings_recvrs.output_texture_view
                &&& final(self).worker.settings_recvrs.preout_size
                    == old(self).worker.settings_recvrs.preout_size
                &&& final(self).worker.settings_recvrs.kill == old(self).worker.settings_recvrs.kill
                &&& final(self).worker.settings == old(self).worker.settings
                &&& final(self).worker.backend == old(self).worker.backend
                &&& final(self).worker.render_on_invalid == old(self).worker.render_on_invalid
                &&& final(self).worker.blitter == old(self).worker.blitter
                &&& final(self).worker.mod_comp == old(self).worker.mod_comp
                &&& final(self).worker.when_send_comp_errs == old(self).worker.when_send_comp_errs
                &&& final(self).backtalk == old(self).backtalk
            },
    {
        if self.local_settings.shader_cfg.content.eq(&text) {
            return;
        }
        self.local_settings.shader_cfg.content = text;
        let snapshot = self.local_settings.shader_cfg.duplicate();
        self.worker.settings_recvrs.shader_content.send(snapshot);
        proof {
            let p = self.worker.settings_recvrs.shader_content.spec_pending();
            let q = old(self).worker.settings_recvrs.shader_content.spec_pending();
            assert(p.drop_last() =~= q);
        }
    }

    /// Non-blocking poll of the backtalk channel: whether the worker
    /// finished a frame since the last poll; consumes one signal.
    pub fn get_should_swap(&mut self) -> (r: bool)
        ensures
            r == (old(self).backtalk.render_success.spec_pending().len() > 0),
            r ==> final(self).backtalk.render_success.spec_pending()
                == old(self).backtalk.render_success.spec_pending().drop_first(),
            !r ==> final(self).backtalk.render_success.spec_pending()
                == old(self).backtalk.render_success.spec_pending(),
            final(self).backtalk.compile_reports == old(self).backtalk.compile_reports,
            final(self).worker == old(self).worker,
            final(self).local_settings == old(self).local_settings,
    {
        self.backtalk.render_success.try_recv().is_some()
    }

    /// The newest compile report the worker sent, if any arrived since the
    /// last poll: `Some(None)` is the all-clear after a successful compile,
    /// `Some(Some(e))` the captured validation failure.
    pub fn take_compile_report(&mut self) -> (r: Option<Option<CompileError>>)
        ensures
            final(self).backtalk.compile_reports.spec_pending()
                == Seq::<Option<CompileError>>::empty(),
            old(self).backtalk.compile_reports.spec_pending().len() == 0 ==> r is None,
            old(self).backtalk.compile_reports.spec_pending().len() > 0 ==> r == Some(
                old(self).backtalk.compile_reports.spec_pending().last(),
            ),
            final(self).backtalk.render_success == old(self).backtalk.render_success,
            final(self).worker == old(self).worker,
            final(self).local_settings == old(self).local_settings,
    {
        self.backtalk.compile_reports.drain_latest()
    }

    /// Asks the worker's loop to stop; the loop observes the message at its
    /// next pacing boundary. The producer sends this when it is dropped.
    pub fn send_kill(&mut self)
        ensures
            final(self).worker.settings_recvrs.kill.spec_pending()
                == old(self).worker.settings_recvrs.kill.spec_pending().push(()),
            final(self).worker.settings_recvrs.shader_content
                == old(self).worker.settings_recvrs.shader_content,
            final(self).worker.settings_recvrs.hardware
                == old(self).worker.settings_recvrs.hardware,
            final(self).worker.settings_recvrs.output_texture_view
                == old(self).worker.settings_recvrs.output_texture_view,
            final(self).worker.settings_recvrs.preout_size
                == old(self).worker.settings_recvrs.preout_size,
            final(self).worker.settings == old(self).worker.settings,
            final(self).worker.backend == old(self).worker.backend,
            final(self).worker.render_on_invalid == old(self).worker.render_on_invalid,
            final(self).worker.blitter == old(self).worker.blitter,
            final(self).worker.mod_comp == old(self).worker.mod_comp,
            final(self).worker.when_send_comp_errs == old(self).worker.when_send_comp_errs,
            final(self).local_settings == old(self).local_settings,
            final(self).backtalk == old(self).backtalk,
    {
        self.worker.settings_recvrs.kill.send(());
    }

    /// One orchestrator tick, driven by the runtime loop that owns this
    /// client. Returns whether a presentable frame was produced.
    pub fn tick<D: GraphicsDevice>(&mut self, device: &mut D) -> (r: bool)
        ensures
            worker_step_rel(
                old(self).worker,
                final(self).worker,
                old(self).backtalk,
                final(self).backtalk,
                old(device).spec_log(),
                final(device).spec_log(),
                r,
            ),
            final(self).local_settings == old(self).local_settings,
    {
        let GraphicsClient { local_settings, worker, backtalk } = self;
        worker.step(device, backtalk)
    }
}

} // verus!
