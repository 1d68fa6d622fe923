//! The double-buffered output handoff on the producer side.
//!
//! Two output-target slots: `present_buffer` is safe to display,
//! `backend_buffer` is what the worker writes into. On a completion signal
//! the roles invert exactly once, a stale-sized back buffer is reallocated,
//! and the new back buffer's view is handed to the worker as its next
//! output target. The worker never learns of the swap policy; it only ever
//! writes into whatever view it currently holds.

use vstd::prelude::*;

use crate::communication::backtalk_channels_empty;
use crate::device::{DeviceLog, GraphicsDevice, TextureInfo, TextureViewHandle};
use crate::gate::gate_fresh;
use crate::graphics_backend_client::GraphicsClient;
use crate::graphics_backend_worker::compute_worker::comp_fresh;
use crate::graphics_backend_worker::fragment_worker::frag_fresh;
use crate::graphics_backend_worker::{settings_fresh, worker_step_rel, ArbitraryWorker};
use crate::memo::stage_fresh;
use crate::shader_config::{GPUAdapterInfo, ShaderBackend, ShaderConfig};

verus! {

/// The client together with its two output-target slots.
pub struct RenderCtx {
    pub client: GraphicsClient,
    pub present_buffer: Option<TextureInfo>,
    pub backend_buffer: Option<TextureInfo>,
}

/// The handoff invariant. Both slots are filled and name different views;
/// every output view on its way to the worker, and the view the worker
/// holds, is the back buffer's; and an unconsumed completion signal means
/// the worker already gave its target up and no new one was sent yet.
pub open spec fn rctx_inv(r: RenderCtx) -> bool {
    &&& r.present_buffer matches Some(present)
    &&& r.backend_buffer matches Some(back)
    &&& ({
        let pending = r.client.worker.settings_recvrs.output_texture_view.spec_pending();
        let held = r.client.worker.settings.output_texture_view.value;
        let successes = r.client.backtalk.render_success.spec_pending();
        &&& present.view != back.view
        &&& forall|i: int| 0 <= i < pending.len() ==> pending[i] == back.view
        &&& (held is None || held == Some(back.view))
        &&& successes.len() <= 1
        &&& successes.len() > 0 ==> held is None && pending.len() == 0
    })
}

/// Display safety: under the invariant, the displayed view is neither the
/// view the worker holds as its write target nor any view on its way to
/// the worker.
pub proof fn lemma_display_safe(r: RenderCtx)
    requires
        rctx_inv(r),
    ensures
        r.present_buffer matches Some(present) && ({
            let pending = r.client.worker.settings_recvrs.output_texture_view.spec_pending();
            let held = r.client.worker.settings.output_texture_view.value;
            &&& held != Some(present.view)
            &&& forall|i: int| 0 <= i < pending.len() ==> pending[i] != present.view
        }),
{
}

/// Builds the handoff context once the two output textures exist: the
/// client with the hardware handle, initial size, shader snapshot and the
/// back buffer's view on their way to the worker, and the two buffer
/// slots. Yields the context exactly when the two views are distinct and
/// both textures carry the asked-for size.
pub fn assemble_render_ctx(
    hw: GPUAdapterInfo,
    draw_size: (u32, u32),
    shader_cfg: ShaderConfig,
    present: TextureInfo,
    back: TextureInfo,
) -> (r: Option<RenderCtx>)
    ensures
        (r is Some) == (present.view != back.view && present.size == draw_size
            && back.size == draw_size),
        r matches Some(ctx) ==> ({
            &&& rctx_inv(ctx)
            &&& ctx.present_buffer == Some(present)
            &&& ctx.backend_buffer == Some(back)
            &&& ctx.client.local_settings.preout_size == Some(draw_size)
            &&& ctx.client.local_settings.shader_cfg == shader_cfg
            &&& settings_fresh(ctx.client.worker.settings)
            &&& shader_cfg.backend == ShaderBackend::FullCompute ==> (ctx.client.worker.backend
                matches ArbitraryWorker::ComputeWorker(p) && comp_fresh(p))
            &&& shader_cfg.backend != ShaderBackend::FullCompute ==> (ctx.client.worker.backend
                matches ArbitraryWorker::FragmentWorker(p) && frag_fresh(p))
            &&& stage_fresh(ctx.client.worker.blitter)
            &&& stage_fresh(ctx.client.worker.mod_comp)
            &&& gate_fresh(ctx.client.worker.when_send_comp_errs)
            &&& ctx.client.worker.settings_recvrs.hardware.spec_pending() == seq![hw]
            &&& ctx.client.worker.settings_recvrs.preout_size.spec_pending() == seq![draw_size]
            &&& ctx.client.worker.settings_recvrs.output_texture_view.spec_pending() == seq![
                back.view,
            ]
            &&& ctx.client.worker.settings_recvrs.shader_content.spec_pending().len() == 1
            &&& ctx.client.worker.settings_recvrs.shader_content.spec_pending()[0].content@
                == shader_cfg.content@
            &&& ctx.client.worker.settings_recvrs.shader_content.spec_pending()[0].language
                == shader_cfg.language
            &&& ctx.client.worker.settings_recvrs.shader_content.spec_pending()[0].backend
                == shader_cfg.backend
            &&& ctx.client.worker.settings_recvrs.kill.spec_pending() == Seq::<()>::empty()
            &&& backtalk_channels_empty(&ctx.client.backtalk)
        }),
{
    if present.view == back.view || present.size.0 != draw_size.0
        || present.size.1 != draw_size.1 || back.size.0 != draw_size.0
        || back.size.1 != draw_size.1 {
        return None;
    }
    let mut client = GraphicsClient::new(shader_cfg);
    client.set_hardware(hw);
    client.set_preout_size(draw_size);
    client.set_output_view(back.view);
    proof {
        assert(client.worker.settings_recvrs.hardware.spec_pending() =~= seq![hw]);
        assert(client.worker.settings_recvrs.preout_size.spec_pending() =~= seq![draw_size]);
        assert(client.worker.settings_recvrs.output_texture_view.spec_pending() =~= seq![
            back.view,
        ]);
    }
    Some(RenderCtx { client, present_buffer: Some(present), backend_buffer: Some(back) })
}

impl RenderCtx {
    /// One-time setup: asks the device for the two output textures and
    /// assembles the context around them. The device decides the returned
    /// views, so the result is fixed per returned pair by
    /// [`assemble_render_ctx`]: nothing comes back only if the device
    /// handed out a duplicate view or a wrong size.
    pub fn new<D: GraphicsDevice>(
        device: &mut D,
        hw: GPUAdapterInfo,
        draw_size: (u32, u32),
        shader_cfg: ShaderConfig,
    ) -> (r: Option<RenderCtx>)
        ensures
            exists|p: TextureInfo, b: TextureInfo|
                {
                    &&& final(device).spec_log() == #[trigger] old(device).spec_log()
                        .with_output_texture((draw_size, p)).with_output_texture((draw_size, b))
                    &&& (r is Some) == (p.view != b.view && p.size == draw_size && b.size
                        == draw_size)
                    &&& (r matches Some(ctx) ==> ctx.present_buffer == Some(p)
                        && ctx.backend_buffer == Some(b))
                },
            r matches Some(ctx) ==> rctx_inv(ctx),
            r matches Some(ctx) ==> (ctx.present_buffer matches Some(p) && p.size == draw_size),
            r matches Some(ctx) ==> (ctx.backend_buffer matches Some(b) && b.size == draw_size),
            final(device).spec_log().submits == old(device).spec_log().submits,
            final(device).spec_log().compiles == old(device).spec_log().compiles,
            final(device).spec_log().frees == old(device).spec_log().frees,
    {
        let present = device.create_output_texture(draw_size);
        let back = device.create_output_texture(draw_size);
        let r = assemble_render_ctx(hw, draw_size, shader_cfg, present, back);
        proof {
            assert(final(device).spec_log() == old(device).spec_log().with_output_texture(
                (draw_size, present),
            ).with_output_texture((draw_size, back)));
        }
        r
    }

    /// Whether the display target changed size and the producer must be
    /// told about the new dimensions.
    pub fn needs_resize(&self, correct_size: (u32, u32)) -> (r: bool)
        ensures
            r == (self.client.local_settings.preout_size != Some(correct_size)),
    {
        match self.client.get_preout_size() {
            Option::Some(s) => s.0 != correct_size.0 || s.1 != correct_size.1,
            Option::None => true,
        }
    }
}

/// Entry state of a swap: both slots filled with distinct views, and the
/// worker neither holding a target nor owed one — exactly what the
/// invariant gives right after a completion signal was consumed.
pub open spec fn swap_entry(r: RenderCtx) -> bool {
    &&& r.present_buffer matches Some(p)
    &&& r.backend_buffer matches Some(b)
    &&& (r.present_buffer matches Some(p) && r.backend_buffer matches Some(b)) ==> p.view != b.view
    &&& r.client.worker.settings_recvrs.output_texture_view.spec_pending()
        == Seq::<TextureViewHandle>::empty()
    &&& r.client.worker.settings.output_texture_view.value is None
}

/// Installs a freshly allocated back buffer after the roles inverted:
/// succeeds exactly when the device's new texture carries the asked-for
/// size and a view distinct from the one now going on display. On success
/// the new back view is on its way to the worker; on failure nothing
/// changes.
fn install_reallocated_back(
    rctx: &mut RenderCtx,
    fresh: TextureInfo,
    correct_size: (u32, u32),
) -> (ok: bool)
    requires
        swap_entry(*old(rctx)),
    ensures
        (old(rctx).backend_buffer matches Some(b) ==> ok == (fresh.view != b.view && fresh.size
            == correct_size)),
        !ok ==> *final(rctx) == *old(rctx),
        ok ==> final(rctx).present_buffer == old(rctx).backend_buffer,
        ok ==> final(rctx).backend_buffer == Some(fresh),
        ok ==> final(rctx).client.worker.settings_recvrs.output_texture_view.spec_pending()
            == seq![fresh.view],
        ok ==> final(rctx).client.worker.settings.output_texture_view
            == old(rctx).client.worker.settings.output_texture_view,
        ok ==> final(rctx).client.backtalk == old(rctx).client.backtalk,
        ok ==> final(rctx).client.local_settings == old(rctx).client.local_settings,
        ok ==> final(rctx).client.worker.settings_recvrs.preout_size
            == old(rctx).client.worker.settings_recvrs.preout_size,
{
    let new_present = rctx.backend_buffer.unwrap();
    if fresh.view == new_present.view || fresh.size.0 != correct_size.0
        || fresh.size.1 != correct_size.1 {
        return false;
    }
    rctx.present_buffer = Some(new_present);
    rctx.backend_buffer = Some(fresh);
    rctx.client.set_output_view(fresh.view);
    proof {
        assert(rctx.client.worker.settings_recvrs.output_texture_view.spec_pending() =~= seq![
            fresh.view,
        ]);
    }
    true
}

/// Inverts the buffer roles once and hands the worker its next target.
/// When the display texture's size still fits it is reused as the back
/// buffer and the swap is owed unconditionally — no device call decides
/// anything on that path. Only a reallocation can fail, and only if the
/// device hands back a duplicate view or a wrong size; then nothing
/// changes.
fn swap_backend_buffer_and_update_backbuffer_and_inform_client<D: GraphicsDevice>(
    device: &mut D,
    rctx: &mut RenderCtx,
    correct_size: (u32, u32),
) -> (ok: bool)
    requires
        swap_entry(*old(rctx)),
    ensures
        (old(rctx).present_buffer matches Some(p) && p.size == correct_size) ==> (ok
            && final(rctx).backend_buffer == old(rctx).present_buffer),
        ok ==> final(rctx).present_buffer == old(rctx).backend_buffer,
        ok ==> (final(rctx).backend_buffer matches Some(nb) && nb.size == correct_size
            && (old(rctx).backend_buffer matches Some(ob) ==> nb.view != ob.view)
            && final(rctx).client.worker.settings_recvrs.output_texture_view.spec_pending()
            == seq![nb.view]),
        ok ==> final(rctx).client.worker.settings.output_texture_view
            == old(rctx).client.worker.settings.output_texture_view,
        ok ==> final(rctx).client.backtalk == old(rctx).client.backtalk,
        ok ==> final(rctx).client.local_settings == old(rctx).client.local_settings,
        ok ==> final(rctx).client.worker.settings_recvrs.preout_size
            == old(rctx).client.worker.settings_recvrs.preout_size,
        !ok ==> *final(rctx) == *old(rctx),
        ({
            let reuse = old(rctx).present_buffer matches Some(p) && p.size == correct_size;
            &&& reuse ==> final(device).spec_log() == old(device).spec_log()
            &&& (!reuse && ok) ==> (final(rctx).backend_buffer matches Some(nb)
                && (old(rctx).present_buffer matches Some(p)
                && final(device).spec_log()
                    == old(device).spec_log().with_output_texture((correct_size, nb)).with_free(
                    p.id,
                )))
            &&& (!reuse && !ok) ==> exists|t: TextureInfo|
                final(device).spec_log() == #[trigger] old(device).spec_log().with_output_texture(
                    (correct_size, t),
                ) && (old(rctx).backend_buffer matches Some(ob) ==> (t.view == ob.view || t.size
                    != correct_size))
        }),
{
    let new_present = rctx.backend_buffer.unwrap();
    let cand_back = rctx.present_buffer.unwrap();
    if cand_back.size.0 == correct_size.0 && cand_back.size.1 == correct_size.1 {
        // sizes still match: the old display texture is reused as the back
        // buffer, and the two views are distinct by the invariant
        rctx.present_buffer = Some(new_present);
        rctx.backend_buffer = Some(cand_back);
        rctx.client.set_output_view(cand_back.view);
        proof {
            assert(rctx.client.worker.settings_recvrs.output_texture_view.spec_pending() =~= seq![
                cand_back.view,
            ]);
        }
        true
    } else {
        let fresh = device.create_output_texture(correct_size);
        let ok = install_reallocated_back(rctx, fresh, correct_size);
        if ok {
            // the stale display texture is released only once the
            // replacement is committed
            device.free_output_texture(cand_back.id);
        }
        ok
    }
}

/// The producer's per-frame preparation: consume at most one completion
/// signal and invert the buffer roles for it, resend the output size if
/// the display target changed, and name the texture that is safe to
/// display this frame. When the display texture's size still fits, the
/// inversion is owed unconditionally; only a reallocation can be refused
/// by the device, and then the buffers stay as they were. No render work
/// and no compile is ever requested here.
pub fn prep_to_render<D: GraphicsDevice>(
    device: &mut D,
    rctx: &mut RenderCtx,
    correct_size: (u32, u32),
) -> (id: Option<u64>)
    requires
        rctx_inv(*old(rctx)),
    ensures
        rctx_inv(*final(rctx)),
        final(rctx).present_buffer matches Some(p) && id == Some(p.id),
        ({
            let had = old(rctx).client.backtalk.render_success.spec_pending().len() > 0;
            &&& !had ==> final(rctx).present_buffer == old(rctx).present_buffer
                && final(rctx).backend_buffer == old(rctx).backend_buffer
            &&& had ==> (final(rctx).present_buffer == old(rctx).backend_buffer || (
                final(rctx).present_buffer == old(rctx).present_buffer
                    && final(rctx).backend_buffer == old(rctx).backend_buffer
            ))
            &&& (had && old(rctx).present_buffer is Some && (old(
                rctx,
            ).present_buffer.unwrap().size == correct_size)) ==> (
                final(rctx).present_buffer == old(rctx).backend_buffer
                    && final(rctx).backend_buffer == old(rctx).present_buffer
                    && final(rctx).client.worker.settings_recvrs.output_texture_view.spec_pending()
                    == seq![old(rctx).present_buffer.unwrap().view]
            )
            &&& had ==> final(rctx).client.backtalk.render_success.spec_pending()
                == old(rctx).client.backtalk.render_success.spec_pending().drop_first()
            &&& !had ==> final(rctx).client.backtalk.render_success.spec_pending()
                == old(rctx).client.backtalk.render_success.spec_pending()
        }),
        final(rctx).client.local_settings.preout_size == Some(correct_size),
        final(rctx).client.local_settings.shader_cfg
            == old(rctx).client.local_settings.shader_cfg,
        (old(rctx).client.local_settings.preout_size == Some(correct_size))
            ==> final(rctx).client.worker.settings_recvrs.preout_size.spec_pending()
            == old(rctx).client.worker.settings_recvrs.preout_size.spec_pending(),
        (old(rctx).client.local_settings.preout_size != Some(correct_size))
            ==> final(rctx).client.worker.settings_recvrs.preout_size.spec_pending()
            == old(rctx).client.worker.settings_recvrs.preout_size.spec_pending().push(
            correct_size,
        ),
        final(device).spec_log().submits == old(device).spec_log().submits,
        final(device).spec_log().compiles == old(device).spec_log().compiles,
{
    if rctx.client.get_should_swap() {
        proof {
            assert(rctx.client.worker.settings_recvrs.output_texture_view.spec_pending()
                =~= Seq::<TextureViewHandle>::empty());
        }
        let _swapped = swap_backend_buffer_and_update_backbuffer_and_inform_client(
            device,
            rctx,
            correct_size,
        );
    }
    if rctx.needs_resize(correct_size) {
        rctx.client.set_preout_size(correct_size);
    }
    match &rctx.present_buffer {
        Option::Some(p) => Some(p.id),
        Option::None => None,
    }
}

/// Ticking the worker preserves the handoff invariant: the worker only
/// drains views that all name the back buffer, and on completion it gives
/// its target up before signalling.
pub proof fn lemma_tick_preserves_inv(
    pre: RenderCtx,
    post: RenderCtx,
    dev0: DeviceLog,
    dev1: DeviceLog,
    r: bool,
)
    requires
        rctx_inv(pre),
        worker_step_rel(
            pre.client.worker,
            post.client.worker,
            pre.client.backtalk,
            post.client.backtalk,
            dev0,
            dev1,
            r,
        ),
        post.present_buffer == pre.present_buffer,
        post.backend_buffer == pre.backend_buffer,
    ensures
        rctx_inv(post),
{
    let pending = pre.client.worker.settings_recvrs.output_texture_view.spec_pending();
    let successes = pre.client.backtalk.render_success.spec_pending();
    let w1 = crate::graphics_backend_worker::spec_read_settings(pre.client.worker);
    if successes.len() > 0 {
        // the worker holds no target and none is pending, so it cannot
        // have presented again
        assert(w1.output_texture_view.value is None);
        if r {
            let ep = choose|ep: crate::versioned::VersionedCell<String>|
                (ep.value matches Some(s) && s@ == crate::shader_config::WGSL_ENTRY@)
                    && ep.version == 1
                    && #[trigger] crate::graphics_backend_worker::arbitrary_step_rel(
                    pre.client.worker.backend,
                    post.client.worker.backend,
                    w1.preout_size,
                    w1.hardware,
                    (crate::versioned::VersionedCell {
                        value: crate::graphics_backend_worker::ok_module(
                            post.client.worker.mod_comp.spec_cached(),
                        ),
                        version: post.client.worker.mod_comp.spec_out_version(),
                    }),
                    ep,
                    (crate::versioned::VersionedCell {
                        value: post.client.worker.blitter.spec_cached(),
                        version: post.client.worker.blitter.spec_out_version(),
                    }),
                    pre.client.worker.render_on_invalid,
                    w1.output_texture_view,
                    crate::graphics_backend_worker::worker_own_log(
                        pre.client.worker,
                        post.client.worker,
                        dev0,
                    ),
                    dev1,
                    r,
                );
            assert(false);
        }
    }
}

} // verus!
