//! End-to-end runs of the engine against the self-contained model device.

use shaderwheels_logic::device::{GraphicsDevice, RecomputePass, TextureViewHandle};
use shaderwheels_logic::graphics_backend_client::GraphicsClient;
use shaderwheels_logic::model_device::ModelDevice;
use shaderwheels_logic::render_handoff::{prep_to_render, RenderCtx};
use shaderwheels_logic::shader_config::{
    GPUAdapterInfo, ShaderBackend, ShaderConfig, ShaderLanguage,
};

fn test_config(content: &str) -> ShaderConfig {
    ShaderConfig {
        content: String::from(content),
        language: ShaderLanguage::Wgsl,
        backend: ShaderBackend::FullFragment,
    }
}

fn test_hw() -> GPUAdapterInfo {
    GPUAdapterInfo { device_id: 1, queue_id: 2 }
}

/// First frame: hardware, size, a valid shader and a target produce
/// exactly one submission and one completion signal; resending the same
/// shader produces nothing further.
#[test]
fn first_tick_presents_exactly_once() {
    let mut dev = ModelDevice::new();
    let mut client = GraphicsClient::new(test_config("@fragment fn main() {}"));
    client.set_hardware(test_hw());
    client.set_preout_size((64, 64));
    client.set_output_view(TextureViewHandle { id: 900 });

    let rendered = client.tick(&mut dev);
    assert!(rendered);
    assert_eq!(dev.submit_count(), 1);
    assert!(client.get_should_swap());
    assert!(!client.get_should_swap());

    // the first compile's report is the all-clear
    assert_eq!(client.take_compile_report(), Some(None));

    // an identical shader snapshot changes no version, so no stage reruns
    // and no further device work is submitted
    client.set_shader_text(String::from("@fragment fn main() {}"));
    let rendered_again = client.tick(&mut dev);
    assert!(!rendered_again);
    assert_eq!(dev.submit_count(), 1);
    assert!(!client.get_should_swap());
}

/// Resize: the intermediate texture stage recomputes, both gates fire, and
/// exactly one more submission carries both the draw and the copy.
#[test]
fn resize_recomputes_and_presents_once() {
    let mut dev = ModelDevice::new();
    let mut client = GraphicsClient::new(test_config("@fragment fn main() {}"));
    client.set_hardware(test_hw());
    client.set_preout_size((64, 64));
    client.set_output_view(TextureViewHandle { id: 900 });
    assert!(client.tick(&mut dev));
    assert!(client.get_should_swap());
    assert_eq!(dev.submit_count(), 1);

    client.set_output_view(TextureViewHandle { id: 901 });
    client.set_preout_size((128, 128));
    let rendered = client.tick(&mut dev);
    assert!(rendered);
    assert_eq!(dev.submit_count(), 2);
    let work = dev.last_work().as_ref().unwrap();
    assert!(work.recompute.is_some());
    assert!(work.copy.is_some());
    assert!(client.get_should_swap());
}

/// Two shader updates before the worker's next tick: only the latest text
/// is ever handed to the compiler.
#[test]
fn burst_of_updates_compiles_only_the_latest() {
    let mut dev = ModelDevice::new();
    let mut client = GraphicsClient::new(test_config("first"));
    client.set_hardware(test_hw());
    client.set_preout_size((64, 64));
    client.set_output_view(TextureViewHandle { id: 900 });
    assert!(client.tick(&mut dev));
    let compiles_before = dev.compile_count();

    client.set_shader_text(String::from("second"));
    client.set_shader_text(String::from("third"));
    client.tick(&mut dev);
    assert_eq!(dev.compile_count(), compiles_before + 1);
    assert_eq!(dev.last_compiled().as_deref(), Some("third"));
}

/// A failing shader edit does not block presentation: the last good
/// pipeline's output keeps being copied out, and the failure is
/// retrievable as an error value.
#[test]
fn compile_failure_keeps_presenting_the_last_good_frame() {
    let mut dev = ModelDevice::new();
    let mut client = GraphicsClient::new(test_config("good"));
    client.set_hardware(test_hw());
    client.set_preout_size((64, 64));
    client.set_output_view(TextureViewHandle { id: 900 });
    assert!(client.tick(&mut dev));
    assert!(client.get_should_swap());
    assert_eq!(client.take_compile_report(), Some(None));

    // the model device rejects an empty source
    client.set_shader_text(String::new());
    client.set_output_view(TextureViewHandle { id: 901 });
    let rendered = client.tick(&mut dev);
    assert!(rendered);
    assert!(client.get_should_swap());
    let work = dev.last_work().as_ref().unwrap();
    // no draw was re-attempted; the prior intermediate texture is copied
    assert!(work.recompute.is_none());
    assert!(work.copy.is_some());
    let report = client.take_compile_report();
    let err = report.expect("a report is due").expect("the report is a failure");
    assert_eq!(err.message, "shader source is empty");
}

/// The double buffer: roles invert exactly once per completion signal, and
/// the displayed view is never the worker's write target.
#[test]
fn handoff_swaps_roles_exactly_once_per_signal() {
    let mut dev = ModelDevice::new();
    let mut rctx = RenderCtx::new(
        &mut dev,
        test_hw(),
        (64, 64),
        test_config("good"),
    )
    .expect("the model device hands out distinct views");
    let first_present = rctx.present_buffer.unwrap();
    let first_back = rctx.backend_buffer.unwrap();
    assert_ne!(first_present.view, first_back.view);

    assert!(rctx.client.tick(&mut dev));

    let id = prep_to_render(&mut dev, &mut rctx, (64, 64));
    // one completion signal, one inversion: the old back buffer is now
    // on display
    let now_present = rctx.present_buffer.unwrap();
    let now_back = rctx.backend_buffer.unwrap();
    assert_eq!(id, Some(now_present.id));
    assert_eq!(now_present.view, first_back.view);
    assert_eq!(now_back.view, first_present.view);

    // the displayed view is not the worker's target
    assert_ne!(
        rctx.client.worker.settings.output_texture_view.value,
        Some(now_present.view)
    );

    // without a new signal, a second preparation inverts nothing
    let id2 = prep_to_render(&mut dev, &mut rctx, (64, 64));
    assert_eq!(id2, Some(now_present.id));
    assert_eq!(rctx.present_buffer.unwrap().view, now_present.view);
    assert_eq!(rctx.backend_buffer.unwrap().view, now_back.view);
}

/// A resized display target reallocates the back buffer on swap and frees
/// the stale texture.
#[test]
fn handoff_reallocates_stale_back_buffer() {
    let mut dev = ModelDevice::new();
    let mut rctx = RenderCtx::new(
        &mut dev,
        test_hw(),
        (64, 64),
        test_config("good"),
    )
    .expect("the model device hands out distinct views");
    assert!(rctx.client.tick(&mut dev));
    let old_present = rctx.present_buffer.unwrap();
    let old_back = rctx.backend_buffer.unwrap();

    let freed_before = dev.freed_count();
    let _ = prep_to_render(&mut dev, &mut rctx, (128, 128));
    let now_present = rctx.present_buffer.unwrap();
    let now_back = rctx.backend_buffer.unwrap();
    assert_eq!(now_present.view, old_back.view);
    assert_ne!(now_back.view, old_present.view);
    assert_eq!(now_back.size, (128, 128));
    assert_eq!(dev.freed_count(), freed_before + 1);
}

/// The producer suppresses a resend of the identical shader text before
/// it even reaches the channel.
#[test]
fn equal_shader_resend_is_suppressed_at_the_producer() {
    let mut client = GraphicsClient::new(test_config("same"));
    // the constructor's initial snapshot is the only pending message
    assert!(client.worker.settings_recvrs.shader_content.drain_latest().is_some());
    assert!(client.worker.settings_recvrs.shader_content.drain_latest().is_none());

    // an equal resend sends nothing
    client.set_shader_text(String::from("same"));
    assert!(client.worker.settings_recvrs.shader_content.drain_latest().is_none());

    // a changed text goes through
    client.set_shader_text(String::from("changed"));
    let sent = client.worker.settings_recvrs.shader_content.drain_latest();
    assert_eq!(sent.map(|c| c.content), Some(String::from("changed")));
}

/// A compute snapshot installs the compute backend: one tick dispatches
/// the workgroup grid over the intermediate texture and copies it out.
#[test]
fn compute_backend_dispatches_and_presents() {
    let mut dev = ModelDevice::new();
    let mut client = GraphicsClient::new(ShaderConfig {
        content: String::from("@compute fn main() {}"),
        language: ShaderLanguage::Wgsl,
        backend: ShaderBackend::FullCompute,
    });
    client.set_hardware(test_hw());
    client.set_preout_size((64, 64));
    client.set_output_view(TextureViewHandle { id: 900 });

    let rendered = client.tick(&mut dev);
    assert!(rendered);
    assert_eq!(dev.submit_count(), 1);
    let work = dev.last_work().as_ref().unwrap();
    assert!(matches!(
        work.recompute,
        Some(RecomputePass::Compute { workgroups: (4, 4), .. })
    ));
    assert!(work.copy.is_some());
    assert!(client.get_should_swap());
}

/// The worker stops when, and only when, a kill message is pending.
#[test]
fn kill_request_reaches_the_worker() {
    let mut client = GraphicsClient::new(test_config("good"));
    assert!(!client.worker.kill_requested());
    client.send_kill();
    assert!(client.worker.kill_requested());
    assert!(!client.worker.kill_requested());
}
