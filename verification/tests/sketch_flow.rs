//! A whole session driven through the sketch contract: init once, then
//! per-frame updates fed by the orchestrator.

use hollow::orchestrator::{EventAction, FrameOrchestrator, WindowEvent};
use hollow::sketch::{FrameData, Sketch};
use hollow::wgpu::buffer::Buffer;
use hollow::wgpu::controller::{Features, ShaderModuleDescriptor, WGPUController};
use hollow::wgpu::pipeline::RenderPipeline;
use hollow::wgpu::texture::{TextureFormat, TextureView};

struct BackgroundSketch {
    time_buffer: Option<Buffer<f32>>,
    pipeline: Option<RenderPipeline>,
    updates_seen: usize,
    keys_seen: usize,
}

impl Sketch for BackgroundSketch {
    fn init(&mut self, wgpu: &mut WGPUController) {
        let time_buffer = wgpu.buffer(0.0f32);
        let bundle = wgpu
            .build_bind_group_with_layout()
            .with_uniform_buffer_entry(&time_buffer)
            .build(wgpu);
        let shader = wgpu.shader(ShaderModuleDescriptor {
            label: None,
            source: String::from("// wgsl"),
        });
        let pipeline = wgpu
            .build_render_pipeline()
            .add_bind_group_layout(&bundle.layout)
            .build_with_shader(wgpu, &shader);
        self.time_buffer = Some(time_buffer);
        self.pipeline = Some(pipeline);
    }

    fn update(&mut self, wgpu: &mut WGPUController, surface_view: TextureView, data: FrameData) {
        let time_buffer = self.time_buffer.as_mut().unwrap();
        wgpu.write_buffer(time_buffer, data.t as f32 / 1_000_000.0);
        let encoder = wgpu.create_encoder();
        let pass = encoder
            .simple_render_pass(&surface_view)
            .with_pipeline(self.pipeline.as_ref().unwrap())
            .draw(0..6, 0..1);
        let mut encoder = encoder;
        encoder.end_render_pass(pass);
        wgpu.finish_encoder(encoder);
        self.updates_seen += 1;
    }

    fn key_down(&mut self, _key: &str, _data: FrameData) {
        self.keys_seen += 1;
    }
}

#[test]
fn session_runs_init_then_frames_through_the_orchestrator() {
    let mut ctx = WGPUController::new_configured(800, 600, TextureFormat::Bgra8UnormSrgb);
    let mut state = FrameOrchestrator::new();
    let mut sketch = BackgroundSketch {
        time_buffer: None,
        pipeline: None,
        updates_seen: 0,
        keys_seen: 0,
    };
    assert_eq!(BackgroundSketch::required_features(), Features::empty());
    sketch.init(&mut ctx);
    state.resize(&mut ctx, 800, 600);

    // The surface texture the session would acquire each frame.
    let surface_texture = ctx.build_texture_2d(800, 600).build(&mut ctx);

    let mut now: u64 = 0;
    for _ in 0..3 {
        now += 16_667;
        let action = state.handle_window_event(&mut ctx, WindowEvent::RedrawRequested { now });
        assert_eq!(action, EventAction::RenderFrame);
        let view = surface_texture.create_view(&mut ctx);
        let data = state.frame_data();
        sketch.update(&mut ctx, view, data);
        state.finish_frame();
    }
    assert_eq!(sketch.updates_seen, 3);
    assert_eq!(state.frame_index, 3);
    // Three frames, one submitted command buffer each.
    assert_eq!(ctx.queue.submitted.len(), 3);
    // The last frame's time reached the uniform buffer.
    let written = sketch.time_buffer.as_ref().unwrap().contents[0];
    assert!((written - 0.050001).abs() < 1e-4);

    let action = state.handle_window_event(
        &mut ctx,
        WindowEvent::KeyPressed { key: String::from("q") },
    );
    assert_eq!(action, EventAction::KeyCallback);
    let data = state.frame_data();
    assert_eq!(data.frame_index, 3);
    sketch.key_down("q", data);
    assert_eq!(sketch.keys_seen, 1);
}
