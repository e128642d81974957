use bddatoms::atom_renderer::{BufferSlot, PassCommand};
use bddatoms::gpubuf::BufferSlice;
use bddatoms::render::{
    depth_buffer_with_size, DepthTexture, DeviceRequest, FrameStep, PresentMode, Recovery, Render,
    SurfaceConfiguration, SurfaceError, Targets, TextureDimension, BLACK, FURTHEST_DEPTH,
    MAX_PUSH_CONSTANT_SIZE,
};
use bddatoms::render_pipeline::{pipeline, AtomCpu, DepthFormat, Features, IndexFormat};

fn atom_of(pos: [f32; 3], color: [f32; 3], radius: f32) -> AtomCpu {
    AtomCpu {
        pos: [pos[0].to_bits(), pos[1].to_bits(), pos[2].to_bits()],
        color: [color[0].to_bits(), color[1].to_bits(), color[2].to_bits()],
        radius: radius.to_bits(),
    }
}

fn begin_pass() -> FrameStep {
    FrameStep::BeginPass {
        clear_color: [0, 0, 0, 1.0f64.to_bits()],
        store_color: true,
        clear_depth: f32::NEG_INFINITY.to_bits(),
        store_depth: false,
    }
}

#[test]
fn clear_values_are_black_and_the_furthest_depth() {
    assert_eq!(f32::from_bits(FURTHEST_DEPTH), f32::NEG_INFINITY);
    assert_eq!(BLACK.map(f64::from_bits), [0.0, 0.0, 0.0, 1.0]);
}

#[test]
fn depth_buffer_with_size_is_one_layer_of_32_bit_floats() {
    assert_eq!(
        depth_buffer_with_size(512, 256),
        DepthTexture {
            width: 512,
            height: 256,
            depth_or_array_layers: 1,
            mip_level_count: 1,
            sample_count: 1,
            dimension: TextureDimension::D2,
            format: DepthFormat::Depth32Float,
        }
    );
    assert_eq!(depth_buffer_with_size(512, 256).format, pipeline().depth_format);
}

#[test]
fn targets_hold_a_depth_buffer_of_the_surface_size() {
    let surface = SurfaceConfiguration { width: 7, height: 9, present_mode: PresentMode::Immediate };
    let t = Targets::new(surface);
    assert_eq!(t.surface(), surface);
    assert_eq!(t.depth(), depth_buffer_with_size(7, 9));
}

#[test]
fn create_configures_the_surface_in_step_with_the_display() {
    let (render, setup) = Render::create(512, 512);
    assert_eq!(
        setup.targets.surface(),
        SurfaceConfiguration { width: 512, height: 512, present_mode: PresentMode::Fifo }
    );
    assert_eq!(setup.targets.depth(), depth_buffer_with_size(512, 512));
    assert_eq!(render.targets(), setup.targets);
    assert_eq!(
        setup.device,
        DeviceRequest {
            high_performance: true,
            force_fallback_adapter: false,
            features: Features { push_constants: true, depth_clip_control: true },
            max_push_constant_size: 4,
        }
    );
    assert_eq!(MAX_PUSH_CONSTANT_SIZE, 4);
    assert!(setup.renderer.instance.contents.is_empty());
    assert_eq!(setup.renderer.vertex.contents.len(), 48);
    assert_eq!(setup.renderer.index.contents.len(), 20);
    assert_eq!(setup.renderer.uniform.contents.len(), 64);
}

#[test]
fn resize_to_a_zero_dimension_changes_nothing() {
    let (mut render, _) = Render::create(512, 512);
    render.atom_renderer_mut().set_atoms(&[atom_of([0.0; 3], [0.4; 3], 0.1)]);
    let targets = render.targets();
    let frame = render.frame();
    for (w, h) in [(0u32, 0u32), (0, 300), (300, 0)] {
        assert_eq!(render.resize(w, h), None);
        assert_eq!(render.targets(), targets);
        assert_eq!(render.frame(), frame);
    }
}

#[test]
fn resize_reconfigures_the_surface_and_the_depth_buffer() {
    let (mut render, _) = Render::create(512, 512);
    let r = render.resize(800, 600);
    let expected = Targets::new(
        SurfaceConfiguration { width: 800, height: 600, present_mode: PresentMode::Mailbox },
    );
    assert_eq!(r, Some(expected));
    assert_eq!(render.targets(), expected);
    assert_eq!(render.targets().depth(), depth_buffer_with_size(800, 600));
}

#[test]
fn resize_leaves_the_atoms() {
    let (mut render, _) = Render::create(512, 512);
    render.atom_renderer_mut().set_atoms(&[atom_of([0.0; 3], [0.4; 3], 0.1)]);
    let frame = render.frame();
    render.resize(64, 64);
    assert_eq!(render.frame(), frame);
}

#[test]
fn frame_without_atoms_clears_and_presents() {
    let (render, _) = Render::create(512, 512);
    assert_eq!(
        render.frame(),
        vec![
            FrameStep::AcquireImage,
            begin_pass(),
            FrameStep::EndPass,
            FrameStep::Submit,
            FrameStep::Present,
        ]
    );
}

#[test]
fn frame_records_the_draw_between_begin_and_end() {
    let (mut render, _) = Render::create(512, 512);
    render.atom_renderer_mut().set_atoms(&[atom_of([0.0; 3], [0.4; 3], 0.1)]);
    let steps = render.frame();
    assert_eq!(steps.len(), 11);
    assert_eq!(steps[0], FrameStep::AcquireImage);
    assert_eq!(steps[1], begin_pass());
    let cmds = render.atom_renderer_mut().render();
    for (i, c) in cmds.iter().enumerate() {
        assert_eq!(steps[i + 2], FrameStep::Record(*c));
    }
    assert_eq!(steps[8], FrameStep::EndPass);
    assert_eq!(steps[9], FrameStep::Submit);
    assert_eq!(steps[10], FrameStep::Present);
}

#[test]
fn frame_of_two_atoms_on_a_512_square() {
    let (mut render, setup) = Render::create(512, 512);
    assert_eq!(setup.targets.surface().width, 512);
    assert_eq!(setup.targets.surface().height, 512);
    let matrices = [glam::Mat4::IDENTITY];
    let identity: &[u8] = bytemuck::cast_slice(&matrices);
    assert_eq!(setup.renderer.uniform.contents, identity.to_vec());

    let up = render.atom_renderer_mut().set_atoms(&[
        atom_of([0.0, 0.0, 0.0], [0.4, 0.4, 0.4], 0.1),
        atom_of([0.3, 0.0, 0.5], [0.15, 0.1, 0.05], 0.3),
    ]);
    let floats: [f32; 14] =
        [0.0, 0.0, 0.0, 0.4, 0.4, 0.4, 0.1, 0.3, 0.0, 0.5, 0.15, 0.1, 0.05, 0.3];
    let expected: &[u8] = bytemuck::cast_slice(&floats);
    assert_eq!(up.contents, expected.to_vec());

    assert_eq!(
        render.frame(),
        vec![
            FrameStep::AcquireImage,
            begin_pass(),
            FrameStep::Record(PassCommand::SetPipeline),
            FrameStep::Record(PassCommand::SetIndexBuffer {
                buffer: BufferSlot::Index,
                slice: BufferSlice { start: 0, end: 20 },
                format: IndexFormat::Uint32,
            }),
            FrameStep::Record(PassCommand::SetVertexBuffer {
                slot: 0,
                buffer: BufferSlot::Vertex,
                slice: BufferSlice { start: 0, end: 48 },
            }),
            FrameStep::Record(PassCommand::SetVertexBuffer {
                slot: 1,
                buffer: BufferSlot::Instance,
                slice: BufferSlice { start: 0, end: 56 },
            }),
            FrameStep::Record(PassCommand::SetBindGroup { index: 0 }),
            FrameStep::Record(PassCommand::DrawIndexed {
                first_index: 0,
                end_index: 5,
                base_vertex: 0,
                first_instance: 0,
                end_instance: 2,
            }),
            FrameStep::EndPass,
            FrameStep::Submit,
            FrameStep::Present,
        ]
    );
}

#[test]
fn recover_reconfigures_a_lost_or_outdated_surface() {
    let (mut render, _) = Render::create(512, 512);
    let fifo = SurfaceConfiguration { width: 512, height: 512, present_mode: PresentMode::Fifo };
    assert_eq!(render.recover(SurfaceError::Lost), Recovery::Reconfigure(fifo));
    assert_eq!(render.recover(SurfaceError::Outdated), Recovery::Reconfigure(fifo));
    render.resize(100, 50);
    let mailbox =
        SurfaceConfiguration { width: 100, height: 50, present_mode: PresentMode::Mailbox };
    assert_eq!(render.recover(SurfaceError::Lost), Recovery::Reconfigure(mailbox));
}

#[test]
fn recover_gives_up_on_anything_else() {
    let (render, _) = Render::create(512, 512);
    assert_eq!(render.recover(SurfaceError::OutOfMemory), Recovery::Fatal);
    assert_eq!(render.recover(SurfaceError::Timeout), Recovery::Fatal);
}
