//! The frame orchestrator: the surface, the depth buffer and the steps of a
//! frame.

use vstd::prelude::*;
use crate::atom_renderer::{
    draw_commands,
    identity_words,
    AtomRenderer,
    PassCommand,
    RendererSetup,
};
use crate::element::GpuElement;
use crate::render_pipeline::{AtomCpu, DepthFormat, Features};

verus! {

/// Bit pattern of the 32-bit float negative infinity: the depth of what is
/// further away than anything drawn, where the greater depth is the nearer.
pub const FURTHEST_DEPTH: u32 = 0xFF80_0000;

/// Bit patterns of the 64-bit floats 0, 0, 0 and 1: opaque black as red, green,
/// blue and alpha.
pub const BLACK: [u64; 4] = [0, 0, 0, 0x3FF0_0000_0000_0000];

/// Largest block of push constants that the device is asked for, in bytes.
pub const MAX_PUSH_CONSTANT_SIZE: u32 = 4;

/// When a finished image is shown.
#[derive(Clone, Copy, Debug, PartialEq, Eq, Structural)]
pub enum PresentMode {
    /// As soon as it is finished.
    Immediate,
    /// At the next vertical blank, the newest image only.
    Mailbox,
    /// At the next vertical blank, in the order of submission.
    Fifo,
}

/// How the presentation surface is configured.
#[derive(Clone, Copy, Debug, PartialEq, Eq, Structural)]
pub struct SurfaceConfiguration {
    pub width: u32,
    pub height: u32,
    pub present_mode: PresentMode,
}

/// Number of dimensions of a texture.
#[derive(Clone, Copy, Debug, PartialEq, Eq, Structural)]
pub enum TextureDimension {
    D1,
    D2,
    D3,
}

/// The texture that serves as depth buffer.
#[derive(Clone, Copy, Debug, PartialEq, Eq, Structural)]
pub struct DepthTexture {
    pub width: u32,
    pub height: u32,
    pub depth_or_array_layers: u32,
    pub mip_level_count: u32,
    pub sample_count: u32,
    pub dimension: TextureDimension,
    pub format: DepthFormat,
}

/// What the device is asked for when it is created.
#[derive(Clone, Copy, Debug, PartialEq, Eq, Structural)]
pub struct DeviceRequest {
    pub high_performance: bool,
    pub force_fallback_adapter: bool,
    pub features: Features,
    pub max_push_constant_size: u32,
}

/// A frame without atoms records nothing between the begin and the end of its
/// pass: the image is cleared and shown.
pub proof fn lemma_empty_frame()
    ensures
        frame_steps(0) == seq![
            FrameStep::AcquireImage,
            FrameStep::BeginPass {
                clear_color: BLACK,
                store_color: true,
                clear_depth: FURTHEST_DEPTH,
                store_depth: false,
            },
            FrameStep::EndPass,
            FrameStep::Submit,
            FrameStep::Present,
        ],
{
    assert(frame_steps(0) =~= seq![
        FrameStep::AcquireImage,
        FrameStep::BeginPass {
            clear_color: BLACK,
            store_color: true,
            clear_depth: FURTHEST_DEPTH,
            store_depth: false,
        },
        FrameStep::EndPass,
        FrameStep::Submit,
        FrameStep::Present,
    ]);
}

/// Every frame begins by acquiring and clearing, ends by submitting and
/// presenting, and records in between exactly the commands of the draw.
pub proof fn lemma_frame_shape(count: nat)
    ensures
        frame_steps(count).len() == draw_commands(count).len() + 5,
        frame_steps(count)[0] == FrameStep::AcquireImage,
        frame_steps(count)[1] == (FrameStep::BeginPass {
            clear_color: BLACK,
            store_color: true,
            clear_depth: FURTHEST_DEPTH,
            store_depth: false,
        }),
        forall|i: int|
            0 <= i < draw_commands(count).len() ==> #[trigger] frame_steps(count)[i + 2]
                == FrameStep::Record(draw_commands(count)[i]),
        frame_steps(count)[frame_steps(count).len() - 3] == FrameStep::EndPass,
        frame_steps(count)[frame_steps(count).len() - 2] == FrameStep::Submit,
        frame_steps(count)[frame_steps(count).len() - 1] == FrameStep::Present,
{
}

/// What a frame is drawn to: the surface as it is configured, and a depth
/// buffer of the same size.
#[derive(Clone, Copy, Debug, PartialEq, Eq)]
pub struct Targets {
    surface: SurfaceConfiguration,
    depth: DepthTexture,
}

/// What a backend creates for a new orchestrator.
#[derive(Debug)]
pub struct RenderSetup {
    pub device: DeviceRequest,
    pub targets: Targets,
    pub renderer: RendererSetup,
}

/// One step of a frame.
#[derive(Clone, Copy, Debug, PartialEq, Eq)]
pub enum FrameStep {
    /// Acquire the next image of the surface and make views of it and of the
    /// depth buffer.
    AcquireImage,
    /// Begin a render pass that clears the image to `clear_color` and the depth
    /// buffer to `clear_depth`.
    BeginPass { clear_color: [u64; 4], store_color: bool, clear_depth: u32, store_depth: bool },
    /// Record a command in the pass.
    Record(PassCommand),
    EndPass,
    /// Submit the recorded commands to the queue.
    Submit,
    /// Show the image.
    Present,
}

/// Why no image of the surface could be acquired.
#[derive(Clone, Copy, Debug, PartialEq, Eq, Structural)]
pub enum SurfaceError {
    Timeout,
    Outdated,
    Lost,
    OutOfMemory,
}

/// What to do when no image could be acquired.
#[derive(Clone, Copy, Debug, PartialEq, Eq, Structural)]
pub enum Recovery {
    /// Configure the surface again as given, drop this frame and go on with the
    /// next.
    Reconfigure(SurfaceConfiguration),
    /// Give up.
    Fatal,
}

/// The depth buffer for a surface of `w` by `h` pixels.
pub open spec fn spec_depth_buffer_with_size(w: u32, h: u32) -> DepthTexture {
    DepthTexture {
        width: w,
        height: h,
        depth_or_array_layers: 1,
        mip_level_count: 1,
        sample_count: 1,
        dimension: TextureDimension::D2,
        format: DepthFormat::Depth32Float,
    }
}

pub fn depth_buffer_with_size(w: u32, h: u32) -> (d: DepthTexture)
    ensures
        d == spec_depth_buffer_with_size(w, h),
{
    DepthTexture {
        width: w,
        height: h,
        depth_or_array_layers: 1,
        mip_level_count: 1,
        sample_count: 1,
        dimension: TextureDimension::D2,
        format: DepthFormat::Depth32Float,
    }
}

/// The steps of a frame that draws `count` atoms: acquire, clear colour to
/// black and depth to the furthest value, draw, submit, present.
pub open spec fn frame_steps(count: nat) -> Seq<FrameStep> {
    seq![
        FrameStep::AcquireImage,
        FrameStep::BeginPass {
            clear_color: BLACK,
            store_color: true,
            clear_depth: FURTHEST_DEPTH,
            store_depth: false,
        },
    ] + draw_commands(count).map_values(|c: PassCommand| FrameStep::Record(c)) + seq![
        FrameStep::EndPass,
        FrameStep::Submit,
        FrameStep::Present,
    ]
}

impl Targets {
    /// The depth buffer has the size of the surface.
    #[verifier::type_invariant]
    pub closed spec fn wf(&self) -> bool {
        self.depth == spec_depth_buffer_with_size(self.surface.width, self.surface.height)
    }

    /// How the surface is configured.
    pub closed spec fn spec_surface(&self) -> SurfaceConfiguration {
        self.surface
    }

    /// The depth buffer.
    pub closed spec fn spec_depth(&self) -> DepthTexture {
        self.depth
    }

    /// The targets for the surface as configured by `surface`.
    pub fn new(surface: SurfaceConfiguration) -> (t: Targets)
        ensures
            t.wf(),
            t.surface() == surface,
            t.depth() == spec_depth_buffer_with_size(surface.width, surface.height),
    {
        Targets { surface, depth: depth_buffer_with_size(surface.width, surface.height) }
    }

    /// How the surface is configured.
    #[verifier::when_used_as_spec(spec_surface)]
    pub fn surface(&self) -> (s: SurfaceConfiguration)
        ensures
            s == self.spec_surface(),
    {
        self.surface
    }

    /// The depth buffer.
    #[verifier::when_used_as_spec(spec_depth)]
    pub fn depth(&self) -> (d: DepthTexture)
        ensures
            d == self.spec_depth(),
            d == spec_depth_buffer_with_size(self.surface().width, self.surface().height),
    {
        proof {
            use_type_invariant(self);
        }
        self.depth
    }
}

pub struct Render {
    atom_renderer: AtomRenderer,
    targets: Targets,
}

impl Render {
    /// The renderer is well formed and the depth buffer has the size of the
    /// surface.
    pub closed spec fn wf(&self) -> bool {
        &&& self.atom_renderer.wf()
        &&& self.targets.wf()
    }

    /// The surface and the depth buffer.
    pub closed spec fn spec_targets(&self) -> Targets {
        self.targets
    }

    /// How the surface is configured.
    pub open spec fn surface(&self) -> SurfaceConfiguration {
        self.targets().surface()
    }

    /// The depth buffer.
    pub open spec fn depth_texture(&self) -> DepthTexture {
        self.targets().depth()
    }

    /// The renderer of the atoms.
    pub closed spec fn atom_renderer(&self) -> AtomRenderer {
        self.atom_renderer
    }

    /// An orchestrator for a surface of `width` by `height` pixels, shown in
    /// step with the vertical blank, with a renderer that has no atoms yet.
    pub fn create(width: u32, height: u32) -> (r: (Self, RenderSetup))
        ensures
            r.0.wf(),
            r.0.surface() == (SurfaceConfiguration {
                width,
                height,
                present_mode: PresentMode::Fifo,
            }),
            r.0.depth_texture() == spec_depth_buffer_with_size(width, height),
            r.0.atom_renderer().atoms() == Seq::<AtomCpu>::empty(),
            r.0.atom_renderer().instance_capacity() == 0,
            r.0.atom_renderer().transform().words() == identity_words(),
            r.1.targets == r.0.targets(),
            r.1.renderer.is_initial(),
            r.1.device == (DeviceRequest {
                high_performance: true,
                force_fallback_adapter: false,
                features: Features { push_constants: true, depth_clip_control: true },
                max_push_constant_size: MAX_PUSH_CONSTANT_SIZE,
            }),
    {
        let device = DeviceRequest {
            high_performance: true,
            force_fallback_adapter: false,
            features: AtomRenderer::need_features(),
            max_push_constant_size: MAX_PUSH_CONSTANT_SIZE,
        };
        let targets = Targets::new(
            SurfaceConfiguration { width, height, present_mode: PresentMode::Fifo },
        );
        let (atom_renderer, renderer) = AtomRenderer::create();
        (Render { atom_renderer, targets }, RenderSetup { device, targets, renderer })
    }

    /// The steps of one frame.
    pub fn frame(&self) -> (steps: Vec<FrameStep>)
        ensures
            steps@ == frame_steps(self.atom_renderer().atoms().len()),
    {
        let mut steps: Vec<FrameStep> = Vec::new();
        steps.push(FrameStep::AcquireImage);
        steps.push(
            FrameStep::BeginPass {
                clear_color: BLACK,
                store_color: true,
                clear_depth: FURTHEST_DEPTH,
                store_depth: false,
            },
        );
        let cmds = self.atom_renderer.render();
        let ghost head = steps@;
        let mut i: usize = 0;
        while i < cmds.len()
            invariant
                i <= cmds.len(),
                steps@ == head + cmds@.take(i as int).map_values(
                    |c: PassCommand| FrameStep::Record(c),
                ),
            decreases cmds.len() - i,
        {
            steps.push(FrameStep::Record(cmds[i]));
            assert(steps@ =~= head + cmds@.take(i + 1).map_values(
                |c: PassCommand| FrameStep::Record(c),
            ));
            i = i + 1;
        }
        assert(cmds@.take(cmds.len() as int) =~= cmds@);
        steps.push(FrameStep::EndPass);
        steps.push(FrameStep::Submit);
        steps.push(FrameStep::Present);
        assert(steps@ =~= frame_steps(self.atom_renderer().atoms().len()));
        steps
    }

    /// Takes the surface to `width` by `height` pixels, and the depth buffer
    /// with it. A size without pixels is ignored.
    pub fn resize(&mut self, width: u32, height: u32) -> (r: Option<Targets>)
        ensures
            final(self).wf(),
            final(self).atom_renderer() == old(self).atom_renderer(),
            width == 0 || height == 0 ==> r is None && *final(self) == *old(self),
            width != 0 && height != 0 ==> {
                &&& final(self).surface() == (SurfaceConfiguration {
                    width,
                    height,
                    present_mode: PresentMode::Mailbox,
                })
                &&& final(self).depth_texture() == spec_depth_buffer_with_size(width, height)
                &&& r == Some(final(self).targets())
            },
    {
        proof {
            use_type_invariant(&self.atom_renderer);
            use_type_invariant(&self.targets);
        }
        if width != 0 && height != 0 {
            let targets = Targets::new(
                SurfaceConfiguration { width, height, present_mode: PresentMode::Mailbox },
            );
            self.targets = targets;
            Some(targets)
        } else {
            None
        }
    }

    /// What to do when no image could be acquired. A surface that was lost or
    /// is out of date is configured again as it is; nothing else is survived.
    pub fn recover(&self, error: SurfaceError) -> (r: Recovery)
        ensures
            error == SurfaceError::Lost || error == SurfaceError::Outdated ==> r
                == Recovery::Reconfigure(self.surface()),
            error == SurfaceError::Timeout || error == SurfaceError::OutOfMemory ==> r
                == Recovery::Fatal,
    {
        match error {
            SurfaceError::Lost | SurfaceError::Outdated => Recovery::Reconfigure(
                self.targets.surface(),
            ),
            SurfaceError::Timeout | SurfaceError::OutOfMemory => Recovery::Fatal,
        }
    }

    /// The surface and the depth buffer.
    #[verifier::when_used_as_spec(spec_targets)]
    pub fn targets(&self) -> (t: Targets)
        ensures
            t == self.spec_targets(),
            t.wf(),
    {
        proof {
            use_type_invariant(&self.targets);
        }
        self.targets
    }

    pub fn atom_renderer_mut(&mut self) -> (r: &mut AtomRenderer)
        ensures
            *r == old(self).atom_renderer(),
            final(self).atom_renderer() == *final(r),
            final(self).targets() == old(self).targets(),
    {
        &mut self.atom_renderer
    }
}

} // verus!
