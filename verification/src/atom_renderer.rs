//! The renderer of atoms: its buffers and the commands of its draw.

use vstd::prelude::*;
use crate::element::{flatten_words, GpuElement};
use crate::gpubuf::{BufferBinding, BufferSlice, BufferUsages, GpuBuf, Transfer, Upload};
use crate::render_pipeline::{
    features_used,
    identity_transform,
    AtomCpu,
    Features,
    IndexFormat,
    UniformCpu,
    VertexCpu,
    NEG_ONE,
    ONE,
    ZERO,
};

verus! {

/// The buffers of the renderer.
#[derive(Clone, Copy, Debug, PartialEq, Eq, Structural)]
pub enum BufferSlot {
    Vertex,
    Index,
    Instance,
    Uniform,
}

/// One command of a render pass.
#[derive(Clone, Copy, Debug, PartialEq, Eq, Structural)]
pub enum PassCommand {
    SetPipeline,
    SetIndexBuffer { buffer: BufferSlot, slice: BufferSlice, format: IndexFormat },
    SetVertexBuffer { slot: u32, buffer: BufferSlot, slice: BufferSlice },
    SetBindGroup { index: u32 },
    /// Draws the indices from `first_index` up to but not including
    /// `end_index`, once for each instance from `first_instance` up to but not
    /// including `end_instance`.
    DrawIndexed {
        first_index: u32,
        end_index: u32,
        base_vertex: i32,
        first_instance: u32,
        end_instance: u32,
    },
}

/// A buffer bound to a binding group.
#[derive(Clone, Copy, Debug, PartialEq, Eq)]
pub struct BindGroupEntry {
    pub binding: u32,
    pub buffer: BufferSlot,
    pub resource: BufferBinding,
}

/// What a backend creates on the device for a new renderer.
#[derive(Debug)]
pub struct RendererSetup {
    pub vertex: Upload,
    pub index: Upload,
    pub instance: Upload,
    pub uniform: Upload,
    /// The one entry of binding group 0.
    pub bind_group: BindGroupEntry,
}

/// The words of the four corners of the quad: a square of side 2 round the
/// origin, in the plane z = 0.
pub open spec fn quad_words() -> Seq<u32> {
    seq![
        NEG_ONE, NEG_ONE, ZERO,
        ONE, NEG_ONE, ZERO,
        ONE, ONE, ZERO,
        NEG_ONE, ONE, ZERO,
    ]
}

/// The indices that walk the four corners as one closed triangle strip.
pub open spec fn strip_indices() -> Seq<u32> {
    seq![0, 1, 2, 3, 0]
}

/// The words of the identity transform.
pub open spec fn identity_words() -> Seq<u32> {
    seq![
        ONE, ZERO, ZERO, ZERO,
        ZERO, ONE, ZERO, ZERO,
        ZERO, ZERO, ONE, ZERO,
        ZERO, ZERO, ZERO, ONE,
    ]
}

/// What the instance buffer is created for: a source of instance data that a
/// staging copy can write to.
pub open spec fn instance_usage() -> BufferUsages {
    BufferUsages::vertex().union(BufferUsages::copy_dst())
}

/// What the uniform buffer is created for: a uniform block that a staging
/// copy can write to.
pub open spec fn uniform_usage() -> BufferUsages {
    BufferUsages::uniform().union(BufferUsages::copy_dst())
}

impl RendererSetup {
    /// The quad, its indices, an instance buffer without atoms and the
    /// identity transform, each in a buffer of its own, and the transform
    /// bound whole to binding 0.
    pub open spec fn is_initial(self) -> bool {
        &&& self.vertex.sends_words(Transfer::Replace, quad_words(), BufferUsages::vertex())
        &&& self.index.sends_words(Transfer::Replace, strip_indices(), BufferUsages::index())
        &&& self.instance.sends_words(Transfer::Replace, Seq::<u32>::empty(), instance_usage())
        &&& self.uniform.sends_words(Transfer::Replace, identity_words(), uniform_usage())
        &&& self.bind_group.binding == 0
        &&& self.bind_group.buffer == BufferSlot::Uniform
        &&& self.bind_group.resource.offset == 0
        &&& self.bind_group.resource.size is None
    }
}

/// The commands that draw `count` atoms: none at all where there is no atom,
/// since an empty range of a buffer cannot be bound.
pub open spec fn draw_commands(count: nat) -> Seq<PassCommand> {
    if count == 0 {
        Seq::empty()
    } else {
        seq![
            PassCommand::SetPipeline,
            PassCommand::SetIndexBuffer {
                buffer: BufferSlot::Index,
                slice: BufferSlice { start: 0, end: 20 },
                format: IndexFormat::Uint32,
            },
            PassCommand::SetVertexBuffer {
                slot: 0,
                buffer: BufferSlot::Vertex,
                slice: BufferSlice { start: 0, end: 48 },
            },
            PassCommand::SetVertexBuffer {
                slot: 1,
                buffer: BufferSlot::Instance,
                slice: BufferSlice { start: 0, end: (28 * count) as u64 },
            },
            PassCommand::SetBindGroup { index: 0 },
            PassCommand::DrawIndexed {
                first_index: 0,
                end_index: 5,
                base_vertex: 0,
                first_instance: 0,
                end_instance: count as u32,
            },
        ]
    }
}

/// Number of draw calls among `cmds`.
pub open spec fn draw_calls(cmds: Seq<PassCommand>) -> nat
    decreases cmds.len(),
{
    if cmds.len() == 0 {
        0
    } else {
        draw_calls(cmds.drop_last()) + if cmds.last() is DrawIndexed {
            1nat
        } else {
            0nat
        }
    }
}

/// Without atoms no command is recorded, and so nothing is drawn. With atoms
/// there is exactly one draw call: the last command, which draws the five
/// indices of the strip once for every atom.
pub proof fn lemma_one_draw_for_all_atoms(count: nat)
    ensures
        count == 0 ==> draw_commands(count).len() == 0 && draw_calls(draw_commands(count)) == 0,
        count > 0 ==> draw_calls(draw_commands(count)) == 1 && draw_commands(count).last() == (
        PassCommand::DrawIndexed {
            first_index: 0,
            end_index: 5,
            base_vertex: 0,
            first_instance: 0,
            end_instance: count as u32,
        }),
{
    if count > 0 {
        let c = draw_commands(count);
        let c5 = c.drop_last();
        let c4 = c5.drop_last();
        let c3 = c4.drop_last();
        let c2 = c3.drop_last();
        let c1 = c2.drop_last();
        assert(draw_calls(c1.drop_last()) == 0);
        assert(c1.last() == c[0] && draw_calls(c1) == 0);
        assert(c2.last() == c[1] && draw_calls(c2) == 0);
        assert(c3.last() == c[2] && draw_calls(c3) == 0);
        assert(c4.last() == c[3] && draw_calls(c4) == 0);
        assert(c5.last() == c[4] && draw_calls(c5) == 0);
    }
}

pub struct AtomRenderer {
    index_buf: GpuBuf<u32>,
    vertex_buf: GpuBuf<VertexCpu>,
    instance_buf: GpuBuf<AtomCpu>,
    uniform_buf: GpuBuf<UniformCpu>,
}

impl AtomRenderer {
    /// The quad and its indices are in place, there is exactly one transform,
    /// and the atoms can be counted in 32 bits.
    #[verifier::type_invariant]
    pub closed spec fn wf(&self) -> bool {
        &&& self.index_buf.wf()
        &&& self.vertex_buf.wf()
        &&& self.instance_buf.wf()
        &&& self.uniform_buf.wf()
        &&& self.index_buf@ == strip_indices()
        &&& flatten_words(self.vertex_buf@) == quad_words()
        &&& self.vertex_buf@.len() == 4
        &&& self.instance_buf@.len() <= u32::MAX
        &&& self.instance_buf.usage() == instance_usage()
        &&& self.uniform_buf@.len() == 1
        &&& self.uniform_buf.capacity() == 1
        &&& self.uniform_buf.usage() == uniform_usage()
    }

    /// The atoms that a draw shows.
    pub closed spec fn atoms(&self) -> Seq<AtomCpu> {
        self.instance_buf@
    }

    /// Number of atoms that the instance buffer has room for.
    pub closed spec fn instance_capacity(&self) -> nat {
        self.instance_buf.capacity() as nat
    }

    /// The transform that a draw applies.
    pub closed spec fn transform(&self) -> UniformCpu {
        self.uniform_buf@[0]
    }

    /// A renderer without atoms and with the identity transform.
    pub fn create() -> (r: (Self, RendererSetup))
        ensures
            r.0.wf(),
            r.0.atoms() == Seq::<AtomCpu>::empty(),
            r.0.instance_capacity() == 0,
            r.0.transform().words() == identity_words(),
            r.1.is_initial(),
    {
        let corners: [VertexCpu; 4] = [
            [NEG_ONE, NEG_ONE, ZERO],
            [ONE, NEG_ONE, ZERO],
            [ONE, ONE, ZERO],
            [NEG_ONE, ONE, ZERO],
        ];
        let (vertex_buf, vertex) = GpuBuf::initialize(corners.as_slice(), BufferUsages::vertex());
        proof {
            reveal_with_fuel(flatten_words, 5);
            assert(flatten_words(corners@) =~= quad_words());
        }

        let strip: [u32; 5] = [0, 1, 2, 3, 0];
        let (index_buf, index) = GpuBuf::initialize(strip.as_slice(), BufferUsages::index());
        proof {
            reveal_with_fuel(flatten_words, 6);
            assert(strip@ =~= strip_indices());
            assert(flatten_words(strip@) =~= strip_indices());
        }

        let no_atoms: [AtomCpu; 0] = [];
        let (instance_buf, instance) = GpuBuf::initialize(
            no_atoms.as_slice(),
            BufferUsages::vertex().union(BufferUsages::copy_dst()),
        );
        proof {
            assert(no_atoms@ =~= Seq::<AtomCpu>::empty());
            assert(flatten_words(no_atoms@) =~= Seq::<u32>::empty());
        }

        let transforms: [UniformCpu; 1] = [identity_transform()];
        let (uniform_buf, uniform) = GpuBuf::initialize(
            transforms.as_slice(),
            BufferUsages::uniform().union(BufferUsages::copy_dst()),
        );
        proof {
            reveal_with_fuel(flatten_words, 2);
            assert(transforms@[0].words() =~= identity_words());
            assert(flatten_words(transforms@) =~= identity_words());
        }

        let bind_group = BindGroupEntry {
            binding: 0,
            buffer: BufferSlot::Uniform,
            resource: uniform_buf.as_entire_buffer_binding(),
        };
        (
            AtomRenderer { index_buf, vertex_buf, instance_buf, uniform_buf },
            RendererSetup { vertex, index, instance, uniform, bind_group },
        )
    }

    /// Replaces all atoms by `atoms`. The instance buffer grows where they do
    /// not fit and keeps its size where they do.
    pub fn set_atoms(&mut self, atoms: &[AtomCpu]) -> (up: Upload)
        requires
            atoms@.len() <= u32::MAX,
        ensures
            final(self).wf(),
            final(self).atoms() == atoms@,
            final(self).atoms().len() == atoms@.len(),
            final(self).transform() == old(self).transform(),
            up.contents@.len() == 28 * atoms@.len(),
            atoms@.len() <= old(self).instance_capacity() ==> {
                &&& final(self).instance_capacity() == old(self).instance_capacity()
                &&& up.sends(Transfer::StagingCopy, atoms@, BufferUsages::copy_src())
            },
            atoms@.len() > old(self).instance_capacity() ==> {
                &&& final(self).instance_capacity() == atoms@.len()
                &&& up.sends(Transfer::Replace, atoms@, instance_usage())
            },
    {
        proof {
            use_type_invariant(&*self);
        }
        let (next, up) = self.instance_buf.rewritten(atoms);
        self.instance_buf = next;
        assert(atoms@.len() * (4 * AtomCpu::word_count()) == 28 * atoms@.len()) by (nonlinear_arith)
            requires
                AtomCpu::word_count() == 7,
        ;
        up
    }

    /// Replaces the transform.
    pub fn set_transform(&mut self, transform: UniformCpu) -> (up: Upload)
        ensures
            final(self).wf(),
            final(self).transform() == transform,
            final(self).atoms() == old(self).atoms(),
            final(self).instance_capacity() == old(self).instance_capacity(),
            up.sends_words(Transfer::StagingCopy, transform.words(), BufferUsages::copy_src()),
            up.contents@.len() == 64,
    {
        proof {
            use_type_invariant(&*self);
        }
        let transforms: [UniformCpu; 1] = [transform];
        let (next, up) = self.uniform_buf.overwritten(transforms.as_slice());
        self.uniform_buf = next;
        proof {
            reveal_with_fuel(flatten_words, 2);
            assert(flatten_words(transforms@) =~= transform.words());
        }
        up
    }

    /// write render commands to the command buffer
    pub fn render(&self) -> (cmds: Vec<PassCommand>)
        ensures
            cmds@ == draw_commands(self.atoms().len()),
    {
        proof {
            use_type_invariant(self);
        }
        let mut cmds: Vec<PassCommand> = Vec::new();
        let instance_slice = match self.instance_buf.slice() {
            Some(i) => i,
            None => {
                return cmds;
            },
        };
        assert(self.index_buf@.len() == 5);
        let index_slice = self.index_buf.slice().unwrap();
        let vertex_slice = self.vertex_buf.slice().unwrap();
        cmds.push(PassCommand::SetPipeline);
        cmds.push(
            PassCommand::SetIndexBuffer {
                buffer: BufferSlot::Index,
                slice: index_slice,
                format: IndexFormat::Uint32,
            },
        );
        cmds.push(
            PassCommand::SetVertexBuffer { slot: 0, buffer: BufferSlot::Vertex, slice: vertex_slice },
        );
        cmds.push(
            PassCommand::SetVertexBuffer {
                slot: 1,
                buffer: BufferSlot::Instance,
                slice: instance_slice,
            },
        );
        cmds.push(PassCommand::SetBindGroup { index: 0 });
        cmds.push(
            PassCommand::DrawIndexed {
                first_index: 0,
                end_index: self.index_buf.len() as u32,
                base_vertex: 0,
                first_instance: 0,
                end_instance: self.instance_buf.len() as u32,
            },
        );
        assert(self.atoms().len() * (4 * AtomCpu::word_count()) == 28 * self.atoms().len())
            by (nonlinear_arith)
            requires
                AtomCpu::word_count() == 7,
        ;
        assert(cmds@ =~= draw_commands(self.atoms().len()));
        cmds
    }

    /// The device features that the renderer cannot do without.
    pub fn need_features() -> (f: Features)
        ensures
            f == (Features { push_constants: true, depth_clip_control: true }),
    {
        features_used()
    }

    /// The instance buffer.
    pub fn instances(&self) -> (b: &GpuBuf<AtomCpu>)
        ensures
            b@ == self.atoms(),
            b.capacity() == self.instance_capacity(),
            b.usage() == instance_usage(),
    {
        proof {
            use_type_invariant(self);
        }
        &self.instance_buf
    }
}

} // verus!
