//! The data that the sphere pipeline consumes and the device features it
//! needs.
//!
//! Numbers that the shader reads as 32-bit floats are held as their IEEE 754
//! bit patterns: the buffers move them and never compute with them.

use vstd::prelude::*;
use crate::element::GpuElement;

verus! {

/// Bit pattern of the float 0.
pub const ZERO: u32 = 0;

/// Bit pattern of the float 1.
pub const ONE: u32 = 0x3F80_0000;

/// Bit pattern of the float -1.
pub const NEG_ONE: u32 = 0xBF80_0000;

/// A corner of the quad: x, y and z in the quad's own space.
pub type VertexCpu = [u32; 3];

/// One sphere: where its centre is, its colour as linear red, green and blue,
/// and its radius.
#[derive(Clone, Copy, Debug)]
pub struct AtomCpu {
    pub pos: [u32; 3],
    pub color: [u32; 3],
    pub radius: u32,
}

/// The transform applied to every atom of a draw: a 4 by 4 matrix, column
/// after column.
pub type UniformCpu = [[u32; 4]; 4];

impl GpuElement for [u32; 3] {
    open spec fn word_count() -> nat {
        3
    }

    open spec fn words(&self) -> Seq<u32> {
        self@
    }

    proof fn lemma_word_count_positive() {
    }

    proof fn lemma_words_len(&self) {
    }

    fn stride() -> (n: usize) {
        12
    }

    fn append_words(&self, out: &mut Vec<u32>) {
        out.push(self[0]);
        out.push(self[1]);
        out.push(self[2]);
        assert(out@ =~= old(out)@ + self.words());
    }
}

impl GpuElement for AtomCpu {
    open spec fn word_count() -> nat {
        7
    }

    open spec fn words(&self) -> Seq<u32> {
        self.pos@ + self.color@ + seq![self.radius]
    }

    proof fn lemma_word_count_positive() {
    }

    proof fn lemma_words_len(&self) {
    }

    fn stride() -> (n: usize) {
        28
    }

    fn append_words(&self, out: &mut Vec<u32>) {
        self.pos.append_words(out);
        self.color.append_words(out);
        out.push(self.radius);
        assert(out@ =~= old(out)@ + self.words());
    }
}

impl GpuElement for [[u32; 4]; 4] {
    open spec fn word_count() -> nat {
        16
    }

    open spec fn words(&self) -> Seq<u32> {
        self@[0]@ + self@[1]@ + self@[2]@ + self@[3]@
    }

    proof fn lemma_word_count_positive() {
    }

    proof fn lemma_words_len(&self) {
    }

    fn stride() -> (n: usize) {
        64
    }

    fn append_words(&self, out: &mut Vec<u32>) {
        let mut c: usize = 0;
        while c < 4
            invariant
                c <= 4,
                out@ == old(out)@ + column_words(*self, c as int),
            decreases 4 - c,
        {
            let col = &self[c];
            out.push(col[0]);
            out.push(col[1]);
            out.push(col[2]);
            out.push(col[3]);
            assert(out@ =~= old(out)@ + column_words(*self, c + 1)) by {
                reveal_with_fuel(column_words, 2);
            }
            c = c + 1;
        }
        assert(out@ =~= old(out)@ + self.words()) by {
            reveal_with_fuel(column_words, 5);
        }
    }
}

/// The words of the first `n` columns of `m`.
pub open spec fn column_words(m: [[u32; 4]; 4], n: int) -> Seq<u32>
    decreases n,
{
    if n <= 0 {
        Seq::empty()
    } else {
        column_words(m, n - 1) + m@[n - 1]@
    }
}

/// The transform that leaves every point where it is.
pub fn identity_transform() -> (m: UniformCpu)
    ensures
        m@[0]@ == seq![ONE, ZERO, ZERO, ZERO],
        m@[1]@ == seq![ZERO, ONE, ZERO, ZERO],
        m@[2]@ == seq![ZERO, ZERO, ONE, ZERO],
        m@[3]@ == seq![ZERO, ZERO, ZERO, ONE],
{
    let m = [
        [ONE, ZERO, ZERO, ZERO],
        [ZERO, ONE, ZERO, ZERO],
        [ZERO, ZERO, ONE, ZERO],
        [ZERO, ZERO, ZERO, ONE],
    ];
    assert(m@[0]@ =~= seq![ONE, ZERO, ZERO, ZERO]);
    assert(m@[1]@ =~= seq![ZERO, ONE, ZERO, ZERO]);
    assert(m@[2]@ =~= seq![ZERO, ZERO, ONE, ZERO]);
    assert(m@[3]@ =~= seq![ZERO, ZERO, ZERO, ONE]);
    m
}

/// Width of an index.
#[derive(Clone, Copy, Debug, PartialEq, Eq, Structural)]
pub enum IndexFormat {
    Uint16,
    Uint32,
}

/// How vertices are assembled into primitives.
#[derive(Clone, Copy, Debug, PartialEq, Eq, Structural)]
pub enum Topology {
    PointList,
    LineList,
    LineStrip,
    TriangleList,
    TriangleStrip,
}

/// Which side of a triangle is not drawn.
#[derive(Clone, Copy, Debug, PartialEq, Eq, Structural)]
pub enum Cull {
    Off,
    Front,
    Back,
}

/// When a fragment passes the depth test, by its depth against the stored one.
#[derive(Clone, Copy, Debug, PartialEq, Eq, Structural)]
pub enum DepthTest {
    Never,
    Less,
    Equal,
    LessEqual,
    Greater,
    NotEqual,
    GreaterEqual,
    Always,
}

/// What one texel of a depth texture holds.
#[derive(Clone, Copy, Debug, PartialEq, Eq, Structural)]
pub enum DepthFormat {
    Depth32Float,
    Depth24Plus,
    Depth24PlusStencil8,
}

/// Whether a vertex buffer advances with each vertex or with each instance.
#[derive(Clone, Copy, Debug, PartialEq, Eq, Structural)]
pub enum StepMode {
    Vertex,
    Instance,
}

/// One input of the vertex stage: `components` 32-bit floats that start
/// `offset` bytes into each element of the buffer in slot `slot`.
#[derive(Clone, Copy, Debug, PartialEq, Eq, Structural)]
pub struct VertexAttribute {
    pub slot: u32,
    pub location: u32,
    pub offset: u64,
    pub components: u32,
}

/// The layout of the buffer in one vertex buffer slot.
#[derive(Clone, Copy, Debug, PartialEq, Eq, Structural)]
pub struct VertexLayout {
    pub stride: u64,
    pub step: StepMode,
}

/// The fixed-function state of the sphere pipeline and the layout of what it
/// reads.
#[derive(Debug, PartialEq, Eq)]
pub struct Pipeline {
    pub topology: Topology,
    pub index_format: IndexFormat,
    pub cull: Cull,
    /// Depth values outside the clip range are kept.
    pub unclipped_depth: bool,
    pub depth_format: DepthFormat,
    pub depth_test: DepthTest,
    pub depth_write: bool,
    /// Slot 0: the corners of the quad.
    pub vertex_buffer: VertexLayout,
    /// Slot 1: the atoms.
    pub instance_buffer: VertexLayout,
    pub attributes: Vec<VertexAttribute>,
    /// Size in bytes of the uniform block at binding 0 of group 0.
    pub uniform_size: u64,
    pub color_targets: u32,
}

/// The inputs of the vertex stage: the corner of the quad, then the position,
/// the colour and the radius of the atom.
pub open spec fn pipeline_attributes() -> Seq<VertexAttribute> {
    seq![
        VertexAttribute { slot: 0, location: 0, offset: 0, components: 3 },
        VertexAttribute { slot: 1, location: 1, offset: 0, components: 3 },
        VertexAttribute { slot: 1, location: 2, offset: 12, components: 3 },
        VertexAttribute { slot: 1, location: 3, offset: 24, components: 1 },
    ]
}

/// The attributes `attrs[from..]` lie one after the other in the elements of
/// the buffer in `slot`, the first at byte `at`, and the last ends at byte
/// `end`. Attributes of other slots are passed over.
pub open spec fn tiles(attrs: Seq<VertexAttribute>, from: int, slot: u32, at: int, end: int) -> bool
    decreases attrs.len() - from,
{
    if from < 0 || from >= attrs.len() {
        at == end
    } else if attrs[from].slot != slot {
        tiles(attrs, from + 1, slot, at, end)
    } else {
        attrs[from].offset == at && tiles(
            attrs,
            from + 1,
            slot,
            at + 4 * attrs[from].components,
            end,
        )
    }
}

/// The sphere pipeline. Each atom is one quad of two triangles, drawn as a
/// strip with both sides visible. A fragment is kept where its depth is
/// greater than the stored one, and then its depth is stored.
pub fn pipeline() -> (p: Pipeline)
    ensures
        p.topology == Topology::TriangleStrip,
        p.index_format == IndexFormat::Uint32,
        p.cull == Cull::Off,
        p.unclipped_depth,
        p.depth_format == DepthFormat::Depth32Float,
        p.depth_test == DepthTest::Greater,
        p.depth_write,
        p.vertex_buffer == (VertexLayout { stride: 12, step: StepMode::Vertex }),
        p.instance_buffer == (VertexLayout { stride: 28, step: StepMode::Instance }),
        p.attributes@ == pipeline_attributes(),
        p.uniform_size == 64,
        p.color_targets == 1,
{
    let mut attributes: Vec<VertexAttribute> = Vec::new();
    attributes.push(VertexAttribute { slot: 0, location: 0, offset: 0, components: 3 });
    attributes.push(VertexAttribute { slot: 1, location: 1, offset: 0, components: 3 });
    attributes.push(VertexAttribute { slot: 1, location: 2, offset: 12, components: 3 });
    attributes.push(VertexAttribute { slot: 1, location: 3, offset: 24, components: 1 });
    assert(attributes@ =~= pipeline_attributes());
    Pipeline {
        topology: Topology::TriangleStrip,
        index_format: IndexFormat::Uint32,
        cull: Cull::Off,
        unclipped_depth: true,
        depth_format: DepthFormat::Depth32Float,
        depth_test: DepthTest::Greater,
        depth_write: true,
        vertex_buffer: VertexLayout { stride: 12, step: StepMode::Vertex },
        instance_buffer: VertexLayout { stride: 28, step: StepMode::Instance },
        attributes,
        uniform_size: 64,
        color_targets: 1,
    }
}

/// What the pipeline reads is what the buffers hold: the attributes of the
/// quad's corners fill one `VertexCpu` exactly, those of an atom one `AtomCpu`,
/// and the uniform block is one `UniformCpu`.
pub proof fn lemma_pipeline_matches_elements()
    ensures
        tiles(pipeline_attributes(), 0, 0, 0, 4 * <VertexCpu as GpuElement>::word_count() as int),
        tiles(pipeline_attributes(), 0, 1, 0, 4 * <AtomCpu as GpuElement>::word_count() as int),
        64 == 4 * <UniformCpu as GpuElement>::word_count(),
{
    reveal_with_fuel(tiles, 6);
}

/// Optional capabilities of a graphics device.
#[derive(Clone, Copy, Debug, PartialEq, Eq, Structural)]
pub struct Features {
    /// Small values handed to the shader with the draw itself.
    pub push_constants: bool,
    /// Depth values outside the clip range are kept instead of clipped.
    pub depth_clip_control: bool,
}

/// The device features that the pipeline cannot do without. The depth that it
/// writes for a sphere's surface is not bound to the clip range, so the device
/// must let depth clipping be switched off.
pub fn features_used() -> (f: Features)
    ensures
        f == (Features { push_constants: true, depth_clip_control: true }),
{
    Features { push_constants: true, depth_clip_control: true }
}

} // verus!
