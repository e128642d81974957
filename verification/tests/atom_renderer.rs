use bddatoms::atom_renderer::{AtomRenderer, BufferSlot, PassCommand};
use bddatoms::gpubuf::{BufferSlice, BufferUsages, Transfer};
use bddatoms::render_pipeline::{features_used, AtomCpu, IndexFormat, UniformCpu};

fn atom_of(pos: [f32; 3], color: [f32; 3], radius: f32) -> AtomCpu {
    AtomCpu {
        pos: [pos[0].to_bits(), pos[1].to_bits(), pos[2].to_bits()],
        color: [color[0].to_bits(), color[1].to_bits(), color[2].to_bits()],
        radius: radius.to_bits(),
    }
}

fn bits_of(m: glam::Mat4) -> UniformCpu {
    let c = m.to_cols_array_2d();
    let mut out = [[0u32; 4]; 4];
    for i in 0..4 {
        for j in 0..4 {
            out[i][j] = c[i][j].to_bits();
        }
    }
    out
}

fn draw_calls(cmds: &[PassCommand]) -> usize {
    cmds.iter().filter(|c| matches!(c, PassCommand::DrawIndexed { .. })).count()
}

#[test]
fn create_uploads_the_quad() {
    let (_, setup) = AtomRenderer::create();
    let corners: [[f32; 3]; 4] =
        [[-1.0, -1.0, 0.0], [1.0, -1.0, 0.0], [1.0, 1.0, 0.0], [-1.0, 1.0, 0.0]];
    let expected: &[u8] = bytemuck::cast_slice(&corners);
    assert_eq!(setup.vertex.contents, expected.to_vec());
    assert_eq!(setup.vertex.transfer, Transfer::Replace);
    assert_eq!(setup.vertex.usage, BufferUsages::vertex());
}

#[test]
fn create_uploads_the_strip_indices() {
    let (_, setup) = AtomRenderer::create();
    let strip = [0u32, 1, 2, 3, 0];
    let expected: &[u8] = bytemuck::cast_slice(&strip);
    assert_eq!(setup.index.contents, expected.to_vec());
    assert_eq!(setup.index.transfer, Transfer::Replace);
    assert_eq!(setup.index.usage, BufferUsages::index());
}

#[test]
fn create_uploads_the_identity_transform() {
    let (_, setup) = AtomRenderer::create();
    let matrices = [glam::Mat4::IDENTITY];
    let expected: &[u8] = bytemuck::cast_slice(&matrices);
    assert_eq!(setup.uniform.contents, expected.to_vec());
    assert_eq!(setup.uniform.transfer, Transfer::Replace);
    assert_eq!(setup.uniform.usage, BufferUsages::uniform().union(BufferUsages::copy_dst()));
}

#[test]
fn create_starts_without_atoms() {
    let (renderer, setup) = AtomRenderer::create();
    assert!(setup.instance.contents.is_empty());
    assert_eq!(setup.instance.transfer, Transfer::Replace);
    assert_eq!(setup.instance.usage, BufferUsages::vertex().union(BufferUsages::copy_dst()));
    assert_eq!(renderer.instances().len(), 0);
    assert_eq!(renderer.instances().capacity(), 0);
    assert!(renderer.render().is_empty());
}

#[test]
fn create_binds_the_whole_uniform_buffer() {
    let (_, setup) = AtomRenderer::create();
    assert_eq!(setup.bind_group.binding, 0);
    assert_eq!(setup.bind_group.buffer, BufferSlot::Uniform);
    assert_eq!(setup.bind_group.resource.offset, 0);
    assert_eq!(setup.bind_group.resource.size, None);
}

#[test]
fn set_atoms_sets_the_length_of_the_instance_buffer() {
    let (mut renderer, _) = AtomRenderer::create();
    for n in [1usize, 2, 9, 3, 100] {
        let atoms: Vec<AtomCpu> =
            (0..n).map(|i| atom_of([i as f32, 0.0, 0.5], [0.1, 0.2, 0.3], 0.25)).collect();
        renderer.set_atoms(&atoms);
        assert_eq!(renderer.instances().len(), n);
    }
}

#[test]
fn set_atoms_grows_only_when_needed() {
    let (mut renderer, _) = AtomRenderer::create();
    let atoms: Vec<AtomCpu> = (0..4).map(|i| atom_of([i as f32; 3], [0.5; 3], 0.1)).collect();

    let up = renderer.set_atoms(&atoms);
    assert_eq!(up.transfer, Transfer::Replace);
    assert_eq!(up.usage, BufferUsages::vertex().union(BufferUsages::copy_dst()));
    assert_eq!(up.contents.len(), 4 * 28);
    assert_eq!(renderer.instances().capacity(), 4);

    let up = renderer.set_atoms(&atoms[0..2]);
    assert_eq!(up.transfer, Transfer::StagingCopy);
    assert_eq!(up.usage, BufferUsages::copy_src());
    assert_eq!(up.contents.len(), 2 * 28);
    assert_eq!(renderer.instances().capacity(), 4);
    assert_eq!(renderer.instances().len(), 2);
}

#[test]
fn set_atoms_sends_the_atoms_as_floats() {
    let (mut renderer, _) = AtomRenderer::create();
    let up = renderer.set_atoms(&[
        atom_of([0.0; 3], [0.4; 3], 0.1),
        atom_of([0.3, 0.0, 0.5], [0.15, 0.1, 0.05], 0.3),
    ]);
    let floats: [f32; 14] =
        [0.0, 0.0, 0.0, 0.4, 0.4, 0.4, 0.1, 0.3, 0.0, 0.5, 0.15, 0.1, 0.05, 0.3];
    let expected: &[u8] = bytemuck::cast_slice(&floats);
    assert_eq!(up.contents, expected.to_vec());
}

#[test]
fn set_atoms_with_nothing_draws_nothing() {
    let (mut renderer, _) = AtomRenderer::create();
    renderer.set_atoms(&[atom_of([0.0; 3], [0.4; 3], 0.1)]);
    assert_eq!(draw_calls(&renderer.render()), 1);
    renderer.set_atoms(&[]);
    assert_eq!(renderer.instances().len(), 0);
    let cmds = renderer.render();
    assert_eq!(draw_calls(&cmds), 0);
    assert!(cmds.is_empty());
}

#[test]
fn set_transform_sends_the_matrix() {
    let (mut renderer, _) = AtomRenderer::create();
    let m = glam::Mat4::from_cols_array_2d(&[
        [0.5, 0.0, 0.0, 0.0],
        [0.0, 2.0, 0.0, 0.0],
        [0.0, 0.0, 1.0, 0.0],
        [0.25, -0.5, 0.0, 1.0],
    ]);
    let up = renderer.set_transform(bits_of(m));
    let matrices = [m];
    let expected: &[u8] = bytemuck::cast_slice(&matrices);
    assert_eq!(up.contents, expected.to_vec());
    assert_eq!(up.contents.len(), 64);
    assert_eq!(up.transfer, Transfer::StagingCopy);
    assert_eq!(up.usage, BufferUsages::copy_src());
}

#[test]
fn set_transform_leaves_the_atoms() {
    let (mut renderer, _) = AtomRenderer::create();
    renderer.set_atoms(&[atom_of([0.0; 3], [0.4; 3], 0.1), atom_of([1.0; 3], [0.4; 3], 0.1)]);
    let before = renderer.render();
    renderer.set_transform(bits_of(glam::Mat4::IDENTITY));
    assert_eq!(renderer.instances().len(), 2);
    assert_eq!(renderer.instances().capacity(), 2);
    assert_eq!(renderer.render(), before);
}

#[test]
fn render_records_one_draw_for_all_atoms() {
    let (mut renderer, _) = AtomRenderer::create();
    renderer.set_atoms(&[
        atom_of([0.0; 3], [0.4; 3], 0.1),
        atom_of([0.3, 0.0, 0.5], [0.15, 0.1, 0.05], 0.3),
        atom_of([-0.4, -0.3, 0.4], [0.3, 0.3, 0.1], 0.2),
    ]);
    let cmds = renderer.render();
    assert_eq!(
        cmds,
        vec![
            PassCommand::SetPipeline,
            PassCommand::SetIndexBuffer {
                buffer: BufferSlot::Index,
                slice: BufferSlice { start: 0, end: 20 },
                format: IndexFormat::Uint32,
            },
            PassCommand::SetVertexBuffer {
                slot: 0,
                buffer: BufferSlot::Vertex,
                slice: BufferSlice { start: 0, end: 48 },
            },
            PassCommand::SetVertexBuffer {
                slot: 1,
                buffer: BufferSlot::Instance,
                slice: BufferSlice { start: 0, end: 84 },
            },
            PassCommand::SetBindGroup { index: 0 },
            PassCommand::DrawIndexed {
                first_index: 0,
                end_index: 5,
                base_vertex: 0,
                first_instance: 0,
                end_instance: 3,
            },
        ]
    );
    assert_eq!(draw_calls(&cmds), 1);
}

#[test]
fn render_binds_only_the_atoms_in_use() {
    let (mut renderer, _) = AtomRenderer::create();
    let atoms: Vec<AtomCpu> = (0..5).map(|i| atom_of([i as f32; 3], [0.5; 3], 0.1)).collect();
    renderer.set_atoms(&atoms);
    renderer.set_atoms(&atoms[0..1]);
    let cmds = renderer.render();
    assert_eq!(
        cmds[3],
        PassCommand::SetVertexBuffer {
            slot: 1,
            buffer: BufferSlot::Instance,
            slice: BufferSlice { start: 0, end: 28 },
        }
    );
    assert_eq!(
        cmds[5],
        PassCommand::DrawIndexed {
            first_index: 0,
            end_index: 5,
            base_vertex: 0,
            first_instance: 0,
            end_instance: 1,
        }
    );
}

#[test]
fn need_features_asks_for_depth_clip_control() {
    let f = AtomRenderer::need_features();
    assert!(f.depth_clip_control);
    assert!(f.push_constants);
    assert_eq!(f, features_used());
}
