//! Meshes, materials, models, and draw orchestration.
//!
//! GPU resources are opaque to the scene logic; here they appear as plain
//! handles chosen by the embedding program. A draw operation is a function
//! from a model to the exact sequence of bind and draw commands: what gets
//! bound at which slot, and which index and instance ranges are drawn. The
//! embedding program replays the commands against the real render pass.

use vstd::prelude::*;

verus! {

/// A mesh: vertex and index buffer handles, how many indices to draw, and
/// the index of its material in the owning model's material list.
#[derive(Clone, Copy, PartialEq, Eq, Structural, Debug)]
pub struct Mesh {
    pub vertex_buffer: u64,
    pub index_buffer: u64,
    pub num_elements: u32,
    pub material: usize,
}

/// A material: two texture handles and the bound-resource handle that ties
/// them (with their samplers) together for a draw.
#[derive(Clone, Copy, PartialEq, Eq, Structural, Debug)]
pub struct Material {
    pub diffuse_texture: u64,
    pub normal_texture: u64,
    pub bind_group: u64,
}

/// A model: meshes referencing shared materials by index.
pub struct Model {
    pub meshes: Vec<Mesh>,
    pub materials: Vec<Material>,
}

impl Model {
    /// The load-time invariant: every mesh's material index is in range, so
    /// a material lookup during drawing cannot fail.
    pub open spec fn wf(self) -> bool {
        forall|i: int|
            0 <= i < self.meshes@.len() ==> (#[trigger] self.meshes@[i]).material
                < self.materials@.len()
    }
}

/// One step of a render pass, over resource handles.
#[derive(Clone, Copy, PartialEq, Eq, Structural, Debug)]
pub enum DrawCmd {
    SetVertexBuffer { slot: u32, buffer: u64 },
    /// `wide` picks 32-bit indices; a light mesh uses 16-bit ones.
    SetIndexBuffer { buffer: u64, wide: bool },
    SetBindGroup { index: u32, group: u64 },
    DrawIndexed { num_elements: u32, inst_start: u32, inst_end: u32 },
}

/// The commands drawing one textured mesh: bind its buffers, bind material,
/// camera and light at slots 0, 1 and 2, and draw its whole index range over
/// the instance range.
pub open spec fn mesh_cmds(
    mesh: Mesh,
    material_bind_group: u64,
    camera_bind_group: u64,
    light_bind_group: u64,
    inst_start: u32,
    inst_end: u32,
) -> Seq<DrawCmd> {
    seq![
        DrawCmd::SetVertexBuffer { slot: 0, buffer: mesh.vertex_buffer },
        DrawCmd::SetIndexBuffer { buffer: mesh.index_buffer, wide: true },
        DrawCmd::SetBindGroup { index: 0, group: material_bind_group },
        DrawCmd::SetBindGroup { index: 1, group: camera_bind_group },
        DrawCmd::SetBindGroup { index: 2, group: light_bind_group },
        DrawCmd::DrawIndexed { num_elements: mesh.num_elements, inst_start, inst_end },
    ]
}

/// The commands drawing one mesh of the light pipeline: no material, camera
/// and light at slots 0 and 1, 16-bit indices.
pub open spec fn light_mesh_cmds(
    mesh: Mesh,
    camera_bind_group: u64,
    light_bind_group: u64,
    inst_start: u32,
    inst_end: u32,
) -> Seq<DrawCmd> {
    seq![
        DrawCmd::SetVertexBuffer { slot: 0, buffer: mesh.vertex_buffer },
        DrawCmd::SetIndexBuffer { buffer: mesh.index_buffer, wide: false },
        DrawCmd::SetBindGroup { index: 0, group: camera_bind_group },
        DrawCmd::SetBindGroup { index: 1, group: light_bind_group },
        DrawCmd::DrawIndexed { num_elements: mesh.num_elements, inst_start, inst_end },
    ]
}

/// Draw one mesh with an explicit material over an instance range.
pub fn draw_mesh_instanced(
    mesh: &Mesh,
    material: &Material,
    camera_bind_group: u64,
    light_bind_group: u64,
    inst_start: u32,
    inst_end: u32,
) -> (cmds: Vec<DrawCmd>)
    ensures
        cmds@ =~= mesh_cmds(
            *mesh,
            material.bind_group,
            camera_bind_group,
            light_bind_group,
            inst_start,
            inst_end,
        ),
{
    let mut cmds: Vec<DrawCmd> = Vec::new();
    cmds.push(DrawCmd::SetVertexBuffer { slot: 0, buffer: mesh.vertex_buffer });
    cmds.push(DrawCmd::SetIndexBuffer { buffer: mesh.index_buffer, wide: true });
    cmds.push(DrawCmd::SetBindGroup { index: 0, group: material.bind_group });
    cmds.push(DrawCmd::SetBindGroup { index: 1, group: camera_bind_group });
    cmds.push(DrawCmd::SetBindGroup { index: 2, group: light_bind_group });
    cmds.push(
        DrawCmd::DrawIndexed { num_elements: mesh.num_elements, inst_start, inst_end },
    );
    cmds
}

/// Draw one mesh once (the single-instance range).
pub fn draw_mesh(
    mesh: &Mesh,
    material: &Material,
    camera_bind_group: u64,
    light_bind_group: u64,
) -> (cmds: Vec<DrawCmd>)
    ensures
        cmds@ =~= mesh_cmds(
            *mesh,
            material.bind_group,
            camera_bind_group,
            light_bind_group,
            0,
            1,
        ),
{
    draw_mesh_instanced(mesh, material, camera_bind_group, light_bind_group, 0, 1)
}

/// Draw a whole model over an instance range: each mesh in order, its
/// material resolved by index in the model's material list (the model
/// invariant makes the lookup safe).
pub fn draw_model_instanced(
    model: &Model,
    camera_bind_group: u64,
    light_bind_group: u64,
    inst_start: u32,
    inst_end: u32,
) -> (cmds: Vec<DrawCmd>)
    requires
        model.wf(),
    ensures
        cmds@.len() == 6 * model.meshes@.len(),
        forall|i: int|
            0 <= i < model.meshes@.len() ==> cmds@.subrange(6 * i, 6 * i + 6) =~= mesh_cmds(
                model.meshes@[i],
                model.materials@[model.meshes@[i].material as int].bind_group,
                camera_bind_group,
                light_bind_group,
                inst_start,
                inst_end,
            ),
{
    let mut cmds: Vec<DrawCmd> = Vec::new();
    let mut i: usize = 0;
    while i < model.meshes.len()
        invariant
            model.wf(),
            i <= model.meshes@.len(),
            cmds@.len() == 6 * i,
            forall|j: int|
                0 <= j < i ==> cmds@.subrange(6 * j, 6 * j + 6) =~= mesh_cmds(
                    model.meshes@[j],
                    model.materials@[model.meshes@[j].material as int].bind_group,
                    camera_bind_group,
                    light_bind_group,
                    inst_start,
                    inst_end,
                ),
        decreases model.meshes@.len() - i,
    {
        let mesh = &model.meshes[i];
        let material = &model.materials[mesh.material];
        let ghost before = cmds@;
        let mut block = draw_mesh_instanced(
            mesh,
            material,
            camera_bind_group,
            light_bind_group,
            inst_start,
            inst_end,
        );
        cmds.append(&mut block);
        proof {
            assert forall|j: int| 0 <= j < i + 1 implies cmds@.subrange(6 * j, 6 * j + 6)
                =~= mesh_cmds(
                model.meshes@[j],
                model.materials@[model.meshes@[j].material as int].bind_group,
                camera_bind_group,
                light_bind_group,
                inst_start,
                inst_end,
            ) by {
                if j < i {
                    assert(cmds@.subrange(6 * j, 6 * j + 6) =~= before.subrange(
                        6 * j,
                        6 * j + 6,
                    ));
                } else {
                    assert(cmds@.subrange(6 * j, 6 * j + 6) =~= cmds@.subrange(
                        before.len() as int,
                        cmds@.len() as int,
                    ));
                }
            }
        }
        i = i + 1;
    }
    cmds
}

/// Draw a whole model once.
pub fn draw_model(model: &Model, camera_bind_group: u64, light_bind_group: u64) -> (cmds: Vec<
    DrawCmd,
>)
    requires
        model.wf(),
    ensures
        cmds@.len() == 6 * model.meshes@.len(),
        forall|i: int|
            0 <= i < model.meshes@.len() ==> cmds@.subrange(6 * i, 6 * i + 6) =~= mesh_cmds(
                model.meshes@[i],
                model.materials@[model.meshes@[i].material as int].bind_group,
                camera_bind_group,
                light_bind_group,
                0,
                1,
            ),
{
    draw_model_instanced(model, camera_bind_group, light_bind_group, 0, 1)
}

/// Draw one mesh of the light pipeline over an instance range.
pub fn draw_light_mesh_instanced(
    mesh: &Mesh,
    camera_bind_group: u64,
    light_bind_group: u64,
    inst_start: u32,
    inst_end: u32,
) -> (cmds: Vec<DrawCmd>)
    ensures
        cmds@ =~= light_mesh_cmds(*mesh, camera_bind_group, light_bind_group, inst_start, inst_end),
{
    let mut cmds: Vec<DrawCmd> = Vec::new();
    cmds.push(DrawCmd::SetVertexBuffer { slot: 0, buffer: mesh.vertex_buffer });
    cmds.push(DrawCmd::SetIndexBuffer { buffer: mesh.index_buffer, wide: false });
    cmds.push(DrawCmd::SetBindGroup { index: 0, group: camera_bind_group });
    cmds.push(DrawCmd::SetBindGroup { index: 1, group: light_bind_group });
    cmds.push(
        DrawCmd::DrawIndexed { num_elements: mesh.num_elements, inst_start, inst_end },
    );
    cmds
}

/// Draw one mesh of the light pipeline once.
pub fn draw_light_mesh(mesh: &Mesh, camera_bind_group: u64, light_bind_group: u64) -> (cmds: Vec<
    DrawCmd,
>)
    ensures
        cmds@ =~= light_mesh_cmds(*mesh, camera_bind_group, light_bind_group, 0, 1),
{
    draw_light_mesh_instanced(mesh, camera_bind_group, light_bind_group, 0, 1)
}

/// Draw every mesh of a model with the light pipeline over an instance
/// range; materials are not touched.
pub fn draw_light_model_instanced(
    model: &Model,
    camera_bind_group: u64,
    light_bind_group: u64,
    inst_start: u32,
    inst_end: u32,
) -> (cmds: Vec<DrawCmd>)
    ensures
        cmds@.len() == 5 * model.meshes@.len(),
        forall|i: int|
            0 <= i < model.meshes@.len() ==> cmds@.subrange(5 * i, 5 * i + 5) =~= light_mesh_cmds(
                model.meshes@[i],
                camera_bind_group,
                light_bind_group,
                inst_start,
                inst_end,
            ),
{
    let mut cmds: Vec<DrawCmd> = Vec::new();
    let mut i: usize = 0;
    while i < model.meshes.len()
        invariant
            i <= model.meshes@.len(),
            cmds@.len() == 5 * i,
            forall|j: int|
                0 <= j < i ==> cmds@.subrange(5 * j, 5 * j + 5) =~= light_mesh_cmds(
                    model.meshes@[j],
                    camera_bind_group,
                    light_bind_group,
                    inst_start,
                    inst_end,
                ),
        decreases model.meshes@.len() - i,
    {
        let mesh = &model.meshes[i];
        let ghost before = cmds@;
        let mut block = draw_light_mesh_instanced(
            mesh,
            camera_bind_group,
            light_bind_group,
            inst_start,
            inst_end,
        );
        cmds.append(&mut block);
        proof {
            assert forall|j: int| 0 <= j < i + 1 implies cmds@.subrange(5 * j, 5 * j + 5)
                =~= light_mesh_cmds(
                model.meshes@[j],
                camera_bind_group,
                light_bind_group,
                inst_start,
                inst_end,
            ) by {
                if j < i {
                    assert(cmds@.subrange(5 * j, 5 * j + 5) =~= before.subrange(
                        5 * j,
                        5 * j + 5,
                    ));
                } else {
                    assert(cmds@.subrange(5 * j, 5 * j + 5) =~= cmds@.subrange(
                        before.len() as int,
                        cmds@.len() as int,
                    ));
                }
            }
        }
        i = i + 1;
    }
    cmds
}

/// Draw every mesh of a model with the light pipeline once.
pub fn draw_light_model(model: &Model, camera_bind_group: u64, light_bind_group: u64) -> (cmds: Vec<
    DrawCmd,
>)
    ensures
        cmds@.len() == 5 * model.meshes@.len(),
        forall|i: int|
            0 <= i < model.meshes@.len() ==> cmds@.subrange(5 * i, 5 * i + 5) =~= light_mesh_cmds(
                model.meshes@[i],
                camera_bind_group,
                light_bind_group,
                0,
                1,
            ),
{
    draw_light_model_instanced(model, camera_bind_group, light_bind_group, 0, 1)
}

} // verus!
