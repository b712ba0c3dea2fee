use render_engine::gpu::{BindGroupKind, BindingResource, BufferRole, BufferUsages, IndexFormat, RenderCommand};
use render_engine::math::{Mat4, Vec3};
use render_engine::mesh::CpuMesh;
use render_engine::mesh_object::{pack_mat4, read_instances, MeshObject, MeshObjectMetaUniform};
use render_engine::mesh_object_textured::MeshObjectTextured;
use render_engine::texture::{Texture, TextureType, TextureUniform};

fn f(x: f32) -> u32 {
    x.to_bits()
}

fn cube() -> CpuMesh {
    let mut position = Vec::new();
    for i in 0..8u32 {
        position.push(Vec3::new(f((i & 1) as f32), f(((i >> 1) & 1) as f32), f(((i >> 2) & 1) as f32)));
    }
    let index: Vec<u32> = vec![
        0, 1, 3, 0, 3, 2, 4, 6, 7, 4, 7, 5, 0, 4, 5, 0, 5, 1, 2, 3, 7, 2, 7, 6, 0, 2, 6, 0, 6, 4, 1, 5, 7,
        1, 7, 3,
    ];
    CpuMesh::new(position, index).with_name("cube")
}

fn numbered(n: u32) -> Mat4 {
    let mut cols = [0u32; 16];
    for (k, c) in cols.iter_mut().enumerate() {
        *c = n * 100 + k as u32;
    }
    Mat4::from_cols_array(cols)
}

#[test]
fn new_mesh_object_has_no_instances_and_a_placeholder_buffer() {
    let object = MeshObject::new(cube().to_gpu());
    assert!(object.instances.is_empty());
    assert_eq!(object.instances_buffer.contents, vec![0u32; 16]);
    assert_eq!(object.instances_buffer.label, "cube");
    assert_eq!(object.instances_buffer.usage, BufferUsages::storage());
    assert_eq!(object.mesh_object_uniform.contents, vec![0, 0, 0]);
    assert_eq!(object.mesh_object_uniform.label, "cube_mesh_object_uniform");
    assert_eq!(object.bind_group.label, "cube_bind_group");
    let roles: Vec<(u32, BindingResource)> =
        object.bind_group.entries.iter().map(|e| (e.binding, e.resource)).collect();
    assert_eq!(
        roles,
        vec![
            (0, BindingResource::Buffer(BufferRole::MeshObjectUniform)),
            (1, BindingResource::Buffer(BufferRole::Instances)),
            (2, BindingResource::Buffer(BufferRole::Normal)),
            (3, BindingResource::Buffer(BufferRole::Color)),
            (4, BindingResource::Buffer(BufferRole::Uv)),
        ]
    );
}

#[test]
fn presence_flags_follow_the_mesh() {
    let mut mesh = cube();
    mesh.calculate_normals();
    let object = MeshObject::new(mesh.to_gpu());
    assert_eq!(object.mesh_object_uniform.contents, vec![0, 1, 0]);
    let meta = MeshObjectMetaUniform { color_present: 1, normal_present: 0, uv_present: 1 };
    assert_eq!(meta.to_words(), vec![1, 0, 1]);
    assert_eq!(MeshObjectMetaUniform::default().to_words(), vec![0, 0, 0]);
}

#[test]
fn instances_reach_the_device_only_on_replace() {
    let mut object = MeshObject::new(cube().to_gpu());
    let list = vec![numbered(1), numbered(2), numbered(3)];
    object.set_transforms(&list);
    assert_eq!(object.instances, list);
    assert_eq!(object.instances_buffer.contents, vec![0u32; 16]);
    object.replace_gpu_data();
    assert_eq!(object.instances_buffer.contents.len(), 48);
    assert_eq!(read_instances(&object.instances_buffer.contents), list);
    assert_eq!(object.instances_buffer.contents, pack_mat4(&list));
    assert_eq!(object.instances_buffer.contents[16], 200);
    assert_eq!(object.instances_buffer.contents[47], 315);
}

#[test]
fn single_transform_replaces_all_instances() {
    let mut object = MeshObject::new(cube().to_gpu());
    object.set_transforms(&[numbered(1), numbered(2)]);
    object.set_single_transform(&numbered(9));
    assert_eq!(object.instances, vec![numbered(9)]);
    object.replace_gpu_data();
    assert_eq!(read_instances(&object.instances_buffer.contents), vec![numbered(9)]);
    object.set_transforms(&[]);
    object.replace_gpu_data();
    assert!(object.instances_buffer.contents.is_empty());
}

#[test]
fn a_draw_uses_all_indices_and_all_instances() {
    let mut object = MeshObject::new(cube().to_gpu());
    let mut pass = Vec::new();
    object.add_commands(&mut pass);
    assert_eq!(
        pass,
        vec![
            RenderCommand::PushDebugGroup,
            RenderCommand::SetBindGroup { set: 2, group: BindGroupKind::MeshObject },
            RenderCommand::SetVertexBuffer { slot: 0, buffer: BufferRole::Vertex },
            RenderCommand::SetIndexBuffer { buffer: BufferRole::Index, format: IndexFormat::Uint32 },
            RenderCommand::DrawIndexed { index_count: 36, base_vertex: 0, instance_count: 0 },
            RenderCommand::PopDebugGroup,
        ]
    );
    object.set_transforms(&[numbered(1), numbered(2)]);
    let mut pass = Vec::new();
    object.add_commands(&mut pass);
    assert_eq!(pass[4], RenderCommand::DrawIndexed { index_count: 36, base_vertex: 0, instance_count: 2 });
    assert_eq!(MeshObject::MESH_OBJECT_SET, 2);
    let layout = MeshObject::mesh_layout();
    assert_eq!(layout.label, "mesh_object_layout");
    assert_eq!(layout.entries.iter().map(|e| e.binding).collect::<Vec<_>>(), vec![0, 1, 2, 3, 4]);
    assert!(layout.entries.iter().all(|e| e.visibility.vertex && !e.visibility.fragment));
    assert_eq!(MeshObject::get_vertex_layout().array_stride, 12);
}

#[test]
fn untextured_cube_has_only_the_placeholder() {
    let mesh = cube();
    assert_eq!(mesh.position.len(), 8);
    assert_eq!(mesh.index.len(), 36);
    let object = MeshObjectTextured::new(MeshObject::new(mesh.to_gpu()), &[]);
    assert_eq!(object.cpu_textures.textures.len(), 1);
    assert_eq!(object.cpu_textures.textures[0].texture_type, TextureType::Absent);
    assert_eq!(object.gpu_textures.texture_uniform, TextureUniform::default());
    assert_eq!(object.gpu_textures.texture_uniform_buffer.contents, vec![0, 0, 0, 0, 0]);
    assert_eq!(object.cpu_textures.name, "cube");
}

#[test]
fn simple_textures_are_base_color() {
    let picture = Texture { label: None, width: 2, height: 1, pixels: vec![1, 2, 3, 4, 5, 6, 7, 8] };
    let mut mesh_object = MeshObject::new(cube().to_gpu());
    mesh_object.set_single_transform(&numbered(4));
    let object = MeshObjectTextured::new_simple(mesh_object, &[picture.clone(), picture.clone()]);
    assert_eq!(object.cpu_textures.textures.len(), 3);
    assert_eq!(object.cpu_textures.textures[1].texture, picture);
    assert_eq!(object.cpu_textures.textures[2].texture_type, TextureType::BaseColor);
    assert_eq!(object.gpu_textures.texture_uniform.base_color, 2);
    assert_eq!(read_instances(&object.mesh_object.instances_buffer.contents), vec![numbered(4)]);
    let mut pass = Vec::new();
    object.add_commands(&mut pass);
    assert_eq!(pass.len(), 7);
    assert_eq!(pass[0], RenderCommand::SetBindGroup { set: 3, group: BindGroupKind::Textures });
    assert_eq!(pass[5], RenderCommand::DrawIndexed { index_count: 36, base_vertex: 0, instance_count: 1 });
}

#[test]
fn replace_brings_textures_and_instances_up_to_date() {
    let mut object = MeshObjectTextured::new(MeshObject::new(cube().to_gpu()), &[]);
    object.mesh_object.set_transforms(&[numbered(1), numbered(2)]);
    object.replace_gpu_data();
    assert_eq!(
        read_instances(&object.mesh_object.instances_buffer.contents),
        vec![numbered(1), numbered(2)]
    );
    assert_eq!(object.gpu_textures, object.cpu_textures.to_gpu());
}
