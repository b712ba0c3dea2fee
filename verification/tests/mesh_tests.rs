use render_engine::gpu::{BindingResource, BufferRole, BufferUsages};
use render_engine::math::{Vec2, Vec3, Vec3A, Vec4};
use render_engine::mesh::{face_vert_to_index, CpuMesh, GpuMesh};

fn f(x: f32) -> u32 {
    x.to_bits()
}

fn v3(x: f32, y: f32, z: f32) -> Vec3 {
    Vec3::new(f(x), f(y), f(z))
}

fn triangle() -> CpuMesh {
    CpuMesh::new(
        vec![v3(1.0, 2.0, 3.0), v3(4.0, 6.0, 3.0), v3(1.0, 2.0, 8.0)],
        vec![0, 1, 2],
    )
}

#[test]
fn face_vert_to_index_is_three_per_face() {
    assert_eq!(face_vert_to_index(0, 0), 0);
    assert_eq!(face_vert_to_index(0, 2), 2);
    assert_eq!(face_vert_to_index(2, 1), 7);
}

#[test]
fn unnamed_mesh_is_labelled_by_its_sizes() {
    let mesh = triangle();
    assert_eq!(mesh.get_name_prefix(), "mesh_position_len_3_index_len_3");
    let big = CpuMesh::new(vec![v3(0.0, 0.0, 0.0); 120], vec![0; 1005]);
    assert_eq!(big.get_name_prefix(), "mesh_position_len_120_index_len_1005");
    let empty = CpuMesh::new(vec![], vec![]);
    assert_eq!(empty.get_name_prefix(), "mesh_position_len_0_index_len_0");
}

#[test]
fn named_mesh_is_labelled_by_its_name() {
    let mesh = triangle().with_name("helmet");
    assert_eq!(mesh.name.as_deref(), Some("helmet"));
    assert_eq!(mesh.get_name_prefix(), "helmet");
    let gpu = mesh.to_gpu();
    assert_eq!(gpu.name, "helmet");
    assert_eq!(gpu.vertex_buffer.label, "helmet_vertex");
    assert_eq!(gpu.index_buffer.label, "helmet_index");
    assert_eq!(gpu.normal_buffer.label, "helmet_normal");
    assert_eq!(gpu.color_buffer.label, "helmet_color");
    assert_eq!(gpu.uv_buffer.label, "helmet_uv");
    assert_eq!(gpu.tangent_buffer.label, "helmet_tangent");
    assert_eq!(gpu.bind_group.label, "helmet_bind_group");
}

#[test]
fn absent_attributes_get_one_element_of_zeros() {
    let gpu = triangle().to_gpu();
    assert!(!gpu.normal_present && !gpu.color_present && !gpu.uv_present && !gpu.tangent_present);
    assert_eq!(gpu.normal_buffer.contents, vec![0, 0, 0, 0]);
    assert_eq!(gpu.color_buffer.contents, vec![0, 0, 0, 0]);
    assert_eq!(gpu.uv_buffer.contents, vec![0, 0]);
    assert_eq!(gpu.tangent_buffer.contents, vec![0, 0, 0, 0]);
    assert_eq!(gpu.normal_buffer.element_count(4), 1);
    assert_eq!(gpu.color_buffer.element_count(4), 1);
    assert_eq!(gpu.uv_buffer.element_count(2), 1);
    assert_eq!(gpu.tangent_buffer.element_count(4), 1);
}

#[test]
fn present_attributes_get_one_element_per_vertex() {
    let mut mesh = triangle();
    mesh.normal = Some(vec![Vec3A::new(1, 2, 3), Vec3A::new(4, 5, 6), Vec3A::new(7, 8, 9)]);
    mesh.color = Some(vec![Vec4::new(1, 2, 3, 4), Vec4::new(5, 6, 7, 8), Vec4::new(9, 10, 11, 12)]);
    mesh.uv = Some(vec![Vec2::new(1, 2), Vec2::new(3, 4), Vec2::new(5, 6)]);
    mesh.tangents = Some(vec![Vec4::new(0, 0, 0, 1); 3]);
    assert!(mesh.is_well_formed());
    let gpu = mesh.to_gpu();
    assert!(gpu.normal_present && gpu.color_present && gpu.uv_present && gpu.tangent_present);
    assert_eq!(gpu.normal_buffer.contents, vec![1, 2, 3, 0, 4, 5, 6, 0, 7, 8, 9, 0]);
    assert_eq!(gpu.color_buffer.contents, vec![1, 2, 3, 4, 5, 6, 7, 8, 9, 10, 11, 12]);
    assert_eq!(gpu.uv_buffer.contents, vec![1, 2, 3, 4, 5, 6]);
    assert_eq!(gpu.normal_buffer.element_count(4), 3);
    assert_eq!(gpu.color_buffer.element_count(4), 3);
    assert_eq!(gpu.uv_buffer.element_count(2), 3);
    assert_eq!(gpu.tangent_buffer.element_count(4), 3);
}

#[test]
fn positions_and_indices_go_up_as_they_are() {
    let gpu = triangle().to_gpu();
    assert_eq!(
        gpu.vertex_buffer.contents,
        vec![f(1.0), f(2.0), f(3.0), f(4.0), f(6.0), f(3.0), f(1.0), f(2.0), f(8.0)]
    );
    assert_eq!(gpu.index_buffer.contents, vec![0, 1, 2]);
    assert_eq!(gpu.index_length, 3);
    assert_eq!(gpu.vertex_buffer.usage, BufferUsages::vertex());
    assert_eq!(gpu.index_buffer.usage, BufferUsages::index_storage());
    assert_eq!(gpu.normal_buffer.usage, BufferUsages::storage());
}

#[test]
fn mesh_bind_group_has_fixed_slots() {
    let gpu = triangle().to_gpu();
    let entries = &gpu.bind_group.entries;
    assert_eq!(entries.len(), 3);
    assert_eq!(entries[0].binding, 0);
    assert_eq!(entries[0].resource, BindingResource::Buffer(BufferRole::Normal));
    assert_eq!(entries[1].binding, 1);
    assert_eq!(entries[1].resource, BindingResource::Buffer(BufferRole::Color));
    assert_eq!(entries[2].binding, 2);
    assert_eq!(entries[2].resource, BindingResource::Buffer(BufferRole::Uv));
    assert_eq!(GpuMesh::MESH_BINDING_NORMAL, 0);
    assert_eq!(GpuMesh::MESH_BINDING_COLOR, 1);
    assert_eq!(GpuMesh::MESH_BINDING_UV, 2);
    assert_eq!(GpuMesh::MESH_BINDING_TANGENT, 3);
    let layout = GpuMesh::mesh_layout();
    assert_eq!(layout.label, "mesh_layout");
    assert_eq!(layout.entries.len(), 3);
    assert!(layout.entries.iter().all(|e| e.visibility.vertex && e.visibility.fragment && e.count == 0));
    let vertex = GpuMesh::get_vertex_layout();
    assert_eq!(vertex.array_stride, 12);
    assert_eq!(vertex.attribute.components, 3);
}

#[test]
fn well_formedness_is_checked() {
    assert!(triangle().is_well_formed());
    assert!(!CpuMesh::new(vec![], vec![]).is_well_formed());
    assert!(!CpuMesh::new(vec![v3(0.0, 0.0, 0.0)], vec![0, 0]).is_well_formed());
    assert!(!CpuMesh::new(vec![v3(0.0, 0.0, 0.0)], vec![0, 0, 1]).is_well_formed());
    let mut short = triangle();
    short.uv = Some(vec![Vec2::new(0, 0)]);
    assert!(!short.is_well_formed());
    let max = *triangle().index.iter().max().unwrap();
    assert!((max as usize) < triangle().position.len());
}

#[test]
fn flat_normal_of_a_triangle() {
    let mut mesh = triangle();
    mesh.calculate_normals();
    // (b - a) x (c - a) = (3, 4, 0) x (0, 0, 5) = (20, -15, 0), of length 25
    let recip = 1.0f32 / (20.0f32 * 20.0 + 15.0 * 15.0 + 0.0 * 0.0).sqrt();
    let expected = Vec3A::new(f(20.0 * recip), f(-15.0 * recip), f(0.0 * recip));
    let normals = mesh.normal.unwrap();
    assert_eq!(normals, vec![expected, expected, expected]);
    assert!((f32::from_bits(normals[0].x) - 0.8).abs() < 1e-6);
    assert!((f32::from_bits(normals[0].y) + 0.6).abs() < 1e-6);
}

#[test]
fn later_faces_overwrite_normals_and_unused_vertices_stay_zero() {
    let mut mesh = CpuMesh::new(
        vec![
            v3(0.0, 0.0, 0.0),
            v3(1.0, 0.0, 0.0),
            v3(0.0, 1.0, 0.0),
            v3(0.0, 0.0, 1.0),
            v3(5.0, 5.0, 5.0),
        ],
        vec![0, 1, 2, 0, 3, 1],
    );
    mesh.calculate_normals();
    let n = mesh.normal.unwrap();
    let up = Vec3A::new(f(0.0), f(0.0), f(1.0));
    // (0,0,1) x (1,0,0) = (0, 1, 0)
    let side = Vec3A::new(f(0.0), f(1.0), f(0.0));
    assert_eq!(n[2], up);
    assert_eq!(n[0], side);
    assert_eq!(n[1], side);
    assert_eq!(n[3], side);
    assert_eq!(n[4], Vec3A::new(0, 0, 0));
}

#[test]
fn axis_frame_has_two_triangles_per_axis() {
    let mesh = CpuMesh::axis_frame();
    assert!(mesh.is_well_formed());
    assert_eq!(mesh.name.as_deref(), Some("coordinate_frame"));
    assert_eq!(mesh.position.len(), 18);
    assert_eq!(mesh.index, (0..18).collect::<Vec<u32>>());
    assert_eq!(mesh.position[0], v3(0.0, 0.0, 0.0));
    assert_eq!(mesh.position[1], v3(1.0, 0.0, 0.0));
    assert_eq!(mesh.position[2], v3(0.0, 0.1, 0.0));
    assert_eq!(mesh.position[3], v3(0.0, 0.1, 0.0));
    assert_eq!(mesh.position[4], v3(1.0, 0.0, 0.0));
    assert_eq!(mesh.position[5], v3(0.0, 0.0, 0.0));
    assert_eq!(mesh.position[8], v3(0.0, 0.0, 0.1));
    assert_eq!(mesh.position[13], v3(0.0, 0.0, 1.0));
    assert_eq!(mesh.position[14], v3(0.1, 0.0, 0.0));
    assert_eq!(mesh.position[15], v3(0.1, 0.0, 0.0));
    let colors = mesh.color.as_ref().unwrap();
    assert_eq!(colors[0], Vec4::new(f(1.0), 0, 0, f(1.0)));
    assert_eq!(colors[6], Vec4::new(0, f(1.0), 0, f(1.0)));
    assert_eq!(colors[17], Vec4::new(0, 0, f(1.0), f(1.0)));
    let normals = mesh.normal.as_ref().unwrap();
    assert_eq!(normals.len(), 18);
    assert_eq!(f32::from_bits(normals[0].z), 1.0);
    assert_eq!(f32::from_bits(normals[3].z), -1.0);
}

#[test]
fn corners_are_read_through_the_index() {
    let mut mesh = CpuMesh::new(
        vec![v3(0.0, 0.0, 0.0), v3(1.0, 0.0, 0.0), v3(0.0, 1.0, 0.0), v3(0.0, 0.0, 1.0)],
        vec![0, 1, 2, 2, 1, 3],
    );
    mesh.normal = Some(vec![Vec3A::new(1, 1, 1), Vec3A::new(2, 2, 2), Vec3A::new(3, 3, 3), Vec3A::new(4, 4, 4)]);
    mesh.uv = Some(vec![Vec2::new(10, 11), Vec2::new(20, 21), Vec2::new(30, 31), Vec2::new(40, 41)]);
    assert_eq!(mesh.num_faces(), 2);
    assert_eq!(mesh.num_vertices_of_face(1), 3);
    assert_eq!(mesh.position(1, 2), [f(0.0), f(0.0), f(1.0)]);
    assert_eq!(mesh.position(1, 0), [f(0.0), f(1.0), f(0.0)]);
    assert_eq!(mesh.normal(1, 1), [2, 2, 2]);
    assert_eq!(mesh.tex_coord(1, 2), [40, 41]);
}

#[test]
fn tangents_are_stored_with_flipped_handedness() {
    let mut mesh = triangle();
    assert!(!mesh.reset_tangents());
    assert!(mesh.tangents.is_none());
    mesh.normal = Some(vec![Vec3A::new(0, 0, 0); 3]);
    mesh.uv = Some(vec![Vec2::new(0, 0); 3]);
    assert!(mesh.reset_tangents());
    assert_eq!(mesh.tangents, Some(vec![Vec4::new(0, 0, 0, 0); 3]));
    mesh.set_tangent_encoded([f(1.0), f(0.0), f(0.0), f(1.0)], 0, 1);
    mesh.set_tangent_encoded([f(0.0), f(1.0), f(0.0), f(-1.0)], 0, 2);
    let t = mesh.tangents.unwrap();
    assert_eq!(t[0], Vec4::new(0, 0, 0, 0));
    assert_eq!(t[1], Vec4::new(f(1.0), f(0.0), f(0.0), f(-1.0)));
    assert_eq!(t[2], Vec4::new(f(0.0), f(1.0), f(0.0), f(1.0)));
}
