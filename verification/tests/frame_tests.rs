use render_engine::frame::record_frame;
use render_engine::gpu::{BindGroupKind, BindingResource, BufferRole, BufferUsages, RenderCommand};
use render_engine::layout::{
    light_layout, mesh_object_meta_layout, texture_uniform_layout, verify_field,
    verify_struct_layout, view_uniform_layout, FieldLayout, LayoutError, ShaderMember,
};
use render_engine::lights::{CpuLights, Light, LightType};
use render_engine::math::{negate, Mat4, Quat, Vec3, Vec3A};
use render_engine::mesh::CpuMesh;
use render_engine::mesh_object::MeshObject;
use render_engine::mesh_object_textured::MeshObjectTextured;
use render_engine::run::{run_main, RunAction, RunStage};
use render_engine::shader::StaticWgslStack;
use render_engine::target::{
    choose_surface_format, Error, Readback, SurfaceError, Target, TargetDestination, TargetKind,
};
use render_engine::text::decimal;
use render_engine::view::{compose_view_projection, make_view_uniform, Camera, ViewUniform};

fn f(x: f32) -> u32 {
    x.to_bits()
}

fn bits(m: glam::Mat4) -> [u32; 16] {
    m.to_cols_array().map(f32::to_bits)
}

fn shader_members(module: &naga::Module, name: &str) -> (u32, Vec<ShaderMember>) {
    let found = module
        .types
        .iter()
        .find(|z| z.1.name.as_ref().map(|v| v.as_str()) == Some(name))
        .unwrap();
    if let naga::TypeInner::Struct { members, span } = &found.1.inner {
        (*span, members.iter().map(|m| ShaderMember { name: m.name.clone(), offset: m.offset }).collect())
    } else {
        panic!("Incorrect type found");
    }
}

#[test]
fn test_light_struct_align() {
    let module = naga::front::wgsl::parse_str(
        "struct Light {
            position: vec3f,
            direction: vec3f,
            color: vec3f,
            intensity: f32,
            light_type: u32,
            // hardness_kd_ks: vec3f,
        };",
    )
    .unwrap();
    let (span, members) = shader_members(&module, "Light");
    let host = light_layout();
    for (index, field) in host.fields.iter().enumerate() {
        assert_eq!(verify_field(field, index, &members), Ok(()));
    }
    assert_eq!(
        host.size, span,
        "Rust struct size does not match expected wgsl length: {}",
        span
    );
    assert_eq!(verify_struct_layout(&host, span, &members), Ok(()));
    let mut words = Vec::new();
    Light::omni().push_words(&mut words);
    assert_eq!(words.len() * 4, span as usize);
}

#[test]
fn test_view_uniform_struct_align() {
    let module = naga::front::wgsl::parse_str(
        "struct ViewUniform { view_proj: mat4x4f, camera_world_position: vec3f, };",
    )
    .unwrap();
    let (span, members) = shader_members(&module, "ViewUniform");
    let host = view_uniform_layout();
    assert_eq!(host.size, span);
    assert_eq!(verify_struct_layout(&host, span, &members), Ok(()));
    let uniform = make_view_uniform(Mat4::identity(), Vec3::new(0, 0, 0));
    assert_eq!(uniform.to_words().len() * 4, span as usize);
}

#[test]
fn test_texture_struct_align() {
    let module = naga::front::wgsl::parse_str(
        "struct TextureUniform { base_color: u32, metallic_roughness: u32, occlusion: u32, normal: u32, emissive: u32, };",
    )
    .unwrap();
    let (span, members) = shader_members(&module, "TextureUniform");
    let host = texture_uniform_layout();
    assert_eq!(host.size, span);
    assert_eq!(verify_struct_layout(&host, span, &members), Ok(()));
    assert_eq!(render_engine::texture::TextureUniform::default().to_words().len() * 4, span as usize);
}

#[test]
fn test_mesh_object_struct_align() {
    let module = naga::front::wgsl::parse_str(
        "struct MeshObjectMetaUniform { color_present: u32, normal_present: u32, uv_present: u32, };",
    )
    .unwrap();
    let (span, members) = shader_members(&module, "MeshObjectMetaUniform");
    let host = mesh_object_meta_layout();
    assert_eq!(host.size, span);
    assert_eq!(verify_struct_layout(&host, span, &members), Ok(()));
    assert_eq!(
        render_engine::mesh_object::MeshObjectMetaUniform::default().to_words().len() * 4,
        span as usize
    );
}

#[test]
fn layout_mismatches_are_reported() {
    let member = |name: &str, offset: u32| ShaderMember { name: Some(name.to_string()), offset };
    let host = texture_uniform_layout();
    let good = vec![
        member("base_color", 0),
        member("metallic_roughness", 4),
        member("occlusion", 8),
        member("normal", 12),
        member("emissive", 16),
    ];
    assert_eq!(verify_struct_layout(&host, 20, &good), Ok(()));
    assert_eq!(
        verify_struct_layout(&host, 32, &good),
        Err(LayoutError::SizeMismatch { host: 20, shader: 32 })
    );
    let mut moved = good.clone();
    moved[2].offset = 16;
    assert_eq!(
        verify_struct_layout(&host, 20, &moved),
        Err(LayoutError::OffsetMismatch { field: 2, host: 8, shader: 16 })
    );
    let mut missing = good.clone();
    missing.remove(3);
    missing.push(ShaderMember { name: None, offset: 12 });
    assert_eq!(verify_struct_layout(&host, 20, &missing), Err(LayoutError::MissingField { field: 3 }));
    let field = FieldLayout { name: "normal".to_string(), offset: 12 };
    assert_eq!(verify_field(&field, 7, &good), Ok(()));
    assert_eq!(verify_field(&field, 7, &[].to_vec()), Err(LayoutError::MissingField { field: 7 }));
}

#[test]
fn lights_are_laid_out_in_sixteen_words() {
    let light = Light::directional()
        .with_position(Vec3A::new(1, 2, 3))
        .with_direction(Vec3A::new(4, 5, 6))
        .with_color(Vec3::new(7, 8, 9))
        .with_intensity(f(0.5));
    assert_eq!(light.light_type, LightType::Directional);
    let mut words = vec![99];
    light.push_words(&mut words);
    assert_eq!(words, vec![99, 1, 2, 3, 0, 4, 5, 6, 0, 7, 8, 9, f(0.5), 1, 0, 0, 0]);
    assert_eq!(Light::omni().light_type.to_tag(), 2);
    assert_eq!(LightType::Ambient.to_tag(), 3);
    assert_eq!(LightType::default(), LightType::Off);
    assert_eq!(Light::default(), Light::off());
    assert_eq!(Light::default().light_type.to_tag(), 0);
}

#[test]
fn all_lights_go_up_in_one_buffer() {
    let lights = CpuLights::new().with_lights(&[Light::omni(), Light::directional()]);
    let mut more = lights.clone();
    more.add_lights(&[Light::off().with_intensity(5)]);
    assert_eq!(more.lights.len(), 3);
    let gpu = more.to_gpu();
    assert_eq!(gpu.light_buffer.contents.len(), 48);
    assert_eq!(gpu.light_buffer.contents[12], 2);
    assert_eq!(gpu.light_buffer.contents[28], 1);
    assert_eq!(gpu.light_buffer.contents[43], 5);
    assert_eq!(gpu.light_buffer.label, "Light buffer");
    assert_eq!(gpu.light_buffer.usage, BufferUsages::storage());
    assert_eq!(gpu.light_bind_group.label, "light_bind_group");
    assert_eq!(gpu.light_bind_group.entries.len(), 1);
    assert_eq!(gpu.light_bind_group.entries[0].resource, BindingResource::Buffer(BufferRole::Lights));
    assert_eq!(gpu.light_bind_group_layout, CpuLights::bind_group_layout());
    assert_eq!(CpuLights::bind_group_layout().label, "light_bind_group_layout");
    assert_eq!(CpuLights::LIGHT_SET, 1);
    assert!(CpuLights::new().to_gpu().light_buffer.contents.is_empty());
}

#[test]
fn camera_constants_are_the_numbers_they_stand_for() {
    let camera = Camera::new(1024, 768);
    assert_eq!(camera.eye, Vec3::new(f(0.0), f(-0.1), f(1.3)));
    assert_eq!(camera.target, Vec3::new(0, 0, 0));
    assert_eq!(camera.up, Vec3::new(0, 0, f(1.0)));
    assert_eq!(camera.aspect, f(1024.0 / 768.0));
    assert_eq!(camera.fovy, f(90.0));
    assert_eq!(camera.znear, f(0.001));
    assert_eq!(camera.zfar, f(1000.0));
    assert_eq!(Camera::new(3, 2).aspect, f(1.5));
    assert!(f32::from_bits(Camera::new(0, 0).aspect).is_nan());
}

#[test]
fn view_projection_is_projection_times_view() {
    let camera = Camera::new(640, 480);
    let eye = glam::vec3(0.0, -0.1, 1.3);
    #[allow(deprecated)]
    let view = glam::Mat4::look_at_rh(eye, glam::Vec3::ZERO, glam::Vec3::Z);
    #[allow(deprecated)]
    let proj = glam::Mat4::perspective_rh(90.0f32.to_radians(), 640.0 / 480.0, 0.001, 1000.0);
    assert_eq!(camera.view_matrix().cols, bits(view));
    assert_eq!(camera.projection_matrix().cols, bits(proj));
    assert_eq!(camera.to_view_projection_matrix().cols, bits(proj * view));
    assert_eq!(camera.to_view_matrix(), camera.to_view_projection_matrix());
    let uniform = camera.to_camera_uniform();
    assert_eq!(uniform.view_proj.cols, bits(proj * view));
    assert_eq!(uniform.camera_world_position, camera.eye);
    assert_eq!(uniform._pad, 0);
    assert_eq!(
        compose_view_projection(&Mat4::from_cols_array(bits(proj)), &Mat4::from_cols_array(bits(view))).cols,
        bits(proj * view)
    );
}

#[test]
fn view_uniform_is_twenty_words() {
    let uniform = make_view_uniform(Mat4::identity(), Vec3::new(7, 8, 9));
    let words = uniform.to_words();
    assert_eq!(words.len(), 20);
    assert_eq!(words[0], f(1.0));
    assert_eq!(words[5], f(1.0));
    assert_eq!(words[1], 0);
    assert_eq!(&words[16..], &[7, 8, 9, 0]);
    let mut pass = Vec::new();
    let gpu = uniform.add_commands(&mut pass);
    assert_eq!(pass, vec![RenderCommand::SetBindGroup { set: 0, group: BindGroupKind::View }]);
    assert_eq!(gpu.camera_buffer.contents, words);
    assert_eq!(gpu.camera_buffer.label, "view_uniform");
    assert_eq!(gpu.camera_bind_group.label, "camera_bind_group");
    assert_eq!(gpu.camera_bind_group.entries[0].binding, 0);
    assert_eq!(ViewUniform::bind_group_layout().label, "camera_bind_group_layout");
    assert_eq!(ViewUniform::bind_group_layout().entries.len(), 1);
}

#[test]
fn matrices_are_built_and_multiplied_by_glam() {
    let a = glam::Mat4::from_cols_array(&[
        1.0, 2.0, 3.0, 4.0, 5.0, 6.0, 7.0, 8.0, 9.0, 10.0, 11.0, 12.0, 13.0, 14.0, 15.0, 16.0,
    ]);
    let b = glam::Mat4::from_scale(glam::vec3(2.0, 3.0, 4.0));
    let product = Mat4::from_cols_array(bits(a)).mul_mat4(&Mat4::from_cols_array(bits(b)));
    assert_eq!(product.cols, bits(a * b));
    assert!(product.cols != bits(b * a));
    assert_eq!(Mat4::from_scale(Vec3::new(f(2.0), f(3.0), f(4.0))).cols, bits(b));
    let q = glam::Quat::from_rotation_y(0.5);
    let rotated = Mat4::from_rotation_translation(
        Quat::new(f(q.x), f(q.y), f(q.z), f(q.w)),
        Vec3::new(f(1.0), f(2.0), f(3.0)),
    );
    assert_eq!(rotated.cols, bits(glam::Mat4::from_rotation_translation(q, glam::vec3(1.0, 2.0, 3.0))));
    assert_eq!(Mat4::identity().cols, bits(glam::Mat4::IDENTITY));
    assert_eq!(Mat4::zero().cols, [0; 16]);
    let v = Vec3::new(f(1.0), f(2.0), f(3.0));
    let w = Vec3::new(f(-2.0), f(0.5), f(4.0));
    assert_eq!(v.difference(w), Vec3::new(f(3.0), f(1.5), f(-1.0)));
    assert_eq!(v.cross(w), Vec3::new(f(2.0 * 4.0 - 0.5 * 3.0), f(3.0 * -2.0 - 4.0 * 1.0), f(1.0 * 0.5 - -2.0 * 2.0)));
    assert_eq!(Vec3::new(f(0.0), f(3.0), f(4.0)).normalize(), Vec3::new(f(0.0), f(3.0 * (1.0 / 5.0)), f(4.0 * (1.0 / 5.0))));
    assert_eq!(negate(f(1.5)), f(-1.5));
    assert_eq!(negate(f(-0.0)), f(0.0));
    assert_eq!(negate(0x7fc0_0001), 0xffc0_0001);
}

#[test]
fn resize_to_zero_changes_nothing() {
    let mut target = Target::new_surface(800, 600, 1024, 768);
    assert_eq!(target, Target { kind: TargetKind::WindowSurface, width: 1024, height: 768 });
    assert!(!target.reconfigure(640, 0));
    assert_eq!(target, Target { kind: TargetKind::WindowSurface, width: 1024, height: 768 });
    assert!(!target.reconfigure(0, 480));
    assert_eq!((target.width, target.height), (1024, 768));
    assert!(target.reconfigure(640, 480));
    assert_eq!((target.width, target.height), (640, 480));
    assert_eq!(Target::new_surface(800, 600, 0, 0), Target { kind: TargetKind::WindowSurface, width: 800, height: 600 });
    let mut offscreen = Target::new_texture(64, 64);
    assert!(!offscreen.reconfigure(128, 128));
    assert_eq!(offscreen, Target::new_texture(64, 64));
}

#[test]
fn destinations_and_readback() {
    let window = Target::new_surface(8, 8, 8, 8);
    let offscreen = Target::new_texture(16, 4);
    assert!(window.get_target());
    assert!(!offscreen.get_target());
    assert_eq!(
        window.destination(Ok((8, 9))),
        Ok(TargetDestination { surface_texture: true, width: 8, height: 9 })
    );
    assert_eq!(window.destination(Err(SurfaceError::Lost)), Err(Error::SurfaceError(SurfaceError::Lost)));
    assert_eq!(
        window.destination(Err(SurfaceError::Timeout)),
        Err(Error::SurfaceError(SurfaceError::Timeout))
    );
    let d = offscreen.destination(Err(SurfaceError::Outdated)).unwrap();
    assert_eq!((d.width(), d.height(), d.into_surface()), (16, 4, false));
    assert_eq!(window.save(), Err(Error::NotOffscreen));
    assert_eq!(
        offscreen.save(),
        Ok(Readback { buffer_size: 256, bytes_per_row: 64, rows_per_image: 4, extent_width: 16, extent_height: 4 })
    );
    assert_eq!(
        Target::new_texture(0, 0).save(),
        Ok(Readback { buffer_size: 0, bytes_per_row: 0, rows_per_image: 0, extent_width: 1, extent_height: 1 })
    );
    assert!(Error::SurfaceError(SurfaceError::Lost).is_transient());
    assert!(Error::SurfaceError(SurfaceError::Outdated).is_transient());
    assert!(!Error::SurfaceError(SurfaceError::OutOfMemory).is_transient());
    assert!(!Error::RequestAdapter.is_transient());
    assert!(!Error::RequestDevice.is_transient());
    assert_eq!(choose_surface_format(&[false, true, true]), 1);
    assert_eq!(choose_surface_format(&[false, false]), 0);
    assert_eq!(choose_surface_format(&[true]), 0);
}

#[test]
fn a_frame_binds_view_and_lights_then_draws_each_object() {
    let mesh = CpuMesh::axis_frame();
    let mut first = MeshObject::new(mesh.to_gpu());
    first.set_single_transform(&Mat4::identity());
    let objects = vec![
        MeshObjectTextured::new(first, &[]),
        MeshObjectTextured::new(MeshObject::new(mesh.to_gpu()), &[]),
    ];
    let view = Camera::new(4, 4).to_camera_uniform();
    let lights = CpuLights::new().with_lights(&[Light::omni()]).to_gpu();
    assert_eq!(
        record_frame(false, 4, 4, &view, &lights, &objects),
        Err(Error::SurfaceError(SurfaceError::Lost))
    );
    let frame = record_frame(true, 4, 0, &view, &lights, &objects).unwrap();
    assert_eq!((frame.depth_width, frame.depth_height), (4, 1));
    assert_eq!(
        frame.setup,
        vec![
            RenderCommand::SetBindGroup { set: 0, group: BindGroupKind::View },
            RenderCommand::SetBindGroup { set: 1, group: BindGroupKind::Lights },
        ]
    );
    assert_eq!(frame.view.camera_buffer.contents, view.to_words());
    assert_eq!(frame.objects.len(), 2);
    assert_eq!(frame.objects[1].object, 1);
    assert_eq!(frame.objects[0].commands[0], RenderCommand::SetBindGroup { set: 3, group: BindGroupKind::Textures });
    assert_eq!(
        frame.objects[0].commands[5],
        RenderCommand::DrawIndexed { index_count: 18, base_vertex: 0, instance_count: 1 }
    );
    assert_eq!(
        frame.objects[1].commands[5],
        RenderCommand::DrawIndexed { index_count: 18, base_vertex: 0, instance_count: 0 }
    );
}

#[test]
fn an_offscreen_run_sets_up_draws_and_saves() {
    assert_eq!(run_main(RunStage::Start, true), (RunStage::SettingUp, RunAction::SetUp));
    assert_eq!(run_main(RunStage::Start, false), (RunStage::SettingUp, RunAction::SetUp));
    assert_eq!(run_main(RunStage::SettingUp, true), (RunStage::Drawing, RunAction::Draw));
    assert_eq!(run_main(RunStage::Drawing, true), (RunStage::Saving, RunAction::Save));
    assert_eq!(run_main(RunStage::Saving, true), (RunStage::Done, RunAction::ReportSuccess));
    assert_eq!(run_main(RunStage::SettingUp, false), (RunStage::Failed, RunAction::ReportFailure));
    assert_eq!(run_main(RunStage::Drawing, false), (RunStage::Failed, RunAction::ReportFailure));
    assert_eq!(run_main(RunStage::Saving, false), (RunStage::Failed, RunAction::ReportFailure));
    assert_eq!(run_main(RunStage::Done, false), (RunStage::Done, RunAction::ReportSuccess));
    assert_eq!(run_main(RunStage::Failed, true), (RunStage::Failed, RunAction::ReportFailure));
}

#[test]
fn shader_parts_are_joined_and_numbers_are_printed() {
    let stack = StaticWgslStack { name: "mesh_object", entry: "main", sources: &["struct A {};\n", "", "fn main() {}"] };
    assert_eq!(stack.combined_source(), "struct A {};\nfn main() {}");
    assert_eq!(StaticWgslStack { name: "n", entry: "e", sources: &[] }.combined_source(), "");
    assert_eq!(decimal(0), "0");
    assert_eq!(decimal(7), "7");
    assert_eq!(decimal(10), "10");
    assert_eq!(decimal(4096), "4096");
    assert_eq!(decimal(1234567890), "1234567890");
}

#[test]
fn projection_has_the_shape_of_a_right_handed_perspective() {
    let camera = Camera::new(800, 600);
    let m = camera.projection_matrix().cols;
    for k in [1, 2, 3, 4, 6, 7, 8, 9, 12, 13, 15] {
        assert_eq!(m[k], f(0.0), "entry {}", k);
    }
    assert_eq!(m[11], f(-1.0));
    let r = 1000.0f32 / (0.001f32 - 1000.0f32);
    assert_eq!(m[10], f(r));
    assert_eq!(m[14], f(r * 0.001f32));
    assert!(f32::from_bits(m[0]) > 0.0 && f32::from_bits(m[5]) > 0.0);
    assert_eq!(m[0], f(f32::from_bits(m[5]) / (800.0f32 / 600.0f32)));
    let mut wide = camera;
    wide.znear = f(0.5);
    wide.zfar = f(8.0);
    let w = wide.projection_matrix().cols;
    assert_eq!(w[10], f(8.0 / (0.5 - 8.0)));
    assert_eq!(w[14], f(8.0f32 / (0.5f32 - 8.0f32) * 0.5f32));
}
