use render_engine::gpu::{BindGroupKind, BindingResource, BufferRole, BufferUsages, RenderCommand};
use render_engine::texture::{
    CpuTextureInfo, GpuTextureInfo, SampledTexture, SamplerDescriptor, Texture, TextureType,
    TextureUniform,
};

fn sampled(role: TextureType, tag: u8) -> SampledTexture {
    SampledTexture {
        sampler: SamplerDescriptor::clamp_linear(),
        texture: Texture { label: None, width: 1, height: 1, pixels: vec![tag, tag, tag, 255] },
        texture_type: role,
    }
}

#[test]
fn uniform_of_nothing_is_all_zero() {
    assert_eq!(TextureUniform::create_from_iter(&[]), TextureUniform::default());
    assert_eq!(TextureUniform::default().to_words(), vec![0, 0, 0, 0, 0]);
}

#[test]
fn uniform_takes_the_index_of_each_role() {
    let u = TextureUniform::create_from_iter(&[
        (0, TextureType::Absent),
        (1, TextureType::Emissive),
        (2, TextureType::BaseColor),
        (3, TextureType::MetallicRoughness),
        (4, TextureType::Normal),
        (5, TextureType::Occlusion),
    ]);
    assert_eq!(
        u,
        TextureUniform { base_color: 2, metallic_roughness: 3, occlusion: 5, normal: 4, emissive: 1 }
    );
    assert_eq!(u.to_words(), vec![2, 3, 5, 4, 1]);
}

#[test]
fn the_last_texture_of_a_role_wins() {
    let u = TextureUniform::create_from_iter(&[
        (1, TextureType::BaseColor),
        (2, TextureType::Normal),
        (3, TextureType::BaseColor),
        (7, TextureType::Absent),
    ]);
    assert_eq!(u.base_color, 3);
    assert_eq!(u.normal, 2);
    assert_eq!(u.emissive, 0);
    let cut = TextureUniform::create_from_iter(&[(0x1_0000_0005, TextureType::Occlusion)]);
    assert_eq!(cut.occlusion, 5);
}

#[test]
fn a_set_starts_with_the_placeholder() {
    let set = CpuTextureInfo::new("set", &[sampled(TextureType::Normal, 7), sampled(TextureType::BaseColor, 9)]);
    assert_eq!(set.name, "set");
    assert_eq!(set.textures.len(), 3);
    assert_eq!(set.textures[0].texture_type, TextureType::Absent);
    assert_eq!(set.textures[0].texture.label.as_deref(), Some("dummy_0th_texture"));
    assert_eq!((set.textures[0].texture.width, set.textures[0].texture.height), (1, 1));
    assert!(set.textures[0].texture.pixels.is_empty());
    assert_eq!(set.textures[1], sampled(TextureType::Normal, 7));
    assert_eq!(set.textures[2], sampled(TextureType::BaseColor, 9));
}

#[test]
fn role_indices_point_at_textures_of_the_role() {
    let set = CpuTextureInfo::new(
        "set",
        &[
            sampled(TextureType::Normal, 1),
            sampled(TextureType::Absent, 2),
            sampled(TextureType::BaseColor, 3),
            sampled(TextureType::Normal, 4),
        ],
    );
    let gpu = set.to_gpu();
    let u = gpu.texture_uniform;
    assert_eq!(u, TextureUniform { base_color: 3, metallic_roughness: 0, occlusion: 0, normal: 4, emissive: 0 });
    assert_eq!(set.textures[u.base_color as usize].texture_type, TextureType::BaseColor);
    assert_eq!(set.textures[u.normal as usize].texture_type, TextureType::Normal);
    assert_eq!(set.textures[0].texture_type, TextureType::Absent);
}

#[test]
fn a_set_goes_to_the_device_as_one_bind_group() {
    let set = CpuTextureInfo::new("helmet", &[sampled(TextureType::Emissive, 1)]);
    let gpu = set.to_gpu();
    assert_eq!(gpu.bind_group.label, "helmet");
    assert_eq!(gpu.bind_group.entries.len(), 3);
    assert_eq!(gpu.bind_group.entries[0].binding, 0);
    assert_eq!(gpu.bind_group.entries[0].resource, BindingResource::TextureViewArray { count: 2 });
    assert_eq!(gpu.bind_group.entries[1].binding, 1);
    assert_eq!(gpu.bind_group.entries[1].resource, BindingResource::SamplerArray { count: 2 });
    assert_eq!(gpu.bind_group.entries[2].binding, 2);
    assert_eq!(gpu.bind_group.entries[2].resource, BindingResource::Buffer(BufferRole::TextureUniform));
    assert_eq!(gpu.texture_uniform_buffer.label, "helmet_texture_uniform");
    assert_eq!(gpu.texture_uniform_buffer.contents, vec![0, 0, 0, 0, 1]);
    assert_eq!(gpu.texture_uniform_buffer.usage, BufferUsages::storage());
    assert_eq!(set.to_gpu(), gpu);
}

#[test]
fn texture_layout_and_commands() {
    let layout = GpuTextureInfo::bind_group_layout();
    assert_eq!(layout.label, "mesh_object_textured_layout");
    assert_eq!(layout.entries.len(), 3);
    assert_eq!(layout.entries[0].count, 512);
    assert_eq!(layout.entries[1].count, 512);
    assert_eq!(layout.entries[2].count, 0);
    assert!(layout.entries.iter().all(|e| e.visibility.fragment && !e.visibility.vertex));
    let gpu = CpuTextureInfo::new("t", &[]).to_gpu();
    let mut pass = vec![RenderCommand::PopDebugGroup];
    gpu.add_commands(&mut pass);
    assert_eq!(
        pass,
        vec![
            RenderCommand::PopDebugGroup,
            RenderCommand::SetBindGroup { set: 3, group: BindGroupKind::Textures }
        ]
    );
}

#[test]
fn copies_keep_everything_but_the_role() {
    let t = sampled(TextureType::Absent, 5);
    assert_eq!(t.duplicate(), t);
    let n = t.with_role(TextureType::Normal);
    assert_eq!(n.texture_type, TextureType::Normal);
    assert_eq!(n.texture, t.texture);
    assert_eq!(n.sampler, t.sampler);
    assert_eq!(Texture { label: None, width: 3, height: 1, pixels: vec![] }.bytes_per_row(), 12);
}
