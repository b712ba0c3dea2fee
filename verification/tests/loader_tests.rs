use render_engine::loader::{
    decode_primitive, gltf_to_rgba8unorm, load_gltf, load_gltf_meshes, load_gltf_texture,
    load_textures, widen_indices, LoadError,
};
use render_engine::math::{Mat4, Vec2, Vec3, Vec3A, Vec4};
use render_engine::mesh_object::read_instances;
use render_engine::scene::{
    AlphaMode, ColorData, Document, ImageData, IndexData, MagFilter, Material, Mesh, MinFilter,
    Node, PixelFormat, Primitive, Sampler, TextureSource, Transform, WrappingMode,
};
use render_engine::scene_loader::{load_gltf_objects, material_textures};
use render_engine::texture::{AddressMode, FilterMode, TextureType, TextureUniform};

fn f(x: f32) -> u32 {
    x.to_bits()
}

fn floats(m: &Mat4) -> [f32; 16] {
    m.cols.map(f32::from_bits)
}

fn translation(x: f32, y: f32, z: f32) -> Transform {
    Transform::Decomposed {
        translation: [f(x), f(y), f(z)],
        rotation: [f(0.0), f(0.0), f(0.0), f(1.0)],
        scale: [f(1.0), f(1.0), f(1.0)],
    }
}

fn identity() -> Transform {
    Transform::Matrix {
        matrix: [
            [f(1.0), 0, 0, 0],
            [0, f(1.0), 0, 0],
            [0, 0, f(1.0), 0],
            [0, 0, 0, f(1.0)],
        ],
    }
}

fn primitive(material: Option<usize>) -> Primitive {
    Primitive {
        positions: Some(vec![
            Vec3::new(f(0.0), f(0.0), f(0.0)),
            Vec3::new(f(1.0), f(0.0), f(0.0)),
            Vec3::new(f(0.0), f(1.0), f(0.0)),
        ]),
        indices: Some(IndexData::U16(vec![0, 1, 2])),
        colors: None,
        normals: None,
        tex_coords: None,
        material,
    }
}

fn cube_primitive() -> Primitive {
    let mut positions = Vec::new();
    for i in 0..8u32 {
        positions.push(Vec3::new(f((i & 1) as f32), f(((i >> 1) & 1) as f32), f(((i >> 2) & 1) as f32)));
    }
    let indices: Vec<u8> = vec![
        0, 1, 3, 0, 3, 2, 4, 6, 7, 4, 7, 5, 0, 4, 5, 0, 5, 1, 2, 3, 7, 2, 7, 6, 0, 2, 6, 0, 6, 4, 1, 5, 7,
        1, 7, 3,
    ];
    Primitive {
        positions: Some(positions),
        indices: Some(IndexData::U8(indices)),
        colors: None,
        normals: None,
        tex_coords: None,
        material: None,
    }
}

fn node(transform: Transform, mesh: Option<usize>, children: Vec<usize>) -> Node {
    Node { transform, mesh, children }
}

fn mesh(name: &str, primitives: Vec<Primitive>) -> Mesh {
    Mesh { name: Some(name.to_string()), primitives }
}

fn image(format: PixelFormat, width: u32, height: u32, pixels: Vec<u8>) -> ImageData {
    ImageData { format, width, height, pixels }
}

fn sampler() -> Sampler {
    Sampler { wrap_s: WrappingMode::Repeat, wrap_t: WrappingMode::MirroredRepeat, mag_filter: None, min_filter: None }
}

fn texture(tag: u8) -> TextureSource {
    TextureSource { sampler: sampler(), image: image(PixelFormat::R8G8B8A8, 1, 1, vec![tag, 0, 0, 255]) }
}

fn opaque() -> Material {
    Material {
        alpha_mode: AlphaMode::Opaque,
        emissive_texture: None,
        base_color_texture: None,
        metallic_roughness_texture: None,
        normal_texture: None,
        occlusion_texture: None,
    }
}

fn document(nodes: Vec<Node>, meshes: Vec<Mesh>) -> Document {
    Document { nodes, meshes, materials: vec![], textures: vec![], roots: vec![0] }
}

#[test]
fn two_level_hierarchy_adds_the_translations() {
    let doc = document(
        vec![
            node(identity(), None, vec![1]),
            node(translation(1.0, 0.0, 0.0), None, vec![2]),
            node(translation(0.0, 2.0, 0.0), Some(0), vec![]),
        ],
        vec![mesh("leaf", vec![primitive(None)])],
    );
    assert!(doc.is_well_formed());
    let objects = load_gltf_objects(&doc).unwrap();
    assert_eq!(objects.len(), 1);
    let instances = &objects[0].mesh_object.instances;
    assert_eq!(instances.len(), 1);
    assert_eq!(
        floats(&instances[0]),
        [1.0, 0.0, 0.0, 0.0, 0.0, 1.0, 0.0, 0.0, 0.0, 0.0, 1.0, 0.0, 1.0, 2.0, 0.0, 1.0]
    );
    assert_eq!(read_instances(&objects[0].mesh_object.instances_buffer.contents), *instances);
    assert_eq!(objects[0].mesh_object.gpu_mesh.name, "leaf");
}

#[test]
fn the_child_transform_stands_left_of_the_parent() {
    // scaling by 2 at the parent, moving by (1, 0, 0) at the child: child * parent moves by 1,
    // parent * child would move by 2
    let scale = Transform::Decomposed {
        translation: [f(0.0), f(0.0), f(0.0)],
        rotation: [f(0.0), f(0.0), f(0.0), f(1.0)],
        scale: [f(2.0), f(2.0), f(2.0)],
    };
    let doc = document(
        vec![node(scale, None, vec![1]), node(translation(1.0, 0.0, 0.0), Some(0), vec![])],
        vec![mesh("leaf", vec![primitive(None)])],
    );
    let objects = load_gltf_objects(&doc).unwrap();
    let m = floats(&objects[0].mesh_object.instances[0]);
    assert_eq!(m, [2.0, 0.0, 0.0, 0.0, 0.0, 2.0, 0.0, 0.0, 0.0, 0.0, 2.0, 0.0, 1.0, 0.0, 0.0, 1.0]);
}

#[test]
fn untextured_cube_yields_one_object_with_the_placeholder() {
    let doc = document(vec![node(identity(), Some(0), vec![])], vec![mesh("cube", vec![cube_primitive()])]);
    let objects = load_gltf_objects(&doc).unwrap();
    assert_eq!(objects.len(), 1);
    assert_eq!(objects[0].cpu_textures.textures.len(), 1);
    assert_eq!(objects[0].gpu_textures.texture_uniform, TextureUniform::default());
    assert_eq!(objects[0].mesh_object.gpu_mesh.index_length, 36);
    assert_eq!(objects[0].mesh_object.gpu_mesh.vertex_buffer.contents.len(), 24);
}

#[test]
fn objects_come_level_by_level() {
    let doc = Document {
        nodes: vec![
            node(identity(), Some(0), vec![2, 3]),
            node(identity(), Some(1), vec![4]),
            node(identity(), Some(2), vec![]),
            node(identity(), None, vec![5]),
            node(identity(), Some(3), vec![]),
            node(identity(), Some(4), vec![]),
        ],
        meshes: vec![
            mesh("a", vec![primitive(None)]),
            mesh("b", vec![primitive(None)]),
            mesh("c", vec![primitive(None)]),
            mesh("d", vec![primitive(None)]),
            mesh("e", vec![primitive(None)]),
        ],
        materials: vec![],
        textures: vec![],
        roots: vec![0, 1],
    };
    let objects = load_gltf_objects(&doc).unwrap();
    let names: Vec<&str> = objects.iter().map(|o| o.mesh_object.gpu_mesh.name.as_str()).collect();
    assert_eq!(names, vec!["a", "b", "c", "d", "e"]);
}

#[test]
fn a_node_on_two_paths_is_shown_twice() {
    let doc = document(
        vec![
            node(identity(), None, vec![1, 2]),
            node(translation(1.0, 0.0, 0.0), None, vec![3]),
            node(translation(0.0, 1.0, 0.0), None, vec![3]),
            node(identity(), Some(0), vec![]),
        ],
        vec![mesh("shared", vec![primitive(None)])],
    );
    let objects = load_gltf_objects(&doc).unwrap();
    assert_eq!(objects.len(), 2);
    assert_eq!(floats(&objects[0].mesh_object.instances[0])[12..15], [1.0, 0.0, 0.0]);
    assert_eq!(floats(&objects[1].mesh_object.instances[0])[12..15], [0.0, 1.0, 0.0]);
}

#[test]
fn material_textures_get_their_roles() {
    let material = Material {
        emissive_texture: Some(2),
        base_color_texture: Some(0),
        normal_texture: Some(1),
        occlusion_texture: Some(0),
        ..opaque()
    };
    let doc = Document {
        nodes: vec![node(identity(), Some(0), vec![])],
        meshes: vec![mesh("m", vec![primitive(Some(0))])],
        materials: vec![material],
        textures: vec![texture(10), texture(20), texture(30)],
        roots: vec![0],
    };
    assert!(doc.is_well_formed());
    let objects = load_gltf_objects(&doc).unwrap();
    let textures = &objects[0].cpu_textures.textures;
    let roles: Vec<(TextureType, u8)> = textures.iter().skip(1).map(|t| (t.texture_type, t.texture.pixels[0])).collect();
    assert_eq!(
        roles,
        vec![
            (TextureType::Emissive, 30),
            (TextureType::BaseColor, 10),
            (TextureType::Normal, 20),
            (TextureType::Occlusion, 10),
        ]
    );
    assert_eq!(
        objects[0].gpu_textures.texture_uniform,
        TextureUniform { base_color: 2, metallic_roughness: 0, occlusion: 4, normal: 3, emissive: 1 }
    );
    assert_eq!(textures[1].sampler.address_mode_u, AddressMode::Repeat);
    assert_eq!(textures[1].sampler.address_mode_v, AddressMode::MirrorRepeat);
    assert_eq!(textures[1].sampler.address_mode_w, AddressMode::MirrorRepeat);
    let loaded = load_textures(&doc).unwrap();
    assert!(loaded.iter().all(|t| t.texture_type == TextureType::Absent));
    assert_eq!(material_textures(&doc.materials[0], &loaded).len(), 4);
}

#[test]
fn more_than_one_primitive_is_refused() {
    let doc = document(
        vec![node(identity(), None, vec![])],
        vec![mesh("two", vec![primitive(None), primitive(None)])],
    );
    assert_eq!(load_gltf_objects(&doc), Err(LoadError::MultiplePrimitives));
    assert_eq!(load_gltf_meshes(&doc), Err(LoadError::MultiplePrimitives));
}

#[test]
fn geometry_that_is_missing_or_inconsistent_is_refused() {
    let mut no_positions = primitive(None);
    no_positions.positions = None;
    assert_eq!(decode_primitive(&no_positions, &None), Err(LoadError::InvalidGeometry));
    let mut no_indices = primitive(None);
    no_indices.indices = None;
    assert_eq!(decode_primitive(&no_indices, &None), Err(LoadError::InvalidGeometry));
    let mut out_of_range = primitive(None);
    out_of_range.indices = Some(IndexData::U32(vec![0, 1, 3]));
    assert_eq!(decode_primitive(&out_of_range, &None), Err(LoadError::InvalidGeometry));
    let mut short_normals = primitive(None);
    short_normals.normals = Some(vec![Vec3::new(0, 0, 0)]);
    assert_eq!(decode_primitive(&short_normals, &None), Err(LoadError::InvalidGeometry));
    let doc = document(vec![node(identity(), Some(0), vec![])], vec![mesh("bad", vec![out_of_range])]);
    assert_eq!(load_gltf_objects(&doc), Err(LoadError::InvalidGeometry));
}

#[test]
fn colors_that_are_not_floats_are_refused() {
    let mut p = primitive(None);
    p.colors = Some(ColorData::RgbaU8);
    assert_eq!(decode_primitive(&p, &None), Err(LoadError::UnsupportedColorFormat));
    p.colors = Some(ColorData::RgbU16);
    assert_eq!(decode_primitive(&p, &None), Err(LoadError::UnsupportedColorFormat));
}

#[test]
fn streams_are_decoded_into_a_mesh() {
    let mut p = primitive(None);
    p.colors = Some(ColorData::RgbF32(vec![Vec3::new(1, 2, 3), Vec3::new(4, 5, 6), Vec3::new(7, 8, 9)]));
    p.normals = Some(vec![Vec3::new(1, 1, 1), Vec3::new(2, 2, 2), Vec3::new(3, 3, 3)]);
    p.tex_coords = Some(vec![Vec2::new(1, 2), Vec2::new(3, 4), Vec2::new(5, 6)]);
    let mesh = decode_primitive(&p, &Some("part".to_string())).unwrap();
    assert!(mesh.is_well_formed());
    assert_eq!(mesh.index, vec![0, 1, 2]);
    assert_eq!(mesh.name.as_deref(), Some("part"));
    assert_eq!(
        mesh.color,
        Some(vec![Vec4::new(1, 2, 3, f(1.0)), Vec4::new(4, 5, 6, f(1.0)), Vec4::new(7, 8, 9, f(1.0))])
    );
    assert_eq!(mesh.normal, Some(vec![Vec3A::new(1, 1, 1), Vec3A::new(2, 2, 2), Vec3A::new(3, 3, 3)]));
    assert_eq!(mesh.uv, p.tex_coords);
    assert!(mesh.tangents.is_none());
    p.colors = Some(ColorData::RgbaF32(vec![Vec4::new(1, 2, 3, 4); 3]));
    assert_eq!(decode_primitive(&p, &None).unwrap().color, Some(vec![Vec4::new(1, 2, 3, 4); 3]));
    assert_eq!(widen_indices(&IndexData::U8(vec![255, 0])), vec![255, 0]);
    assert_eq!(widen_indices(&IndexData::U16(vec![65535])), vec![65535]);
    assert_eq!(widen_indices(&IndexData::U32(vec![70000])), vec![70000]);
}

#[test]
fn meshes_without_primitive_are_skipped_and_cannot_be_shown() {
    let doc = document(
        vec![node(identity(), Some(0), vec![])],
        vec![mesh("hollow", vec![]), mesh("full", vec![primitive(None)])],
    );
    let decoded = load_gltf_meshes(&doc).unwrap();
    assert_eq!(decoded.len(), 1);
    assert_eq!(decoded[0].0, 1);
    assert_eq!(load_gltf(&doc, 0).unwrap().name.as_deref(), Some("full"));
    assert_eq!(load_gltf_objects(&doc), Err(LoadError::MeshNotFound));
}

#[test]
fn materials_that_are_not_opaque_are_refused_when_shown() {
    let blend = Material { alpha_mode: AlphaMode::Blend, ..opaque() };
    let mut doc = Document {
        nodes: vec![node(identity(), Some(0), vec![])],
        meshes: vec![mesh("m", vec![primitive(Some(0))]), mesh("unused", vec![primitive(Some(1))])],
        materials: vec![blend, Material { alpha_mode: AlphaMode::Mask, ..opaque() }],
        textures: vec![],
        roots: vec![0],
    };
    assert_eq!(load_gltf_objects(&doc), Err(LoadError::NonOpaqueMaterial));
    doc.materials[0] = opaque();
    assert_eq!(load_gltf_objects(&doc).unwrap().len(), 1);
}

#[test]
fn a_cycle_is_refused() {
    let doc = document(
        vec![node(identity(), None, vec![1]), node(identity(), None, vec![0])],
        vec![mesh("m", vec![primitive(None)])],
    );
    assert!(doc.is_well_formed());
    assert_eq!(load_gltf_objects(&doc), Err(LoadError::CyclicHierarchy));
    let chain = document(
        vec![node(identity(), None, vec![1]), node(identity(), None, vec![2]), node(identity(), Some(0), vec![])],
        vec![mesh("m", vec![primitive(None)])],
    );
    assert_eq!(load_gltf_objects(&chain).unwrap().len(), 1);
}

#[test]
fn images_are_brought_to_rgba() {
    let rgb = image(PixelFormat::R8G8B8, 2, 1, vec![1, 2, 3, 4, 5, 6]);
    let out = gltf_to_rgba8unorm(&rgb).unwrap();
    assert_eq!((out.width, out.height), (2, 1));
    assert_eq!(out.pixels, vec![1, 2, 3, 255, 4, 5, 6, 255]);
    let rgba = image(PixelFormat::R8G8B8A8, 1, 2, vec![1, 2, 3, 4, 5, 6, 7, 8]);
    assert_eq!(gltf_to_rgba8unorm(&rgba).unwrap().pixels, vec![1, 2, 3, 4, 5, 6, 7, 8]);
    let long = image(PixelFormat::R8G8B8, 1, 1, vec![9, 8, 7, 6, 5]);
    assert_eq!(load_gltf_texture(&long).unwrap().pixels, vec![9, 8, 7, 255]);
    let texture = load_gltf_texture(&rgb).unwrap();
    assert_eq!(texture.label, None);
    assert_eq!(texture.bytes_per_row(), 8);
}

#[test]
fn other_pixel_formats_are_refused() {
    for format in [
        PixelFormat::R8,
        PixelFormat::R8G8,
        PixelFormat::R16,
        PixelFormat::R16G16,
        PixelFormat::R16G16B16,
        PixelFormat::R16G16B16A16,
        PixelFormat::R32G32B32FLOAT,
        PixelFormat::R32G32B32A32FLOAT,
    ] {
        assert_eq!(gltf_to_rgba8unorm(&image(format, 1, 1, vec![])), Err(LoadError::UnsupportedPixelFormat));
    }
    let doc = Document {
        nodes: vec![],
        meshes: vec![],
        materials: vec![],
        textures: vec![texture(1), TextureSource { sampler: sampler(), image: image(PixelFormat::R16, 1, 1, vec![0, 0]) }],
        roots: vec![],
    };
    assert_eq!(load_gltf_objects(&doc), Err(LoadError::UnsupportedPixelFormat));
}

#[test]
fn samplers_are_mapped() {
    assert_eq!(WrappingMode::ClampToEdge.to_address_mode(), AddressMode::ClampToEdge);
    assert_eq!(WrappingMode::MirroredRepeat.to_address_mode(), AddressMode::MirrorRepeat);
    assert_eq!(WrappingMode::Repeat.to_address_mode(), AddressMode::Repeat);
    assert_eq!(MagFilter::Nearest.to_filter_mode(), FilterMode::Nearest);
    assert_eq!(MagFilter::Linear.to_filter_mode(), FilterMode::Linear);
    assert_eq!(MinFilter::Nearest.to_filter_mode(), FilterMode::Nearest);
    assert_eq!(MinFilter::Linear.to_filter_mode(), FilterMode::Linear);
    assert_eq!(MinFilter::NearestMipmapNearest.to_filter_mode(), FilterMode::Nearest);
    assert_eq!(MinFilter::LinearMipmapNearest.to_filter_mode(), FilterMode::Linear);
    assert_eq!(MinFilter::NearestMipmapLinear.to_filter_mode(), FilterMode::Linear);
    assert_eq!(MinFilter::LinearMipmapLinear.to_filter_mode(), FilterMode::Linear);
    let d = Sampler {
        wrap_s: WrappingMode::ClampToEdge,
        wrap_t: WrappingMode::Repeat,
        mag_filter: Some(MagFilter::Nearest),
        min_filter: Some(MinFilter::NearestMipmapNearest),
    }
    .to_descriptor();
    assert_eq!(d.mag_filter, FilterMode::Nearest);
    assert_eq!(d.min_filter, FilterMode::Nearest);
    assert_eq!(d.mipmap_filter, FilterMode::Linear);
    assert_eq!(sampler().to_descriptor().mag_filter, FilterMode::Linear);
    assert_eq!(sampler().to_descriptor().min_filter, FilterMode::Linear);
}

#[test]
fn transforms_become_matrices() {
    assert_eq!(
        floats(&identity().to_matrix()),
        [1.0, 0.0, 0.0, 0.0, 0.0, 1.0, 0.0, 0.0, 0.0, 0.0, 1.0, 0.0, 0.0, 0.0, 0.0, 1.0]
    );
    let rows = Transform::Matrix {
        matrix: [[1, 2, 3, 4], [5, 6, 7, 8], [9, 10, 11, 12], [13, 14, 15, 16]],
    };
    assert_eq!(rows.to_matrix().cols, [1, 2, 3, 4, 5, 6, 7, 8, 9, 10, 11, 12, 13, 14, 15, 16]);
    // half a turn about z, scaled by (2, 3, 4), moved by (5, 6, 7)
    let turned = Transform::Decomposed {
        translation: [f(5.0), f(6.0), f(7.0)],
        rotation: [f(0.0), f(0.0), f(1.0), f(0.0)],
        scale: [f(2.0), f(3.0), f(4.0)],
    };
    assert_eq!(
        floats(&turned.to_matrix()),
        [-2.0, 0.0, 0.0, 0.0, 0.0, -3.0, 0.0, 0.0, 0.0, 0.0, 4.0, 0.0, 5.0, 6.0, 7.0, 1.0]
    );
}

#[test]
fn documents_with_dangling_references_are_not_well_formed() {
    let mut doc = document(vec![node(identity(), Some(0), vec![])], vec![mesh("m", vec![primitive(None)])]);
    assert!(doc.is_well_formed());
    doc.roots = vec![1];
    assert!(!doc.is_well_formed());
    doc.roots = vec![0];
    doc.nodes[0].children = vec![4];
    assert!(!doc.is_well_formed());
    doc.nodes[0].children = vec![];
    doc.nodes[0].mesh = Some(1);
    assert!(!doc.is_well_formed());
    doc.nodes[0].mesh = Some(0);
    doc.meshes[0].primitives[0].material = Some(0);
    assert!(!doc.is_well_formed());
    doc.materials = vec![Material { normal_texture: Some(0), ..opaque() }];
    assert!(!doc.is_well_formed());
    doc.textures = vec![TextureSource { sampler: sampler(), image: image(PixelFormat::R8G8B8, 2, 2, vec![0; 11]) }];
    assert!(!doc.is_well_formed());
    doc.textures[0].image.pixels = vec![0; 12];
    assert!(doc.is_well_formed());
}
