//! From a scene document to the list of textured mesh objects that a frame
//! draws.
//!
//! This module holds the first two steps of loading: every mesh of the
//! document is decoded into a `CpuMesh`, and every texture is brought to
//! four 8-bit channels and given its sampler. The walk over the hierarchy
//! follows in `scene_loader`.

use vstd::prelude::*;
use vstd::string::*;
use crate::math::{Vec2, Vec3, Vec3A, Vec4, ONE_BITS};
use crate::mesh::CpuMesh;
use crate::scene::{
    ColorData, Document, ImageData, IndexData, MagFilter, Mesh, MinFilter, PixelFormat, Primitive,
    Sampler, TextureSource, WrappingMode,
};
use crate::texture::{
    AddressMode, FilterMode, SampledTexture, SamplerDescriptor, Texture, TextureType,
};

verus! {

/// Why a document could not be loaded.
#[derive(Clone, Copy, Debug, PartialEq, Eq, Structural)]
pub enum LoadError {
    /// A mesh has more than one primitive.
    MultiplePrimitives,
    /// The positions or the indices of a primitive are missing, or its
    /// streams do not make a well-formed mesh.
    InvalidGeometry,
    /// The vertex colors of a primitive are not single-precision numbers.
    UnsupportedColorFormat,
    /// An image is not 8-bit RGB or RGBA.
    UnsupportedPixelFormat,
    /// A material of a mesh that is shown is not opaque.
    NonOpaqueMaterial,
    /// A node shows a mesh that has no primitive.
    MeshNotFound,
    /// The hierarchy is deeper than the document has nodes, which only a
    /// hierarchy with a cycle is.
    CyclicHierarchy,
}

/// An image of four 8-bit channels per texel.
#[derive(Clone, Debug, PartialEq, Eq)]
pub struct RgbaImage {
    pub width: u32,
    pub height: u32,
    pub pixels: Vec<u8>,
}

/// The RGBA bytes of `texels` RGB texels: each texel followed by an alpha of
/// 255.
pub open spec fn rgb_to_rgba(pixels: Seq<u8>, texels: nat) -> Seq<u8> {
    Seq::new(
        4 * texels,
        |i: int|
            if i % 4 == 3 {
                255u8
            } else {
                pixels[3 * (i / 4) + i % 4]
            },
    )
}

/// Whether images of this format are read.
pub open spec fn format_supported(format: PixelFormat) -> bool {
    format == PixelFormat::R8G8B8 || format == PixelFormat::R8G8B8A8
}

/// The RGBA bytes of an image of a format that is read: an RGBA image is
/// taken as it is, an RGB image gets an alpha of 255.
pub open spec fn rgba_pixels(image: &ImageData) -> Seq<u8> {
    if image.format == PixelFormat::R8G8B8 {
        rgb_to_rgba(image.pixels@, (image.width * image.height) as nat)
    } else {
        image.pixels@
    }
}

/// Calls `image::ImageBuffer::from_raw` on the RGB bytes, then
/// `image::DynamicImage::to_rgba8`, and takes the bytes of the result. For
/// 8-bit RGB that conversion copies the three channels of each texel and
/// sets its alpha to 255. `from_raw` gives `None` where the bytes are fewer
/// than three per texel: `requires` leaves that out.
#[verifier::external_body]
fn image_rgb8_to_rgba8(width: u32, height: u32, pixels: Vec<u8>) -> (rgba: Vec<u8>)
    requires
        3 * width * height <= pixels@.len(),
    ensures
        rgba@ == rgb_to_rgba(pixels@, (width * height) as nat),
{
    let rgb = image::ImageBuffer::<image::Rgb<u8>, _>::from_raw(width, height, pixels).unwrap();
    image::DynamicImage::ImageRgb8(rgb).to_rgba8().into_raw()
}

/// Brings a decoded image to four 8-bit channels. Only 8-bit RGB and RGBA
/// are read; any other format is refused.
pub fn gltf_to_rgba8unorm(image: &ImageData) -> (result: Result<RgbaImage, LoadError>)
    requires
        image.pixels_sufficient(),
    ensures
        match result {
            Ok(rgba) => {
                &&& format_supported(image.format)
                &&& rgba.width == image.width
                &&& rgba.height == image.height
                &&& rgba.pixels@ == rgba_pixels(image)
            },
            Err(e) => !format_supported(image.format) && e == LoadError::UnsupportedPixelFormat,
        },
{
    match image.format {
        PixelFormat::R8G8B8 => {
            let pixels = image_rgb8_to_rgba8(image.width, image.height, image.pixels.clone());
            Ok(RgbaImage { width: image.width, height: image.height, pixels })
        },
        PixelFormat::R8G8B8A8 => {
            let pixels = image.pixels.clone();
            assert(pixels@ =~= image.pixels@);
            Ok(RgbaImage { width: image.width, height: image.height, pixels })
        },
        _ => Err(LoadError::UnsupportedPixelFormat),
    }
}

/// That `texture` is what is made of `image`: a texture of the size of the
/// image, without label, with its RGBA bytes.
pub open spec fn texture_of_image(texture: &Texture, image: &ImageData) -> bool {
    &&& texture.label is None
    &&& texture.width == image.width
    &&& texture.height == image.height
    &&& texture.pixels@ == rgba_pixels(image)
}

/// The texture that holds a decoded image, with one mip level.
pub fn load_gltf_texture(image: &ImageData) -> (result: Result<Texture, LoadError>)
    requires
        image.pixels_sufficient(),
    ensures
        match result {
            Ok(texture) => format_supported(image.format) && texture_of_image(&texture, image),
            Err(e) => !format_supported(image.format) && e == LoadError::UnsupportedPixelFormat,
        },
{
    match gltf_to_rgba8unorm(image) {
        Ok(rgba) => Ok(
            Texture { label: None, width: rgba.width, height: rgba.height, pixels: rgba.pixels },
        ),
        Err(e) => Err(e),
    }
}

impl WrappingMode {
    /// The address mode of a wrapping mode.
    pub open spec fn address_mode(self) -> AddressMode {
        match self {
            WrappingMode::ClampToEdge => AddressMode::ClampToEdge,
            WrappingMode::MirroredRepeat => AddressMode::MirrorRepeat,
            WrappingMode::Repeat => AddressMode::Repeat,
        }
    }

    /// The address mode of a wrapping mode.
    pub fn to_address_mode(&self) -> (mode: AddressMode)
        ensures
            mode == self.address_mode(),
    {
        match self {
            WrappingMode::ClampToEdge => AddressMode::ClampToEdge,
            WrappingMode::MirroredRepeat => AddressMode::MirrorRepeat,
            WrappingMode::Repeat => AddressMode::Repeat,
        }
    }
}

impl MagFilter {
    /// The filter mode of a magnification filter.
    pub open spec fn filter_mode(self) -> FilterMode {
        match self {
            MagFilter::Nearest => FilterMode::Nearest,
            MagFilter::Linear => FilterMode::Linear,
        }
    }

    /// The filter mode of a magnification filter.
    pub fn to_filter_mode(&self) -> (mode: FilterMode)
        ensures
            mode == self.filter_mode(),
    {
        match self {
            MagFilter::Nearest => FilterMode::Nearest,
            MagFilter::Linear => FilterMode::Linear,
        }
    }
}

impl MinFilter {
    /// The filter mode of a minification filter. A filter that takes the
    /// nearest texel of the nearest mip level is nearest, as the plain
    /// nearest filter is; every other filter is linear.
    pub open spec fn filter_mode(self) -> FilterMode {
        match self {
            MinFilter::Nearest => FilterMode::Nearest,
            MinFilter::Linear => FilterMode::Linear,
            MinFilter::NearestMipmapNearest => FilterMode::Nearest,
            MinFilter::LinearMipmapNearest => FilterMode::Linear,
            MinFilter::NearestMipmapLinear => FilterMode::Linear,
            MinFilter::LinearMipmapLinear => FilterMode::Linear,
        }
    }

    /// The filter mode of a minification filter.
    pub fn to_filter_mode(&self) -> (mode: FilterMode)
        ensures
            mode == self.filter_mode(),
    {
        match self {
            MinFilter::Nearest => FilterMode::Nearest,
            MinFilter::Linear => FilterMode::Linear,
            MinFilter::NearestMipmapNearest => FilterMode::Nearest,
            MinFilter::LinearMipmapNearest => FilterMode::Linear,
            MinFilter::NearestMipmapLinear => FilterMode::Linear,
            MinFilter::LinearMipmapLinear => FilterMode::Linear,
        }
    }
}

impl Sampler {
    /// The sampler settings of a sampler of the document. The third
    /// coordinate wraps as the second does; a filter that the document does
    /// not give is linear; between mip levels the sampler filters linearly.
    pub open spec fn descriptor(&self) -> SamplerDescriptor {
        SamplerDescriptor {
            address_mode_u: self.wrap_s.address_mode(),
            address_mode_v: self.wrap_t.address_mode(),
            address_mode_w: self.wrap_t.address_mode(),
            mag_filter: match self.mag_filter {
                Some(f) => f.filter_mode(),
                None => FilterMode::Linear,
            },
            min_filter: match self.min_filter {
                Some(f) => f.filter_mode(),
                None => FilterMode::Linear,
            },
            mipmap_filter: FilterMode::Linear,
        }
    }

    /// The sampler settings of a sampler of the document.
    pub fn to_descriptor(&self) -> (d: SamplerDescriptor)
        ensures
            d == self.descriptor(),
    {
        SamplerDescriptor {
            address_mode_u: self.wrap_s.to_address_mode(),
            address_mode_v: self.wrap_t.to_address_mode(),
            address_mode_w: self.wrap_t.to_address_mode(),
            mag_filter: match &self.mag_filter {
                Some(f) => f.to_filter_mode(),
                None => FilterMode::Linear,
            },
            min_filter: match &self.min_filter {
                Some(f) => f.to_filter_mode(),
                None => FilterMode::Linear,
            },
            mipmap_filter: FilterMode::Linear,
        }
    }
}

/// That `loaded` is what is made of a texture of the document: its image as
/// a texture, its sampler, and no role yet.
pub open spec fn texture_loaded(loaded: &SampledTexture, source: &TextureSource) -> bool {
    &&& texture_of_image(&loaded.texture, &source.image)
    &&& loaded.sampler == source.sampler.descriptor()
    &&& loaded.texture_type == TextureType::Absent
}

/// The error of the first of the first `n` textures whose image is of a
/// format that is not read.
pub open spec fn first_texture_error(textures: Seq<TextureSource>, n: int) -> Option<LoadError>
    decreases n,
{
    if n <= 0 {
        None
    } else if first_texture_error(textures, n - 1) is Some {
        first_texture_error(textures, n - 1)
    } else if !format_supported(textures[n - 1].image.format) {
        Some(LoadError::UnsupportedPixelFormat)
    } else {
        None
    }
}

/// That `loaded` holds what is made of each of the first `n` textures.
pub open spec fn textures_loaded(textures: Seq<TextureSource>, loaded: Seq<SampledTexture>, n: int) -> bool {
    &&& loaded.len() == n
    &&& forall|i: int| 0 <= i < n ==> texture_loaded(#[trigger] &loaded[i], &textures[i])
}

/// Loads every texture of the document, in order. The first image of a
/// format that is not read ends loading.
pub fn load_textures(document: &Document) -> (result: Result<Vec<SampledTexture>, LoadError>)
    requires
        document.well_formed(),
    ensures
        match result {
            Ok(loaded) => {
                &&& first_texture_error(document.textures@, document.textures@.len() as int) is None
                &&& textures_loaded(document.textures@, loaded@, document.textures@.len() as int)
            },
            Err(e) => first_texture_error(document.textures@, document.textures@.len() as int) == Some(e),
        },
{
    let mut loaded: Vec<SampledTexture> = Vec::new();
    let mut i: usize = 0;
    while i < document.textures.len()
        invariant
            i <= document.textures.len(),
            document.well_formed(),
            first_texture_error(document.textures@, i as int) is None,
            textures_loaded(document.textures@, loaded@, i as int),
        decreases document.textures.len() - i,
    {
        let source = &document.textures[i];
        match load_gltf_texture(&source.image) {
            Ok(texture) => {
                loaded.push(
                    SampledTexture {
                        sampler: source.sampler.to_descriptor(),
                        texture,
                        texture_type: TextureType::Absent,
                    },
                );
            },
            Err(e) => {
                proof {
                    lemma_texture_error_stays(
                        document.textures@,
                        i as int + 1,
                        document.textures@.len() as int,
                    );
                }
                return Err(e);
            },
        }
        i += 1;
    }
    Ok(loaded)
}

/// Once an error is found among the first `n` textures, it is the error of
/// every longer prefix.
pub proof fn lemma_texture_error_stays(textures: Seq<TextureSource>, n: int, m: int)
    requires
        n <= m,
        first_texture_error(textures, n) is Some,
    ensures
        first_texture_error(textures, m) == first_texture_error(textures, n),
    decreases m - n,
{
    if n < m {
        lemma_texture_error_stays(textures, n, m - 1);
    }
}

/// The indices of a primitive as 32-bit indices.
pub open spec fn widened(indices: IndexData) -> Seq<u32> {
    match indices {
        IndexData::U8(v) => Seq::new(v@.len(), |i: int| v@[i] as u32),
        IndexData::U16(v) => Seq::new(v@.len(), |i: int| v@[i] as u32),
        IndexData::U32(v) => v@,
    }
}

/// Whether vertex colors of this form are read: colors of single-precision
/// numbers are, with or without alpha.
pub open spec fn color_supported(colors: Option<ColorData>) -> bool {
    match colors {
        None => true,
        Some(ColorData::RgbF32(_)) => true,
        Some(ColorData::RgbaF32(_)) => true,
        Some(_) => false,
    }
}

/// The RGBA colors of a color stream that is read: a color without alpha
/// gets an alpha of `1.0`.
pub open spec fn decoded_colors(colors: ColorData) -> Seq<Vec4> {
    match colors {
        ColorData::RgbF32(v) => Seq::new(
            v@.len(),
            |i: int| Vec4 { x: v@[i].x, y: v@[i].y, z: v@[i].z, w: ONE_BITS },
        ),
        ColorData::RgbaF32(v) => v@,
        _ => Seq::empty(),
    }
}

/// The normals of a normal stream in the layout of a mesh.
pub open spec fn decoded_normals(normals: Seq<Vec3>) -> Seq<Vec3A> {
    Seq::new(normals.len(), |i: int| Vec3A { x: normals[i].x, y: normals[i].y, z: normals[i].z })
}

/// That `mesh` is the mesh of the streams of `primitive` under the name
/// `name`: positions and texture coordinates as they are, indices widened to
/// 32 bits, colors with alpha, normals in the layout of a mesh, no tangents.
pub open spec fn decoded_from(mesh: &CpuMesh, primitive: &Primitive, name: &Option<String>) -> bool {
    &&& primitive.positions matches Some(p) && mesh.position@ == p@
    &&& primitive.indices matches Some(i) && mesh.index@ == widened(i)
    &&& mesh.color is Some == primitive.colors is Some
    &&& (mesh.color matches Some(c) ==> c@ == decoded_colors(primitive.colors->0))
    &&& mesh.normal is Some == primitive.normals is Some
    &&& (mesh.normal matches Some(n) ==> n@ == decoded_normals(primitive.normals->0@))
    &&& mesh.uv is Some == primitive.tex_coords is Some
    &&& (mesh.uv matches Some(u) ==> u@ == primitive.tex_coords->0@)
    &&& mesh.name is Some == name is Some
    &&& (mesh.name matches Some(n) ==> n@ == name->0@)
    &&& mesh.tangents is None
}

/// That the streams of a primitive make a well-formed mesh that a draw can
/// index: there is a vertex, the indices come in threes, are no more than
/// 32 bits count, and each names a vertex, and every attribute has one
/// element per vertex.
pub open spec fn streams_consistent(primitive: &Primitive) -> bool {
    &&& primitive.positions matches Some(p)
    &&& primitive.indices matches Some(ix)
    &&& p@.len() > 0
    &&& widened(ix).len() % 3 == 0
    &&& widened(ix).len() <= u32::MAX
    &&& forall|i: int| 0 <= i < widened(ix).len() ==> (#[trigger] widened(ix)[i] as int) < p@.len()
    &&& (primitive.colors matches Some(c) ==> decoded_colors(c).len() == p@.len())
    &&& (primitive.normals matches Some(n) ==> n@.len() == p@.len())
    &&& (primitive.tex_coords matches Some(t) ==> t@.len() == p@.len())
}

/// Why a primitive cannot be decoded, if it cannot.
pub open spec fn primitive_error(primitive: &Primitive) -> Option<LoadError> {
    if primitive.positions is None || primitive.indices is None {
        Some(LoadError::InvalidGeometry)
    } else if !color_supported(primitive.colors) {
        Some(LoadError::UnsupportedColorFormat)
    } else if !streams_consistent(primitive) {
        Some(LoadError::InvalidGeometry)
    } else {
        None
    }
}

/// Widens the indices of a primitive to 32 bits.
pub fn widen_indices(indices: &IndexData) -> (index: Vec<u32>)
    ensures
        index@ == widened(*indices),
{
    let mut index: Vec<u32> = Vec::new();
    match indices {
        IndexData::U8(v) => {
            let mut i: usize = 0;
            while i < v.len()
                invariant
                    i <= v.len(),
                    index@ == Seq::new(i as nat, |k: int| v@[k] as u32),
                decreases v.len() - i,
            {
                index.push(v[i] as u32);
                i += 1;
                assert(index@ =~= Seq::new(i as nat, |k: int| v@[k] as u32));
            }
        },
        IndexData::U16(v) => {
            let mut i: usize = 0;
            while i < v.len()
                invariant
                    i <= v.len(),
                    index@ == Seq::new(i as nat, |k: int| v@[k] as u32),
                decreases v.len() - i,
            {
                index.push(v[i] as u32);
                i += 1;
                assert(index@ =~= Seq::new(i as nat, |k: int| v@[k] as u32));
            }
        },
        IndexData::U32(v) => {
            let mut i: usize = 0;
            while i < v.len()
                invariant
                    i <= v.len(),
                    index@ == v@.take(i as int),
                decreases v.len() - i,
            {
                index.push(v[i]);
                i += 1;
                assert(index@ =~= v@.take(i as int));
            }
            assert(v@.take(v.len() as int) =~= v@);
        },
    }
    index
}

/// The colors of a color stream that is read, with alpha.
fn decode_colors(colors: &ColorData) -> (decoded: Vec<Vec4>)
    requires
        color_supported(Some(*colors)),
    ensures
        decoded@ == decoded_colors(*colors),
{
    let mut decoded: Vec<Vec4> = Vec::new();
    match colors {
        ColorData::RgbF32(v) => {
            let mut i: usize = 0;
            while i < v.len()
                invariant
                    i <= v.len(),
                    decoded@ == Seq::new(
                        i as nat,
                        |k: int| Vec4 { x: v@[k].x, y: v@[k].y, z: v@[k].z, w: ONE_BITS },
                    ),
                decreases v.len() - i,
            {
                let c = v[i];
                decoded.push(Vec4 { x: c.x, y: c.y, z: c.z, w: ONE_BITS });
                i += 1;
                assert(decoded@ =~= Seq::new(
                    i as nat,
                    |k: int| Vec4 { x: v@[k].x, y: v@[k].y, z: v@[k].z, w: ONE_BITS },
                ));
            }
        },
        ColorData::RgbaF32(v) => {
            let mut i: usize = 0;
            while i < v.len()
                invariant
                    i <= v.len(),
                    decoded@ == v@.take(i as int),
                decreases v.len() - i,
            {
                decoded.push(v[i]);
                i += 1;
                assert(decoded@ =~= v@.take(i as int));
            }
            assert(v@.take(v.len() as int) =~= v@);
        },
        _ => {},
    }
    decoded
}

/// The normals of a normal stream in the layout of a mesh.
fn decode_normals(normals: &Vec<Vec3>) -> (decoded: Vec<Vec3A>)
    ensures
        decoded@ == decoded_normals(normals@),
{
    let mut decoded: Vec<Vec3A> = Vec::new();
    let mut i: usize = 0;
    while i < normals.len()
        invariant
            i <= normals.len(),
            decoded@ == decoded_normals(normals@.take(i as int)),
        decreases normals.len() - i,
    {
        decoded.push(normals[i].to_vec3a());
        i += 1;
        assert(decoded@ =~= decoded_normals(normals@.take(i as int)));
    }
    assert(normals@.take(normals.len() as int) =~= normals@);
    decoded
}

/// A copy of a list of positions.
fn copy_vec3(values: &Vec<Vec3>) -> (copy: Vec<Vec3>)
    ensures
        copy@ == values@,
{
    let mut copy: Vec<Vec3> = Vec::new();
    let mut i: usize = 0;
    while i < values.len()
        invariant
            i <= values.len(),
            copy@ == values@.take(i as int),
        decreases values.len() - i,
    {
        copy.push(values[i]);
        i += 1;
        assert(copy@ =~= values@.take(i as int));
    }
    assert(values@.take(values.len() as int) =~= values@);
    copy
}

/// A copy of a list of texture coordinates.
fn copy_vec2(values: &Vec<Vec2>) -> (copy: Vec<Vec2>)
    ensures
        copy@ == values@,
{
    let mut copy: Vec<Vec2> = Vec::new();
    let mut i: usize = 0;
    while i < values.len()
        invariant
            i <= values.len(),
            copy@ == values@.take(i as int),
        decreases values.len() - i,
    {
        copy.push(values[i]);
        i += 1;
        assert(copy@ =~= values@.take(i as int));
    }
    assert(values@.take(values.len() as int) =~= values@);
    copy
}

/// Decodes the streams of one primitive into a mesh named `name`. Positions
/// and indices are required; colors, normals and texture coordinates are
/// taken if they are there. A primitive whose streams do not make a
/// well-formed mesh is refused.
pub fn decode_primitive(primitive: &Primitive, name: &Option<String>) -> (result: Result<
    CpuMesh,
    LoadError,
>)
    ensures
        match result {
            Ok(mesh) => {
                &&& primitive_error(primitive) is None
                &&& decoded_from(&mesh, primitive, name)
                &&& mesh.well_formed()
                &&& mesh.index@.len() <= u32::MAX
            },
            Err(e) => primitive_error(primitive) == Some(e),
        },
{
    let position = match &primitive.positions {
        Some(p) => copy_vec3(p),
        None => { return Err(LoadError::InvalidGeometry); },
    };
    let index = match &primitive.indices {
        Some(i) => widen_indices(i),
        None => { return Err(LoadError::InvalidGeometry); },
    };
    let color = match &primitive.colors {
        None => None,
        Some(c) => match c {
            ColorData::RgbF32(_) => Some(decode_colors(c)),
            ColorData::RgbaF32(_) => Some(decode_colors(c)),
            _ => { return Err(LoadError::UnsupportedColorFormat); },
        },
    };
    let normal = match &primitive.normals {
        Some(n) => Some(decode_normals(n)),
        None => None,
    };
    let uv = match &primitive.tex_coords {
        Some(t) => Some(copy_vec2(t)),
        None => None,
    };
    let mesh_name = match name {
        Some(n) => Some(n.clone()),
        None => None,
    };
    let mut this_mesh = CpuMesh::new(position, index);
    this_mesh.color = color;
    this_mesh.normal = normal;
    this_mesh.uv = uv;
    this_mesh.name = mesh_name;
    if this_mesh.index.len() > u32::MAX as usize || !this_mesh.is_well_formed() {
        return Err(LoadError::InvalidGeometry);
    }
    Ok(this_mesh)
}

/// Why a mesh cannot be decoded, if it cannot. A mesh without primitives is
/// no error: there is nothing to decode.
pub open spec fn mesh_error(mesh: &Mesh) -> Option<LoadError> {
    if mesh.primitives@.len() > 1 {
        Some(LoadError::MultiplePrimitives)
    } else if mesh.primitives@.len() == 0 {
        None
    } else {
        primitive_error(&mesh.primitives@[0])
    }
}

/// The error of the first of the first `n` meshes that cannot be decoded.
pub open spec fn first_mesh_error(meshes: Seq<Mesh>, n: int) -> Option<LoadError>
    decreases n,
{
    if n <= 0 {
        None
    } else if first_mesh_error(meshes, n - 1) is Some {
        first_mesh_error(meshes, n - 1)
    } else {
        mesh_error(&meshes[n - 1])
    }
}

/// Those of the first `n` meshes that have a primitive, by index, in order.
pub open spec fn meshes_with_primitive(meshes: Seq<Mesh>, n: int) -> Seq<int>
    decreases n,
{
    if n <= 0 {
        Seq::empty()
    } else if meshes[n - 1].primitives@.len() > 0 {
        meshes_with_primitive(meshes, n - 1).push(n - 1)
    } else {
        meshes_with_primitive(meshes, n - 1)
    }
}

/// That `decoded` holds, for each of the first `n` meshes that has a
/// primitive, its index and the mesh decoded from its one primitive.
pub open spec fn meshes_decoded(meshes: Seq<Mesh>, decoded: Seq<(usize, CpuMesh)>, n: int) -> bool {
    let expected = meshes_with_primitive(meshes, n);
    &&& decoded.len() == expected.len()
    &&& forall|k: int|
        0 <= k < decoded.len() ==> {
            let (index, mesh) = #[trigger] decoded[k];
            &&& index == expected[k]
            &&& 0 <= index < n
            &&& meshes[index as int].primitives@.len() == 1
            &&& decoded_from(&mesh, &meshes[index as int].primitives@[0], &meshes[index as int].name)
            &&& mesh.well_formed()
            &&& mesh.index@.len() <= u32::MAX
        }
}

/// Once an error is found among the first `n` meshes, it is the error of
/// every longer prefix.
pub proof fn lemma_mesh_error_stays(meshes: Seq<Mesh>, n: int, m: int)
    requires
        n <= m,
        first_mesh_error(meshes, n) is Some,
    ensures
        first_mesh_error(meshes, m) == first_mesh_error(meshes, n),
    decreases m - n,
{
    if n < m {
        lemma_mesh_error_stays(meshes, n, m - 1);
    }
}

/// Decodes every mesh of the document that has a primitive, in order, each
/// with its index in the document. A mesh with more than one primitive, or
/// one whose primitive cannot be decoded, ends loading.
pub fn load_gltf_meshes(document: &Document) -> (result: Result<Vec<(usize, CpuMesh)>, LoadError>)
    ensures
        match result {
            Ok(decoded) => {
                &&& first_mesh_error(document.meshes@, document.meshes@.len() as int) is None
                &&& meshes_decoded(document.meshes@, decoded@, document.meshes@.len() as int)
            },
            Err(e) => first_mesh_error(document.meshes@, document.meshes@.len() as int) == Some(e),
        },
{
    let mut result: Vec<(usize, CpuMesh)> = Vec::new();
    let mut i: usize = 0;
    while i < document.meshes.len()
        invariant
            i <= document.meshes.len(),
            first_mesh_error(document.meshes@, i as int) is None,
            meshes_decoded(document.meshes@, result@, i as int),
        decreases document.meshes.len() - i,
    {
        let mesh = &document.meshes[i];
        if mesh.primitives.len() > 1 {
            proof {
                lemma_mesh_error_stays(document.meshes@, i as int + 1, document.meshes@.len() as int);
            }
            return Err(LoadError::MultiplePrimitives);
        }
        if mesh.primitives.len() == 1 {
            match decode_primitive(&mesh.primitives[0], &mesh.name) {
                Ok(this_mesh) => {
                    let ghost before = result@;
                    result.push((i, this_mesh));
                    proof {
                        let expected = meshes_with_primitive(document.meshes@, i as int + 1);
                        assert forall|k: int| 0 <= k < result@.len() implies ({
                            let (index, mesh) = #[trigger] result@[k];
                            &&& index == expected[k]
                            &&& 0 <= index < i + 1
                            &&& document.meshes@[index as int].primitives@.len() == 1
                            &&& decoded_from(
                                &mesh,
                                &document.meshes@[index as int].primitives@[0],
                                &document.meshes@[index as int].name,
                            )
                            &&& mesh.well_formed()
                            &&& mesh.index@.len() <= u32::MAX
                        }) by {
                            if k < before.len() {
                                assert(result@[k] == before[k]);
                            }
                        }
                    }
                },
                Err(e) => {
                    proof {
                        lemma_mesh_error_stays(
                            document.meshes@,
                            i as int + 1,
                            document.meshes@.len() as int,
                        );
                    }
                    return Err(e);
                },
            }
        }
        i += 1;
    }
    Ok(result)
}

/// The mesh at place `desired_index` of those that `load_gltf_meshes`
/// decodes.
pub fn load_gltf(document: &Document, desired_index: usize) -> (result: Result<CpuMesh, LoadError>)
    requires
        first_mesh_error(document.meshes@, document.meshes@.len() as int) is None ==> desired_index
            < meshes_with_primitive(document.meshes@, document.meshes@.len() as int).len(),
    ensures
        match result {
            Ok(mesh) => {
                let n = document.meshes@.len() as int;
                let index = meshes_with_primitive(document.meshes@, n)[desired_index as int];
                &&& first_mesh_error(document.meshes@, n) is None
                &&& 0 <= index < n
                &&& document.meshes@[index].primitives@.len() == 1
                &&& decoded_from(&mesh, &document.meshes@[index].primitives@[0], &document.meshes@[index].name)
                &&& mesh.well_formed()
            },
            Err(e) => first_mesh_error(document.meshes@, document.meshes@.len() as int) == Some(e),
        },
{
    match load_gltf_meshes(document) {
        Ok(mut decoded) => {
            let ghost all = decoded@;
            assert(all[desired_index as int].0 == meshes_with_primitive(
                document.meshes@,
                document.meshes@.len() as int,
            )[desired_index as int]);
            let (_, mesh) = decoded.swap_remove(desired_index);
            Ok(mesh)
        },
        Err(e) => Err(e),
    }
}

} // verus!
