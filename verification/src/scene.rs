//! A scene document: nodes with transforms and children, meshes with their
//! attribute streams, materials, textures and samplers, all as plain values.
//! Nodes, meshes, materials and textures refer to each other by index.

use vstd::prelude::*;
use crate::math::{
    cols_2d_words, mat4_product, rotation_translation_matrix, scale_words, values_of, Mat4, Quat,
    Vec2, Vec3,
};

verus! {

/// The local transform of a node: a matrix given column by column, or a
/// translation, a rotation quaternion and a scale.
#[derive(Clone, Copy, Debug, PartialEq, Eq)]
pub enum Transform {
    Matrix { matrix: [[u32; 4]; 4] },
    Decomposed { translation: [u32; 3], rotation: [u32; 4], scale: [u32; 3] },
}

impl Transform {
    /// The value of the matrix of the transform. A decomposed transform
    /// scales first, then rotates, then translates.
    pub open spec fn local_matrix(&self) -> Seq<u32> {
        match *self {
            Transform::Matrix { matrix } => values_of(cols_2d_words(matrix)),
            Transform::Decomposed { translation, rotation, scale } => mat4_product(
                rotation_translation_matrix(values_of(rotation@), values_of(translation@)),
                values_of(scale_words(scale[0], scale[1], scale[2])),
            ),
        }
    }

    /// The matrix of the transform.
    pub fn to_matrix(&self) -> (m: Mat4)
        ensures
            m@ == self.local_matrix(),
    {
        match self {
            Transform::Matrix { matrix } => Mat4::from_cols_array_2d(matrix),
            Transform::Decomposed { translation, rotation, scale } => {
                let q = Quat::new(rotation[0], rotation[1], rotation[2], rotation[3]);
                let t = Vec3::new(translation[0], translation[1], translation[2]);
                let s = Vec3::new(scale[0], scale[1], scale[2]);
                assert(q.words() =~= rotation@);
                assert(t.words() =~= translation@);
                let placed = Mat4::from_rotation_translation(q, t);
                let scaled = Mat4::from_scale(s);
                placed.mul_mat4(&scaled)
            },
        }
    }
}

/// A node of the hierarchy.
#[derive(Clone, Debug, PartialEq, Eq)]
pub struct Node {
    pub transform: Transform,
    /// The mesh that the node shows, if any.
    pub mesh: Option<usize>,
    /// The nodes below this one.
    pub children: Vec<usize>,
}

/// The indices of a primitive in the width in which the document stores them.
#[derive(Clone, Debug, PartialEq, Eq)]
pub enum IndexData {
    U8(Vec<u8>),
    U16(Vec<u16>),
    U32(Vec<u32>),
}

/// The vertex colors of a primitive in the form in which the document stores
/// them. Only the two forms of single-precision numbers carry data: the
/// others are not read.
#[derive(Clone, Debug, PartialEq, Eq)]
pub enum ColorData {
    RgbU8,
    RgbU16,
    RgbF32(Vec<Vec3>),
    RgbaU8,
    RgbaU16,
    RgbaF32(Vec<crate::math::Vec4>),
}

/// The streams of one primitive of a mesh.
#[derive(Clone, Debug, PartialEq, Eq)]
pub struct Primitive {
    pub positions: Option<Vec<Vec3>>,
    pub indices: Option<IndexData>,
    pub colors: Option<ColorData>,
    pub normals: Option<Vec<Vec3>>,
    pub tex_coords: Option<Vec<Vec2>>,
    /// The material of the primitive, if it has one.
    pub material: Option<usize>,
}

/// A mesh of the document.
#[derive(Clone, Debug, PartialEq, Eq)]
pub struct Mesh {
    pub name: Option<String>,
    pub primitives: Vec<Primitive>,
}

/// How the alpha of a material is used.
#[derive(Clone, Copy, Debug, PartialEq, Eq, Structural)]
pub enum AlphaMode {
    Opaque,
    Mask,
    Blend,
}

/// A material: its alpha mode and, for each role, the texture that has it.
#[derive(Clone, Copy, Debug, PartialEq, Eq)]
pub struct Material {
    pub alpha_mode: AlphaMode,
    pub emissive_texture: Option<usize>,
    pub base_color_texture: Option<usize>,
    pub metallic_roughness_texture: Option<usize>,
    pub normal_texture: Option<usize>,
    pub occlusion_texture: Option<usize>,
}

/// How a sampler of the document wraps texture coordinates.
#[derive(Clone, Copy, Debug, PartialEq, Eq, Structural)]
pub enum WrappingMode {
    ClampToEdge,
    MirroredRepeat,
    Repeat,
}

/// The magnification filter of a sampler of the document.
#[derive(Clone, Copy, Debug, PartialEq, Eq, Structural)]
pub enum MagFilter {
    Nearest,
    Linear,
}

/// The minification filter of a sampler of the document.
#[derive(Clone, Copy, Debug, PartialEq, Eq, Structural)]
pub enum MinFilter {
    Nearest,
    Linear,
    NearestMipmapNearest,
    LinearMipmapNearest,
    NearestMipmapLinear,
    LinearMipmapLinear,
}

/// A sampler of the document.
#[derive(Clone, Copy, Debug, PartialEq, Eq)]
pub struct Sampler {
    pub wrap_s: WrappingMode,
    pub wrap_t: WrappingMode,
    pub mag_filter: Option<MagFilter>,
    pub min_filter: Option<MinFilter>,
}

/// The channel layout of decoded image data.
#[derive(Clone, Copy, Debug, PartialEq, Eq, Structural)]
pub enum PixelFormat {
    R8,
    R8G8,
    R8G8B8,
    R8G8B8A8,
    R16,
    R16G16,
    R16G16B16,
    R16G16B16A16,
    R32G32B32FLOAT,
    R32G32B32A32FLOAT,
}

/// Decoded image data: rows top to bottom, texel after texel.
#[derive(Clone, Debug, PartialEq, Eq)]
pub struct ImageData {
    pub format: PixelFormat,
    pub width: u32,
    pub height: u32,
    pub pixels: Vec<u8>,
}

impl ImageData {
    /// That `pixels` holds every texel of an image of 8-bit RGB or RGBA.
    /// Nothing is asked of the other formats, which are not read.
    pub open spec fn pixels_sufficient(&self) -> bool {
        match self.format {
            PixelFormat::R8G8B8 => 3 * self.width * self.height <= self.pixels@.len(),
            PixelFormat::R8G8B8A8 => 4 * self.width * self.height <= self.pixels@.len(),
            _ => true,
        }
    }

    /// Whether `pixels` holds every texel, for the formats that are read.
    pub fn has_sufficient_pixels(&self) -> (ok: bool)
        ensures
            ok == self.pixels_sufficient(),
    {
        let channels: u128 = match self.format {
            PixelFormat::R8G8B8 => 3,
            PixelFormat::R8G8B8A8 => 4,
            _ => { return true; },
        };
        let width = self.width as u128;
        let height = self.height as u128;
        assert(width * height <= 0xffff_ffff * 0xffff_ffff) by (nonlinear_arith)
            requires
                0 <= width <= 0xffff_ffff,
                0 <= height <= 0xffff_ffff,
        ;
        assert(channels * width * height == channels * (width * height)) by (nonlinear_arith);
        channels * (width * height) <= self.pixels.len() as u128
    }
}

/// A texture of the document: an image and how it is sampled.
#[derive(Clone, Debug, PartialEq, Eq)]
pub struct TextureSource {
    pub sampler: Sampler,
    pub image: ImageData,
}

/// A scene document.
#[derive(Clone, Debug, PartialEq, Eq)]
pub struct Document {
    pub nodes: Vec<Node>,
    pub meshes: Vec<Mesh>,
    pub materials: Vec<Material>,
    pub textures: Vec<TextureSource>,
    /// The nodes at the top of the hierarchy.
    pub roots: Vec<usize>,
}

/// That an optional reference is below `bound`.
pub open spec fn reference_in_range(reference: Option<usize>, bound: nat) -> bool {
    reference matches Some(r) ==> r < bound
}

/// Whether an optional reference is below `bound`.
pub fn reference_ok(reference: Option<usize>, bound: usize) -> (ok: bool)
    ensures
        ok == reference_in_range(reference, bound as nat),
{
    match reference {
        Some(r) => r < bound,
        None => true,
    }
}

impl Node {
    /// That the mesh and the children of the node exist.
    pub open spec fn references_valid(&self, nodes: nat, meshes: nat) -> bool {
        &&& reference_in_range(self.mesh, meshes)
        &&& forall|j: int| 0 <= j < self.children@.len() ==> #[trigger] self.children@[j] < nodes
    }

    /// Whether the mesh and the children of the node exist.
    pub fn has_valid_references(&self, nodes: usize, meshes: usize) -> (ok: bool)
        ensures
            ok == self.references_valid(nodes as nat, meshes as nat),
    {
        if !reference_ok(self.mesh, meshes) {
            return false;
        }
        let mut j: usize = 0;
        while j < self.children.len()
            invariant
                j <= self.children.len(),
                forall|k: int| 0 <= k < j ==> #[trigger] self.children@[k] < nodes,
            decreases self.children.len() - j,
        {
            if self.children[j] >= nodes {
                return false;
            }
            j += 1;
        }
        true
    }
}

impl Mesh {
    /// That the materials of the primitives exist.
    pub open spec fn references_valid(&self, materials: nat) -> bool {
        forall|j: int|
            0 <= j < self.primitives@.len() ==> reference_in_range(
                (#[trigger] self.primitives@[j]).material,
                materials,
            )
    }

    /// Whether the materials of the primitives exist.
    pub fn has_valid_references(&self, materials: usize) -> (ok: bool)
        ensures
            ok == self.references_valid(materials as nat),
    {
        let mut j: usize = 0;
        while j < self.primitives.len()
            invariant
                j <= self.primitives.len(),
                forall|k: int|
                    0 <= k < j ==> reference_in_range(
                        (#[trigger] self.primitives@[k]).material,
                        materials as nat,
                    ),
            decreases self.primitives.len() - j,
        {
            if !reference_ok(self.primitives[j].material, materials) {
                return false;
            }
            j += 1;
        }
        true
    }
}

impl Material {
    /// That the textures of the material exist.
    pub open spec fn references_valid(&self, textures: nat) -> bool {
        &&& reference_in_range(self.emissive_texture, textures)
        &&& reference_in_range(self.base_color_texture, textures)
        &&& reference_in_range(self.metallic_roughness_texture, textures)
        &&& reference_in_range(self.normal_texture, textures)
        &&& reference_in_range(self.occlusion_texture, textures)
    }

    /// Whether the textures of the material exist.
    pub fn has_valid_references(&self, textures: usize) -> (ok: bool)
        ensures
            ok == self.references_valid(textures as nat),
    {
        reference_ok(self.emissive_texture, textures) && reference_ok(
            self.base_color_texture,
            textures,
        ) && reference_ok(self.metallic_roughness_texture, textures) && reference_ok(
            self.normal_texture,
            textures,
        ) && reference_ok(self.occlusion_texture, textures)
    }
}

impl Document {
    /// The invariant of a document: every reference names something that
    /// exists, and every image of a format that is read has all its texels.
    pub open spec fn well_formed(&self) -> bool {
        &&& forall|i: int| 0 <= i < self.roots@.len() ==> #[trigger] self.roots@[i] < self.nodes@.len()
        &&& forall|i: int|
            0 <= i < self.nodes@.len() ==> (#[trigger] self.nodes@[i]).references_valid(
                self.nodes@.len(),
                self.meshes@.len(),
            )
        &&& forall|i: int|
            0 <= i < self.meshes@.len() ==> (#[trigger] self.meshes@[i]).references_valid(
                self.materials@.len(),
            )
        &&& forall|i: int|
            0 <= i < self.materials@.len() ==> (#[trigger] self.materials@[i]).references_valid(
                self.textures@.len(),
            )
        &&& forall|i: int|
            0 <= i < self.textures@.len() ==> (#[trigger] self.textures@[i]).image.pixels_sufficient()
    }

    /// Whether the document satisfies its invariant.
    pub fn is_well_formed(&self) -> (ok: bool)
        ensures
            ok == self.well_formed(),
    {
        let nodes = self.nodes.len();
        let meshes = self.meshes.len();
        let materials = self.materials.len();
        let textures = self.textures.len();

        let mut i: usize = 0;
        while i < self.roots.len()
            invariant
                i <= self.roots.len(),
                nodes == self.nodes@.len(),
                forall|k: int| 0 <= k < i ==> #[trigger] self.roots@[k] < nodes,
            decreases self.roots.len() - i,
        {
            if self.roots[i] >= nodes {
                return false;
            }
            i += 1;
        }

        let mut i: usize = 0;
        while i < nodes
            invariant
                i <= nodes,
                nodes == self.nodes@.len(),
                meshes == self.meshes@.len(),
                forall|k: int|
                    0 <= k < i ==> (#[trigger] self.nodes@[k]).references_valid(nodes as nat, meshes as nat),
            decreases nodes - i,
        {
            if !self.nodes[i].has_valid_references(nodes, meshes) {
                return false;
            }
            i += 1;
        }

        let mut i: usize = 0;
        while i < meshes
            invariant
                i <= meshes,
                meshes == self.meshes@.len(),
                materials == self.materials@.len(),
                forall|k: int| 0 <= k < i ==> (#[trigger] self.meshes@[k]).references_valid(materials as nat),
            decreases meshes - i,
        {
            if !self.meshes[i].has_valid_references(materials) {
                return false;
            }
            i += 1;
        }

        let mut i: usize = 0;
        while i < materials
            invariant
                i <= materials,
                materials == self.materials@.len(),
                textures == self.textures@.len(),
                forall|k: int|
                    0 <= k < i ==> (#[trigger] self.materials@[k]).references_valid(textures as nat),
            decreases materials - i,
        {
            if !self.materials[i].has_valid_references(textures) {
                return false;
            }
            i += 1;
        }

        let mut i: usize = 0;
        while i < textures
            invariant
                i <= textures,
                textures == self.textures@.len(),
                forall|k: int| 0 <= k < i ==> (#[trigger] self.textures@[k]).image.pixels_sufficient(),
            decreases textures - i,
        {
            if !self.textures[i].image.has_sufficient_pixels() {
                return false;
            }
            i += 1;
        }
        true
    }
}

} // verus!
