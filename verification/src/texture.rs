//! Texture sets: an ordered list of sampled textures whose entry 0 is a
//! placeholder, and the uniform that tells the shader at which index the
//! texture of each role stands. Index 0 means that the role is absent.

use vstd::prelude::*;
use vstd::string::*;
use crate::gpu::{
    label_with_suffix, BindGroup, BindGroupEntry, BindGroupKind, BindGroupLayoutDescriptor,
    BindGroupLayoutEntry, BindingResource, BindingType, Buffer, BufferRole, BufferUsages,
    RenderCommand, ShaderStages,
};

verus! {

/// What a texture means to the shader. `Absent` is the role of a texture
/// that has none, such as the placeholder of a set.
#[derive(Clone, Copy, Debug, PartialEq, Eq, Hash, Default, Structural)]
pub enum TextureType {
    #[default]
    Absent,
    BaseColor,
    MetallicRoughness,
    Occlusion,
    Normal,
    Emissive,
}

/// For each role the index of its texture in the set; 0 if the set has none.
#[derive(Clone, Copy, Debug, PartialEq, Eq, Default, Structural)]
pub struct TextureUniform {
    pub base_color: u32,
    pub metallic_roughness: u32,
    pub occlusion: u32,
    pub normal: u32,
    pub emissive: u32,
}

/// The index that the last item of role `role` carries, cut to 32 bits; 0 if
/// no item has the role.
pub open spec fn last_index_of_role(items: Seq<(usize, TextureType)>, role: TextureType) -> u32
    decreases items.len(),
{
    if items.len() == 0 {
        0
    } else if items.last().1 == role {
        items.last().0 as u32
    } else {
        last_index_of_role(items.drop_last(), role)
    }
}

/// The uniform of a list of `(index, role)` items: for each role the index
/// of the last item that has it.
pub open spec fn uniform_of(items: Seq<(usize, TextureType)>) -> TextureUniform {
    TextureUniform {
        base_color: last_index_of_role(items, TextureType::BaseColor),
        metallic_roughness: last_index_of_role(items, TextureType::MetallicRoughness),
        occlusion: last_index_of_role(items, TextureType::Occlusion),
        normal: last_index_of_role(items, TextureType::Normal),
        emissive: last_index_of_role(items, TextureType::Emissive),
    }
}

impl TextureUniform {
    /// The index that the uniform gives for `role`; 0 for `Absent`.
    pub open spec fn index_of(&self, role: TextureType) -> u32 {
        match role {
            TextureType::Absent => 0,
            TextureType::BaseColor => self.base_color,
            TextureType::MetallicRoughness => self.metallic_roughness,
            TextureType::Occlusion => self.occlusion,
            TextureType::Normal => self.normal,
            TextureType::Emissive => self.emissive,
        }
    }

    /// The five words of the uniform, in the order of the shader's struct.
    pub open spec fn words(&self) -> Seq<u32> {
        seq![self.base_color, self.metallic_roughness, self.occlusion, self.normal, self.emissive]
    }

    /// Scans `(index, role)` items once. Each role gets the index of the
    /// last item that has it, and 0 if none has; items of role `Absent`
    /// count for nothing. Two items of one role are no error.
    pub fn create_from_iter(items: &[(usize, TextureType)]) -> (uniform: TextureUniform)
        ensures
            uniform == uniform_of(items@),
    {
        let mut base_color: u32 = 0;
        let mut metallic_roughness: u32 = 0;
        let mut occlusion: u32 = 0;
        let mut normal: u32 = 0;
        let mut emissive: u32 = 0;

        let mut i: usize = 0;
        while i < items.len()
            invariant
                i <= items.len(),
                (TextureUniform { base_color, metallic_roughness, occlusion, normal, emissive })
                    == uniform_of(items@.take(i as int)),
            decreases items.len() - i,
        {
            let (index, texture_type) = items[i];
            proof {
                let next = items@.take(i as int + 1);
                assert(next.drop_last() =~= items@.take(i as int));
                assert(next.last() == items@[i as int]);
            }
            let cut = #[verifier::truncate]
            (index as u32);
            match texture_type {
                TextureType::BaseColor => base_color = cut,
                TextureType::MetallicRoughness => metallic_roughness = cut,
                TextureType::Occlusion => occlusion = cut,
                TextureType::Normal => normal = cut,
                TextureType::Emissive => emissive = cut,
                TextureType::Absent => {},
            }
            i += 1;
        }
        assert(items@.take(items.len() as int) =~= items@);
        TextureUniform { base_color, metallic_roughness, occlusion, normal, emissive }
    }

    /// The words of the uniform as the device is to hold them.
    pub fn to_words(&self) -> (words: Vec<u32>)
        ensures
            words@ == self.words(),
    {
        let mut words: Vec<u32> = Vec::new();
        words.push(self.base_color);
        words.push(self.metallic_roughness);
        words.push(self.occlusion);
        words.push(self.normal);
        words.push(self.emissive);
        assert(words@ =~= self.words());
        words
    }
}

/// How texture coordinates outside `[0, 1]` are treated.
#[derive(Clone, Copy, Debug, PartialEq, Eq, Structural)]
pub enum AddressMode {
    ClampToEdge,
    Repeat,
    MirrorRepeat,
}

/// How a texture is sampled between texels.
#[derive(Clone, Copy, Debug, PartialEq, Eq, Structural)]
pub enum FilterMode {
    Nearest,
    Linear,
}

/// The settings of a sampler.
#[derive(Clone, Copy, Debug, PartialEq, Eq, Structural)]
pub struct SamplerDescriptor {
    pub address_mode_u: AddressMode,
    pub address_mode_v: AddressMode,
    pub address_mode_w: AddressMode,
    pub mag_filter: FilterMode,
    pub min_filter: FilterMode,
    pub mipmap_filter: FilterMode,
}

impl SamplerDescriptor {
    /// A sampler that clamps to the edge and filters linearly.
    pub open spec fn spec_clamp_linear() -> SamplerDescriptor {
        SamplerDescriptor {
            address_mode_u: AddressMode::ClampToEdge,
            address_mode_v: AddressMode::ClampToEdge,
            address_mode_w: AddressMode::ClampToEdge,
            mag_filter: FilterMode::Linear,
            min_filter: FilterMode::Linear,
            mipmap_filter: FilterMode::Linear,
        }
    }

    /// A sampler that clamps to the edge and filters linearly.
    #[verifier::when_used_as_spec(spec_clamp_linear)]
    pub fn clamp_linear() -> (s: SamplerDescriptor)
        ensures
            s == Self::spec_clamp_linear(),
    {
        SamplerDescriptor {
            address_mode_u: AddressMode::ClampToEdge,
            address_mode_v: AddressMode::ClampToEdge,
            address_mode_w: AddressMode::ClampToEdge,
            mag_filter: FilterMode::Linear,
            min_filter: FilterMode::Linear,
            mipmap_filter: FilterMode::Linear,
        }
    }
}

/// A two-dimensional texture of four 8-bit channels per texel, with one mip
/// level and one sample per texel. `pixels` holds the rows top to bottom,
/// four bytes per texel; an empty `pixels` means that nothing is written to
/// the texture after it is made.
#[derive(Clone, Debug, PartialEq, Eq)]
pub struct Texture {
    pub label: Option<String>,
    pub width: u32,
    pub height: u32,
    pub pixels: Vec<u8>,
}

impl Texture {
    /// That two textures are the same: label, size and pixels.
    pub open spec fn same_as(&self, other: &Texture) -> bool {
        &&& self.label is Some == other.label is Some
        &&& (self.label matches Some(a) ==> a@ == other.label->0@)
        &&& self.width == other.width
        &&& self.height == other.height
        &&& self.pixels@ == other.pixels@
    }

    /// A copy of the texture.
    pub fn duplicate(&self) -> (copy: Texture)
        ensures
            copy.same_as(self),
    {
        let label = match &self.label {
            Some(l) => Some(l.clone()),
            None => None,
        };
        let pixels = self.pixels.clone();
        assert(pixels@ =~= self.pixels@);
        Texture { label, width: self.width, height: self.height, pixels }
    }

    /// The placeholder texture of one texel, to which nothing is written.
    pub open spec fn is_placeholder(&self) -> bool {
        &&& self.label matches Some(l) && l@ == "dummy_0th_texture"@
        &&& self.width == 1
        &&& self.height == 1
        &&& self.pixels@.len() == 0
    }

    /// The bytes of one row of texels.
    pub fn bytes_per_row(&self) -> (n: u32)
        requires
            4 * self.width <= u32::MAX,
        ensures
            n == 4 * self.width,
    {
        4 * self.width
    }
}

/// A texture with its sampler and its role.
#[derive(Clone, Debug, PartialEq, Eq)]
pub struct SampledTexture {
    pub sampler: SamplerDescriptor,
    pub texture: Texture,
    pub texture_type: TextureType,
}

impl SampledTexture {
    /// That two sampled textures are the same.
    pub open spec fn same_as(&self, other: &SampledTexture) -> bool {
        &&& self.sampler == other.sampler
        &&& self.texture.same_as(&other.texture)
        &&& self.texture_type == other.texture_type
    }

    /// A copy.
    pub fn duplicate(&self) -> (copy: SampledTexture)
        ensures
            copy.same_as(self),
    {
        SampledTexture {
            sampler: self.sampler,
            texture: self.texture.duplicate(),
            texture_type: self.texture_type,
        }
    }

    /// A copy with the role replaced by `role`.
    pub fn with_role(&self, role: TextureType) -> (copy: SampledTexture)
        ensures
            copy.sampler == self.sampler,
            copy.texture.same_as(&self.texture),
            copy.texture_type == role,
    {
        SampledTexture { sampler: self.sampler, texture: self.texture.duplicate(), texture_type: role }
    }
}

/// The `(index, role)` items of a list of textures: each texture with its
/// position in the list.
pub open spec fn enumerated_roles(textures: Seq<SampledTexture>) -> Seq<(usize, TextureType)> {
    Seq::new(textures.len(), |i: int| (i as usize, textures[i].texture_type))
}

/// A texture set on the host.
#[derive(Clone, Debug, PartialEq, Eq)]
pub struct CpuTextureInfo {
    pub name: String,
    pub textures: Vec<SampledTexture>,
}

/// Binding slots of a texture set: it goes to set 3, with the texture views
/// at slot 0, the samplers at slot 1 and the role uniform at slot 2.
pub const TEXTURE_SET: u32 = 3;

pub const TEXTURE_BINDING_TEXTURE: u32 = 0;

pub const TEXTURE_BINDING_SAMPLER: u32 = 1;

pub const TEXTURE_BINDING_UNIFORM_META: u32 = 2;

/// The largest number of textures that the layout of a set has room for.
pub const TEXTURE_ARRAY_LENGTH: u32 = 512;

/// The entries of the bind group of a set of `count` textures.
pub open spec fn texture_bind_group_entries(count: usize) -> Seq<BindGroupEntry> {
    seq![
        BindGroupEntry {
            binding: TEXTURE_BINDING_TEXTURE,
            resource: BindingResource::TextureViewArray { count },
        },
        BindGroupEntry {
            binding: TEXTURE_BINDING_SAMPLER,
            resource: BindingResource::SamplerArray { count },
        },
        BindGroupEntry {
            binding: TEXTURE_BINDING_UNIFORM_META,
            resource: BindingResource::Buffer(BufferRole::TextureUniform),
        },
    ]
}

/// The slots of the bind group layout of every texture set.
pub open spec fn texture_layout_entries() -> Seq<BindGroupLayoutEntry> {
    let fragment = ShaderStages { vertex: false, fragment: true };
    seq![
        BindGroupLayoutEntry {
            binding: TEXTURE_BINDING_TEXTURE,
            visibility: fragment,
            ty: BindingType::Texture { filterable: true },
            count: TEXTURE_ARRAY_LENGTH,
        },
        BindGroupLayoutEntry {
            binding: TEXTURE_BINDING_SAMPLER,
            visibility: fragment,
            ty: BindingType::FilteringSampler,
            count: TEXTURE_ARRAY_LENGTH,
        },
        BindGroupLayoutEntry {
            binding: TEXTURE_BINDING_UNIFORM_META,
            visibility: fragment,
            ty: BindingType::StorageBuffer { read_only: true },
            count: 0,
        },
    ]
}

impl CpuTextureInfo {
    /// The invariant of a texture set: entry 0 is there and has no role.
    pub open spec fn well_formed(&self) -> bool {
        &&& 0 < self.textures@.len()
        &&& self.textures@[0].texture_type == TextureType::Absent
    }

    /// The role uniform of the set.
    pub open spec fn texture_uniform(&self) -> TextureUniform {
        uniform_of(enumerated_roles(self.textures@))
    }

    /// The set of the given textures, in order, behind a placeholder at
    /// index 0.
    pub fn new(name: &str, textures: &[SampledTexture]) -> (set: CpuTextureInfo)
        ensures
            set.well_formed(),
            set.name@ == name@,
            set.textures@.len() == textures@.len() + 1,
            set.textures@[0].texture.is_placeholder(),
            set.textures@[0].sampler == SamplerDescriptor::clamp_linear(),
            forall|i: int| 0 <= i < textures@.len() ==> (#[trigger] set.textures@[i + 1]).same_as(&textures@[i]),
    {
        let dummy = SampledTexture {
            sampler: SamplerDescriptor::clamp_linear(),
            texture: Texture {
                label: Some(String::from_str("dummy_0th_texture")),
                width: 1,
                height: 1,
                pixels: Vec::new(),
            },
            texture_type: TextureType::Absent,
        };
        let mut all: Vec<SampledTexture> = Vec::new();
        all.push(dummy);
        let mut i: usize = 0;
        while i < textures.len()
            invariant
                i <= textures.len(),
                all@.len() == i + 1,
                all@[0].texture.is_placeholder(),
                all@[0].sampler == SamplerDescriptor::clamp_linear(),
                all@[0].texture_type == TextureType::Absent,
                forall|k: int| 0 <= k < i ==> (#[trigger] all@[k + 1]).same_as(&textures@[k]),
            decreases textures.len() - i,
        {
            let copy = textures[i].duplicate();
            let ghost before = all@;
            all.push(copy);
            assert forall|k: int| 0 <= k < i + 1 implies (#[trigger] all@[k + 1]).same_as(
                &textures@[k],
            ) by {
                if k < i {
                    assert(all@[k + 1] == before[k + 1]);
                }
            }
            i += 1;
        }
        CpuTextureInfo { textures: all, name: String::from_str(name) }
    }

    /// The `(index, role)` item of every texture of the set.
    pub fn roles(&self) -> (items: Vec<(usize, TextureType)>)
        ensures
            items@ == enumerated_roles(self.textures@),
    {
        let mut items: Vec<(usize, TextureType)> = Vec::new();
        let mut i: usize = 0;
        while i < self.textures.len()
            invariant
                i <= self.textures.len(),
                items@ == enumerated_roles(self.textures@.take(i as int)),
            decreases self.textures.len() - i,
        {
            items.push((i, self.textures[i].texture_type));
            i += 1;
            assert(items@ =~= enumerated_roles(self.textures@.take(i as int)));
        }
        assert(self.textures@.take(self.textures.len() as int) =~= self.textures@);
        items
    }

    /// What the device is to hold for the set: a view and a sampler for each
    /// texture, and the role uniform in a storage buffer, all in one bind
    /// group. Everything is derived anew on each call.
    pub fn to_gpu(&self) -> (gpu: GpuTextureInfo)
        ensures
            gpu.mirrors(self),
    {
        let items = self.roles();
        let texture_uniform = TextureUniform::create_from_iter(items.as_slice());
        let texture_uniform_buffer = Buffer::new(
            label_with_suffix(self.name.as_str(), "_texture_uniform"),
            texture_uniform.to_words(),
            BufferUsages::storage(),
        );
        let count = self.textures.len();
        let mut entries: Vec<BindGroupEntry> = Vec::new();
        entries.push(
            BindGroupEntry {
                binding: TEXTURE_BINDING_TEXTURE,
                resource: BindingResource::TextureViewArray { count },
            },
        );
        entries.push(
            BindGroupEntry {
                binding: TEXTURE_BINDING_SAMPLER,
                resource: BindingResource::SamplerArray { count },
            },
        );
        entries.push(
            BindGroupEntry {
                binding: TEXTURE_BINDING_UNIFORM_META,
                resource: BindingResource::Buffer(BufferRole::TextureUniform),
            },
        );
        assert(entries@ =~= texture_bind_group_entries(count));
        GpuTextureInfo {
            bind_group: BindGroup { label: String::from_str(self.name.as_str()), entries },
            texture_uniform,
            texture_uniform_buffer,
        }
    }
}

/// A texture set as the device is to hold it.
#[derive(Clone, Debug, PartialEq, Eq)]
pub struct GpuTextureInfo {
    pub bind_group: BindGroup,
    /// The role uniform that the buffer holds.
    pub texture_uniform: TextureUniform,
    pub texture_uniform_buffer: Buffer,
}

impl GpuTextureInfo {
    /// That this is what the device holds for `set`.
    pub open spec fn mirrors(&self, set: &CpuTextureInfo) -> bool {
        &&& self.texture_uniform == set.texture_uniform()
        &&& self.texture_uniform_buffer@ == set.texture_uniform().words()
        &&& self.texture_uniform_buffer.label@ == set.name@ + "_texture_uniform"@
        &&& self.texture_uniform_buffer.usage == BufferUsages::storage()
        &&& self.bind_group.label@ == set.name@
        &&& self.bind_group@ == texture_bind_group_entries(set.textures@.len() as usize)
    }

    /// The layout of the bind group of a texture set.
    pub fn bind_group_layout() -> (layout: BindGroupLayoutDescriptor)
        ensures
            layout.label@ == "mesh_object_textured_layout"@,
            layout@ == texture_layout_entries(),
    {
        let fragment = ShaderStages { vertex: false, fragment: true };
        let mut entries: Vec<BindGroupLayoutEntry> = Vec::new();
        entries.push(
            BindGroupLayoutEntry {
                binding: TEXTURE_BINDING_TEXTURE,
                visibility: fragment,
                ty: BindingType::Texture { filterable: true },
                count: TEXTURE_ARRAY_LENGTH,
            },
        );
        entries.push(
            BindGroupLayoutEntry {
                binding: TEXTURE_BINDING_SAMPLER,
                visibility: fragment,
                ty: BindingType::FilteringSampler,
                count: TEXTURE_ARRAY_LENGTH,
            },
        );
        entries.push(
            BindGroupLayoutEntry {
                binding: TEXTURE_BINDING_UNIFORM_META,
                visibility: fragment,
                ty: BindingType::StorageBuffer { read_only: true },
                count: 0,
            },
        );
        assert(entries@ =~= texture_layout_entries());
        BindGroupLayoutDescriptor { label: "mesh_object_textured_layout", entries }
    }

    /// Records the binding of the set's bind group at its set index.
    pub fn add_commands(&self, render_pass: &mut Vec<RenderCommand>)
        ensures
            final(render_pass)@ == old(render_pass)@.push(
                RenderCommand::SetBindGroup { set: TEXTURE_SET, group: BindGroupKind::Textures },
            ),
    {
        render_pass.push(RenderCommand::SetBindGroup { set: TEXTURE_SET, group: BindGroupKind::Textures });
    }
}

/// Every texture set that `CpuTextureInfo::new` makes, and every set that
/// is well-formed, starts with a texture without role and is never empty.
pub proof fn lemma_placeholder_first(set: &CpuTextureInfo)
    requires
        set.well_formed(),
    ensures
        set.textures@.len() >= 1,
        set.textures@[0].texture_type == TextureType::Absent,
{
}

/// Over the first `n` textures of a list that fits 32-bit indices, the index
/// found for a role is 0, or that of a texture of this role.
pub proof fn lemma_last_index_has_role(textures: Seq<SampledTexture>, role: TextureType, n: int)
    requires
        0 <= n <= textures.len() <= u32::MAX,
    ensures
        ({
            let index = last_index_of_role(enumerated_roles(textures).take(n), role);
            index == 0 || (index < n && textures[index as int].texture_type == role)
        }),
    decreases n,
{
    let items = enumerated_roles(textures).take(n);
    if n > 0 {
        assert(items.drop_last() =~= enumerated_roles(textures).take(n - 1));
        assert(items.last() == ((n - 1) as usize, textures[n - 1].texture_type));
        lemma_last_index_has_role(textures, role, n - 1);
    }
}

/// The placeholder of a well-formed texture set has no role, and each index
/// of its role uniform is 0 or that of a texture of the role. The second
/// holds of a set whose indices fit the 32 bits of the uniform: beyond that
/// an index is cut and may land on another texture.
pub proof fn lemma_role_sentinel(set: &CpuTextureInfo, role: TextureType)
    requires
        set.well_formed(),
        set.textures@.len() <= u32::MAX,
    ensures
        set.textures@[0].texture_type == TextureType::Absent,
        ({
            let index = set.texture_uniform().index_of(role);
            index != 0 ==> index < set.textures@.len() && set.textures@[index as int].texture_type == role
        }),
{
    let items = enumerated_roles(set.textures@);
    assert(items.take(items.len() as int) =~= items);
    lemma_last_index_has_role(set.textures@, role, set.textures@.len() as int);
}

} // verus!
