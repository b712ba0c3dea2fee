//! Descriptions of device resources and of the commands of a render pass.
//!
//! Nothing here touches a device. A `Buffer` says what a device buffer is to
//! hold, a `BindGroup` which resources go to which binding slot, a
//! `RenderCommand` what is recorded into a pass. The backend creates the real
//! objects from these values.

use vstd::prelude::*;
use vstd::string::*;

verus! {

/// What a buffer may be used for.
#[derive(Clone, Copy, Debug, PartialEq, Eq, Structural)]
pub struct BufferUsages {
    pub vertex: bool,
    pub index: bool,
    pub storage: bool,
    pub copy_dst: bool,
    pub map_read: bool,
}

impl BufferUsages {
    pub open spec fn spec_vertex() -> BufferUsages {
        BufferUsages { vertex: true, index: false, storage: false, copy_dst: false, map_read: false }
    }

    pub open spec fn spec_index_storage() -> BufferUsages {
        BufferUsages { vertex: false, index: true, storage: true, copy_dst: false, map_read: false }
    }

    pub open spec fn spec_storage() -> BufferUsages {
        BufferUsages { vertex: false, index: false, storage: true, copy_dst: false, map_read: false }
    }

    pub open spec fn spec_readback() -> BufferUsages {
        BufferUsages { vertex: false, index: false, storage: false, copy_dst: true, map_read: true }
    }

    /// A buffer read by the vertex stage as vertex input.
    #[verifier::when_used_as_spec(spec_vertex)]
    pub fn vertex() -> (u: BufferUsages)
        ensures
            u == Self::spec_vertex(),
    {
        BufferUsages { vertex: true, index: false, storage: false, copy_dst: false, map_read: false }
    }

    /// An index buffer that shaders may also read as storage.
    #[verifier::when_used_as_spec(spec_index_storage)]
    pub fn index_storage() -> (u: BufferUsages)
        ensures
            u == Self::spec_index_storage(),
    {
        BufferUsages { vertex: false, index: true, storage: true, copy_dst: false, map_read: false }
    }

    /// A storage buffer.
    #[verifier::when_used_as_spec(spec_storage)]
    pub fn storage() -> (u: BufferUsages)
        ensures
            u == Self::spec_storage(),
    {
        BufferUsages { vertex: false, index: false, storage: true, copy_dst: false, map_read: false }
    }

    /// A buffer that a copy writes and the host then maps for reading.
    #[verifier::when_used_as_spec(spec_readback)]
    pub fn readback() -> (u: BufferUsages)
        ensures
            u == Self::spec_readback(),
    {
        BufferUsages { vertex: false, index: false, storage: false, copy_dst: true, map_read: true }
    }
}

/// What one device buffer is to hold: a label, its contents as 32-bit words
/// in order, and its usage.
#[derive(Clone, Debug, PartialEq, Eq)]
pub struct Buffer {
    pub label: String,
    pub contents: Vec<u32>,
    pub usage: BufferUsages,
}

impl View for Buffer {
    type V = Seq<u32>;

    /// The words of the buffer.
    open spec fn view(&self) -> Seq<u32> {
        self.contents@
    }
}

impl Buffer {
    /// The size of the buffer in bytes.
    pub open spec fn size_in_bytes(&self) -> nat {
        4 * self.contents@.len()
    }

    /// How many elements of `words_per_element` words the buffer holds.
    pub open spec fn spec_element_count(&self, words_per_element: usize) -> int {
        self.contents@.len() as int / words_per_element as int
    }

    /// A buffer with the given label, contents and usage.
    pub fn new(label: String, contents: Vec<u32>, usage: BufferUsages) -> (b: Buffer)
        ensures
            b.label@ == label@,
            b@ == contents@,
            b.usage == usage,
    {
        Buffer { label, contents, usage }
    }

    /// How many elements of `words_per_element` words the buffer holds.
    pub fn element_count(&self, words_per_element: usize) -> (n: usize)
        requires
            words_per_element > 0,
        ensures
            n == self.spec_element_count(words_per_element),
    {
        self.contents.len() / words_per_element
    }
}

/// `prefix` followed by `suffix`.
pub fn label_with_suffix(prefix: &str, suffix: &str) -> (label: String)
    ensures
        label@ == prefix@ + suffix@,
{
    let mut label = String::from_str(prefix);
    label.append(suffix);
    label
}

/// The buffers that the bind groups and commands of this crate refer to,
/// each named by what it holds for its owner.
#[derive(Clone, Copy, Debug, PartialEq, Eq, Structural)]
pub enum BufferRole {
    Vertex,
    Index,
    Normal,
    Color,
    Uv,
    Tangent,
    Instances,
    MeshObjectUniform,
    TextureUniform,
    Lights,
    ViewUniform,
}

/// What is bound at one slot of a bind group.
#[derive(Clone, Copy, Debug, PartialEq, Eq, Structural)]
pub enum BindingResource {
    /// The whole of one of the owner's buffers.
    Buffer(BufferRole),
    /// A view of each of the owner's textures, in order.
    TextureViewArray { count: usize },
    /// The sampler of each of the owner's textures, in order.
    SamplerArray { count: usize },
}

/// One slot of a bind group.
#[derive(Clone, Copy, Debug, PartialEq, Eq, Structural)]
pub struct BindGroupEntry {
    pub binding: u32,
    pub resource: BindingResource,
}

/// A batch of resource bindings attached to a draw call at one set index.
#[derive(Clone, Debug, PartialEq, Eq)]
pub struct BindGroup {
    pub label: String,
    pub entries: Vec<BindGroupEntry>,
}

impl View for BindGroup {
    type V = Seq<BindGroupEntry>;

    /// The entries of the group, in order.
    open spec fn view(&self) -> Seq<BindGroupEntry> {
        self.entries@
    }
}

/// The shader stages that can see a binding.
#[derive(Clone, Copy, Debug, PartialEq, Eq, Structural)]
pub struct ShaderStages {
    pub vertex: bool,
    pub fragment: bool,
}

/// The kind of resource that a binding slot takes.
#[derive(Clone, Copy, Debug, PartialEq, Eq, Structural)]
pub enum BindingType {
    StorageBuffer { read_only: bool },
    /// A two-dimensional, single-sampled texture of floating-point samples.
    Texture { filterable: bool },
    /// A sampler that filters.
    FilteringSampler,
}

/// One slot of a bind group layout. `count` is 0 for a single resource and
/// the array length for an array of them.
#[derive(Clone, Copy, Debug, PartialEq, Eq, Structural)]
pub struct BindGroupLayoutEntry {
    pub binding: u32,
    pub visibility: ShaderStages,
    pub ty: BindingType,
    pub count: u32,
}

/// The layout of a bind group: its label and its slots.
#[derive(Clone, Debug, PartialEq, Eq)]
pub struct BindGroupLayoutDescriptor {
    pub label: &'static str,
    pub entries: Vec<BindGroupLayoutEntry>,
}

impl View for BindGroupLayoutDescriptor {
    type V = Seq<BindGroupLayoutEntry>;

    /// The slots of the layout, in order.
    open spec fn view(&self) -> Seq<BindGroupLayoutEntry> {
        self.entries@
    }
}

/// A read-only storage buffer slot, not an array.
pub open spec fn storage_slot(binding: u32, visibility: ShaderStages) -> BindGroupLayoutEntry {
    BindGroupLayoutEntry {
        binding,
        visibility,
        ty: BindingType::StorageBuffer { read_only: true },
        count: 0,
    }
}

/// A read-only storage buffer slot, not an array.
pub fn make_storage_slot(binding: u32, visibility: ShaderStages) -> (e: BindGroupLayoutEntry)
    ensures
        e == storage_slot(binding, visibility),
{
    BindGroupLayoutEntry {
        binding,
        visibility,
        ty: BindingType::StorageBuffer { read_only: true },
        count: 0,
    }
}

/// How one vertex attribute is read from a vertex buffer.
#[derive(Clone, Copy, Debug, PartialEq, Eq, Structural)]
pub struct VertexAttribute {
    /// Number of 32-bit floating-point components.
    pub components: u32,
    pub offset: u64,
    pub shader_location: u32,
}

/// The layout of a vertex buffer that is stepped once per vertex.
#[derive(Clone, Copy, Debug, PartialEq, Eq, Structural)]
pub struct VertexBufferLayout {
    pub array_stride: u64,
    pub attribute: VertexAttribute,
}

/// The bind groups that a draw uses, by the set index convention of the
/// shaders.
#[derive(Clone, Copy, Debug, PartialEq, Eq, Structural)]
pub enum BindGroupKind {
    View,
    Lights,
    MeshObject,
    Textures,
}

/// The width of the entries of an index buffer.
#[derive(Clone, Copy, Debug, PartialEq, Eq, Structural)]
pub enum IndexFormat {
    Uint16,
    Uint32,
}

/// One command recorded into a render pass. Buffers and bind groups are those
/// of the object that records the command.
#[derive(Clone, Copy, Debug, PartialEq, Eq, Structural)]
pub enum RenderCommand {
    /// Opens a debug group labelled with the name of the recording object.
    PushDebugGroup,
    PopDebugGroup,
    SetBindGroup { set: u32, group: BindGroupKind },
    /// Binds the whole of a buffer as vertex buffer `slot`.
    SetVertexBuffer { slot: u32, buffer: BufferRole },
    /// Binds the whole of a buffer as index buffer.
    SetIndexBuffer { buffer: BufferRole, format: IndexFormat },
    /// Draws indices `0..index_count` for instances `0..instance_count`.
    DrawIndexed { index_count: u32, base_vertex: i32, instance_count: u32 },
}

} // verus!
