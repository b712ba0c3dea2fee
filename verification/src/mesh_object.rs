//! A mesh with the list of transforms at which it is drawn.
//!
//! The list of instances lives on the host. The instance buffer mirrors it
//! only after `replace_gpu_data`: between a change of the list and that call
//! the two may differ, and a draw would use what the buffer holds.

use vstd::prelude::*;
use vstd::string::*;
use crate::gpu::{
    label_with_suffix, make_storage_slot, storage_slot, BindGroup, BindGroupEntry, BindGroupKind,
    BindGroupLayoutDescriptor, BindGroupLayoutEntry, BindingResource, Buffer, BufferRole,
    BufferUsages, IndexFormat, RenderCommand, ShaderStages, VertexBufferLayout,
};
use crate::math::Mat4;
use crate::mesh::{make_zero_words, zero_words, GpuMesh};

verus! {

/// Words of one instance transform.
pub const WORDS_PER_INSTANCE: usize = 16;

/// The words of a list of matrices, matrix after matrix.
pub open spec fn mat4_words(s: Seq<Mat4>) -> Seq<u32> {
    Seq::new(16 * s.len(), |i: int| s[i / 16].words()[i % 16])
}

/// Lays a list of matrices out as words.
pub fn pack_mat4(values: &Vec<Mat4>) -> (words: Vec<u32>)
    ensures
        words@ == mat4_words(values@),
{
    let mut words: Vec<u32> = Vec::new();
    let mut i: usize = 0;
    while i < values.len()
        invariant
            i <= values.len(),
            words@ == mat4_words(values@.take(i as int)),
        decreases values.len() - i,
    {
        let m = values[i];
        let mut k: usize = 0;
        while k < 16
            invariant
                k <= 16,
                i < values.len(),
                m == values@[i as int],
                words@ == mat4_words(values@.take(i as int)) + m.words().take(k as int),
            decreases 16 - k,
        {
            words.push(m.cols[k]);
            k += 1;
            assert(words@ =~= mat4_words(values@.take(i as int)) + m.words().take(k as int));
        }
        i += 1;
        assert(words@ =~= mat4_words(values@.take(i as int)));
    }
    assert(values@.take(values.len() as int) =~= values@);
    words
}

/// Reads a buffer of whole matrices back as a list: the one list whose words
/// are the words given.
pub fn read_instances(words: &Vec<u32>) -> (list: Vec<Mat4>)
    requires
        words@.len() % 16 == 0,
    ensures
        mat4_words(list@) == words@,
{
    let count = words.len() / 16;
    let mut list: Vec<Mat4> = Vec::new();
    let mut i: usize = 0;
    while i < count
        invariant
            i <= count,
            count * 16 == words@.len() <= usize::MAX,
            list@.len() == i,
            mat4_words(list@) == words@.take(16 * i),
        decreases count - i,
    {
        let mut cols: [u32; 16] = [0;16];
        let mut k: usize = 0;
        while k < 16
            invariant
                k <= 16,
                i < count,
                count * 16 == words@.len() <= usize::MAX,
                forall|j: int| 0 <= j < k ==> cols@[j] == words@[16 * i + j],
            decreases 16 - k,
        {
            cols[k] = words[16 * i + k];
            k += 1;
        }
        let ghost before = list@;
        list.push(Mat4 { cols });
        i += 1;
        assert(mat4_words(list@) =~= words@.take(16 * i)) by {
            assert forall|j: int| 0 <= j < 16 * i implies mat4_words(list@)[j] == words@[j] by {
                if j < 16 * (i - 1) {
                    assert(list@[j / 16] == before[j / 16]);
                    assert(mat4_words(before)[j] == words@.take(16 * (i - 1))[j]);
                }
            }
        }
    }
    assert(words@.take(16 * count) =~= words@);
    list
}

/// Two lists of matrices with the same words are the same list.
pub proof fn lemma_mat4_words_injective(a: Seq<Mat4>, b: Seq<Mat4>)
    requires
        mat4_words(a) == mat4_words(b),
    ensures
        a == b,
{
    assert(mat4_words(a).len() == 16 * a.len());
    assert(mat4_words(b).len() == 16 * b.len());
    assert forall|i: int| 0 <= i < a.len() implies a[i] == b[i] by {
        assert forall|k: int| 0 <= k < 16 implies a[i].cols@[k] == b[i].cols@[k] by {
            assert(mat4_words(a)[16 * i + k] == a[i].words()[k]);
            assert(mat4_words(b)[16 * i + k] == b[i].words()[k]);
        }
        assert(a[i].cols@ =~= b[i].cols@);
        assert(a[i].cols == b[i].cols);
    }
    assert(a =~= b);
}

/// The flags that tell the vertex shader which attributes the mesh has: 1
/// for present, 0 for absent.
#[derive(Clone, Copy, Debug, PartialEq, Eq, Default, Structural)]
pub struct MeshObjectMetaUniform {
    pub color_present: u32,
    pub normal_present: u32,
    pub uv_present: u32,
}

/// 1 for `true`, 0 for `false`.
pub open spec fn flag(b: bool) -> u32 {
    if b {
        1
    } else {
        0
    }
}

/// 1 for `true`, 0 for `false`.
pub fn flag_word(b: bool) -> (w: u32)
    ensures
        w == flag(b),
{
    if b {
        1
    } else {
        0
    }
}

impl MeshObjectMetaUniform {
    /// The three words of the uniform, in the order of the shader's struct.
    pub open spec fn words(&self) -> Seq<u32> {
        seq![self.color_present, self.normal_present, self.uv_present]
    }

    /// The uniform of a mesh.
    pub open spec fn of_mesh(mesh: &GpuMesh) -> MeshObjectMetaUniform {
        MeshObjectMetaUniform {
            color_present: flag(mesh.color_present),
            normal_present: flag(mesh.normal_present),
            uv_present: flag(mesh.uv_present),
        }
    }

    /// The words of the uniform as the device is to hold them.
    pub fn to_words(&self) -> (words: Vec<u32>)
        ensures
            words@ == self.words(),
    {
        let mut words: Vec<u32> = Vec::new();
        words.push(self.color_present);
        words.push(self.normal_present);
        words.push(self.uv_present);
        assert(words@ =~= self.words());
        words
    }
}

/// A mesh on the device, the transforms of its instances, and the buffers
/// and bind group that a draw of it uses.
#[derive(Clone, Debug, PartialEq, Eq)]
pub struct MeshObject {
    /// The instances, on the host.
    pub instances: Vec<Mat4>,
    /// The instances as the device holds them.
    pub instances_buffer: Buffer,
    /// The buffer of the presence flags.
    pub mesh_object_uniform: Buffer,
    /// The mesh that is drawn.
    pub gpu_mesh: GpuMesh,
    /// The bind group of all buffers that the vertex stage reads.
    pub bind_group: BindGroup,
}

/// The entries of the bind group of every mesh object.
pub open spec fn mesh_object_bind_group_entries() -> Seq<BindGroupEntry> {
    seq![
        BindGroupEntry {
            binding: MeshObject::MESH_OBJECT_UNIFORM_BINDING,
            resource: BindingResource::Buffer(BufferRole::MeshObjectUniform),
        },
        BindGroupEntry {
            binding: MeshObject::MESH_OBJECT_INSTANCES_BINDING,
            resource: BindingResource::Buffer(BufferRole::Instances),
        },
        BindGroupEntry {
            binding: MeshObject::MESH_BINDING_NORMAL,
            resource: BindingResource::Buffer(BufferRole::Normal),
        },
        BindGroupEntry {
            binding: MeshObject::MESH_BINDING_COLOR,
            resource: BindingResource::Buffer(BufferRole::Color),
        },
        BindGroupEntry {
            binding: MeshObject::MESH_BINDING_UV,
            resource: BindingResource::Buffer(BufferRole::Uv),
        },
    ]
}

/// The slots of the bind group layout of every mesh object.
pub open spec fn mesh_object_layout_entries() -> Seq<BindGroupLayoutEntry> {
    let vertex = ShaderStages { vertex: true, fragment: false };
    seq![
        storage_slot(MeshObject::MESH_OBJECT_UNIFORM_BINDING, vertex),
        storage_slot(MeshObject::MESH_OBJECT_INSTANCES_BINDING, vertex),
        storage_slot(MeshObject::MESH_BINDING_NORMAL, vertex),
        storage_slot(MeshObject::MESH_BINDING_COLOR, vertex),
        storage_slot(MeshObject::MESH_BINDING_UV, vertex),
    ]
}

/// The commands of one draw of a mesh object with `index_count` indices and
/// `instance_count` instances.
pub open spec fn mesh_object_commands(index_count: u32, instance_count: u32) -> Seq<RenderCommand> {
    seq![
        RenderCommand::PushDebugGroup,
        RenderCommand::SetBindGroup { set: MeshObject::MESH_OBJECT_SET, group: BindGroupKind::MeshObject },
        RenderCommand::SetVertexBuffer { slot: 0, buffer: BufferRole::Vertex },
        RenderCommand::SetIndexBuffer { buffer: BufferRole::Index, format: IndexFormat::Uint32 },
        RenderCommand::DrawIndexed { index_count, base_vertex: 0, instance_count },
        RenderCommand::PopDebugGroup,
    ]
}

/// Builds the bind group of a mesh object under the given label.
fn make_bind_group(label: String) -> (group: BindGroup)
    ensures
        group.label@ == label@,
        group@ == mesh_object_bind_group_entries(),
{
    let mut entries: Vec<BindGroupEntry> = Vec::new();
    entries.push(
        BindGroupEntry {
            binding: MeshObject::MESH_OBJECT_UNIFORM_BINDING,
            resource: BindingResource::Buffer(BufferRole::MeshObjectUniform),
        },
    );
    entries.push(
        BindGroupEntry {
            binding: MeshObject::MESH_OBJECT_INSTANCES_BINDING,
            resource: BindingResource::Buffer(BufferRole::Instances),
        },
    );
    entries.push(
        BindGroupEntry {
            binding: MeshObject::MESH_BINDING_NORMAL,
            resource: BindingResource::Buffer(BufferRole::Normal),
        },
    );
    entries.push(
        BindGroupEntry {
            binding: MeshObject::MESH_BINDING_COLOR,
            resource: BindingResource::Buffer(BufferRole::Color),
        },
    );
    entries.push(
        BindGroupEntry {
            binding: MeshObject::MESH_BINDING_UV,
            resource: BindingResource::Buffer(BufferRole::Uv),
        },
    );
    assert(entries@ =~= mesh_object_bind_group_entries());
    BindGroup { label, entries }
}

impl MeshObject {
    /// The set index of the bind group of a mesh object.
    pub const MESH_OBJECT_SET: u32 = 2;

    pub const MESH_OBJECT_UNIFORM_BINDING: u32 = 0;

    pub const MESH_OBJECT_INSTANCES_BINDING: u32 = 1;

    pub const MESH_BINDING_NORMAL: u32 = 2;

    pub const MESH_BINDING_COLOR: u32 = 3;

    pub const MESH_BINDING_UV: u32 = 4;

    /// What holds of every mesh object: the uniform buffer holds the
    /// presence flags of the mesh, the bind group has its fixed entries, and
    /// the buffers carry their labels and usage.
    pub open spec fn well_formed(&self) -> bool {
        &&& self.mesh_object_uniform@ == MeshObjectMetaUniform::of_mesh(&self.gpu_mesh).words()
        &&& self.mesh_object_uniform.label@ == self.gpu_mesh.name@ + "_mesh_object_uniform"@
        &&& self.mesh_object_uniform.usage == BufferUsages::storage()
        &&& self.instances_buffer.label@ == self.gpu_mesh.name@
        &&& self.instances_buffer.usage == BufferUsages::storage()
        &&& self.bind_group.label@ == self.gpu_mesh.name@ + "_bind_group"@
        &&& self.bind_group@ == mesh_object_bind_group_entries()
    }

    /// That the instance buffer holds the instance list: as many matrices,
    /// the same, in the same order.
    pub open spec fn synced(&self) -> bool {
        self.instances_buffer@ == mat4_words(self.instances@)
    }

    /// A mesh object without instances. Its instance buffer holds one matrix
    /// of zeros, so that the binding slot has a buffer.
    pub fn new(gpu_mesh: GpuMesh) -> (object: MeshObject)
        ensures
            object.well_formed(),
            object.gpu_mesh == gpu_mesh,
            object.instances@.len() == 0,
            object.instances_buffer@ == zero_words(WORDS_PER_INSTANCE as nat),
    {
        let instances_buffer = Buffer::new(
            String::from_str(gpu_mesh.name.as_str()),
            make_zero_words(WORDS_PER_INSTANCE),
            BufferUsages::storage(),
        );
        let instances: Vec<Mat4> = Vec::new();
        let meta = MeshObjectMetaUniform {
            color_present: flag_word(gpu_mesh.color_present),
            normal_present: flag_word(gpu_mesh.normal_present),
            uv_present: flag_word(gpu_mesh.uv_present),
        };
        let mesh_object_uniform = Buffer::new(
            label_with_suffix(gpu_mesh.name.as_str(), "_mesh_object_uniform"),
            meta.to_words(),
            BufferUsages::storage(),
        );
        let bind_group = make_bind_group(label_with_suffix(gpu_mesh.name.as_str(), "_bind_group"));
        MeshObject { instances, instances_buffer, mesh_object_uniform, gpu_mesh, bind_group }
    }

    /// Makes `transform` the only instance. The device is not told.
    pub fn set_single_transform(&mut self, transform: &Mat4)
        ensures
            final(self).instances@ == seq![*transform],
            final(self).instances_buffer == old(self).instances_buffer,
            final(self).mesh_object_uniform == old(self).mesh_object_uniform,
            final(self).gpu_mesh == old(self).gpu_mesh,
            final(self).bind_group == old(self).bind_group,
    {
        let mut instances: Vec<Mat4> = Vec::new();
        instances.push(*transform);
        assert(instances@ =~= seq![*transform]);
        self.instances = instances;
    }

    /// Replaces the instances by `transform`. The device is not told.
    pub fn set_transforms(&mut self, transform: &[Mat4])
        ensures
            final(self).instances@ == transform@,
            final(self).instances_buffer == old(self).instances_buffer,
            final(self).mesh_object_uniform == old(self).mesh_object_uniform,
            final(self).gpu_mesh == old(self).gpu_mesh,
            final(self).bind_group == old(self).bind_group,
    {
        let mut instances: Vec<Mat4> = Vec::new();
        let mut i: usize = 0;
        while i < transform.len()
            invariant
                i <= transform.len(),
                instances@ == transform@.take(i as int),
            decreases transform.len() - i,
        {
            instances.push(transform[i]);
            i += 1;
            assert(instances@ =~= transform@.take(i as int));
        }
        assert(transform@.take(transform.len() as int) =~= transform@);
        self.instances = instances;
    }

    /// Brings the device up to date: a fresh instance buffer with the
    /// instance list as it is now, and a bind group made anew.
    pub fn replace_gpu_data(&mut self)
        requires
            old(self).well_formed(),
        ensures
            final(self).well_formed(),
            final(self).synced(),
            final(self).instances == old(self).instances,
            final(self).mesh_object_uniform == old(self).mesh_object_uniform,
            final(self).gpu_mesh == old(self).gpu_mesh,
    {
        self.instances_buffer = Buffer::new(
            String::from_str(self.gpu_mesh.name.as_str()),
            pack_mat4(&self.instances),
            BufferUsages::storage(),
        );
        self.bind_group = make_bind_group(label_with_suffix(self.gpu_mesh.name.as_str(), "_bind_group"));
    }

    /// Records one draw of the object: its bind group at set 2, the position
    /// and index buffers, and one indexed draw of all indices for as many
    /// instances as the list has, the number cut to 32 bits. With no
    /// instances the draw draws nothing.
    pub fn add_commands(&self, render_pass: &mut Vec<RenderCommand>)
        ensures
            final(render_pass)@ == old(render_pass)@ + mesh_object_commands(
                self.gpu_mesh.index_length,
                (self.instances@.len() as usize) as u32,
            ),
    {
        render_pass.push(RenderCommand::PushDebugGroup);
        render_pass.push(
            RenderCommand::SetBindGroup { set: Self::MESH_OBJECT_SET, group: BindGroupKind::MeshObject },
        );
        render_pass.push(RenderCommand::SetVertexBuffer { slot: 0, buffer: BufferRole::Vertex });
        render_pass.push(
            RenderCommand::SetIndexBuffer { buffer: BufferRole::Index, format: IndexFormat::Uint32 },
        );
        render_pass.push(
            RenderCommand::DrawIndexed {
                index_count: self.gpu_mesh.index_length,
                base_vertex: 0,
                instance_count: #[verifier::truncate]
                (self.instances.len() as u32),
            },
        );
        render_pass.push(RenderCommand::PopDebugGroup);
        assert(render_pass@ =~= old(render_pass)@ + mesh_object_commands(
            self.gpu_mesh.index_length,
            (self.instances@.len() as usize) as u32,
        ));
    }

    /// The layout of the bind group of a mesh object.
    pub fn mesh_layout() -> (layout: BindGroupLayoutDescriptor)
        ensures
            layout.label@ == "mesh_object_layout"@,
            layout@ == mesh_object_layout_entries(),
    {
        let vertex = ShaderStages { vertex: true, fragment: false };
        let mut entries: Vec<BindGroupLayoutEntry> = Vec::new();
        entries.push(make_storage_slot(Self::MESH_OBJECT_UNIFORM_BINDING, vertex));
        entries.push(make_storage_slot(Self::MESH_OBJECT_INSTANCES_BINDING, vertex));
        entries.push(make_storage_slot(Self::MESH_BINDING_NORMAL, vertex));
        entries.push(make_storage_slot(Self::MESH_BINDING_COLOR, vertex));
        entries.push(make_storage_slot(Self::MESH_BINDING_UV, vertex));
        assert(entries@ =~= mesh_object_layout_entries());
        BindGroupLayoutDescriptor { label: "mesh_object_layout", entries }
    }

    /// The layout of the vertex buffer: that of the mesh.
    pub fn get_vertex_layout() -> (layout: VertexBufferLayout)
        ensures
            layout.array_stride == 12,
            layout.attribute.components == 3,
            layout.attribute.offset == 0,
            layout.attribute.shader_location == 0,
    {
        GpuMesh::get_vertex_layout()
    }
}

/// After `replace_gpu_data`, what is read back from the instance buffer is
/// the instance list, in order: any list with the words of the buffer is the
/// list of the object.
pub proof fn lemma_instance_round_trip(object: &MeshObject, read_back: Seq<Mat4>)
    requires
        object.synced(),
        mat4_words(read_back) == object.instances_buffer@,
    ensures
        read_back == object.instances@,
{
    lemma_mat4_words_injective(read_back, object.instances@);
}

} // verus!
