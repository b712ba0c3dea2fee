//! Mesh geometry on the host (`CpuMesh`) and as the device is to hold it
//! (`GpuMesh`).

use vstd::prelude::*;
use vstd::string::*;
use crate::gpu::{
    label_with_suffix, make_storage_slot, BindGroup, BindGroupEntry, BindGroupLayoutDescriptor,
    BindGroupLayoutEntry, BindingResource, Buffer, BufferRole, BufferUsages, ShaderStages,
    VertexAttribute, VertexBufferLayout, storage_slot,
};
use crate::math::{Vec2, Vec3, Vec3A, Vec4};
use crate::text::{decimal, decimal_digits};

verus! {

/// Words of a position buffer: three per vertex.
pub const WORDS_PER_POSITION: usize = 3;

/// Words of one element of a normal buffer: three numbers and one of padding.
pub const WORDS_PER_NORMAL: usize = 4;

/// Words of one element of a color buffer.
pub const WORDS_PER_COLOR: usize = 4;

/// Words of one element of a texture coordinate buffer.
pub const WORDS_PER_UV: usize = 2;

/// Words of one element of a tangent buffer.
pub const WORDS_PER_TANGENT: usize = 4;

/// The words of an array of `Vec3`, element after element.
pub open spec fn vec3_words(s: Seq<Vec3>) -> Seq<u32> {
    Seq::new(3 * s.len(), |i: int| s[i / 3].words()[i % 3])
}

/// The words of an array of `Vec3A`, element after element, four to each.
pub open spec fn vec3a_words(s: Seq<Vec3A>) -> Seq<u32> {
    Seq::new(4 * s.len(), |i: int| s[i / 4].words()[i % 4])
}

/// The words of an array of `Vec4`, element after element.
pub open spec fn vec4_words(s: Seq<Vec4>) -> Seq<u32> {
    Seq::new(4 * s.len(), |i: int| s[i / 4].words()[i % 4])
}

/// The words of an array of `Vec2`, element after element.
pub open spec fn vec2_words(s: Seq<Vec2>) -> Seq<u32> {
    Seq::new(2 * s.len(), |i: int| s[i / 2].words()[i % 2])
}

/// `n` words of zero.
pub open spec fn zero_words(n: nat) -> Seq<u32> {
    Seq::new(n, |i: int| 0u32)
}

/// Lays an array of `Vec3` out as words.
pub fn pack_vec3(values: &Vec<Vec3>) -> (words: Vec<u32>)
    ensures
        words@ == vec3_words(values@),
{
    let mut words: Vec<u32> = Vec::new();
    let mut i: usize = 0;
    while i < values.len()
        invariant
            i <= values.len(),
            words@ == vec3_words(values@.take(i as int)),
        decreases values.len() - i,
    {
        let v = values[i];
        words.push(v.x);
        words.push(v.y);
        words.push(v.z);
        i += 1;
        assert(words@ =~= vec3_words(values@.take(i as int)));
    }
    assert(values@.take(values.len() as int) =~= values@);
    words
}

/// Lays an array of `Vec3A` out as words, with a zero after each element.
pub fn pack_vec3a(values: &Vec<Vec3A>) -> (words: Vec<u32>)
    ensures
        words@ == vec3a_words(values@),
{
    let mut words: Vec<u32> = Vec::new();
    let mut i: usize = 0;
    while i < values.len()
        invariant
            i <= values.len(),
            words@ == vec3a_words(values@.take(i as int)),
        decreases values.len() - i,
    {
        let v = values[i];
        words.push(v.x);
        words.push(v.y);
        words.push(v.z);
        words.push(0);
        i += 1;
        assert(words@ =~= vec3a_words(values@.take(i as int)));
    }
    assert(values@.take(values.len() as int) =~= values@);
    words
}

/// Lays an array of `Vec4` out as words.
pub fn pack_vec4(values: &Vec<Vec4>) -> (words: Vec<u32>)
    ensures
        words@ == vec4_words(values@),
{
    let mut words: Vec<u32> = Vec::new();
    let mut i: usize = 0;
    while i < values.len()
        invariant
            i <= values.len(),
            words@ == vec4_words(values@.take(i as int)),
        decreases values.len() - i,
    {
        let v = values[i];
        words.push(v.x);
        words.push(v.y);
        words.push(v.z);
        words.push(v.w);
        i += 1;
        assert(words@ =~= vec4_words(values@.take(i as int)));
    }
    assert(values@.take(values.len() as int) =~= values@);
    words
}

/// Lays an array of `Vec2` out as words.
pub fn pack_vec2(values: &Vec<Vec2>) -> (words: Vec<u32>)
    ensures
        words@ == vec2_words(values@),
{
    let mut words: Vec<u32> = Vec::new();
    let mut i: usize = 0;
    while i < values.len()
        invariant
            i <= values.len(),
            words@ == vec2_words(values@.take(i as int)),
        decreases values.len() - i,
    {
        let v = values[i];
        words.push(v.x);
        words.push(v.y);
        i += 1;
        assert(words@ =~= vec2_words(values@.take(i as int)));
    }
    assert(values@.take(values.len() as int) =~= values@);
    words
}

/// `n` words of zero.
pub fn make_zero_words(n: usize) -> (words: Vec<u32>)
    ensures
        words@ == zero_words(n as nat),
{
    let mut words: Vec<u32> = Vec::new();
    let mut i: usize = 0;
    while i < n
        invariant
            i <= n,
            words@ == zero_words(i as nat),
        decreases n - i,
    {
        words.push(0);
        i += 1;
        assert(words@ =~= zero_words(i as nat));
    }
    words
}

/// A copy of a list of words.
pub fn copy_words(values: &Vec<u32>) -> (words: Vec<u32>)
    ensures
        words@ == values@,
{
    let mut words: Vec<u32> = Vec::new();
    let mut i: usize = 0;
    while i < values.len()
        invariant
            i <= values.len(),
            words@ == values@.take(i as int),
        decreases values.len() - i,
    {
        words.push(values[i]);
        i += 1;
        assert(words@ =~= values@.take(i as int));
    }
    assert(values@.take(values.len() as int) =~= values@);
    words
}

/// Position of corner `vert` of triangle `face` in an index list that holds
/// three entries per triangle.
pub open spec fn face_vert_index(face: int, vert: int) -> int {
    face * 3 + vert
}

/// Maps a triangle and one of its corners to the position in the index list.
pub fn face_vert_to_index(face: usize, vert: usize) -> (index: usize)
    requires
        face_vert_index(face as int, vert as int) <= usize::MAX,
    ensures
        index == face_vert_index(face as int, vert as int),
{
    face * 3 + vert
}

/// A mesh on the host: positions, triangle indices, and optional per-vertex
/// attributes.
#[derive(Clone, Debug, PartialEq, Eq)]
pub struct CpuMesh {
    /// The vertex positions.
    pub position: Vec<Vec3>,
    /// Three vertex indices per triangle.
    pub index: Vec<u32>,
    /// A label for diagnostics.
    pub name: Option<String>,
    /// The vertex colors, RGBA.
    pub color: Option<Vec<Vec4>>,
    /// The vertex normals.
    pub normal: Option<Vec<Vec3A>>,
    /// The texture coordinates.
    pub uv: Option<Vec<Vec2>>,
    /// The tangents, with the handedness as sign of the fourth component.
    pub tangents: Option<Vec<Vec4>>,
}

/// The name that stands for a mesh without a name.
pub open spec fn unnamed_mesh_label(positions: nat, indices: nat) -> Seq<char> {
    "mesh_position_len_"@ + decimal_digits(positions) + "_index_len_"@ + decimal_digits(indices)
}

impl CpuMesh {
    /// The invariant of a mesh: there is at least one vertex, the indices
    /// come in threes and each names a vertex, and every attribute that is
    /// present has one element per vertex.
    pub open spec fn well_formed(&self) -> bool {
        &&& self.position@.len() > 0
        &&& self.index@.len() % 3 == 0
        &&& forall|i: int| 0 <= i < self.index@.len() ==> (#[trigger] self.index@[i] as int) < self.position@.len()
        &&& (self.color matches Some(c) ==> c@.len() == self.position@.len())
        &&& (self.normal matches Some(n) ==> n@.len() == self.position@.len())
        &&& (self.uv matches Some(u) ==> u@.len() == self.position@.len())
        &&& (self.tangents matches Some(t) ==> t@.len() == self.position@.len())
    }

    /// The name under which the buffers of the mesh are labelled: its own
    /// name, or one made of its sizes.
    pub open spec fn name_prefix(&self) -> Seq<char> {
        match self.name {
            Some(name) => name@,
            None => unnamed_mesh_label(self.position@.len(), self.index@.len()),
        }
    }

    /// A mesh of the given positions and indices, without attributes.
    /// Nothing is validated.
    pub fn new(position: Vec<Vec3>, index: Vec<u32>) -> (mesh: CpuMesh)
        ensures
            mesh.position@ == position@,
            mesh.index@ == index@,
            mesh.name is None,
            mesh.color is None,
            mesh.normal is None,
            mesh.uv is None,
            mesh.tangents is None,
    {
        CpuMesh { position, index, color: None, normal: None, uv: None, name: None, tangents: None }
    }

    /// The same mesh under the name `name`.
    pub fn with_name(self, name: &str) -> (mesh: CpuMesh)
        ensures
            mesh.name matches Some(n) && n@ == name@,
            mesh.position == self.position,
            mesh.index == self.index,
            mesh.color == self.color,
            mesh.normal == self.normal,
            mesh.uv == self.uv,
            mesh.tangents == self.tangents,
    {
        let mut mesh = self;
        mesh.name = Some(String::from_str(name));
        mesh
    }

    /// Whether the mesh satisfies its invariant.
    pub fn is_well_formed(&self) -> (ok: bool)
        ensures
            ok == self.well_formed(),
    {
        let n = self.position.len();
        if n == 0 || self.index.len() % 3 != 0 {
            return false;
        }
        let mut i: usize = 0;
        while i < self.index.len()
            invariant
                i <= self.index.len(),
                n == self.position@.len(),
                forall|k: int| 0 <= k < i ==> (#[trigger] self.index@[k] as int) < n,
            decreases self.index.len() - i,
        {
            if self.index[i] as usize >= n {
                return false;
            }
            i += 1;
        }
        let color_ok = match &self.color {
            Some(c) => c.len() == n,
            None => true,
        };
        let normal_ok = match &self.normal {
            Some(v) => v.len() == n,
            None => true,
        };
        let uv_ok = match &self.uv {
            Some(v) => v.len() == n,
            None => true,
        };
        let tangents_ok = match &self.tangents {
            Some(v) => v.len() == n,
            None => true,
        };
        color_ok && normal_ok && uv_ok && tangents_ok
    }

    /// The name under which the buffers of the mesh are labelled.
    pub fn get_name_prefix(&self) -> (prefix: String)
        ensures
            prefix@ == self.name_prefix(),
    {
        match &self.name {
            Some(name) => String::from_str(name.as_str()),
            None => {
                let mut prefix = String::from_str("mesh_position_len_");
                let positions = decimal(self.position.len());
                prefix.append(positions.as_str());
                prefix.append("_index_len_");
                let indices = decimal(self.index.len());
                prefix.append(indices.as_str());
                prefix
            },
        }
    }

    /// What the device is to hold for this mesh. Positions and indices go up
    /// as they are. Each optional attribute goes up whole if present; if
    /// absent its buffer holds one element of zeros, so that no binding slot
    /// is ever left without a buffer.
    pub fn to_gpu(&self) -> (gpu: GpuMesh)
        ensures
            gpu.mirrors(self),
    {
        let name_prefix = self.get_name_prefix();
        let prefix = name_prefix.as_str();

        let vertex_buffer = Buffer::new(
            label_with_suffix(prefix, "_vertex"),
            pack_vec3(&self.position),
            BufferUsages::vertex(),
        );
        let index_buffer = Buffer::new(
            label_with_suffix(prefix, "_index"),
            copy_words(&self.index),
            BufferUsages::index_storage(),
        );
        let index_length = #[verifier::truncate]
        (self.index.len() as u32);

        let normal_data = match &self.normal {
            Some(normals) => pack_vec3a(normals),
            None => make_zero_words(WORDS_PER_NORMAL),
        };
        let normal_buffer = Buffer::new(
            label_with_suffix(prefix, "_normal"),
            normal_data,
            BufferUsages::storage(),
        );

        let color_data = match &self.color {
            Some(colors) => pack_vec4(colors),
            None => make_zero_words(WORDS_PER_COLOR),
        };
        let color_buffer = Buffer::new(
            label_with_suffix(prefix, "_color"),
            color_data,
            BufferUsages::storage(),
        );

        let uv_data = match &self.uv {
            Some(uvs) => pack_vec2(uvs),
            None => make_zero_words(WORDS_PER_UV),
        };
        let uv_buffer = Buffer::new(label_with_suffix(prefix, "_uv"), uv_data, BufferUsages::storage());

        let tangent_data = match &self.tangents {
            Some(tangents) => pack_vec4(tangents),
            None => make_zero_words(WORDS_PER_TANGENT),
        };
        let tangent_buffer = Buffer::new(
            label_with_suffix(prefix, "_tangent"),
            tangent_data,
            BufferUsages::storage(),
        );

        let mut entries: Vec<BindGroupEntry> = Vec::new();
        entries.push(
            BindGroupEntry {
                binding: GpuMesh::MESH_BINDING_NORMAL,
                resource: BindingResource::Buffer(BufferRole::Normal),
            },
        );
        entries.push(
            BindGroupEntry {
                binding: GpuMesh::MESH_BINDING_COLOR,
                resource: BindingResource::Buffer(BufferRole::Color),
            },
        );
        entries.push(
            BindGroupEntry { binding: GpuMesh::MESH_BINDING_UV, resource: BindingResource::Buffer(BufferRole::Uv) },
        );
        assert(entries@ =~= mesh_bind_group_entries());
        let bind_group = BindGroup { label: label_with_suffix(prefix, "_bind_group"), entries };

        GpuMesh {
            name: name_prefix,
            vertex_buffer,
            index_buffer,
            index_length,
            normal_buffer,
            normal_present: self.normal.is_some(),
            color_buffer,
            color_present: self.color.is_some(),
            uv_buffer,
            uv_present: self.uv.is_some(),
            tangent_buffer,
            tangent_present: self.tangents.is_some(),
            bind_group,
        }
    }
}

/// The entries of the bind group of every mesh: normals, colors and texture
/// coordinates at their fixed slots.
pub open spec fn mesh_bind_group_entries() -> Seq<BindGroupEntry> {
    seq![
        BindGroupEntry { binding: GpuMesh::MESH_BINDING_NORMAL, resource: BindingResource::Buffer(BufferRole::Normal) },
        BindGroupEntry { binding: GpuMesh::MESH_BINDING_COLOR, resource: BindingResource::Buffer(BufferRole::Color) },
        BindGroupEntry { binding: GpuMesh::MESH_BINDING_UV, resource: BindingResource::Buffer(BufferRole::Uv) },
    ]
}

/// The slots of the bind group layout of every mesh.
pub open spec fn mesh_layout_entries() -> Seq<BindGroupLayoutEntry> {
    let both = ShaderStages { vertex: true, fragment: true };
    seq![
        storage_slot(GpuMesh::MESH_BINDING_NORMAL, both),
        storage_slot(GpuMesh::MESH_BINDING_COLOR, both),
        storage_slot(GpuMesh::MESH_BINDING_UV, both),
    ]
}

/// A mesh as the device is to hold it. It is made once from a `CpuMesh` and
/// not changed after.
#[derive(Clone, Debug, PartialEq, Eq)]
pub struct GpuMesh {
    pub name: String,
    /// The bind group of the attribute buffers.
    pub bind_group: BindGroup,
    /// The positions, bound as vertex input.
    pub vertex_buffer: Buffer,
    /// The indices.
    pub index_buffer: Buffer,
    /// The number of indices.
    pub index_length: u32,
    pub normal_buffer: Buffer,
    pub normal_present: bool,
    pub color_buffer: Buffer,
    pub color_present: bool,
    pub uv_buffer: Buffer,
    pub uv_present: bool,
    pub tangent_buffer: Buffer,
    pub tangent_present: bool,
}

impl GpuMesh {
    /// Binding slot of the normal buffer in the bind group of a mesh.
    pub const MESH_BINDING_NORMAL: u32 = 0;

    /// Binding slot of the color buffer in the bind group of a mesh.
    pub const MESH_BINDING_COLOR: u32 = 1;

    /// Binding slot of the texture coordinate buffer in the bind group of a mesh.
    pub const MESH_BINDING_UV: u32 = 2;

    /// Binding slot kept for the tangent buffer.
    pub const MESH_BINDING_TANGENT: u32 = 3;

    /// That this is what the device holds for `mesh`: every buffer with its
    /// label, usage and contents, the presence flags, the number of indices
    /// cut to 32 bits, and the bind group.
    pub open spec fn mirrors(&self, mesh: &CpuMesh) -> bool {
        let prefix = mesh.name_prefix();
        &&& self.name@ == prefix
        &&& self.vertex_buffer.label@ == prefix + "_vertex"@
        &&& self.vertex_buffer.usage == BufferUsages::vertex()
        &&& self.vertex_buffer@ == vec3_words(mesh.position@)
        &&& self.index_buffer.label@ == prefix + "_index"@
        &&& self.index_buffer.usage == BufferUsages::index_storage()
        &&& self.index_buffer@ == mesh.index@
        &&& self.index_length == (mesh.index@.len() as usize) as u32
        &&& self.normal_buffer.label@ == prefix + "_normal"@
        &&& self.normal_buffer.usage == BufferUsages::storage()
        &&& self.normal_present == mesh.normal is Some
        &&& self.normal_buffer@ == match mesh.normal {
            Some(n) => vec3a_words(n@),
            None => zero_words(WORDS_PER_NORMAL as nat),
        }
        &&& self.color_buffer.label@ == prefix + "_color"@
        &&& self.color_buffer.usage == BufferUsages::storage()
        &&& self.color_present == mesh.color is Some
        &&& self.color_buffer@ == match mesh.color {
            Some(c) => vec4_words(c@),
            None => zero_words(WORDS_PER_COLOR as nat),
        }
        &&& self.uv_buffer.label@ == prefix + "_uv"@
        &&& self.uv_buffer.usage == BufferUsages::storage()
        &&& self.uv_present == mesh.uv is Some
        &&& self.uv_buffer@ == match mesh.uv {
            Some(u) => vec2_words(u@),
            None => zero_words(WORDS_PER_UV as nat),
        }
        &&& self.tangent_buffer.label@ == prefix + "_tangent"@
        &&& self.tangent_buffer.usage == BufferUsages::storage()
        &&& self.tangent_present == mesh.tangents is Some
        &&& self.tangent_buffer@ == match mesh.tangents {
            Some(t) => vec4_words(t@),
            None => zero_words(WORDS_PER_TANGENT as nat),
        }
        &&& self.bind_group.label@ == prefix + "_bind_group"@
        &&& self.bind_group@ == mesh_bind_group_entries()
    }

    /// The layout of the bind group of a mesh.
    pub fn mesh_layout() -> (layout: BindGroupLayoutDescriptor)
        ensures
            layout.label@ == "mesh_layout"@,
            layout@ == mesh_layout_entries(),
    {
        let both = ShaderStages { vertex: true, fragment: true };
        let mut entries: Vec<BindGroupLayoutEntry> = Vec::new();
        entries.push(make_storage_slot(GpuMesh::MESH_BINDING_NORMAL, both));
        entries.push(make_storage_slot(GpuMesh::MESH_BINDING_COLOR, both));
        entries.push(make_storage_slot(GpuMesh::MESH_BINDING_UV, both));
        assert(entries@ =~= mesh_layout_entries());
        BindGroupLayoutDescriptor { label: "mesh_layout", entries }
    }

    /// The layout of the vertex buffer: positions only, three numbers each,
    /// at shader location 0.
    pub fn get_vertex_layout() -> (layout: VertexBufferLayout)
        ensures
            layout == (VertexBufferLayout {
                array_stride: 12,
                attribute: VertexAttribute { components: 3, offset: 0, shader_location: 0 },
            }),
    {
        VertexBufferLayout {
            array_stride: 12,
            attribute: VertexAttribute { components: 3, offset: 0, shader_location: 0 },
        }
    }
}

/// Every optional attribute buffer holds one element per vertex if the mesh
/// has the attribute, and one element if it has not.
pub proof fn lemma_attribute_presence(mesh: &CpuMesh, gpu: &GpuMesh)
    requires
        mesh.well_formed(),
        gpu.mirrors(mesh),
    ensures
        gpu.normal_buffer.spec_element_count(WORDS_PER_NORMAL) == (if mesh.normal is Some {
            mesh.position@.len()
        } else {
            1
        }),
        gpu.color_buffer.spec_element_count(WORDS_PER_COLOR) == (if mesh.color is Some {
            mesh.position@.len()
        } else {
            1
        }),
        gpu.uv_buffer.spec_element_count(WORDS_PER_UV) == (if mesh.uv is Some {
            mesh.position@.len()
        } else {
            1
        }),
        gpu.tangent_buffer.spec_element_count(WORDS_PER_TANGENT) == (if mesh.tangents is Some {
            mesh.position@.len()
        } else {
            1
        }),
{
}

/// Whether triangle `face` of an index list has vertex `v` as a corner.
pub open spec fn face_has_vertex(index: Seq<u32>, face: int, v: int) -> bool {
    index[3 * face] == v || index[3 * face + 1] == v || index[3 * face + 2] == v
}

/// The last of the first `faces` triangles that has vertex `v` as a corner;
/// -1 if none has.
pub open spec fn last_face_with(index: Seq<u32>, v: int, faces: int) -> int
    decreases faces,
{
    if faces <= 0 {
        -1
    } else if face_has_vertex(index, faces - 1, v) {
        faces - 1
    } else {
        last_face_with(index, v, faces - 1)
    }
}

/// The value of the unit normal of triangle `face`: with corners `a`, `b`,
/// `c` in index order, `(b - a) x (c - a)` scaled to length one.
pub open spec fn face_normal(position: Seq<Vec3>, index: Seq<u32>, face: int) -> Seq<u32> {
    let a = position[index[3 * face] as int];
    let b = position[index[3 * face + 1] as int];
    let c = position[index[3 * face + 2] as int];
    crate::math::vec3_normalized(
        crate::math::vec3_cross(
            crate::math::vec3_difference(b@, a@),
            crate::math::vec3_difference(c@, a@),
        ),
    )
}

/// That `normals` are the flat normals of the first `faces` triangles: each
/// vertex has the normal of the last triangle it is a corner of, and zero if
/// it is a corner of none.
pub open spec fn flat_normals(
    position: Seq<Vec3>,
    index: Seq<u32>,
    normals: Seq<Vec3A>,
    faces: int,
) -> bool {
    &&& normals.len() == position.len()
    &&& forall|v: int|
        0 <= v < normals.len() ==> {
            let f = last_face_with(index, v, faces);
            if f < 0 {
                #[trigger] normals[v] == (Vec3A { x: 0, y: 0, z: 0 })
            } else {
                normals[v]@ == face_normal(position, index, f)
            }
        }
}

/// `n` normals of zero.
fn zero_normals(n: usize) -> (normals: Vec<Vec3A>)
    ensures
        normals@.len() == n,
        forall|i: int| 0 <= i < n ==> #[trigger] normals@[i] == (Vec3A { x: 0, y: 0, z: 0 }),
{
    let mut normals: Vec<Vec3A> = Vec::new();
    let mut i: usize = 0;
    while i < n
        invariant
            i <= n,
            normals@.len() == i,
            forall|k: int| 0 <= k < i ==> #[trigger] normals@[k] == (Vec3A { x: 0, y: 0, z: 0 }),
        decreases n - i,
    {
        normals.push(Vec3A::zero());
        i += 1;
    }
    normals
}

/// `n` tangents of zero.
fn zero_tangents(n: usize) -> (tangents: Vec<Vec4>)
    ensures
        tangents@.len() == n,
        forall|i: int| 0 <= i < n ==> #[trigger] tangents@[i] == (Vec4 { x: 0, y: 0, z: 0, w: 0 }),
{
    let mut tangents: Vec<Vec4> = Vec::new();
    let mut i: usize = 0;
    while i < n
        invariant
            i <= n,
            tangents@.len() == i,
            forall|k: int| 0 <= k < i ==> #[trigger] tangents@[k] == (Vec4 { x: 0, y: 0, z: 0, w: 0 }),
        decreases n - i,
    {
        tangents.push(Vec4::zero());
        i += 1;
    }
    tangents
}

impl CpuMesh {
    /// That the indices come in threes and each names a vertex.
    pub open spec fn indices_valid(&self) -> bool {
        &&& self.index@.len() % 3 == 0
        &&& forall|i: int| 0 <= i < self.index@.len() ==> (#[trigger] self.index@[i] as int) < self.position@.len()
    }

    /// Gives the mesh flat normals: every corner of a triangle gets the unit
    /// normal of that triangle, later triangles overwriting earlier ones.
    pub fn calculate_normals(&mut self)
        requires
            old(self).indices_valid(),
        ensures
            final(self).normal matches Some(n) && flat_normals(
                old(self).position@,
                old(self).index@,
                n@,
                old(self).index@.len() as int / 3,
            ),
            final(self).position == old(self).position,
            final(self).index == old(self).index,
            final(self).name == old(self).name,
            final(self).color == old(self).color,
            final(self).uv == old(self).uv,
            final(self).tangents == old(self).tangents,
    {
        let mut normals = zero_normals(self.position.len());
        let faces = self.index.len() / 3;
        let mut f: usize = 0;
        while f < faces
            invariant
                f <= faces,
                faces == self.index@.len() as int / 3,
                3 * faces <= self.index@.len() <= usize::MAX,
                self.indices_valid(),
                flat_normals(self.position@, self.index@, normals@, f as int),
            decreases faces - f,
        {
            let i0 = self.index[3 * f] as usize;
            let i1 = self.index[3 * f + 1] as usize;
            let i2 = self.index[3 * f + 2] as usize;
            let a = self.position[i0];
            let b = self.position[i1];
            let c = self.position[i2];
            let unit = b.difference(a).cross(c.difference(a)).normalize();
            let this_normal = unit.to_vec3a();
            assert(this_normal@ == face_normal(self.position@, self.index@, f as int)) by {
                assert(this_normal@ =~= unit@);
            }
            let ghost before = normals@;
            normals.set(i0, this_normal);
            normals.set(i1, this_normal);
            normals.set(i2, this_normal);
            proof {
                let index = self.index@;
                assert forall|v: int| 0 <= v < normals@.len() implies ({
                    let g = last_face_with(index, v, f as int + 1);
                    if g < 0 {
                        #[trigger] normals@[v] == (Vec3A { x: 0, y: 0, z: 0 })
                    } else {
                        normals@[v]@ == face_normal(self.position@, index, g)
                    }
                }) by {
                    if face_has_vertex(index, f as int, v) {
                        assert(last_face_with(index, v, f as int + 1) == f);
                        assert(normals@[v] == this_normal);
                    } else {
                        assert(last_face_with(index, v, f as int + 1) == last_face_with(
                            index,
                            v,
                            f as int,
                        ));
                        assert(normals@[v] == before[v]);
                    }
                }
            }
            f += 1;
        }
        self.normal = Some(normals);
    }

    /// The number of triangles.
    pub fn num_faces(&self) -> (n: usize)
        ensures
            n == self.index@.len() / 3,
    {
        self.index.len() / 3
    }

    /// The number of corners of a face: every face is a triangle.
    pub fn num_vertices_of_face(&self, face: usize) -> (n: usize)
        ensures
            n == 3,
    {
        3
    }

    /// That `(face, vert)` is a corner of the mesh and names a vertex.
    pub open spec fn corner_valid(&self, face: usize, vert: usize) -> bool {
        &&& face_vert_index(face as int, vert as int) < self.index@.len()
        &&& (self.index@[face_vert_index(face as int, vert as int)] as int) < self.position@.len()
    }

    /// The vertex at corner `vert` of triangle `face`.
    pub open spec fn corner_vertex(&self, face: usize, vert: usize) -> int {
        self.index@[face_vert_index(face as int, vert as int)] as int
    }

    /// The position of corner `vert` of triangle `face`.
    pub fn position(&self, face: usize, vert: usize) -> (p: [u32; 3])
        requires
            self.corner_valid(face, vert),
        ensures
            p@ == self.position@[self.corner_vertex(face, vert)].words(),
    {
        assert(self.index@.len() <= usize::MAX) by {
            assert(self.index@.len() == self.index.len());
        }
        let index = face_vert_to_index(face, vert);
        let vertex_index = self.index[index] as usize;
        let v = self.position[vertex_index];
        let p = [v.x, v.y, v.z];
        assert(p@ =~= v.words());
        p
    }

    /// The normal of corner `vert` of triangle `face`.
    pub fn normal(&self, face: usize, vert: usize) -> (n: [u32; 3])
        requires
            self.corner_valid(face, vert),
            self.normal matches Some(normals) && self.corner_vertex(face, vert) < normals@.len(),
        ensures
            n@ == self.normal->0@[self.corner_vertex(face, vert)].words().take(3),
    {
        assert(self.index@.len() <= usize::MAX) by {
            assert(self.index@.len() == self.index.len());
        }
        let index = face_vert_to_index(face, vert);
        let vertex_index = self.index[index] as usize;
        match &self.normal {
            Some(normals) => {
                let v = normals[vertex_index];
                let n = [v.x, v.y, v.z];
                assert(n@ =~= v.words().take(3));
                n
            },
            None => [0, 0, 0],
        }
    }

    /// The texture coordinate of corner `vert` of triangle `face`.
    pub fn tex_coord(&self, face: usize, vert: usize) -> (t: [u32; 2])
        requires
            self.corner_valid(face, vert),
            self.uv matches Some(uvs) && self.corner_vertex(face, vert) < uvs@.len(),
        ensures
            t@ == self.uv->0@[self.corner_vertex(face, vert)].words(),
    {
        assert(self.index@.len() <= usize::MAX) by {
            assert(self.index@.len() == self.index.len());
        }
        let index = face_vert_to_index(face, vert);
        let vertex_index = self.index[index] as usize;
        match &self.uv {
            Some(uvs) => {
                let v = uvs[vertex_index];
                let t = [v.x, v.y];
                assert(t@ =~= v.words());
                t
            },
            None => [0, 0],
        }
    }

    /// Stores the tangent of corner `vert` of triangle `face` at its vertex,
    /// with the sign of the fourth component flipped, which makes the
    /// handedness that of a right-handed frame.
    pub fn set_tangent_encoded(&mut self, tangent: [u32; 4], face: usize, vert: usize)
        requires
            old(self).corner_valid(face, vert),
            old(self).tangents matches Some(t) && old(self).corner_vertex(face, vert) < t@.len(),
        ensures
            final(self).tangents matches Some(t) && t@ == old(self).tangents->0@.update(
                old(self).corner_vertex(face, vert),
                Vec4 {
                    x: tangent[0],
                    y: tangent[1],
                    z: tangent[2],
                    w: crate::math::negated(tangent[3]),
                },
            ),
            final(self).position == old(self).position,
            final(self).index == old(self).index,
            final(self).name == old(self).name,
            final(self).color == old(self).color,
            final(self).normal == old(self).normal,
            final(self).uv == old(self).uv,
    {
        assert(self.index@.len() <= usize::MAX) by {
            assert(self.index@.len() == self.index.len());
        }
        let index = face_vert_to_index(face, vert);
        let vertex_index = self.index[index] as usize;
        let value = Vec4 {
            x: tangent[0],
            y: tangent[1],
            z: tangent[2],
            w: crate::math::negate(tangent[3]),
        };
        match &mut self.tangents {
            Some(tangents) => {
                tangents.set(vertex_index, value);
            },
            None => {},
        }
    }

    /// Makes room for tangents: if the mesh has both texture coordinates and
    /// normals, every vertex gets a tangent of zero and the result is `true`;
    /// otherwise nothing changes and the result is `false`.
    pub fn reset_tangents(&mut self) -> (ready: bool)
        ensures
            ready == (old(self).uv is Some && old(self).normal is Some),
            !ready ==> *final(self) == *old(self),
            ready ==> {
                &&& final(self).tangents matches Some(t)
                &&& t@.len() == old(self).position@.len()
                &&& forall|i: int| 0 <= i < t@.len() ==> #[trigger] t@[i] == (Vec4 { x: 0, y: 0, z: 0, w: 0 })
                &&& final(self).position == old(self).position
                &&& final(self).index == old(self).index
                &&& final(self).name == old(self).name
                &&& final(self).color == old(self).color
                &&& final(self).normal == old(self).normal
                &&& final(self).uv == old(self).uv
            },
    {
        if self.uv.is_none() || self.normal.is_none() {
            return false;
        }
        self.tangents = Some(zero_tangents(self.position.len()));
        true
    }
}

/// Bit pattern of `0.1`, the width of the triangles of the axis frame.
pub const TENTH_BITS: u32 = 0x3dcc_cccd;

/// `v` with component `axis` (0, 1 or 2) replaced by `value`.
pub open spec fn with_component(v: Vec3, axis: int, value: u32) -> Vec3 {
    if axis == 0 {
        Vec3 { x: value, y: v.y, z: v.z }
    } else if axis == 1 {
        Vec3 { x: v.x, y: value, z: v.z }
    } else {
        Vec3 { x: v.x, y: v.y, z: value }
    }
}

/// The triangle that marks one side of an axis of the frame: a corner at the
/// origin, one at distance `1.0` along `axis`, and one at distance `0.1`
/// along the axis `|alternate_axis| % 3`. A positive `alternate_axis` puts
/// the short corner last, any other first.
pub open spec fn axis_triangle(axis: int, alternate_axis: int) -> Seq<Vec3> {
    let origin = Vec3 { x: 0, y: 0, z: 0 };
    let tip = with_component(origin, axis, crate::math::ONE_BITS);
    if alternate_axis <= 0 {
        seq![with_component(origin, (-alternate_axis) % 3, TENTH_BITS), tip, origin]
    } else {
        seq![origin, tip, with_component(origin, alternate_axis % 3, TENTH_BITS)]
    }
}

/// The eighteen positions of the axis frame: two triangles for each of the
/// x, y and z axes.
pub open spec fn axis_frame_positions() -> Seq<Vec3> {
    axis_triangle(0, 1) + axis_triangle(0, -1) + axis_triangle(1, 2) + axis_triangle(1, -2)
        + axis_triangle(2, 3) + axis_triangle(2, -3)
}

/// The color of the vertices of an axis: red for x, green for y, blue for z.
pub open spec fn axis_color(axis: int) -> Vec4 {
    let one = crate::math::ONE_BITS;
    if axis == 0 {
        Vec4 { x: one, y: 0, z: 0, w: one }
    } else if axis == 1 {
        Vec4 { x: 0, y: one, z: 0, w: one }
    } else {
        Vec4 { x: 0, y: 0, z: one, w: one }
    }
}

/// `v` with component `axis` replaced by `value`.
fn set_component(v: Vec3, axis: usize, value: u32) -> (r: Vec3)
    requires
        axis < 3,
    ensures
        r == with_component(v, axis as int, value),
{
    if axis == 0 {
        Vec3 { x: value, y: v.y, z: v.z }
    } else if axis == 1 {
        Vec3 { x: v.x, y: value, z: v.z }
    } else {
        Vec3 { x: v.x, y: v.y, z: value }
    }
}

/// Appends the triangle of one side of an axis to `position`.
fn push_axis_triangle(position: &mut Vec<Vec3>, axis: usize, alternate_axis: isize)
    requires
        axis < 3,
        -3 <= alternate_axis <= 3,
    ensures
        final(position)@ == old(position)@ + axis_triangle(axis as int, alternate_axis as int),
{
    let origin = Vec3::zero();
    let tip = set_component(origin, axis, crate::math::ONE_BITS);
    if alternate_axis <= 0 {
        let side = (-alternate_axis) as usize % 3;
        position.push(set_component(origin, side, TENTH_BITS));
        position.push(tip);
        position.push(origin);
    } else {
        let side = alternate_axis as usize % 3;
        position.push(origin);
        position.push(tip);
        position.push(set_component(origin, side, TENTH_BITS));
    }
    assert(position@ =~= old(position)@ + axis_triangle(axis as int, alternate_axis as int));
}

impl CpuMesh {
    /// A coordinate frame: for each axis two thin triangles along it, colored
    /// red, green and blue for x, y and z, each vertex used once, with flat
    /// normals.
    pub fn axis_frame() -> (mesh: CpuMesh)
        ensures
            mesh.well_formed(),
            mesh.position@ == axis_frame_positions(),
            mesh.index@ == Seq::new(18, |i: int| i as u32),
            mesh.color matches Some(c) && c@ == Seq::new(18, |i: int| axis_color(i / 6)),
            mesh.normal matches Some(n) && flat_normals(mesh.position@, mesh.index@, n@, 6),
            mesh.name matches Some(name) && name@ == "coordinate_frame"@,
            mesh.uv is None,
            mesh.tangents is None,
    {
        let mut position: Vec<Vec3> = Vec::new();
        push_axis_triangle(&mut position, 0, 1);
        push_axis_triangle(&mut position, 0, -1);
        push_axis_triangle(&mut position, 1, 2);
        push_axis_triangle(&mut position, 1, -2);
        push_axis_triangle(&mut position, 2, 3);
        push_axis_triangle(&mut position, 2, -3);
        assert(position@ =~= axis_frame_positions());

        let one = crate::math::ONE_BITS;
        let mut colors: Vec<Vec4> = Vec::new();
        let mut index: Vec<u32> = Vec::new();
        let mut i: u32 = 0;
        while i < 18
            invariant
                i <= 18,
                one == crate::math::ONE_BITS,
                colors@ == Seq::new(i as nat, |k: int| axis_color(k / 6)),
                index@ == Seq::new(i as nat, |k: int| k as u32),
            decreases 18 - i,
        {
            let color = if i < 6 {
                Vec4 { x: one, y: 0, z: 0, w: one }
            } else if i < 12 {
                Vec4 { x: 0, y: one, z: 0, w: one }
            } else {
                Vec4 { x: 0, y: 0, z: one, w: one }
            };
            colors.push(color);
            index.push(i);
            i += 1;
            assert(colors@ =~= Seq::new(i as nat, |k: int| axis_color(k / 6)));
            assert(index@ =~= Seq::new(i as nat, |k: int| k as u32));
        }

        let mut axis_mesh = CpuMesh {
            index,
            position,
            color: Some(colors),
            normal: None,
            uv: None,
            name: Some(String::from_str("coordinate_frame")),
            tangents: None,
        };
        axis_mesh.calculate_normals();
        axis_mesh
    }
}

/// The largest entry of a list of indices; 0 for the empty list.
pub open spec fn max_index(index: Seq<u32>) -> int
    decreases index.len(),
{
    if index.len() == 0 {
        0
    } else {
        let rest = max_index(index.drop_last());
        if index.last() as int > rest {
            index.last() as int
        } else {
            rest
        }
    }
}

/// The largest entry of a non-empty list is below every bound that all
/// entries are below.
pub proof fn lemma_max_index_below(index: Seq<u32>, bound: int)
    requires
        index.len() > 0,
        forall|i: int| 0 <= i < index.len() ==> (#[trigger] index[i] as int) < bound,
    ensures
        max_index(index) < bound,
    decreases index.len(),
{
    if index.len() > 1 {
        let rest = index.drop_last();
        assert forall|i: int| 0 <= i < rest.len() implies (#[trigger] rest[i] as int) < bound by {
            assert(rest[i] == index[i]);
        }
        lemma_max_index_below(rest, bound);
    } else {
        assert(index.drop_last().len() == 0);
        assert(max_index(index.drop_last()) == 0);
    }
}

/// In a well-formed mesh with indices, the largest index names a vertex.
pub proof fn lemma_index_bounds(mesh: &CpuMesh)
    requires
        mesh.well_formed(),
        mesh.index@.len() > 0,
    ensures
        max_index(mesh.index@) < mesh.position@.len(),
{
    lemma_max_index_below(mesh.index@, mesh.position@.len() as int);
}

} // verus!
