//! The layout of the structs that host and shader share, and the check that
//! both sides agree on it.

use vstd::prelude::*;
use vstd::string::*;

verus! {

/// One field of a struct of the host: its name and its offset in bytes.
#[derive(Clone, Debug, PartialEq, Eq)]
pub struct FieldLayout {
    pub name: String,
    pub offset: u32,
}

/// The layout of a struct of the host: its name, its size in bytes and its
/// fields.
#[derive(Clone, Debug, PartialEq, Eq)]
pub struct StructLayout {
    pub name: String,
    pub size: u32,
    pub fields: Vec<FieldLayout>,
}

/// One member of a struct as the shader declares it.
#[derive(Clone, Debug, PartialEq, Eq)]
pub struct ShaderMember {
    pub name: Option<String>,
    pub offset: u32,
}

/// How host and shader disagree on a struct.
#[derive(Clone, Copy, Debug, PartialEq, Eq, Structural)]
pub enum LayoutError {
    /// The sizes differ.
    SizeMismatch { host: u32, shader: u32 },
    /// The shader has no member of the name of this field of the host.
    MissingField { field: usize },
    /// The shader has the member of this field at another offset.
    OffsetMismatch { field: usize, host: u32, shader: u32 },
}

/// Whether member `i` has the name `name`.
pub open spec fn member_named(members: Seq<ShaderMember>, name: Seq<char>, i: int) -> bool {
    members[i].name matches Some(n) && n@ == name
}

/// The first of the first `n` members that has the name of `field` and
/// another offset; -1 if there is none.
pub open spec fn first_conflict(members: Seq<ShaderMember>, field: FieldLayout, n: int) -> int
    decreases n,
{
    if n <= 0 {
        -1
    } else if first_conflict(members, field, n - 1) >= 0 {
        first_conflict(members, field, n - 1)
    } else if member_named(members, field.name@, n - 1) && members[n - 1].offset != field.offset {
        n - 1
    } else {
        -1
    }
}

/// Whether one of the first `n` members has the name `name`.
pub open spec fn has_member(members: Seq<ShaderMember>, name: Seq<char>, n: int) -> bool
    decreases n,
{
    if n <= 0 {
        false
    } else {
        has_member(members, name, n - 1) || member_named(members, name, n - 1)
    }
}

/// What is wrong with field `index` of the host, if anything: a member of
/// its name at another offset, or no member of its name at all.
pub open spec fn field_error(members: Seq<ShaderMember>, field: FieldLayout, index: usize) -> Option<
    LayoutError,
> {
    let conflict = first_conflict(members, field, members.len() as int);
    if conflict >= 0 {
        Some(
            LayoutError::OffsetMismatch {
                field: index,
                host: field.offset,
                shader: members[conflict].offset,
            },
        )
    } else if !has_member(members, field.name@, members.len() as int) {
        Some(LayoutError::MissingField { field: index })
    } else {
        None
    }
}

/// The error of the first of the first `n` fields that has one.
pub open spec fn first_field_error(members: Seq<ShaderMember>, fields: Seq<FieldLayout>, n: int) -> Option<
    LayoutError,
>
    decreases n,
{
    if n <= 0 {
        None
    } else if first_field_error(members, fields, n - 1) is Some {
        first_field_error(members, fields, n - 1)
    } else {
        field_error(members, fields[n - 1], (n - 1) as usize)
    }
}

/// How host and shader disagree on a struct, if they do: on the size, or on
/// the first field on which they do.
pub open spec fn layout_error(host: &StructLayout, span: u32, members: Seq<ShaderMember>) -> Option<
    LayoutError,
> {
    if host.size != span {
        Some(LayoutError::SizeMismatch { host: host.size, shader: span })
    } else {
        first_field_error(members, host.fields@, host.fields@.len() as int)
    }
}

/// Once an error is found among the first `n` fields, it is the error of
/// every longer prefix.
pub proof fn lemma_field_error_stays(members: Seq<ShaderMember>, fields: Seq<FieldLayout>, n: int, m: int)
    requires
        n <= m,
        first_field_error(members, fields, n) is Some,
    ensures
        first_field_error(members, fields, m) == first_field_error(members, fields, n),
    decreases m - n,
{
    if n < m {
        lemma_field_error_stays(members, fields, n, m - 1);
    }
}

/// Checks one field of the host against the members of the shader.
pub fn verify_field(field: &FieldLayout, index: usize, members: &Vec<ShaderMember>) -> (result: Result<
    (),
    LayoutError,
>)
    ensures
        result == (match field_error(members@, *field, index) {
            Some(e) => Err::<(), LayoutError>(e),
            None => Ok::<(), LayoutError>(()),
        }),
{
    let mut found = false;
    let mut i: usize = 0;
    while i < members.len()
        invariant
            i <= members.len(),
            first_conflict(members@, *field, i as int) < 0,
            found == has_member(members@, field.name@, i as int),
        decreases members.len() - i,
    {
        let named = match &members[i].name {
            Some(n) => *n == field.name,
            None => false,
        };
        if named {
            if members[i].offset != field.offset {
                proof {
                    lemma_conflict_stays(members@, *field, i as int + 1, members@.len() as int);
                }
                return Err(
                    LayoutError::OffsetMismatch {
                        field: index,
                        host: field.offset,
                        shader: members[i].offset,
                    },
                );
            }
            found = true;
        }
        i += 1;
    }
    if !found {
        return Err(LayoutError::MissingField { field: index });
    }
    Ok(())
}

/// A conflict found among the first `n` members is the first among any
/// more.
pub proof fn lemma_conflict_stays(members: Seq<ShaderMember>, field: FieldLayout, n: int, m: int)
    requires
        n <= m,
        first_conflict(members, field, n) >= 0,
    ensures
        first_conflict(members, field, m) == first_conflict(members, field, n),
    decreases m - n,
{
    if n < m {
        lemma_conflict_stays(members, field, n, m - 1);
    }
}

/// Checks that the shader's struct of size `span` with `members` is laid
/// out as `host`: the sizes are equal, and every field of the host has a
/// member of its name at its offset.
pub fn verify_struct_layout(host: &StructLayout, span: u32, members: &Vec<ShaderMember>) -> (result:
    Result<(), LayoutError>)
    ensures
        result == (match layout_error(host, span, members@) {
            Some(e) => Err::<(), LayoutError>(e),
            None => Ok::<(), LayoutError>(()),
        }),
{
    if host.size != span {
        return Err(LayoutError::SizeMismatch { host: host.size, shader: span });
    }
    let mut i: usize = 0;
    while i < host.fields.len()
        invariant
            i <= host.fields.len(),
            host.size == span,
            first_field_error(members@, host.fields@, i as int) is None,
        decreases host.fields.len() - i,
    {
        match verify_field(&host.fields[i], i, members) {
            Ok(()) => {},
            Err(e) => {
                proof {
                    lemma_field_error_stays(
                        members@,
                        host.fields@,
                        i as int + 1,
                        host.fields@.len() as int,
                    );
                }
                return Err(e);
            },
        }
        i += 1;
    }
    Ok(())
}

/// That `layout` has the given name and size and exactly the given fields.
pub open spec fn layout_is(
    layout: &StructLayout,
    name: Seq<char>,
    size: u32,
    fields: Seq<(Seq<char>, u32)>,
) -> bool {
    &&& layout.name@ == name
    &&& layout.size == size
    &&& layout.fields@.len() == fields.len()
    &&& forall|i: int|
        0 <= i < fields.len() ==> (#[trigger] layout.fields@[i]).name@ == fields[i].0
            && layout.fields@[i].offset == fields[i].1
}

/// Appends a field to a list of fields.
fn push_field(fields: &mut Vec<FieldLayout>, name: &str, offset: u32)
    ensures
        final(fields)@.len() == old(fields)@.len() + 1,
        forall|i: int| 0 <= i < old(fields)@.len() ==> final(fields)@[i] == old(fields)@[i],
        final(fields)@[old(fields)@.len() as int].name@ == name@,
        final(fields)@[old(fields)@.len() as int].offset == offset,
{
    fields.push(FieldLayout { name: String::from_str(name), offset });
}

/// The layout of a light: sixteen words.
pub fn light_layout() -> (layout: StructLayout)
    ensures
        layout_is(
            &layout,
            "Light"@,
            64,
            seq![
                ("position"@, 0u32),
                ("direction"@, 16u32),
                ("color"@, 32u32),
                ("intensity"@, 44u32),
                ("light_type"@, 48u32),
            ],
        ),
{
    let mut fields: Vec<FieldLayout> = Vec::new();
    push_field(&mut fields, "position", 0);
    push_field(&mut fields, "direction", 16);
    push_field(&mut fields, "color", 32);
    push_field(&mut fields, "intensity", 44);
    push_field(&mut fields, "light_type", 48);
    StructLayout { name: String::from_str("Light"), size: 64, fields }
}

/// The layout of the view uniform: twenty words.
pub fn view_uniform_layout() -> (layout: StructLayout)
    ensures
        layout_is(
            &layout,
            "ViewUniform"@,
            80,
            seq![("view_proj"@, 0u32), ("camera_world_position"@, 64u32)],
        ),
{
    let mut fields: Vec<FieldLayout> = Vec::new();
    push_field(&mut fields, "view_proj", 0);
    push_field(&mut fields, "camera_world_position", 64);
    StructLayout { name: String::from_str("ViewUniform"), size: 80, fields }
}

/// The layout of the role uniform of a texture set: five words.
pub fn texture_uniform_layout() -> (layout: StructLayout)
    ensures
        layout_is(
            &layout,
            "TextureUniform"@,
            20,
            seq![
                ("base_color"@, 0u32),
                ("metallic_roughness"@, 4u32),
                ("occlusion"@, 8u32),
                ("normal"@, 12u32),
                ("emissive"@, 16u32),
            ],
        ),
{
    let mut fields: Vec<FieldLayout> = Vec::new();
    push_field(&mut fields, "base_color", 0);
    push_field(&mut fields, "metallic_roughness", 4);
    push_field(&mut fields, "occlusion", 8);
    push_field(&mut fields, "normal", 12);
    push_field(&mut fields, "emissive", 16);
    StructLayout { name: String::from_str("TextureUniform"), size: 20, fields }
}

/// The layout of the presence flags of a mesh object: three words.
pub fn mesh_object_meta_layout() -> (layout: StructLayout)
    ensures
        layout_is(
            &layout,
            "MeshObjectMetaUniform"@,
            12,
            seq![("color_present"@, 0u32), ("normal_present"@, 4u32), ("uv_present"@, 8u32)],
        ),
{
    let mut fields: Vec<FieldLayout> = Vec::new();
    push_field(&mut fields, "color_present", 0);
    push_field(&mut fields, "normal_present", 4);
    push_field(&mut fields, "uv_present", 8);
    StructLayout { name: String::from_str("MeshObjectMetaUniform"), size: 12, fields }
}

/// The sizes of the layouts are those of the words that go to the device,
/// four bytes to the word, and the fields stand at their offsets.
pub proof fn lemma_layout_sizes(
    light: crate::lights::Light,
    view: crate::view::ViewUniform,
    textures: crate::texture::TextureUniform,
    meta: crate::mesh_object::MeshObjectMetaUniform,
)
    ensures
        4 * light.words().len() == 64,
        light.words().subrange(0, 3) == seq![light.position.x, light.position.y, light.position.z],
        light.words().subrange(4, 7) == seq![light.direction.x, light.direction.y, light.direction.z],
        light.words().subrange(8, 11) == light.color.words(),
        light.words()[11] == light.intensity,
        light.words()[12] == light.light_type.tag(),
        4 * view.words().len() == 80,
        view.words().subrange(0, 16) == view.view_proj.words(),
        view.words().subrange(16, 19) == view.camera_world_position.words(),
        4 * textures.words().len() == 20,
        textures.words()[0] == textures.base_color,
        textures.words()[1] == textures.metallic_roughness,
        textures.words()[2] == textures.occlusion,
        textures.words()[3] == textures.normal,
        textures.words()[4] == textures.emissive,
        4 * meta.words().len() == 12,
        meta.words()[0] == meta.color_present,
        meta.words()[1] == meta.normal_present,
        meta.words()[2] == meta.uv_present,
{
    assert(light.words().subrange(0, 3) =~= seq![light.position.x, light.position.y, light.position.z]);
    assert(light.words().subrange(4, 7) =~= seq![
        light.direction.x,
        light.direction.y,
        light.direction.z,
    ]);
    assert(light.words().subrange(8, 11) =~= light.color.words());
    assert(view.view_proj.words().len() == 16);
    assert(view.words().subrange(0, 16) =~= view.view_proj.words());
    assert(view.words().subrange(16, 19) =~= view.camera_world_position.words());
}

} // verus!
