//! Loading a whole document: decode the meshes, load the textures, walk the
//! hierarchy and build one textured mesh object for every node that shows a
//! mesh.

use std::collections::VecDeque;
use vstd::prelude::*;
use crate::hierarchy::{
    child_visits, emitted, expand, first_visit_error, lemma_error_stays_from_level,
    lemma_expand_step, lemma_levels_stay_empty, lemma_push_visit, level, material_roles,
    object_roles, root_visits, visit_error, visits_below, world_transform, Visit,
};
use crate::loader::{
    decoded_from, first_mesh_error, first_texture_error, load_gltf_meshes, load_textures,
    mesh_error, meshes_decoded, meshes_with_primitive, texture_of_image, textures_loaded,
    LoadError,
};
use crate::math::Mat4;
use crate::mesh::CpuMesh;
use crate::mesh_object::MeshObject;
use crate::mesh_object_textured::MeshObjectTextured;
use crate::scene::{AlphaMode, Document, Material};
use crate::texture::{SampledTexture, TextureType};

verus! {

/// A node that waits to be walked, with the transform handed down to it.
#[derive(Clone, Copy, Debug, PartialEq, Eq)]
pub struct PendingNode {
    pub node: usize,
    pub transform: Mat4,
}

/// That `pending` holds exactly `visits`, in order.
pub open spec fn pending_matches(pending: Seq<PendingNode>, visits: Seq<Visit>) -> bool {
    &&& pending.len() == visits.len()
    &&& forall|i: int|
        0 <= i < pending.len() ==> (#[trigger] pending[i]).node == visits[i].node
            && pending[i].transform@ == visits[i].parent
}

/// That `object` is the object of `visit`: it is up to date on the device;
/// its one instance is the world transform of the node; its mesh is what
/// the device holds for the mesh decoded from the node's mesh; and its
/// textures are the placeholder followed by those of the material, each
/// with its image, its sampler and its role.
pub open spec fn object_of(document: &Document, object: &MeshObjectTextured, visit: Visit) -> bool {
    let m = document.nodes@[visit.node].mesh->0 as int;
    let roles = object_roles(document, m);
    &&& object.well_formed()
    &&& object.mesh_object.instances@.len() == 1
    &&& object.mesh_object.instances@[0]@ == world_transform(document, visit)
    &&& exists|cpu: CpuMesh|
        decoded_from(&cpu, &document.meshes@[m].primitives@[0], &document.meshes@[m].name)
            && #[trigger] object.mesh_object.gpu_mesh.mirrors(&cpu)
    &&& object.cpu_textures.textures@.len() == roles.len() + 1
    &&& object.cpu_textures.textures@[0].texture.is_placeholder()
    &&& forall|j: int|
        0 <= j < roles.len() ==> {
            let t = #[trigger] object.cpu_textures.textures@[j + 1];
            let source = document.textures@[roles[j].0 as int];
            &&& t.texture_type == roles[j].1
            &&& texture_of_image(&t.texture, &source.image)
            &&& t.sampler == source.sampler.descriptor()
        }
}

/// That `objects` are the objects of `visits`, in order.
pub open spec fn objects_match(
    document: &Document,
    objects: Seq<MeshObjectTextured>,
    visits: Seq<Visit>,
) -> bool {
    &&& objects.len() == visits.len()
    &&& forall|i: int| 0 <= i < objects.len() ==> object_of(document, #[trigger] &objects[i], visits[i])
}

/// What loading a document comes to: the first error among the meshes, else
/// the first among the textures, else the first among the nodes walked; an
/// error if the hierarchy goes deeper than the document has nodes; else the
/// visits that yield an object, level by level.
pub open spec fn load_outcome(document: &Document) -> Result<Seq<Visit>, LoadError> {
    let n = document.nodes@.len();
    let mesh_err = first_mesh_error(document.meshes@, document.meshes@.len() as int);
    let texture_err = first_texture_error(document.textures@, document.textures@.len() as int);
    let visit_err = first_visit_error(document, visits_below(document, n));
    if mesh_err is Some {
        Err(mesh_err->0)
    } else if texture_err is Some {
        Err(texture_err->0)
    } else if visit_err is Some {
        Err(visit_err->0)
    } else if level(document, n).len() > 0 {
        Err(LoadError::CyclicHierarchy)
    } else {
        Ok(emitted(document, visits_below(document, n)))
    }
}

/// That `chosen` are the textures that `roles` asks for out of `loaded`,
/// each with its role.
pub open spec fn textures_chosen(
    chosen: Seq<SampledTexture>,
    roles: Seq<(usize, TextureType)>,
    loaded: Seq<SampledTexture>,
) -> bool {
    &&& chosen.len() == roles.len()
    &&& forall|j: int|
        0 <= j < chosen.len() ==> {
            let t = #[trigger] chosen[j];
            &&& t.texture_type == roles[j].1
            &&& t.texture.same_as(&loaded[roles[j].0 as int].texture)
            &&& t.sampler == loaded[roles[j].0 as int].sampler
        }
}

/// Appends the texture of one role, if the material has it.
fn push_role(
    chosen: &mut Vec<SampledTexture>,
    reference: Option<usize>,
    role: TextureType,
    loaded: &Vec<SampledTexture>,
    Ghost(roles): Ghost<Seq<(usize, TextureType)>>,
)
    requires
        crate::scene::reference_in_range(reference, loaded@.len()),
        textures_chosen(old(chosen)@, roles, loaded@),
    ensures
        textures_chosen(
            final(chosen)@,
            roles + (match reference {
                Some(t) => seq![(t, role)],
                None => Seq::empty(),
            }),
            loaded@,
        ),
{
    match reference {
        Some(texture_index) => {
            let with_sampler = loaded[texture_index].with_role(role);
            let ghost before = chosen@;
            chosen.push(with_sampler);
            proof {
                let extended = roles + seq![(texture_index, role)];
                assert forall|j: int| 0 <= j < chosen@.len() implies ({
                    let t = #[trigger] chosen@[j];
                    &&& t.texture_type == extended[j].1
                    &&& t.texture.same_as(&loaded@[extended[j].0 as int].texture)
                    &&& t.sampler == loaded@[extended[j].0 as int].sampler
                }) by {
                    if j < before.len() {
                        assert(chosen@[j] == before[j]);
                        assert(extended[j] == roles[j]);
                    }
                }
            }
        },
        None => {
            assert(roles + Seq::<(usize, TextureType)>::empty() =~= roles);
        },
    }
}

/// The textures that a material gives to an object, out of the loaded
/// textures of the document: for each role that the material has, a copy of
/// the texture with that role.
pub fn material_textures(material: &Material, loaded: &Vec<SampledTexture>) -> (chosen: Vec<
    SampledTexture,
>)
    requires
        material.references_valid(loaded@.len()),
    ensures
        textures_chosen(chosen@, material_roles(material), loaded@),
{
    let mut chosen: Vec<SampledTexture> = Vec::new();
    let ghost none = Seq::<(usize, TextureType)>::empty();
    let ghost r1 = none + (match material.emissive_texture {
        Some(t) => seq![(t, TextureType::Emissive)],
        None => none,
    });
    let ghost r2 = r1 + (match material.base_color_texture {
        Some(t) => seq![(t, TextureType::BaseColor)],
        None => none,
    });
    let ghost r3 = r2 + (match material.metallic_roughness_texture {
        Some(t) => seq![(t, TextureType::MetallicRoughness)],
        None => none,
    });
    let ghost r4 = r3 + (match material.normal_texture {
        Some(t) => seq![(t, TextureType::Normal)],
        None => none,
    });
    push_role(&mut chosen, material.emissive_texture, TextureType::Emissive, loaded, Ghost(none));
    push_role(&mut chosen, material.base_color_texture, TextureType::BaseColor, loaded, Ghost(r1));
    push_role(
        &mut chosen,
        material.metallic_roughness_texture,
        TextureType::MetallicRoughness,
        loaded,
        Ghost(r2),
    );
    push_role(&mut chosen, material.normal_texture, TextureType::Normal, loaded, Ghost(r3));
    push_role(&mut chosen, material.occlusion_texture, TextureType::Occlusion, loaded, Ghost(r4));
    proof {
        assert(r1 =~= (match material.emissive_texture {
            Some(t) => seq![(t, TextureType::Emissive)],
            None => none,
        }));
        assert(r4 + (match material.occlusion_texture {
            Some(t) => seq![(t, TextureType::Occlusion)],
            None => none,
        }) =~= material_roles(material));
    }
    chosen
}

/// Every mesh among the first `n` that has a primitive is listed.
pub proof fn lemma_mesh_listed(meshes: Seq<crate::scene::Mesh>, n: int, m: int)
    requires
        0 <= m < n,
        meshes[m].primitives@.len() > 0,
    ensures
        exists|k: int|
            0 <= k < meshes_with_primitive(meshes, n).len() && #[trigger] meshes_with_primitive(
                meshes,
                n,
            )[k] == m,
    decreases n,
{
    if m == n - 1 {
        let k = meshes_with_primitive(meshes, n - 1).len() as int;
        assert(meshes_with_primitive(meshes, n)[k] == m);
    } else {
        lemma_mesh_listed(meshes, n - 1, m);
        let k = choose|k: int|
            0 <= k < meshes_with_primitive(meshes, n - 1).len() && #[trigger] meshes_with_primitive(
                meshes,
                n - 1,
            )[k] == m;
        assert(meshes_with_primitive(meshes, n)[k] == m);
    }
}

/// Where no mesh among the first `n` has an error, none of them has.
pub proof fn lemma_no_mesh_error(meshes: Seq<crate::scene::Mesh>, n: int, m: int)
    requires
        0 <= m < n,
        first_mesh_error(meshes, n) is None,
    ensures
        mesh_error(&meshes[m]) is None,
    decreases n,
{
    if m < n - 1 {
        lemma_no_mesh_error(meshes, n - 1, m);
    }
}

/// The place of the mesh with index `mesh_index` among the decoded meshes.
fn find_mesh(decoded: &Vec<(usize, CpuMesh)>, mesh_index: usize) -> (found: Option<usize>)
    ensures
        match found {
            Some(k) => k < decoded@.len() && decoded@[k as int].0 == mesh_index,
            None => forall|k: int| 0 <= k < decoded@.len() ==> (#[trigger] decoded@[k]).0 != mesh_index,
        },
{
    let mut k: usize = 0;
    while k < decoded.len()
        invariant
            k <= decoded.len(),
            forall|j: int| 0 <= j < k ==> (#[trigger] decoded@[j]).0 != mesh_index,
        decreases decoded.len() - k,
    {
        if decoded[k].0 == mesh_index {
            return Some(k);
        }
        k += 1;
    }
    None
}

/// The place among the decoded meshes of the mesh with index `mesh_index`,
/// which it has exactly if the mesh has a primitive.
fn locate_mesh(document: &Document, decoded: &Vec<(usize, CpuMesh)>, mesh_index: usize) -> (found:
    Option<usize>)
    requires
        mesh_index < document.meshes@.len(),
        first_mesh_error(document.meshes@, document.meshes@.len() as int) is None,
        meshes_decoded(document.meshes@, decoded@, document.meshes@.len() as int),
    ensures
        match found {
            Some(k) => {
                &&& k < decoded@.len()
                &&& decoded@[k as int].0 == mesh_index
                &&& document.meshes@[mesh_index as int].primitives@.len() == 1
                &&& decoded_from(
                    &decoded@[k as int].1,
                    &document.meshes@[mesh_index as int].primitives@[0],
                    &document.meshes@[mesh_index as int].name,
                )
                &&& decoded@[k as int].1.index@.len() <= u32::MAX
            },
            None => document.meshes@[mesh_index as int].primitives@.len() == 0,
        },
{
    let found = find_mesh(decoded, mesh_index);
    proof {
        let n = document.meshes@.len() as int;
        lemma_no_mesh_error(document.meshes@, n, mesh_index as int);
        match found {
            Some(k) => {
                assert(decoded@[k as int].0 == mesh_index);
            },
            None => {
                if document.meshes@[mesh_index as int].primitives@.len() > 0 {
                    lemma_mesh_listed(document.meshes@, n, mesh_index as int);
                    let listed = meshes_with_primitive(document.meshes@, n);
                    let at = choose|at: int| 0 <= at < listed.len() && #[trigger] listed[at] == mesh_index;
                    assert(decoded@[at].0 == listed[at]);
                }
            },
        }
    }
    found
}

/// The textures of the object of a node that shows mesh `mesh_index`. A
/// material that is not opaque is refused.
fn resolve_textures(document: &Document, loaded: &Vec<SampledTexture>, mesh_index: usize) -> (result:
    Result<Vec<SampledTexture>, LoadError>)
    requires
        document.well_formed(),
        mesh_index < document.meshes@.len(),
        document.meshes@[mesh_index as int].primitives@.len() == 1,
        loaded@.len() == document.textures@.len(),
    ensures
        match result {
            Ok(chosen) => {
                &&& textures_chosen(chosen@, object_roles(document, mesh_index as int), loaded@)
                &&& (document.meshes@[mesh_index as int].primitives@[0].material matches Some(k)
                    ==> document.materials@[k as int].alpha_mode == AlphaMode::Opaque)
            },
            Err(e) => {
                &&& e == LoadError::NonOpaqueMaterial
                &&& document.meshes@[mesh_index as int].primitives@[0].material matches Some(k)
                &&& document.materials@[k as int].alpha_mode != AlphaMode::Opaque
            },
        },
{
    assert(document.meshes@[mesh_index as int].references_valid(document.materials@.len()));
    let primitive = &document.meshes[mesh_index].primitives[0];
    match primitive.material {
        Some(material_index) => {
            assert(crate::scene::reference_in_range(
                document.meshes@[mesh_index as int].primitives@[0].material,
                document.materials@.len(),
            ));
            let this_material = &document.materials[material_index];
            match this_material.alpha_mode {
                AlphaMode::Opaque => {},
                _ => {
                    return Err(LoadError::NonOpaqueMaterial);
                },
            }
            assert(document.materials@[material_index as int].references_valid(
                document.textures@.len(),
            ));
            Ok(material_textures(this_material, loaded))
        },
        None => Ok(Vec::new()),
    }
}

/// The object that draws `cpu` once, at `world`, with `textures`.
fn build_object(cpu: &CpuMesh, world: &Mat4, textures: &Vec<SampledTexture>) -> (object:
    MeshObjectTextured)
    ensures
        object.well_formed(),
        object.mesh_object.instances@ == seq![*world],
        object.mesh_object.gpu_mesh.mirrors(cpu),
        object.cpu_textures.textures@.len() == textures@.len() + 1,
        object.cpu_textures.textures@[0].texture.is_placeholder(),
        forall|j: int|
            0 <= j < textures@.len() ==> (#[trigger] object.cpu_textures.textures@[j + 1]).same_as(
                &textures@[j],
            ),
{
    let gpu_mesh = cpu.to_gpu();
    let mut mesh_object = MeshObject::new(gpu_mesh);
    mesh_object.set_single_transform(world);
    mesh_object.replace_gpu_data();
    MeshObjectTextured::new(mesh_object, textures.as_slice())
}

/// An object built from the decoded mesh and the chosen textures of a
/// visited node is the object of the visit.
proof fn lemma_object_of(
    document: &Document,
    object: &MeshObjectTextured,
    visit: Visit,
    cpu: &CpuMesh,
    world: Mat4,
    chosen: Seq<SampledTexture>,
    loaded: Seq<SampledTexture>,
)
    requires
        document.nodes@[visit.node].mesh matches Some(m) && decoded_from(
            cpu,
            &document.meshes@[m as int].primitives@[0],
            &document.meshes@[m as int].name,
        ) && textures_chosen(chosen, object_roles(document, m as int), loaded),
        textures_loaded(document.textures@, loaded, document.textures@.len() as int),
        forall|j: int|
            0 <= j < object_roles(document, document.nodes@[visit.node].mesh->0 as int).len() ==> (
            #[trigger] object_roles(document, document.nodes@[visit.node].mesh->0 as int)[j]).0
                < document.textures@.len(),
        world@ == world_transform(document, visit),
        object.well_formed(),
        object.mesh_object.instances@ == seq![world],
        object.mesh_object.gpu_mesh.mirrors(cpu),
        object.cpu_textures.textures@.len() == chosen.len() + 1,
        object.cpu_textures.textures@[0].texture.is_placeholder(),
        forall|j: int|
            0 <= j < chosen.len() ==> (#[trigger] object.cpu_textures.textures@[j + 1]).same_as(
                &chosen[j],
            ),
    ensures
        object_of(document, object, visit),
{
    let m = document.nodes@[visit.node].mesh->0 as int;
    let roles = object_roles(document, m);
    assert forall|j: int| 0 <= j < roles.len() implies ({
        let t = #[trigger] object.cpu_textures.textures@[j + 1];
        let from = document.textures@[roles[j].0 as int];
        &&& t.texture_type == roles[j].1
        &&& texture_of_image(&t.texture, &from.image)
        &&& t.sampler == from.sampler.descriptor()
    }) by {
        assert(object.cpu_textures.textures@[j + 1].same_as(&chosen[j]));
        assert(chosen[j].texture.same_as(&loaded[roles[j].0 as int].texture));
        assert(roles[j].0 < document.textures@.len());
        assert(crate::loader::texture_loaded(
            &loaded[roles[j].0 as int],
            &document.textures@[roles[j].0 as int],
        ));
    }
}

/// Every texture that the object of a mesh asks for exists.
proof fn lemma_roles_in_range(document: &Document, mesh: int)
    requires
        document.well_formed(),
        0 <= mesh < document.meshes@.len(),
        document.meshes@[mesh].primitives@.len() == 1,
    ensures
        forall|j: int|
            0 <= j < object_roles(document, mesh).len() ==> (#[trigger] object_roles(
                document,
                mesh,
            )[j]).0 < document.textures@.len(),
{
    assert(document.meshes@[mesh].references_valid(document.materials@.len()));
    match document.meshes@[mesh].primitives@[0].material {
        Some(k) => {
            assert(crate::scene::reference_in_range(
                document.meshes@[mesh].primitives@[0].material,
                document.materials@.len(),
            ));
            assert(document.materials@[k as int].references_valid(document.textures@.len()));
        },
        None => {},
    }
}

/// Builds the object of a visited node that shows mesh `mesh_index`, with
/// `world` as its one instance.
fn show_node(
    document: &Document,
    decoded: &Vec<(usize, CpuMesh)>,
    loaded: &Vec<SampledTexture>,
    mesh_index: usize,
    world: &Mat4,
    Ghost(visit): Ghost<Visit>,
) -> (result: Result<MeshObjectTextured, LoadError>)
    requires
        document.well_formed(),
        first_mesh_error(document.meshes@, document.meshes@.len() as int) is None,
        meshes_decoded(document.meshes@, decoded@, document.meshes@.len() as int),
        textures_loaded(document.textures@, loaded@, document.textures@.len() as int),
        0 <= visit.node < document.nodes@.len(),
        document.nodes@[visit.node].mesh == Some(mesh_index),
        world@ == world_transform(document, visit),
    ensures
        match result {
            Ok(object) => visit_error(document, visit) is None && object_of(document, &object, visit),
            Err(e) => visit_error(document, visit) == Some(e),
        },
{
    assert(document.nodes@[visit.node].references_valid(
        document.nodes@.len(),
        document.meshes@.len(),
    ));
    let k = match locate_mesh(document, decoded, mesh_index) {
        Some(k) => k,
        None => {
            return Err(LoadError::MeshNotFound);
        },
    };
    let this_primitive_textures = match resolve_textures(document, loaded, mesh_index) {
        Ok(chosen) => chosen,
        Err(e) => {
            return Err(e);
        },
    };
    let object = build_object(&decoded[k].1, world, &this_primitive_textures);
    proof {
        lemma_roles_in_range(document, mesh_index as int);
        lemma_object_of(
            document,
            &object,
            visit,
            &decoded@[k as int].1,
            *world,
            this_primitive_textures@,
            loaded@,
        );
    }
    Ok(object)
}

/// The worklist at the start: the roots of the document, each with the
/// identity handed down.
fn pending_roots(document: &Document) -> (pending: VecDeque<PendingNode>)
    ensures
        pending_matches(pending@, root_visits(document)),
{
    let mut pending: VecDeque<PendingNode> = VecDeque::new();
    let mut i: usize = 0;
    while i < document.roots.len()
        invariant
            i <= document.roots.len(),
            pending_matches(pending@, root_visits(document).take(i as int)),
        decreases document.roots.len() - i,
    {
        let root = PendingNode { node: document.roots[i], transform: Mat4::identity() };
        let ghost before = pending@;
        pending.push_back(root);
        i += 1;
        assert forall|k: int| 0 <= k < pending@.len() implies (#[trigger] pending@[k]).node
            == root_visits(document).take(i as int)[k].node && pending@[k].transform@
            == root_visits(document).take(i as int)[k].parent by {
            if k < before.len() {
                assert(pending@[k] == before[k]);
                assert(root_visits(document).take(i as int)[k] == root_visits(document).take(
                    i as int - 1,
                )[k]);
            }
        }
    }
    assert(root_visits(document).take(document.roots@.len() as int) =~= root_visits(document));
    pending
}

/// That every visit is of a node of the document.
pub open spec fn visits_in_range(document: &Document, visits: Seq<Visit>) -> bool {
    forall|i: int| 0 <= i < visits.len() ==> 0 <= (#[trigger] visits[i]).node < document.nodes@.len()
}

/// In a well-formed document every level holds nodes of the document.
pub proof fn lemma_level_in_range(document: &Document, k: nat)
    requires
        document.well_formed(),
    ensures
        visits_in_range(document, level(document, k)),
    decreases k,
{
    if k > 0 {
        lemma_level_in_range(document, (k - 1) as nat);
        lemma_expand_in_range(document, level(document, (k - 1) as nat));
    }
}

/// The children of nodes of a well-formed document are nodes of it.
pub proof fn lemma_expand_in_range(document: &Document, visits: Seq<Visit>)
    requires
        document.well_formed(),
        visits_in_range(document, visits),
    ensures
        visits_in_range(document, expand(document, visits)),
    decreases visits.len(),
{
    if visits.len() > 0 {
        let rest = visits.drop_last();
        assert(visits_in_range(document, rest)) by {
            assert forall|i: int| 0 <= i < rest.len() implies 0 <= (#[trigger] rest[i]).node
                < document.nodes@.len() by {
                assert(rest[i] == visits[i]);
            }
        }
        lemma_expand_in_range(document, rest);
        let last = visits.last();
        assert(document.nodes@[last.node].references_valid(
            document.nodes@.len(),
            document.meshes@.len(),
        ));
        let all = expand(document, visits);
        assert forall|i: int| 0 <= i < all.len() implies 0 <= (#[trigger] all[i]).node
            < document.nodes@.len() by {
            let head = expand(document, rest);
            if i < head.len() {
                assert(all[i] == head[i]);
            } else {
                assert(all[i] == child_visits(document, last)[i - head.len()]);
            }
        }
    }
}

/// Walks one visit: computes the world transform of its node, builds its
/// object if it shows a mesh, and puts its children at the back of the
/// worklist.
fn walk_visit(
    document: &Document,
    decoded: &Vec<(usize, CpuMesh)>,
    loaded: &Vec<SampledTexture>,
    pending: PendingNode,
    output: &mut Vec<MeshObjectTextured>,
    stack: &mut VecDeque<PendingNode>,
    Ghost(visit): Ghost<Visit>,
    Ghost(walked): Ghost<Seq<Visit>>,
    Ghost(queued): Ghost<Seq<Visit>>,
) -> (result: Result<(), LoadError>)
    requires
        document.well_formed(),
        first_mesh_error(document.meshes@, document.meshes@.len() as int) is None,
        meshes_decoded(document.meshes@, decoded@, document.meshes@.len() as int),
        textures_loaded(document.textures@, loaded@, document.textures@.len() as int),
        0 <= visit.node < document.nodes@.len(),
        pending.node == visit.node,
        pending.transform@ == visit.parent,
        first_visit_error(document, walked) is None,
        objects_match(document, old(output)@, emitted(document, walked)),
        pending_matches(old(stack)@, queued),
    ensures
        match result {
            Ok(()) => {
                &&& first_visit_error(document, walked.push(visit)) is None
                &&& objects_match(document, final(output)@, emitted(document, walked.push(visit)))
                &&& pending_matches(final(stack)@, queued + child_visits(document, visit))
            },
            Err(e) => first_visit_error(document, walked.push(visit)) == Some(e),
        },
{
    let this_node = &document.nodes[pending.node];
    let this_transform = this_node.transform.to_matrix().mul_mat4(&pending.transform);
    proof {
        lemma_push_visit(document, walked, visit);
    }
    match this_node.mesh {
        Some(mesh_index) => {
            match show_node(document, decoded, loaded, mesh_index, &this_transform, Ghost(visit)) {
                Ok(object) => {
                    let ghost before = output@;
                    output.push(object);
                    proof {
                        let visits = emitted(document, walked.push(visit));
                        assert forall|i: int| 0 <= i < output@.len() implies object_of(
                            document,
                            #[trigger] &output@[i],
                            visits[i],
                        ) by {
                            if i < before.len() {
                                assert(output@[i] == before[i]);
                            }
                        }
                    }
                },
                Err(e) => {
                    return Err(e);
                },
            }
        },
        None => {},
    }
    let ghost children = child_visits(document, visit);
    let mut j: usize = 0;
    while j < this_node.children.len()
        invariant
            j <= this_node.children.len(),
            0 <= visit.node < document.nodes@.len(),
            *this_node == document.nodes@[visit.node],
            children == child_visits(document, visit),
            this_transform@ == world_transform(document, visit),
            pending_matches(stack@, queued + children.take(j as int)),
        decreases this_node.children.len() - j,
    {
        let ghost before = stack@;
        stack.push_back(PendingNode { node: this_node.children[j], transform: this_transform });
        j += 1;
        proof {
            let target = queued + children.take(j as int);
            let earlier = queued + children.take(j as int - 1);
            assert(target.len() == earlier.len() + 1);
            assert forall|k: int| 0 <= k < stack@.len() implies (#[trigger] stack@[k]).node
                == target[k].node && stack@[k].transform@ == target[k].parent by {
                if k < before.len() {
                    assert(stack@[k] == before[k]);
                    assert(target[k] == earlier[k]);
                } else {
                    assert(target[k] == children[j as int - 1]);
                }
            }
        }
    }
    assert(children.take(this_node.children@.len() as int) =~= children);
    Ok(())
}

/// Walks the hierarchy of a document whose meshes and textures are loaded.
fn walk_hierarchy(document: &Document, decoded: &Vec<(usize, CpuMesh)>, loaded: &Vec<SampledTexture>) -> (result:
    Result<Vec<MeshObjectTextured>, LoadError>)
    requires
        document.well_formed(),
        first_mesh_error(document.meshes@, document.meshes@.len() as int) is None,
        first_texture_error(document.textures@, document.textures@.len() as int) is None,
        meshes_decoded(document.meshes@, decoded@, document.meshes@.len() as int),
        textures_loaded(document.textures@, loaded@, document.textures@.len() as int),
    ensures
        match result {
            Ok(objects) => load_outcome(document) matches Ok(visits) && objects_match(
                document,
                objects@,
                visits,
            ),
            Err(e) => load_outcome(document) == Err::<Seq<Visit>, LoadError>(e),
        },
{
    let mut output: Vec<MeshObjectTextured> = Vec::new();
    let mut stack = pending_roots(document);
    let mut depth: usize = 0;
    let node_count = document.nodes.len();
    while stack.len() > 0
        invariant
            document.well_formed(),
            first_mesh_error(document.meshes@, document.meshes@.len() as int) is None,
            first_texture_error(document.textures@, document.textures@.len() as int) is None,
            meshes_decoded(document.meshes@, decoded@, document.meshes@.len() as int),
            textures_loaded(document.textures@, loaded@, document.textures@.len() as int),
            node_count == document.nodes@.len(),
            depth <= node_count,
            pending_matches(stack@, level(document, depth as nat)),
            first_visit_error(document, visits_below(document, depth as nat)) is None,
            objects_match(document, output@, emitted(document, visits_below(document, depth as nat))),
        decreases node_count - depth,
    {
        if depth == node_count {
            return Err(LoadError::CyclicHierarchy);
        }
        let ghost this_level = level(document, depth as nat);
        let ghost below = visits_below(document, depth as nat);
        proof {
            lemma_level_in_range(document, depth as nat);
            assert(below + this_level.take(0) =~= below);
            assert(this_level.skip(0) + expand(document, this_level.take(0)) =~= this_level);
        }
        // The nodes of this level stand at the front of the worklist; their
        // children go to its back and make the next level.
        let in_level = stack.len();
        let mut i: usize = 0;
        while i < in_level
            invariant
                document.well_formed(),
                first_mesh_error(document.meshes@, document.meshes@.len() as int) is None,
                first_texture_error(document.textures@, document.textures@.len() as int) is None,
                meshes_decoded(document.meshes@, decoded@, document.meshes@.len() as int),
                textures_loaded(document.textures@, loaded@, document.textures@.len() as int),
                node_count == document.nodes@.len(),
                depth < node_count,
                this_level == level(document, depth as nat),
                below == visits_below(document, depth as nat),
                visits_in_range(document, this_level),
                in_level == this_level.len(),
                i <= in_level,
                pending_matches(
                    stack@,
                    this_level.skip(i as int) + expand(document, this_level.take(i as int)),
                ),
                first_visit_error(document, below + this_level.take(i as int)) is None,
                objects_match(
                    document,
                    output@,
                    emitted(document, below + this_level.take(i as int)),
                ),
            decreases in_level - i,
        {
            let ghost visit = this_level[i as int];
            let ghost walked = below + this_level.take(i as int);
            let ghost children_so_far = expand(document, this_level.take(i as int));
            let ghost queued = this_level.skip(i as int + 1) + children_so_far;
            let ghost before = stack@;
            let top = match stack.pop_front() {
                Some(top) => top,
                None => {
                    // not reached: the level has nodes left
                    return Err(LoadError::CyclicHierarchy);
                },
            };
            proof {
                let waiting = this_level.skip(i as int) + children_so_far;
                assert(waiting[0] == visit);
                assert(before[0] == top);
                assert forall|k: int| 0 <= k < stack@.len() implies (#[trigger] stack@[k]).node
                    == queued[k].node && stack@[k].transform@ == queued[k].parent by {
                    assert(stack@[k] == before[k + 1]);
                    assert(queued[k] == waiting[k + 1]);
                }
                lemma_expand_step(document, this_level, i as int);
                assert(walked.push(visit) =~= below + this_level.take(i as int + 1));
                assert(queued + child_visits(document, visit) =~= this_level.skip(i as int + 1)
                    + expand(document, this_level.take(i as int + 1)));
            }
            match walk_visit(
                document,
                decoded,
                loaded,
                top,
                &mut output,
                &mut stack,
                Ghost(visit),
                Ghost(walked),
                Ghost(queued),
            ) {
                Ok(()) => {},
                Err(e) => {
                    proof {
                        lemma_error_stays_from_level(
                            document,
                            depth as nat,
                            i as int + 1,
                            node_count as nat,
                        );
                    }
                    return Err(e);
                },
            }
            i += 1;
        }
        proof {
            assert(this_level.take(in_level as int) =~= this_level);
            assert(this_level.skip(in_level as int) + expand(document, this_level) =~= level(
                document,
                (depth + 1) as nat,
            ));
        }
        depth += 1;
    }
    proof {
        lemma_levels_stay_empty(document, depth as nat, node_count as nat);
    }
    Ok(output)
}

/// Loads a document: every node that shows a mesh yields one textured mesh
/// object, whose one instance is the world transform of the node. The
/// objects come level by level from the roots down, within a level in the
/// order of the parents and of their lists of children. A node that is
/// reached on several paths yields an object for each.
///
/// Loading fails on a mesh that has more than one primitive or whose
/// primitive cannot be decoded, on an image of a format that is not read,
/// on a node whose mesh has no primitive or whose material is not opaque,
/// and on a hierarchy with a cycle.
pub fn load_gltf_objects(document: &Document) -> (result: Result<Vec<MeshObjectTextured>, LoadError>)
    requires
        document.well_formed(),
    ensures
        match result {
            Ok(objects) => load_outcome(document) matches Ok(visits) && objects_match(
                document,
                objects@,
                visits,
            ),
            Err(e) => load_outcome(document) == Err::<Seq<Visit>, LoadError>(e),
        },
{
    let decoded = match load_gltf_meshes(document) {
        Ok(decoded) => decoded,
        Err(e) => {
            return Err(e);
        },
    };
    let loaded = match load_textures(document) {
        Ok(loaded) => loaded,
        Err(e) => {
            return Err(e);
        },
    };
    walk_hierarchy(document, &decoded, &loaded)
}

/// The world transform of every node that is walked is its local transform
/// times the world transform of its parent, in this order; that of a root is
/// its local transform times the identity. So along a chain root, A, B the
/// world transform of B is `Tb * (Ta * world(root))`.
pub proof fn lemma_transform_composition(document: &Document, k: nat, i: int, j: int)
    requires
        0 <= i < level(document, k).len(),
        0 <= j < child_visits(document, level(document, k)[i]).len(),
    ensures
        ({
            let parent = level(document, k)[i];
            let child = child_visits(document, parent)[j];
            &&& child.node == document.nodes@[parent.node].children@[j]
            &&& child.parent == world_transform(document, parent)
            &&& world_transform(document, child) == crate::math::mat4_product(
                document.nodes@[child.node].transform.local_matrix(),
                crate::math::mat4_product(
                    document.nodes@[parent.node].transform.local_matrix(),
                    parent.parent,
                ),
            )
            &&& exists|at: int|
                0 <= at < level(document, k + 1).len() && #[trigger] level(document, k + 1)[at]
                    == child
        }),
{
    let this_level = level(document, k);
    let parent = this_level[i];
    let child = child_visits(document, parent)[j];
    lemma_expand_step(document, this_level, i);
    let upto = expand(document, this_level.take(i + 1));
    let at = expand(document, this_level.take(i)).len() + j;
    assert(upto[at] == child);
    lemma_expand_prefix(document, this_level, i + 1);
    assert(level(document, k + 1)[at] == child);
}

/// The children of the first `i` visits of a level come first among the
/// children of the level.
pub proof fn lemma_expand_prefix(document: &Document, visits: Seq<Visit>, i: int)
    requires
        0 <= i <= visits.len(),
    ensures
        expand(document, visits.take(i)).len() <= expand(document, visits).len(),
        forall|at: int|
            0 <= at < expand(document, visits.take(i)).len() ==> #[trigger] expand(document, visits)[at]
                == expand(document, visits.take(i))[at],
    decreases visits.len() - i,
{
    if i < visits.len() {
        lemma_expand_prefix(document, visits, i + 1);
        lemma_expand_step(document, visits, i);
    } else {
        assert(visits.take(i) =~= visits);
    }
}

/// A visit that shows a mesh is among the visits that yield an object.
pub proof fn lemma_emitted_contains(document: &Document, visits: Seq<Visit>, i: int)
    requires
        0 <= i < visits.len(),
        crate::hierarchy::shows_mesh(document, visits[i]),
    ensures
        exists|at: int|
            0 <= at < emitted(document, visits).len() && #[trigger] emitted(document, visits)[at]
                == visits[i],
    decreases visits.len(),
{
    let rest = visits.drop_last();
    if i == visits.len() - 1 {
        let at = emitted(document, rest).len() as int;
        assert(emitted(document, visits)[at] == visits[i]);
    } else {
        assert(rest[i] == visits[i]);
        lemma_emitted_contains(document, rest, i);
        let at = choose|at: int|
            0 <= at < emitted(document, rest).len() && #[trigger] emitted(document, rest)[at]
                == rest[i];
        assert(emitted(document, visits)[at] == visits[i]);
    }
}

/// Every visit of a level below depth `n` is among the visits below `n`.
pub proof fn lemma_level_within(document: &Document, d: nat, n: nat, i: int)
    requires
        d < n,
        0 <= i < level(document, d).len(),
    ensures
        exists|at: int|
            0 <= at < visits_below(document, n).len() && #[trigger] visits_below(document, n)[at]
                == level(document, d)[i],
    decreases n,
{
    let below = visits_below(document, (n - 1) as nat);
    if d == n - 1 {
        let at = below.len() + i;
        assert(visits_below(document, n)[at] == level(document, d)[i]);
    } else {
        lemma_level_within(document, d, (n - 1) as nat, i);
        let at = choose|at: int|
            0 <= at < below.len() && #[trigger] below[at] == level(document, d)[i];
        assert(visits_below(document, n)[at] == level(document, d)[i]);
    }
}

/// Along a chain of a visited node, one of its children A and one of A's
/// children B, the world transform of B is `Tb * (Ta * world)`, where `Ta`
/// and `Tb` are the local transforms of A and B and `world` is the world
/// transform of the node: the local transform always stands on the left.
/// B is visited two levels below the node. Where the node is a root, its
/// world transform is its local transform times the identity.
pub proof fn lemma_chain_composition(document: &Document, k: nat, i: int, j: int, l: int)
    requires
        0 <= i < level(document, k).len(),
        0 <= j < child_visits(document, level(document, k)[i]).len(),
        0 <= l < child_visits(document, child_visits(document, level(document, k)[i])[j]).len(),
    ensures
        ({
            let top = level(document, k)[i];
            let a = child_visits(document, top)[j];
            let b = child_visits(document, a)[l];
            &&& a.node == document.nodes@[top.node].children@[j]
            &&& b.node == document.nodes@[a.node].children@[l]
            &&& world_transform(document, b) == crate::math::mat4_product(
                document.nodes@[b.node].transform.local_matrix(),
                crate::math::mat4_product(
                    document.nodes@[a.node].transform.local_matrix(),
                    world_transform(document, top),
                ),
            )
            &&& (k == 0 ==> world_transform(document, top) == crate::math::mat4_product(
                document.nodes@[top.node].transform.local_matrix(),
                crate::math::values_of(crate::math::identity_words()),
            ))
            &&& exists|at: int|
                0 <= at < level(document, k + 2).len() && #[trigger] level(document, k + 2)[at] == b
        }),
{
    let top = level(document, k)[i];
    let a = child_visits(document, top)[j];
    let b = child_visits(document, a)[l];
    lemma_transform_composition(document, k, i, j);
    let at_a = choose|at: int|
        0 <= at < level(document, k + 1).len() && #[trigger] level(document, k + 1)[at] == a;
    lemma_transform_composition(document, k + 1, at_a, l);
    assert(level(document, k + 1)[at_a] == a);
    let at_b = choose|at: int|
        0 <= at < level(document, k + 1 + 1).len() && #[trigger] level(document, k + 1 + 1)[at]
            == b;
    assert(level(document, k + 2)[at_b] == b);
    if k == 0 {
        assert(top == root_visits(document)[i]);
        assert(top.parent == crate::math::values_of(crate::math::identity_words()));
    }
}

/// Where loading succeeds, the object of a node B that shows a mesh and is
/// reached along a chain of a visited node, its child A and A's child B has
/// one instance, and that is `Tb * (Ta * world)`: the local transform of B
/// times (the local transform of A times the world transform of the node).
pub proof fn lemma_chain_object(
    document: &Document,
    objects: Seq<MeshObjectTextured>,
    k: nat,
    i: int,
    j: int,
    l: int,
)
    requires
        load_outcome(document) matches Ok(visits) && objects_match(document, objects, visits),
        0 <= i < level(document, k).len(),
        0 <= j < child_visits(document, level(document, k)[i]).len(),
        0 <= l < child_visits(document, child_visits(document, level(document, k)[i])[j]).len(),
        crate::hierarchy::shows_mesh(
            document,
            child_visits(document, child_visits(document, level(document, k)[i])[j])[l],
        ),
    ensures
        ({
            let top = level(document, k)[i];
            let a = child_visits(document, top)[j];
            let b = child_visits(document, a)[l];
            exists|at: int|
                0 <= at < objects.len() && (#[trigger] objects[at]).mesh_object.instances@.len() == 1
                    && objects[at].mesh_object.instances@[0]@ == crate::math::mat4_product(
                    document.nodes@[b.node].transform.local_matrix(),
                    crate::math::mat4_product(
                        document.nodes@[a.node].transform.local_matrix(),
                        world_transform(document, top),
                    ),
                )
        }),
{
    let n = document.nodes@.len();
    let top = level(document, k)[i];
    let a = child_visits(document, top)[j];
    let b = child_visits(document, a)[l];
    lemma_chain_composition(document, k, i, j, l);
    let at_b = choose|at: int|
        0 <= at < level(document, k + 2).len() && #[trigger] level(document, k + 2)[at] == b;
    if k + 2 >= n {
        lemma_levels_stay_empty(document, n, k + 2);
    }
    lemma_level_within(document, k + 2, n, at_b);
    let all = visits_below(document, n);
    let at_all = choose|at: int| 0 <= at < all.len() && #[trigger] all[at] == b;
    lemma_emitted_contains(document, all, at_all);
    let shown = emitted(document, all);
    let at = choose|at: int| 0 <= at < shown.len() && #[trigger] shown[at] == b;
    assert(object_of(document, &objects[at], shown[at]));
}

} // verus!
