//! The walk over the node hierarchy of a document, as mathematics.
//!
//! The hierarchy is walked level by level. Level 0 holds the roots, each with
//! the identity as the transform handed down to it; level `k + 1` holds the
//! children of the nodes of level `k`, in order, each with the world transform
//! of its parent. The world transform of a node is its local transform times
//! the transform handed down to it.

use vstd::prelude::*;
use crate::loader::LoadError;
use crate::math::{identity_words, mat4_product, values_of};
use crate::scene::{AlphaMode, Document, Material};
use crate::texture::TextureType;

verus! {

/// One visit of a node: the node and the value of the transform that its
/// parent hands down to it.
pub ghost struct Visit {
    pub node: int,
    pub parent: Seq<u32>,
}

/// The value of the world transform of a visited node: its local transform
/// times the transform handed down, in this order.
pub open spec fn world_transform(document: &Document, visit: Visit) -> Seq<u32> {
    mat4_product(document.nodes@[visit.node].transform.local_matrix(), visit.parent)
}

/// The visits of the children of a visited node, in the order of its list
/// of children: each child is handed the world transform of the node.
pub open spec fn child_visits(document: &Document, visit: Visit) -> Seq<Visit> {
    Seq::new(
        document.nodes@[visit.node].children@.len(),
        |j: int|
            Visit {
                node: document.nodes@[visit.node].children@[j] as int,
                parent: world_transform(document, visit),
            },
    )
}

/// The visits of the children of all of `level`, in order.
pub open spec fn expand(document: &Document, level: Seq<Visit>) -> Seq<Visit>
    decreases level.len(),
{
    if level.len() == 0 {
        Seq::empty()
    } else {
        expand(document, level.drop_last()) + child_visits(document, level.last())
    }
}

/// The visits of the roots: each is handed the identity.
pub open spec fn root_visits(document: &Document) -> Seq<Visit> {
    Seq::new(
        document.roots@.len(),
        |i: int| Visit { node: document.roots@[i] as int, parent: values_of(identity_words()) },
    )
}

/// The visits of level `k` of the hierarchy.
pub open spec fn level(document: &Document, k: nat) -> Seq<Visit>
    decreases k,
{
    if k == 0 {
        root_visits(document)
    } else {
        expand(document, level(document, (k - 1) as nat))
    }
}

/// The visits of all levels below `depth`, level after level.
pub open spec fn visits_below(document: &Document, depth: nat) -> Seq<Visit>
    decreases depth,
{
    if depth == 0 {
        Seq::empty()
    } else {
        visits_below(document, (depth - 1) as nat) + level(document, (depth - 1) as nat)
    }
}

/// Whether a visit yields an object: its node shows a mesh.
pub open spec fn shows_mesh(document: &Document, visit: Visit) -> bool {
    document.nodes@[visit.node].mesh is Some
}

/// Why the node of a visit cannot be shown, if it cannot: its mesh has no
/// primitive, or the material of its primitive is not opaque.
pub open spec fn visit_error(document: &Document, visit: Visit) -> Option<LoadError> {
    match document.nodes@[visit.node].mesh {
        None => None,
        Some(m) => {
            let mesh = document.meshes@[m as int];
            if mesh.primitives@.len() == 0 {
                Some(LoadError::MeshNotFound)
            } else {
                match mesh.primitives@[0].material {
                    None => None,
                    Some(k) => if document.materials@[k as int].alpha_mode != AlphaMode::Opaque {
                        Some(LoadError::NonOpaqueMaterial)
                    } else {
                        None
                    },
                }
            }
        },
    }
}

/// The error of the first of `visits` that cannot be shown.
pub open spec fn first_visit_error(document: &Document, visits: Seq<Visit>) -> Option<LoadError>
    decreases visits.len(),
{
    if visits.len() == 0 {
        None
    } else if first_visit_error(document, visits.drop_last()) is Some {
        first_visit_error(document, visits.drop_last())
    } else {
        visit_error(document, visits.last())
    }
}

/// Those of `visits` that yield an object, in order.
pub open spec fn emitted(document: &Document, visits: Seq<Visit>) -> Seq<Visit>
    decreases visits.len(),
{
    if visits.len() == 0 {
        Seq::empty()
    } else if shows_mesh(document, visits.last()) {
        emitted(document, visits.drop_last()).push(visits.last())
    } else {
        emitted(document, visits.drop_last())
    }
}

/// The textures that a material gives to an object, each as the index of
/// the texture in the document and the role it gets, in the order emissive,
/// base color, metallic-roughness, normal, occlusion.
pub open spec fn material_roles(material: &Material) -> Seq<(usize, TextureType)> {
    let none = Seq::<(usize, TextureType)>::empty();
    (match material.emissive_texture {
        Some(t) => seq![(t, TextureType::Emissive)],
        None => none,
    }) + (match material.base_color_texture {
        Some(t) => seq![(t, TextureType::BaseColor)],
        None => none,
    }) + (match material.metallic_roughness_texture {
        Some(t) => seq![(t, TextureType::MetallicRoughness)],
        None => none,
    }) + (match material.normal_texture {
        Some(t) => seq![(t, TextureType::Normal)],
        None => none,
    }) + (match material.occlusion_texture {
        Some(t) => seq![(t, TextureType::Occlusion)],
        None => none,
    })
}

/// The textures of the object of a node that shows mesh `mesh`: those of the
/// material of its primitive, and none if it has no material.
pub open spec fn object_roles(document: &Document, mesh: int) -> Seq<(usize, TextureType)> {
    match document.meshes@[mesh].primitives@[0].material {
        Some(k) => material_roles(&document.materials@[k as int]),
        None => Seq::empty(),
    }
}

/// The visits of a level up to place `i` are the children of the visits of
/// the level below up to that place, extended by one visit's children.
pub proof fn lemma_expand_step(document: &Document, level: Seq<Visit>, i: int)
    requires
        0 <= i < level.len(),
    ensures
        expand(document, level.take(i + 1)) == expand(document, level.take(i)) + child_visits(
            document,
            level[i],
        ),
{
    assert(level.take(i + 1).drop_last() =~= level.take(i));
    assert(level.take(i + 1).last() == level[i]);
}

/// Adding one visit at the end: the first error is that of the shorter list
/// if it has one, else that of the visit; the objects are those of the
/// shorter list and, if the visit shows a mesh, the visit.
pub proof fn lemma_push_visit(document: &Document, visits: Seq<Visit>, visit: Visit)
    ensures
        first_visit_error(document, visits.push(visit)) == (if first_visit_error(document, visits)
            is Some {
            first_visit_error(document, visits)
        } else {
            visit_error(document, visit)
        }),
        emitted(document, visits.push(visit)) == (if shows_mesh(document, visit) {
            emitted(document, visits).push(visit)
        } else {
            emitted(document, visits)
        }),
{
    assert(visits.push(visit).drop_last() =~= visits);
    assert(visits.push(visit).last() == visit);
}

/// Once an error is found in a list of visits, it is the error of every
/// list that goes on from it.
pub proof fn lemma_visit_error_stays(document: &Document, visits: Seq<Visit>, more: Seq<Visit>)
    requires
        first_visit_error(document, visits) is Some,
    ensures
        first_visit_error(document, visits + more) == first_visit_error(document, visits),
    decreases more.len(),
{
    if more.len() == 0 {
        assert(visits + more =~= visits);
    } else {
        lemma_visit_error_stays(document, visits, more.drop_last());
        assert((visits + more).drop_last() =~= visits + more.drop_last());
    }
}

/// An error found below depth `d` is the error found below any greater
/// depth.
pub proof fn lemma_error_stays_below(document: &Document, d: nat, e: nat)
    requires
        d <= e,
        first_visit_error(document, visits_below(document, d)) is Some,
    ensures
        first_visit_error(document, visits_below(document, e)) == first_visit_error(
            document,
            visits_below(document, d),
        ),
    decreases e - d,
{
    if d < e {
        lemma_error_stays_below(document, d, (e - 1) as nat);
        lemma_visit_error_stays(
            document,
            visits_below(document, (e - 1) as nat),
            level(document, (e - 1) as nat),
        );
    }
}

/// An error found in the part of level `k` walked so far, after all levels
/// below, is the error found below any depth greater than `k`.
pub proof fn lemma_error_stays_from_level(document: &Document, k: nat, i: int, e: nat)
    requires
        k < e,
        0 <= i <= level(document, k).len(),
        first_visit_error(document, visits_below(document, k) + level(document, k).take(i)) is Some,
    ensures
        first_visit_error(document, visits_below(document, e)) == first_visit_error(
            document,
            visits_below(document, k) + level(document, k).take(i),
        ),
{
    let part = visits_below(document, k) + level(document, k).take(i);
    let rest = level(document, k).skip(i);
    lemma_visit_error_stays(document, part, rest);
    assert(part + rest =~= visits_below(document, k + 1)) by {
        assert(level(document, k).take(i) + rest =~= level(document, k));
    }
    lemma_error_stays_below(document, k + 1, e);
}

/// Once a level is empty, every deeper level is.
pub proof fn lemma_levels_stay_empty(document: &Document, k: nat, e: nat)
    requires
        k <= e,
        level(document, k).len() == 0,
    ensures
        level(document, e).len() == 0,
        visits_below(document, e) == visits_below(document, k),
    decreases e - k,
{
    if k < e {
        lemma_levels_stay_empty(document, k, (e - 1) as nat);
        assert(visits_below(document, e) =~= visits_below(document, (e - 1) as nat));
    }
}

} // verus!
