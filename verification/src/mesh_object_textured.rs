//! A mesh object together with its texture set: the unit that a scene is
//! made of and that a frame draws.

use vstd::prelude::*;
use vstd::string::*;
use crate::gpu::{BindGroupKind, RenderCommand};
use crate::mesh_object::{mesh_object_commands, MeshObject};
use crate::texture::{
    CpuTextureInfo, GpuTextureInfo, SampledTexture, SamplerDescriptor, Texture, TextureType,
    TEXTURE_SET,
};

verus! {

/// A mesh object with a texture set.
#[derive(Clone, Debug, PartialEq, Eq)]
pub struct MeshObjectTextured {
    /// The mesh object that is drawn.
    pub mesh_object: MeshObject,
    /// The textures, on the host.
    pub cpu_textures: CpuTextureInfo,
    /// The textures as the device holds them.
    pub gpu_textures: GpuTextureInfo,
}

/// The commands of one draw of a textured mesh object: the texture set is
/// bound, then the mesh object draws.
pub open spec fn textured_commands(index_count: u32, instance_count: u32) -> Seq<RenderCommand> {
    seq![RenderCommand::SetBindGroup { set: TEXTURE_SET, group: BindGroupKind::Textures }]
        + mesh_object_commands(index_count, instance_count)
}

impl MeshObjectTextured {
    /// That the device is up to date with the host: the instance buffer holds
    /// the instance list and the device textures are those of the set.
    pub open spec fn well_formed(&self) -> bool {
        &&& self.mesh_object.well_formed()
        &&& self.mesh_object.synced()
        &&& self.cpu_textures.well_formed()
        &&& self.gpu_textures.mirrors(&self.cpu_textures)
    }

    /// A textured mesh object whose textures all are base color textures
    /// with a sampler that clamps and filters linearly.
    pub fn new_simple(mesh_object: MeshObject, textures: &[Texture]) -> (object: MeshObjectTextured)
        requires
            mesh_object.well_formed(),
        ensures
            object.well_formed(),
            object.mesh_object.instances == mesh_object.instances,
            object.mesh_object.gpu_mesh == mesh_object.gpu_mesh,
            object.cpu_textures.name@ == mesh_object.gpu_mesh.name@,
            object.cpu_textures.textures@.len() == textures@.len() + 1,
            object.cpu_textures.textures@[0].texture.is_placeholder(),
            forall|i: int|
                0 <= i < textures@.len() ==> {
                    let t = #[trigger] object.cpu_textures.textures@[i + 1];
                    &&& t.texture.same_as(&textures@[i])
                    &&& t.texture_type == TextureType::BaseColor
                    &&& t.sampler == SamplerDescriptor::clamp_linear()
                },
    {
        let mut sampled: Vec<SampledTexture> = Vec::new();
        let mut i: usize = 0;
        while i < textures.len()
            invariant
                i <= textures.len(),
                sampled@.len() == i,
                forall|k: int|
                    0 <= k < i ==> {
                        let t = #[trigger] sampled@[k];
                        &&& t.texture.same_as(&textures@[k])
                        &&& t.texture_type == TextureType::BaseColor
                        &&& t.sampler == SamplerDescriptor::clamp_linear()
                    },
            decreases textures.len() - i,
        {
            sampled.push(
                SampledTexture {
                    sampler: SamplerDescriptor::clamp_linear(),
                    texture: textures[i].duplicate(),
                    texture_type: TextureType::BaseColor,
                },
            );
            i += 1;
        }
        let object = Self::new(mesh_object, sampled.as_slice());
        assert forall|i: int| 0 <= i < textures@.len() implies ({
            let t = #[trigger] object.cpu_textures.textures@[i + 1];
            &&& t.texture.same_as(&textures@[i])
            &&& t.texture_type == TextureType::BaseColor
            &&& t.sampler == SamplerDescriptor::clamp_linear()
        }) by {
            assert(object.cpu_textures.textures@[i + 1].same_as(&sampled@[i]));
        }
        object
    }

    /// A textured mesh object with the given textures behind the
    /// placeholder. The device is brought up to date.
    pub fn new(mesh_object: MeshObject, sampled_textures: &[SampledTexture]) -> (object:
        MeshObjectTextured)
        requires
            mesh_object.well_formed(),
        ensures
            object.well_formed(),
            object.mesh_object.instances == mesh_object.instances,
            object.mesh_object.gpu_mesh == mesh_object.gpu_mesh,
            object.cpu_textures.name@ == mesh_object.gpu_mesh.name@,
            object.cpu_textures.textures@.len() == sampled_textures@.len() + 1,
            object.cpu_textures.textures@[0].texture.is_placeholder(),
            object.cpu_textures.textures@[0].sampler == SamplerDescriptor::clamp_linear(),
            forall|i: int|
                0 <= i < sampled_textures@.len() ==> (#[trigger] object.cpu_textures.textures@[i
                    + 1]).same_as(&sampled_textures@[i]),
    {
        let cpu_textures = CpuTextureInfo::new(mesh_object.gpu_mesh.name.as_str(), sampled_textures);
        let gpu_textures = cpu_textures.to_gpu();
        let mut res = MeshObjectTextured { mesh_object, cpu_textures, gpu_textures };
        res.replace_gpu_data();
        res
    }

    /// Brings the device up to date with the instance list and the textures.
    pub fn replace_gpu_data(&mut self)
        requires
            old(self).mesh_object.well_formed(),
        ensures
            final(self).mesh_object.well_formed(),
            final(self).mesh_object.synced(),
            final(self).gpu_textures.mirrors(&final(self).cpu_textures),
            final(self).mesh_object.instances == old(self).mesh_object.instances,
            final(self).mesh_object.gpu_mesh == old(self).mesh_object.gpu_mesh,
            final(self).mesh_object.mesh_object_uniform == old(self).mesh_object.mesh_object_uniform,
            final(self).cpu_textures == old(self).cpu_textures,
    {
        self.mesh_object.replace_gpu_data();
        self.gpu_textures = self.cpu_textures.to_gpu();
    }

    /// Records one draw of the object: the texture set at set 3, then the
    /// mesh object.
    pub fn add_commands(&self, render_pass: &mut Vec<RenderCommand>)
        ensures
            final(render_pass)@ == old(render_pass)@ + textured_commands(
                self.mesh_object.gpu_mesh.index_length,
                (self.mesh_object.instances@.len() as usize) as u32,
            ),
    {
        self.gpu_textures.add_commands(render_pass);
        self.mesh_object.add_commands(render_pass);
        assert(render_pass@ =~= old(render_pass)@ + textured_commands(
            self.mesh_object.gpu_mesh.index_length,
            (self.mesh_object.instances@.len() as usize) as u32,
        ));
    }
}

} // verus!
