//! The commands of one frame: the view uniform at set 0, the lights at set
//! 1, then for every object its textures at set 3, its mesh object at set 2
//! and one instanced indexed draw.

use vstd::prelude::*;
use crate::gpu::{BindGroupKind, RenderCommand};
use crate::lights::{CpuLights, GpuLights};
use crate::mesh_object_textured::{textured_commands, MeshObjectTextured};
use crate::target::{at_least_one, clamp_to_one, Error, SurfaceError};
use crate::view::{GpuView, ViewUniform};

verus! {

/// The commands that one object records into a frame.
#[derive(Clone, Debug, PartialEq, Eq)]
pub struct ObjectCommands {
    /// The place of the object in the list of objects of the frame.
    pub object: usize,
    pub commands: Vec<RenderCommand>,
}

/// What is recorded for one frame.
#[derive(Clone, Debug, PartialEq, Eq)]
pub struct Frame {
    /// Width and height of the depth texture, each at least 1.
    pub depth_width: u32,
    pub depth_height: u32,
    /// What the device is to hold for the view uniform.
    pub view: GpuView,
    /// The commands before the first object: the bindings of view and lights.
    pub setup: Vec<RenderCommand>,
    /// The commands of the objects, object after object.
    pub objects: Vec<ObjectCommands>,
}

/// The commands before the first object.
pub open spec fn setup_commands() -> Seq<RenderCommand> {
    seq![
        RenderCommand::SetBindGroup { set: ViewUniform::VIEW_UNIFORM_SET, group: BindGroupKind::View },
        RenderCommand::SetBindGroup { set: CpuLights::LIGHT_SET, group: BindGroupKind::Lights },
    ]
}

/// That `recorded` holds the commands of each of the first `n` objects.
pub open spec fn objects_recorded(
    recorded: Seq<ObjectCommands>,
    objects: Seq<MeshObjectTextured>,
    n: int,
) -> bool {
    &&& recorded.len() == n
    &&& forall|i: int|
        0 <= i < n ==> (#[trigger] recorded[i]).object == i && recorded[i].commands@
            == textured_commands(
            objects[i].mesh_object.gpu_mesh.index_length,
            (objects[i].mesh_object.instances@.len() as usize) as u32,
        )
}

/// Records one frame into a target of `width` by `height`. A frame cannot
/// be drawn before the surface is configured: that is reported as a lost
/// surface, so that the caller sets the target up and tries again.
pub fn record_frame(
    surface_configured: bool,
    width: u32,
    height: u32,
    view: &ViewUniform,
    lights: &GpuLights,
    objects: &Vec<MeshObjectTextured>,
) -> (result: Result<Frame, Error>)
    ensures
        match result {
            Err(e) => !surface_configured && e == Error::SurfaceError(SurfaceError::Lost),
            Ok(frame) => {
                &&& surface_configured
                &&& frame.depth_width == at_least_one(width)
                &&& frame.depth_height == at_least_one(height)
                &&& frame.view.camera_buffer@ == view.words()
                &&& frame.view.camera_buffer.label@ == "view_uniform"@
                &&& frame.view.camera_buffer.usage == crate::gpu::BufferUsages::storage()
                &&& frame.view.camera_bind_group.label@ == "camera_bind_group"@
                &&& frame.view.camera_bind_group@ == crate::view::view_bind_group_entries()
                &&& frame.setup@ == setup_commands()
                &&& objects_recorded(frame.objects@, objects@, objects@.len() as int)
            },
        },
{
    if !surface_configured {
        return Err(Error::SurfaceError(SurfaceError::Lost));
    }
    let mut setup: Vec<RenderCommand> = Vec::new();
    let gpu_view = view.add_commands(&mut setup);
    lights.add_commands(&mut setup);
    assert(setup@ =~= setup_commands());

    let mut recorded: Vec<ObjectCommands> = Vec::new();
    let mut i: usize = 0;
    while i < objects.len()
        invariant
            i <= objects.len(),
            objects_recorded(recorded@, objects@, i as int),
        decreases objects.len() - i,
    {
        let mut commands: Vec<RenderCommand> = Vec::new();
        objects[i].add_commands(&mut commands);
        assert(commands@ =~= textured_commands(
            objects@[i as int].mesh_object.gpu_mesh.index_length,
            (objects@[i as int].mesh_object.instances@.len() as usize) as u32,
        ));
        let ghost before = recorded@;
        recorded.push(ObjectCommands { object: i, commands });
        i += 1;
        assert forall|k: int| 0 <= k < i implies (#[trigger] recorded@[k]).object == k
            && recorded@[k].commands@ == textured_commands(
            objects@[k].mesh_object.gpu_mesh.index_length,
            (objects@[k].mesh_object.instances@.len() as usize) as u32,
        ) by {
            if k < before.len() {
                assert(recorded@[k] == before[k]);
            }
        }
    }
    Ok(
        Frame {
            depth_width: clamp_to_one(width),
            depth_height: clamp_to_one(height),
            view: gpu_view,
            setup,
            objects: recorded,
        },
    )
}

} // verus!
