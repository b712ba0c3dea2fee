//! The lights of a frame. The whole list goes to the device anew on every
//! call of `to_gpu`, as one storage buffer of sixteen words per light.

use vstd::prelude::*;
use vstd::string::*;
use crate::gpu::{
    make_storage_slot, storage_slot, BindGroup, BindGroupEntry, BindGroupKind,
    BindGroupLayoutDescriptor, BindGroupLayoutEntry, BindingResource, Buffer, BufferRole,
    BufferUsages, RenderCommand, ShaderStages,
};
use crate::math::{Vec3, Vec3A};

verus! {

/// The kind of a light.
#[derive(Clone, Copy, Debug, PartialEq, Eq, Hash, Default, Structural)]
pub enum LightType {
    #[default]
    Off,
    /// Parallel rays.
    Directional,
    /// Rays from one point in all directions.
    Omni,
    /// The same light everywhere.
    Ambient,
}

impl LightType {
    /// The number by which the shader knows the kind.
    pub open spec fn tag(self) -> u32 {
        match self {
            LightType::Off => 0,
            LightType::Directional => 1,
            LightType::Omni => 2,
            LightType::Ambient => 3,
        }
    }

    /// The number by which the shader knows the kind.
    pub fn to_tag(self) -> (t: u32)
        ensures
            t == self.tag(),
    {
        match self {
            LightType::Off => 0,
            LightType::Directional => 1,
            LightType::Omni => 2,
            LightType::Ambient => 3,
        }
    }
}

/// Words of one light in the light buffer.
pub const WORDS_PER_LIGHT: usize = 16;

/// One light.
#[derive(Clone, Copy, Debug, PartialEq, Eq)]
pub struct Light {
    pub position: Vec3A,
    pub direction: Vec3A,
    pub color: Vec3,
    pub intensity: u32,
    pub light_type: LightType,
}

impl Light {
    /// The sixteen words of the light, in the layout of the shader's struct:
    /// position at word 0, direction at word 4, color at word 8, intensity
    /// at word 11, the kind at word 12, then padding to sixteen words.
    pub open spec fn words(self) -> Seq<u32> {
        seq![
            self.position.x, self.position.y, self.position.z, 0u32,
            self.direction.x, self.direction.y, self.direction.z, 0u32,
            self.color.x, self.color.y, self.color.z, self.intensity,
            self.light_type.tag(), 0u32, 0u32, 0u32,
        ]
    }

    /// The light that is off, with all numbers zero.
    pub open spec fn spec_off() -> Light {
        Light {
            position: Vec3A { x: 0, y: 0, z: 0 },
            direction: Vec3A { x: 0, y: 0, z: 0 },
            color: Vec3 { x: 0, y: 0, z: 0 },
            intensity: 0,
            light_type: LightType::Off,
        }
    }

    /// The light that is off, with all numbers zero.
    #[verifier::when_used_as_spec(spec_off)]
    pub fn off() -> (light: Light)
        ensures
            light == Self::spec_off(),
    {
        Light {
            position: Vec3A::zero(),
            direction: Vec3A::zero(),
            color: Vec3::zero(),
            intensity: 0,
            light_type: LightType::Off,
        }
    }

    /// A point light with all numbers zero.
    pub fn omni() -> (light: Light)
        ensures
            light == (Light { light_type: LightType::Omni, ..Light::off() }),
    {
        Light { light_type: LightType::Omni, ..Light::off() }
    }

    /// A directional light with all numbers zero.
    pub fn directional() -> (light: Light)
        ensures
            light == (Light { light_type: LightType::Directional, ..Light::off() }),
    {
        Light { light_type: LightType::Directional, ..Light::off() }
    }

    pub fn with_position(self, position: Vec3A) -> (light: Light)
        ensures
            light == (Light { position, ..self }),
    {
        Light { position, ..self }
    }

    pub fn with_direction(self, direction: Vec3A) -> (light: Light)
        ensures
            light == (Light { direction, ..self }),
    {
        Light { direction, ..self }
    }

    pub fn with_color(self, color: Vec3) -> (light: Light)
        ensures
            light == (Light { color, ..self }),
    {
        Light { color, ..self }
    }

    pub fn with_intensity(self, intensity: u32) -> (light: Light)
        ensures
            light == (Light { intensity, ..self }),
    {
        Light { intensity, ..self }
    }

    /// Appends the words of the light to `words`.
    pub fn push_words(self, words: &mut Vec<u32>)
        ensures
            final(words)@ == old(words)@ + self.words(),
    {
        words.push(self.position.x);
        words.push(self.position.y);
        words.push(self.position.z);
        words.push(0);
        words.push(self.direction.x);
        words.push(self.direction.y);
        words.push(self.direction.z);
        words.push(0);
        words.push(self.color.x);
        words.push(self.color.y);
        words.push(self.color.z);
        words.push(self.intensity);
        words.push(self.light_type.to_tag());
        words.push(0);
        words.push(0);
        words.push(0);
        assert(words@ =~= old(words)@ + self.words());
    }
}

impl Default for Light {
    fn default() -> (light: Light)
        ensures
            light == Light::off(),
    {
        Light::off()
    }
}

/// The words of a list of lights, light after light.
pub open spec fn light_words(s: Seq<Light>) -> Seq<u32> {
    Seq::new(16 * s.len(), |i: int| s[i / 16].words()[i % 16])
}

/// The lights of a frame, on the host.
#[derive(Clone, Debug, PartialEq, Eq)]
pub struct CpuLights {
    pub lights: Vec<Light>,
}

/// The lights of a frame as the device is to hold them.
#[derive(Clone, Debug, PartialEq, Eq)]
pub struct GpuLights {
    pub light_buffer: Buffer,
    pub light_bind_group_layout: BindGroupLayoutDescriptor,
    pub light_bind_group: BindGroup,
}

/// The slots of the bind group layout of the lights.
pub open spec fn light_layout_entries() -> Seq<BindGroupLayoutEntry> {
    seq![storage_slot(CpuLights::LIGHT_UNIFORM_BINDING, ShaderStages { vertex: true, fragment: true })]
}

/// The entries of the bind group of the lights.
pub open spec fn light_bind_group_entries() -> Seq<BindGroupEntry> {
    seq![
        BindGroupEntry {
            binding: CpuLights::LIGHT_UNIFORM_BINDING,
            resource: BindingResource::Buffer(BufferRole::Lights),
        },
    ]
}

impl CpuLights {
    /// The set index of the bind group of the lights.
    pub const LIGHT_SET: u32 = 1;

    pub const LIGHT_UNIFORM_BINDING: u32 = 0;

    /// No lights.
    pub fn new() -> (lights: CpuLights)
        ensures
            lights.lights@.len() == 0,
    {
        CpuLights { lights: Vec::new() }
    }

    /// Appends `lights` to the list.
    pub fn add_lights(&mut self, lights: &[Light])
        ensures
            final(self).lights@ == old(self).lights@ + lights@,
    {
        let mut i: usize = 0;
        while i < lights.len()
            invariant
                i <= lights.len(),
                self.lights@ == old(self).lights@ + lights@.take(i as int),
            decreases lights.len() - i,
        {
            self.lights.push(lights[i]);
            i += 1;
            assert(self.lights@ =~= old(self).lights@ + lights@.take(i as int));
        }
        assert(lights@.take(lights.len() as int) =~= lights@);
    }

    /// The list with `add_lights` appended.
    pub fn with_lights(self, add_lights: &[Light]) -> (lights: CpuLights)
        ensures
            lights.lights@ == self.lights@ + add_lights@,
    {
        let mut lights = self;
        lights.add_lights(add_lights);
        lights
    }

    /// The layout of the bind group of the lights.
    pub fn bind_group_layout() -> (layout: BindGroupLayoutDescriptor)
        ensures
            layout.label@ == "light_bind_group_layout"@,
            layout@ == light_layout_entries(),
    {
        let mut entries: Vec<BindGroupLayoutEntry> = Vec::new();
        entries.push(
            make_storage_slot(Self::LIGHT_UNIFORM_BINDING, ShaderStages { vertex: true, fragment: true }),
        );
        assert(entries@ =~= light_layout_entries());
        BindGroupLayoutDescriptor { label: "light_bind_group_layout", entries }
    }

    /// What the device is to hold for the lights: the whole list in one
    /// storage buffer, and its bind group.
    pub fn to_gpu(&self) -> (gpu: GpuLights)
        ensures
            gpu.light_buffer@ == light_words(self.lights@),
            gpu.light_buffer.label@ == "Light buffer"@,
            gpu.light_buffer.usage == BufferUsages::storage(),
            gpu.light_bind_group_layout.label@ == "light_bind_group_layout"@,
            gpu.light_bind_group_layout@ == light_layout_entries(),
            gpu.light_bind_group.label@ == "light_bind_group"@,
            gpu.light_bind_group@ == light_bind_group_entries(),
    {
        let mut words: Vec<u32> = Vec::new();
        let mut i: usize = 0;
        while i < self.lights.len()
            invariant
                i <= self.lights.len(),
                words@ == light_words(self.lights@.take(i as int)),
            decreases self.lights.len() - i,
        {
            let light = self.lights[i];
            let ghost before = words@;
            light.push_words(&mut words);
            i += 1;
            assert(words@ =~= light_words(self.lights@.take(i as int))) by {
                let target = light_words(self.lights@.take(i as int));
                assert(words@.len() == target.len());
                assert forall|k: int| 0 <= k < words@.len() implies words@[k] == target[k] by {
                    if k < before.len() {
                        assert(words@[k] == before[k]);
                        assert(self.lights@.take(i as int)[k / 16] == self.lights@.take(
                            i as int - 1,
                        )[k / 16]);
                    } else {
                        assert(words@[k] == light.words()[k - before.len()]);
                    }
                }
            }
        }
        assert(self.lights@.take(self.lights.len() as int) =~= self.lights@);
        let light_buffer = Buffer::new(String::from_str("Light buffer"), words, BufferUsages::storage());
        let mut entries: Vec<BindGroupEntry> = Vec::new();
        entries.push(
            BindGroupEntry {
                binding: Self::LIGHT_UNIFORM_BINDING,
                resource: BindingResource::Buffer(BufferRole::Lights),
            },
        );
        assert(entries@ =~= light_bind_group_entries());
        GpuLights {
            light_bind_group_layout: Self::bind_group_layout(),
            light_buffer,
            light_bind_group: BindGroup { label: String::from_str("light_bind_group"), entries },
        }
    }
}

impl GpuLights {
    /// Records the binding of the lights at their set index.
    pub fn add_commands(&self, render_pass: &mut Vec<RenderCommand>)
        ensures
            final(render_pass)@ == old(render_pass)@.push(
                RenderCommand::SetBindGroup { set: CpuLights::LIGHT_SET, group: BindGroupKind::Lights },
            ),
    {
        render_pass.push(
            RenderCommand::SetBindGroup { set: CpuLights::LIGHT_SET, group: BindGroupKind::Lights },
        );
    }
}

} // verus!
