//! The camera and the view uniform: the view-projection matrix and the
//! position of the eye, as the shaders read them at set 0.

use vstd::prelude::*;
use vstd::string::*;
use crate::gpu::{
    make_storage_slot, storage_slot, BindGroup, BindGroupEntry, BindGroupKind,
    BindGroupLayoutDescriptor, BindGroupLayoutEntry, BindingResource, Buffer, BufferRole,
    BufferUsages, RenderCommand, ShaderStages,
};
use crate::math::{mat4_product, value_of, Mat4, Vec2, Vec3};

verus! {

/// Words of the view uniform.
pub const WORDS_PER_VIEW_UNIFORM: usize = 20;

/// The data of the camera for one frame.
#[derive(Clone, Copy, Debug, PartialEq, Eq)]
pub struct ViewUniform {
    pub view_proj: Mat4,
    pub camera_world_position: Vec3,
    pub _pad: u32,
}

/// What the device is to hold for a view uniform.
#[derive(Clone, Debug, PartialEq, Eq)]
pub struct GpuView {
    pub camera_buffer: Buffer,
    pub camera_bind_group: BindGroup,
}

/// The slots of the bind group layout of the view uniform.
pub open spec fn view_layout_entries() -> Seq<BindGroupLayoutEntry> {
    seq![storage_slot(ViewUniform::VIEW_UNIFORM_SET, ShaderStages { vertex: true, fragment: true })]
}

/// The entries of the bind group of the view uniform.
pub open spec fn view_bind_group_entries() -> Seq<BindGroupEntry> {
    seq![
        BindGroupEntry {
            binding: ViewUniform::VIEW_UNIFORM_SET,
            resource: BindingResource::Buffer(BufferRole::ViewUniform),
        },
    ]
}

impl ViewUniform {
    /// The set index of the view uniform, which is also its binding slot.
    pub const VIEW_UNIFORM_SET: u32 = 0;

    /// The twenty words of the uniform: the matrix at word 0, the position
    /// at word 16, padding at word 19.
    pub open spec fn words(self) -> Seq<u32> {
        self.view_proj.words() + self.camera_world_position.words() + seq![self._pad]
    }

    /// The words of the uniform as the device is to hold them.
    pub fn to_words(&self) -> (words: Vec<u32>)
        ensures
            words@ == self.words(),
    {
        let mut words: Vec<u32> = Vec::new();
        let mut k: usize = 0;
        while k < 16
            invariant
                k <= 16,
                words@ == self.view_proj.words().take(k as int),
            decreases 16 - k,
        {
            words.push(self.view_proj.cols[k]);
            k += 1;
            assert(words@ =~= self.view_proj.words().take(k as int));
        }
        words.push(self.camera_world_position.x);
        words.push(self.camera_world_position.y);
        words.push(self.camera_world_position.z);
        words.push(self._pad);
        assert(words@ =~= self.words());
        words
    }

    /// The layout of the bind group of the view uniform.
    pub fn bind_group_layout() -> (layout: BindGroupLayoutDescriptor)
        ensures
            layout.label@ == "camera_bind_group_layout"@,
            layout@ == view_layout_entries(),
    {
        let mut entries: Vec<BindGroupLayoutEntry> = Vec::new();
        entries.push(
            make_storage_slot(Self::VIEW_UNIFORM_SET, ShaderStages { vertex: true, fragment: true }),
        );
        assert(entries@ =~= view_layout_entries());
        BindGroupLayoutDescriptor { label: "camera_bind_group_layout", entries }
    }

    /// Records the binding of the view uniform at set 0 and gives what the
    /// device is to hold for it: a fresh storage buffer with the uniform and
    /// its bind group. Nothing is kept from frame to frame.
    pub fn add_commands(&self, render_pass: &mut Vec<RenderCommand>) -> (gpu: GpuView)
        ensures
            final(render_pass)@ == old(render_pass)@.push(
                RenderCommand::SetBindGroup { set: Self::VIEW_UNIFORM_SET, group: BindGroupKind::View },
            ),
            gpu.camera_buffer@ == self.words(),
            gpu.camera_buffer.label@ == "view_uniform"@,
            gpu.camera_buffer.usage == BufferUsages::storage(),
            gpu.camera_bind_group.label@ == "camera_bind_group"@,
            gpu.camera_bind_group@ == view_bind_group_entries(),
    {
        let camera_buffer = Buffer::new(
            String::from_str("view_uniform"),
            self.to_words(),
            BufferUsages::storage(),
        );
        let mut entries: Vec<BindGroupEntry> = Vec::new();
        entries.push(
            BindGroupEntry {
                binding: Self::VIEW_UNIFORM_SET,
                resource: BindingResource::Buffer(BufferRole::ViewUniform),
            },
        );
        assert(entries@ =~= view_bind_group_entries());
        render_pass.push(
            RenderCommand::SetBindGroup { set: Self::VIEW_UNIFORM_SET, group: BindGroupKind::View },
        );
        GpuView {
            camera_buffer,
            camera_bind_group: BindGroup { label: String::from_str("camera_bind_group"), entries },
        }
    }
}

/// Bit pattern of `-0.1`.
pub const MINUS_TENTH_BITS: u32 = 0xbdcc_cccd;

/// Bit pattern of `1.3`.
pub const ONE_POINT_THREE_BITS: u32 = 0x3fa6_6666;

/// Bit pattern of `90.0`.
pub const NINETY_BITS: u32 = 0x42b4_0000;

/// Bit pattern of `0.001`.
pub const THOUSANDTH_BITS: u32 = 0x3a83_126f;

/// Bit pattern of `1000.0`.
pub const THOUSAND_BITS: u32 = 0x447a_0000;

/// A camera that looks from `eye` at `target`.
#[derive(Clone, Copy, Debug, PartialEq, Eq)]
pub struct Camera {
    /// The position of the camera.
    pub eye: Vec3,
    /// The point that the camera looks at.
    pub target: Vec3,
    /// The up direction.
    pub up: Vec3,
    /// Width over height of the picture.
    pub aspect: u32,
    /// The vertical field of view, in degrees.
    pub fovy: u32,
    /// The near plane of the projection.
    pub znear: u32,
    /// The far plane of the projection.
    pub zfar: u32,
}

/// The values of `x` and `y` as single-precision numbers.
pub uninterp spec fn floats_of_u32_pair(x: u32, y: u32) -> Seq<u32>;

/// The value of `a / b` for two values.
pub uninterp spec fn float_quotient(a: u32, b: u32) -> u32;

/// The value of the right-handed view matrix of a camera at `eye` that looks
/// at `center` with `up` as up direction.
pub uninterp spec fn look_at_matrix(eye: Seq<u32>, center: Seq<u32>, up: Seq<u32>) -> Seq<u32>;

/// Calls `glam::UVec2::as_vec2`, which converts each of the two integers to
/// the nearest single-precision number.
#[verifier::external_body]
fn glam_as_vec2(x: u32, y: u32) -> (v: Vec2)
    ensures
        v@ == floats_of_u32_pair(x, y),
{
    let out: [u32; 2] = zerocopy::FromBytes::read_from_bytes(
        zerocopy::IntoBytes::as_bytes(&glam::UVec2::new(x, y).as_vec2()),
    ).unwrap();
    Vec2 { x: out[0], y: out[1] }
}

/// The division of single-precision numbers of std, on bit patterns. It is
/// correctly rounded, so its value is determined by the values of its
/// operands.
#[verifier::external_body]
fn float_div(a: u32, b: u32) -> (q: u32)
    ensures
        value_of(q) == float_quotient(value_of(a), value_of(b)),
{
    let operands: glam::Vec2 =
        zerocopy::FromBytes::read_from_bytes(zerocopy::IntoBytes::as_bytes(&[a, b])).unwrap();
    (operands.x / operands.y).to_bits()
}

/// `to_radians` of std on a bit pattern. std leaves the precision of the
/// conversion open, so nothing is claimed of the result.
#[verifier::external_body]
fn float_to_radians(degrees: u32) -> u32 {
    let operands: glam::Vec2 =
        zerocopy::FromBytes::read_from_bytes(zerocopy::IntoBytes::as_bytes(&[degrees, 0])).unwrap();
    operands.x.to_radians().to_bits()
}

/// Calls `glam::Mat4::look_at_rh`, which builds the view matrix from the
/// three vectors with subtractions, cross and dot products and a
/// normalisation. Without `glam`'s assertion features it returns for every
/// input.
#[verifier::external_body]
#[allow(deprecated)]
fn glam_look_at_rh(eye: Vec3, center: Vec3, up: Vec3) -> (m: Mat4)
    ensures
        m@ == look_at_matrix(eye@, center@, up@),
{
    let e: glam::Vec3 =
        zerocopy::FromBytes::read_from_bytes(zerocopy::IntoBytes::as_bytes(&[eye.x, eye.y, eye.z])).unwrap();
    let c: glam::Vec3 = zerocopy::FromBytes::read_from_bytes(
        zerocopy::IntoBytes::as_bytes(&[center.x, center.y, center.z]),
    ).unwrap();
    let u: glam::Vec3 =
        zerocopy::FromBytes::read_from_bytes(zerocopy::IntoBytes::as_bytes(&[up.x, up.y, up.z])).unwrap();
    let out = glam::Mat4::look_at_rh(e, c, u);
    Mat4 { cols: zerocopy::FromBytes::read_from_bytes(zerocopy::IntoBytes::as_bytes(&out)).unwrap() }
}

/// Bit pattern of `-1.0`.
pub const MINUS_ONE_BITS: u32 = 0xbf80_0000;

/// The values of the two depth entries of a right-handed perspective
/// projection with depth from `z_near` to `z_far`: `r = z_far / (z_near -
/// z_far)` and `r * z_near`.
pub uninterp spec fn perspective_depth_terms(z_near: u32, z_far: u32) -> Seq<u32>;

/// That `m` has the shape of a right-handed perspective projection with
/// the given aspect ratio and depth from `z_near` to `z_far`. Column by
/// column the matrix is `(w, 0, 0, 0)`, `(0, h, 0, 0)`, `(0, 0, r, -1)`,
/// `(0, 0, r * z_near, 0)`: the `-1` makes the depth of a point in front of
/// the camera positive, `r` and `r * z_near` are the depth terms, and the
/// horizontal scale `w` is the vertical scale `h` over the aspect ratio. Of
/// `h`, which comes from the field of view, nothing is said.
pub open spec fn perspective_shape(m: Seq<u32>, aspect_ratio: u32, z_near: u32, z_far: u32) -> bool {
    let depth = perspective_depth_terms(value_of(z_near), value_of(z_far));
    &&& m.len() == 16
    &&& m[0] == float_quotient(m[5], value_of(aspect_ratio))
    &&& m[1] == 0 && m[2] == 0 && m[3] == 0
    &&& m[4] == 0 && m[6] == 0 && m[7] == 0
    &&& m[8] == 0 && m[9] == 0
    &&& m[10] == depth[0]
    &&& m[11] == MINUS_ONE_BITS
    &&& m[12] == 0 && m[13] == 0
    &&& m[14] == depth[1]
    &&& m[15] == 0
}

/// Calls `glam::Mat4::perspective_rh`. Its vertical scale comes from a sine
/// and a cosine, whose last bits std does not fix, so nothing is claimed of
/// it. The horizontal scale is the vertical scale divided by the aspect
/// ratio, one division of std. The other entries are constants, or are
/// computed from `z_near` and `z_far` alone by a subtraction, a division and
/// a multiplication: the contract states the constants and the division and
/// names the two depth entries. Without `glam`'s assertion features the call
/// returns for every input.
#[verifier::external_body]
#[allow(deprecated)]
fn glam_perspective_rh(fov_y_radians: u32, aspect_ratio: u32, z_near: u32, z_far: u32) -> (m: Mat4)
    ensures
        m@[10] == perspective_depth_terms(value_of(z_near), value_of(z_far))[0],
        m@[14] == perspective_depth_terms(value_of(z_near), value_of(z_far))[1],
        m@[0] == float_quotient(m@[5], value_of(aspect_ratio)),
        perspective_shape(m@, aspect_ratio, z_near, z_far),
{
    let a: glam::Vec4 = zerocopy::FromBytes::read_from_bytes(
        zerocopy::IntoBytes::as_bytes(&[fov_y_radians, aspect_ratio, z_near, z_far]),
    ).unwrap();
    let out = glam::Mat4::perspective_rh(a.x, a.y, a.z, a.w);
    Mat4 { cols: zerocopy::FromBytes::read_from_bytes(zerocopy::IntoBytes::as_bytes(&out)).unwrap() }
}

/// The value of the aspect ratio of a picture of `width` by `height`.
pub open spec fn aspect_ratio_of(width: u32, height: u32) -> u32 {
    float_quotient(floats_of_u32_pair(width, height)[0], floats_of_u32_pair(width, height)[1])
}

/// The view-projection matrix of a projection and a view: the projection
/// times the view.
pub fn compose_view_projection(proj: &Mat4, view: &Mat4) -> (m: Mat4)
    ensures
        m@ == mat4_product(proj@, view@),
{
    proj.mul_mat4(view)
}

/// The view uniform of a view-projection matrix and the position of the eye.
pub fn make_view_uniform(view_proj: Mat4, eye: Vec3) -> (uniform: ViewUniform)
    ensures
        uniform == (ViewUniform { view_proj, camera_world_position: eye, _pad: 0 }),
{
    ViewUniform { view_proj, camera_world_position: eye, _pad: 0 }
}

impl Camera {
    /// A camera for a picture of `width` by `height`: a little behind and
    /// well above the origin, looking at it, with z up, a field of view of
    /// ninety degrees and depth from `0.001` to `1000.0`.
    pub fn new(width: u32, height: u32) -> (camera: Camera)
        ensures
            camera.eye == (Vec3 { x: 0, y: MINUS_TENTH_BITS, z: ONE_POINT_THREE_BITS }),
            camera.target == (Vec3 { x: 0, y: 0, z: 0 }),
            camera.up == (Vec3 { x: 0, y: 0, z: crate::math::ONE_BITS }),
            value_of(camera.aspect) == aspect_ratio_of(width, height),
            camera.fovy == NINETY_BITS,
            camera.znear == THOUSANDTH_BITS,
            camera.zfar == THOUSAND_BITS,
    {
        let size = glam_as_vec2(width, height);
        assert(size@[0] == value_of(size.x) && size@[1] == value_of(size.y));
        Camera {
            eye: Vec3::new(0, MINUS_TENTH_BITS, ONE_POINT_THREE_BITS),
            target: Vec3::zero(),
            up: Vec3::new(0, 0, crate::math::ONE_BITS),
            aspect: float_div(size.x, size.y),
            fovy: NINETY_BITS,
            znear: THOUSANDTH_BITS,
            zfar: THOUSAND_BITS,
        }
    }

    /// The right-handed view matrix of the camera.
    pub fn view_matrix(&self) -> (view: Mat4)
        ensures
            view@ == look_at_matrix(self.eye@, self.target@, self.up@),
    {
        glam_look_at_rh(self.eye, self.target, self.up)
    }

    /// That `m` is a view-projection matrix of the camera: a matrix of the
    /// shape of a right-handed perspective projection with the aspect ratio
    /// and the depth range of the camera, times the view matrix of the
    /// camera.
    pub open spec fn is_view_projection(&self, m: Seq<u32>) -> bool {
        exists|proj: Mat4|
            perspective_shape(proj@, self.aspect, self.znear, self.zfar) && #[trigger] mat4_product(
                proj@,
                look_at_matrix(self.eye@, self.target@, self.up@),
            ) == m
    }

    /// The right-handed perspective projection of the camera, for its field
    /// of view, aspect ratio and depth range. The vertical scale comes from
    /// a sine and a cosine of the field of view and is not specified; every
    /// other entry is, the horizontal scale as the vertical one over the
    /// aspect ratio.
    pub fn projection_matrix(&self) -> (proj: Mat4)
        ensures
            perspective_shape(proj@, self.aspect, self.znear, self.zfar),
    {
        glam_perspective_rh(float_to_radians(self.fovy), self.aspect, self.znear, self.zfar)
    }

    /// The view-projection matrix: the perspective projection of the camera
    /// times its view matrix.
    pub fn to_view_projection_matrix(&self) -> (m: Mat4)
        ensures
            self.is_view_projection(m@),
    {
        let proj = self.projection_matrix();
        let view = self.view_matrix();
        let m = compose_view_projection(&proj, &view);
        assert(mat4_product(proj@, look_at_matrix(self.eye@, self.target@, self.up@)) == m@);
        m
    }

    /// What the camera hands to the shaders under the name of view matrix:
    /// its view-projection matrix.
    pub fn to_view_matrix(&self) -> (m: Mat4)
        ensures
            self.is_view_projection(m@),
    {
        self.to_view_projection_matrix()
    }

    /// The view uniform of the camera: its view-projection matrix and the
    /// position of its eye.
    pub fn to_camera_uniform(&self) -> (uniform: ViewUniform)
        ensures
            uniform.camera_world_position == self.eye,
            uniform._pad == 0,
            self.is_view_projection(uniform.view_proj@),
    {
        let view_proj = self.to_view_matrix();
        make_view_uniform(view_proj, self.eye)
    }
}

} // verus!
