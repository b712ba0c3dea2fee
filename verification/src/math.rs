//! Vectors and matrices of single-precision numbers.
//!
//! A number is held by its IEEE-754 bit pattern in a `u32`: data is moved
//! around, laid out in buffers and compared bit by bit, and the arithmetic
//! itself is done by `glam`. What `glam` computes is not modelled; each
//! operation has a name (`mat4_product`, `vec3_cross`, ...) that stands for
//! its result.
//!
//! Arithmetic does not fix which NaN comes out, so the names speak of
//! *values*: the bit pattern with every NaN replaced by one chosen NaN. The
//! view `@` of a vector or matrix is the sequence of its values; `words()` is
//! the sequence of its raw bit patterns.

use vstd::prelude::*;

verus! {

/// Bit pattern of `0.0`.
pub const ZERO_BITS: u32 = 0;

/// Bit pattern of `1.0`.
pub const ONE_BITS: u32 = 0x3f80_0000;

/// The sign bit of a single-precision number.
pub const SIGN_BIT: u32 = 0x8000_0000;

/// The NaN that stands for every NaN in a value.
pub const NAN_BITS: u32 = 0x7fc0_0000;

/// Whether `bits` is the pattern of a NaN: exponent all ones, mantissa not zero.
pub open spec fn is_nan(bits: u32) -> bool {
    bits % 0x8000_0000 > 0x7f80_0000
}

/// The number that `bits` encodes, as a bit pattern in which all NaNs are one.
pub open spec fn value_of(bits: u32) -> u32 {
    if is_nan(bits) {
        NAN_BITS
    } else {
        bits
    }
}

/// The values of a sequence of bit patterns.
pub open spec fn values_of(words: Seq<u32>) -> Seq<u32> {
    Seq::new(words.len(), |i: int| value_of(words[i]))
}

/// The same number with the opposite sign.
pub open spec fn negated(bits: u32) -> u32 {
    if bits >= SIGN_BIT {
        (bits - SIGN_BIT) as u32
    } else {
        (bits + SIGN_BIT) as u32
    }
}

/// Flips the sign of a number, as unary minus does.
pub fn negate(bits: u32) -> (r: u32)
    ensures
        r == negated(bits),
{
    if bits >= SIGN_BIT {
        bits - SIGN_BIT
    } else {
        bits + SIGN_BIT
    }
}

/// A vector of two numbers.
#[derive(Clone, Copy, Debug, PartialEq, Eq, Structural)]
pub struct Vec2 {
    pub x: u32,
    pub y: u32,
}

/// A vector of three numbers, twelve bytes wide.
#[derive(Clone, Copy, Debug, PartialEq, Eq, Structural)]
pub struct Vec3 {
    pub x: u32,
    pub y: u32,
    pub z: u32,
}

/// A vector of three numbers that takes the room of four in a buffer.
#[derive(Clone, Copy, Debug, PartialEq, Eq, Structural)]
pub struct Vec3A {
    pub x: u32,
    pub y: u32,
    pub z: u32,
}

/// A vector of four numbers.
#[derive(Clone, Copy, Debug, PartialEq, Eq, Structural)]
pub struct Vec4 {
    pub x: u32,
    pub y: u32,
    pub z: u32,
    pub w: u32,
}

/// A rotation as a quaternion `(x, y, z, w)`.
#[derive(Clone, Copy, Debug, PartialEq, Eq, Structural)]
pub struct Quat {
    pub x: u32,
    pub y: u32,
    pub z: u32,
    pub w: u32,
}

/// A 4x4 matrix, stored column by column: entry `4 * column + row`.
#[derive(Clone, Copy, Debug, PartialEq, Eq)]
pub struct Mat4 {
    pub cols: [u32; 16],
}

impl Vec2 {
    /// The vector of zeros.
    pub fn zero() -> (v: Vec2)
        ensures
            v == (Vec2 { x: 0, y: 0 }),
    {
        Vec2 { x: 0, y: 0 }
    }

    /// The raw bit patterns `[x, y]`.
    pub open spec fn words(self) -> Seq<u32> {
        seq![self.x, self.y]
    }

    pub fn new(x: u32, y: u32) -> (v: Vec2)
        ensures
            v == (Vec2 { x, y }),
    {
        Vec2 { x, y }
    }
}

impl View for Vec2 {
    type V = Seq<u32>;

    open spec fn view(&self) -> Seq<u32> {
        values_of(self.words())
    }
}

impl Vec3 {
    /// The vector of zeros.
    pub fn zero() -> (v: Vec3)
        ensures
            v == (Vec3 { x: 0, y: 0, z: 0 }),
    {
        Vec3 { x: 0, y: 0, z: 0 }
    }

    /// The raw bit patterns `[x, y, z]`.
    pub open spec fn words(self) -> Seq<u32> {
        seq![self.x, self.y, self.z]
    }

    pub fn new(x: u32, y: u32, z: u32) -> (v: Vec3)
        ensures
            v == (Vec3 { x, y, z }),
    {
        Vec3 { x, y, z }
    }

    /// The same three numbers in the wider layout.
    pub fn to_vec3a(self) -> (v: Vec3A)
        ensures
            v == (Vec3A { x: self.x, y: self.y, z: self.z }),
    {
        Vec3A { x: self.x, y: self.y, z: self.z }
    }

    /// `self - rhs`, component by component.
    pub fn difference(self, rhs: Vec3) -> (v: Vec3)
        ensures
            v@ == vec3_difference(self@, rhs@),
    {
        glam_vec3_sub(self, rhs)
    }

    /// The cross product `self x rhs`.
    pub fn cross(self, rhs: Vec3) -> (v: Vec3)
        ensures
            v@ == vec3_cross(self@, rhs@),
    {
        glam_vec3_cross(self, rhs)
    }

    /// `self` scaled to length one. A vector of length zero gives NaNs.
    pub fn normalize(self) -> (v: Vec3)
        ensures
            v@ == vec3_normalized(self@),
    {
        glam_vec3_normalize(self)
    }
}

impl View for Vec3 {
    type V = Seq<u32>;

    open spec fn view(&self) -> Seq<u32> {
        values_of(self.words())
    }
}

impl Vec3A {
    /// The vector of zeros.
    pub fn zero() -> (v: Vec3A)
        ensures
            v == (Vec3A { x: 0, y: 0, z: 0 }),
    {
        Vec3A { x: 0, y: 0, z: 0 }
    }

    /// The four words that the vector takes in a buffer: `[x, y, z, 0]`.
    pub open spec fn words(self) -> Seq<u32> {
        seq![self.x, self.y, self.z, 0u32]
    }

    pub fn new(x: u32, y: u32, z: u32) -> (v: Vec3A)
        ensures
            v == (Vec3A { x, y, z }),
    {
        Vec3A { x, y, z }
    }
}

impl View for Vec3A {
    type V = Seq<u32>;

    open spec fn view(&self) -> Seq<u32> {
        values_of(seq![self.x, self.y, self.z])
    }
}

impl Vec4 {
    /// The vector of zeros.
    pub fn zero() -> (v: Vec4)
        ensures
            v == (Vec4 { x: 0, y: 0, z: 0, w: 0 }),
    {
        Vec4 { x: 0, y: 0, z: 0, w: 0 }
    }

    /// The raw bit patterns `[x, y, z, w]`.
    pub open spec fn words(self) -> Seq<u32> {
        seq![self.x, self.y, self.z, self.w]
    }

    pub fn new(x: u32, y: u32, z: u32, w: u32) -> (v: Vec4)
        ensures
            v == (Vec4 { x, y, z, w }),
    {
        Vec4 { x, y, z, w }
    }
}

impl View for Vec4 {
    type V = Seq<u32>;

    open spec fn view(&self) -> Seq<u32> {
        values_of(self.words())
    }
}

impl Quat {
    /// The raw bit patterns `[x, y, z, w]`.
    pub open spec fn words(self) -> Seq<u32> {
        seq![self.x, self.y, self.z, self.w]
    }

    pub fn new(x: u32, y: u32, z: u32, w: u32) -> (q: Quat)
        ensures
            q == (Quat { x, y, z, w }),
    {
        Quat { x, y, z, w }
    }
}

impl View for Quat {
    type V = Seq<u32>;

    open spec fn view(&self) -> Seq<u32> {
        values_of(self.words())
    }
}

/// The sixteen entries of the identity matrix, column by column.
pub open spec fn identity_words() -> Seq<u32> {
    seq![
        ONE_BITS, 0u32, 0u32, 0u32,
        0u32, ONE_BITS, 0u32, 0u32,
        0u32, 0u32, ONE_BITS, 0u32,
        0u32, 0u32, 0u32, ONE_BITS,
    ]
}

/// The sixteen entries of the matrix that scales by `(x, y, z)`.
pub open spec fn scale_words(x: u32, y: u32, z: u32) -> Seq<u32> {
    seq![
        x, 0u32, 0u32, 0u32,
        0u32, y, 0u32, 0u32,
        0u32, 0u32, z, 0u32,
        0u32, 0u32, 0u32, ONE_BITS,
    ]
}

/// The entries of a matrix given as four columns of four.
pub open spec fn cols_2d_words(m: [[u32; 4]; 4]) -> Seq<u32> {
    Seq::new(16, |i: int| m[i / 4][i % 4])
}

impl Mat4 {
    /// The raw bit patterns of the sixteen entries, column by column.
    pub open spec fn words(self) -> Seq<u32> {
        self.cols@
    }

    /// The identity matrix.
    pub fn identity() -> (m: Mat4)
        ensures
            m.words() == identity_words(),
    {
        let m = Mat4 {
            cols: [
                ONE_BITS, 0, 0, 0,
                0, ONE_BITS, 0, 0,
                0, 0, ONE_BITS, 0,
                0, 0, 0, ONE_BITS,
            ],
        };
        assert(m.words() =~= identity_words());
        m
    }

    /// The matrix with all entries `0.0`.
    pub fn zero() -> (m: Mat4)
        ensures
            m.words() == Seq::new(16, |i: int| 0u32),
    {
        let m = Mat4 { cols: [0; 16] };
        assert(m.words() =~= Seq::new(16, |i: int| 0u32));
        m
    }

    /// The matrix whose entries are `cols`, in that order.
    pub fn from_cols_array(cols: [u32; 16]) -> (m: Mat4)
        ensures
            m.words() == cols@,
    {
        Mat4 { cols }
    }

    /// The matrix whose columns are the four arrays of `m`.
    pub fn from_cols_array_2d(m: &[[u32; 4]; 4]) -> (r: Mat4)
        ensures
            r.words() == cols_2d_words(*m),
    {
        let r = Mat4 {
            cols: [
                m[0][0], m[0][1], m[0][2], m[0][3],
                m[1][0], m[1][1], m[1][2], m[1][3],
                m[2][0], m[2][1], m[2][2], m[2][3],
                m[3][0], m[3][1], m[3][2], m[3][3],
            ],
        };
        assert(r.words() =~= cols_2d_words(*m));
        r
    }

    /// The matrix product `self * rhs`.
    pub fn mul_mat4(&self, rhs: &Mat4) -> (product: Mat4)
        ensures
            product@ == mat4_product(self@, rhs@),
    {
        glam_mat4_mul(self, rhs)
    }

    /// The transform that rotates by `rotation`, then moves by `translation`.
    pub fn from_rotation_translation(rotation: Quat, translation: Vec3) -> (m: Mat4)
        ensures
            m@ == rotation_translation_matrix(rotation@, translation@),
    {
        glam_mat4_from_rotation_translation(rotation, translation)
    }

    /// The transform that scales each axis by the component of `scale`.
    pub fn from_scale(scale: Vec3) -> (m: Mat4)
        ensures
            m@ == values_of(scale_words(scale.x, scale.y, scale.z)),
    {
        glam_mat4_from_scale(scale)
    }
}

impl View for Mat4 {
    type V = Seq<u32>;

    open spec fn view(&self) -> Seq<u32> {
        values_of(self.words())
    }
}

/// The value of the matrix product `a * b` that `glam` computes, for the
/// values `a` and `b` of two matrices.
pub uninterp spec fn mat4_product(a: Seq<u32>, b: Seq<u32>) -> Seq<u32>;

/// The value of the matrix that `glam` builds from the values of a rotation
/// quaternion and of a translation.
pub uninterp spec fn rotation_translation_matrix(rotation: Seq<u32>, translation: Seq<u32>) -> Seq<u32>;

/// The value of `a - b` for the values of two vectors of three.
pub uninterp spec fn vec3_difference(a: Seq<u32>, b: Seq<u32>) -> Seq<u32>;

/// The value of the cross product `a x b` for the values of two vectors of three.
pub uninterp spec fn vec3_cross(a: Seq<u32>, b: Seq<u32>) -> Seq<u32>;

/// The value of `v` scaled to length one, for the value of a vector of three.
pub uninterp spec fn vec3_normalized(v: Seq<u32>) -> Seq<u32>;

/// Calls `glam::Mat4::mul_mat4`. The product is a fixed sequence of
/// single-precision multiplications and additions of the entries, so its
/// value is determined by the values of the two factors; the contract gives
/// that value its name and claims nothing else.
#[verifier::external_body]
fn glam_mat4_mul(a: &Mat4, b: &Mat4) -> (product: Mat4)
    ensures
        product@ == mat4_product(a@, b@),
{
    let lhs: glam::Mat4 =
        zerocopy::FromBytes::read_from_bytes(zerocopy::IntoBytes::as_bytes(&a.cols)).unwrap();
    let rhs: glam::Mat4 =
        zerocopy::FromBytes::read_from_bytes(zerocopy::IntoBytes::as_bytes(&b.cols)).unwrap();
    let out = lhs.mul_mat4(&rhs);
    Mat4 { cols: zerocopy::FromBytes::read_from_bytes(zerocopy::IntoBytes::as_bytes(&out)).unwrap() }
}

/// Calls `glam::Mat4::from_rotation_translation`, which computes the rotation
/// part from the quaternion with single-precision arithmetic and copies the
/// translation into the last column. The contract names the value of the
/// result.
#[verifier::external_body]
fn glam_mat4_from_rotation_translation(rotation: Quat, translation: Vec3) -> (m: Mat4)
    ensures
        m@ == rotation_translation_matrix(rotation@, translation@),
{
    let q = [rotation.x, rotation.y, rotation.z, rotation.w];
    let t = [translation.x, translation.y, translation.z];
    let q: glam::Quat = zerocopy::FromBytes::read_from_bytes(zerocopy::IntoBytes::as_bytes(&q)).unwrap();
    let t: glam::Vec3 = zerocopy::FromBytes::read_from_bytes(zerocopy::IntoBytes::as_bytes(&t)).unwrap();
    let out = glam::Mat4::from_rotation_translation(q, t);
    Mat4 { cols: zerocopy::FromBytes::read_from_bytes(zerocopy::IntoBytes::as_bytes(&out)).unwrap() }
}

/// Calls `glam::Mat4::from_scale`, which does no arithmetic: it puts the three
/// components on the diagonal, `1.0` in the last corner and `0.0` elsewhere.
/// The contract claims this of the values of the entries.
#[verifier::external_body]
fn glam_mat4_from_scale(scale: Vec3) -> (m: Mat4)
    ensures
        m@ == values_of(scale_words(scale.x, scale.y, scale.z)),
{
    let s = [scale.x, scale.y, scale.z];
    let s: glam::Vec3 = zerocopy::FromBytes::read_from_bytes(zerocopy::IntoBytes::as_bytes(&s)).unwrap();
    let out = glam::Mat4::from_scale(s);
    Mat4 { cols: zerocopy::FromBytes::read_from_bytes(zerocopy::IntoBytes::as_bytes(&out)).unwrap() }
}

/// Calls `glam::Vec3`'s subtraction, three single-precision subtractions.
#[verifier::external_body]
fn glam_vec3_sub(a: Vec3, b: Vec3) -> (v: Vec3)
    ensures
        v@ == vec3_difference(a@, b@),
{
    let a: glam::Vec3 =
        zerocopy::FromBytes::read_from_bytes(zerocopy::IntoBytes::as_bytes(&[a.x, a.y, a.z])).unwrap();
    let b: glam::Vec3 =
        zerocopy::FromBytes::read_from_bytes(zerocopy::IntoBytes::as_bytes(&[b.x, b.y, b.z])).unwrap();
    let out: [u32; 3] =
        zerocopy::FromBytes::read_from_bytes(zerocopy::IntoBytes::as_bytes(&(a - b))).unwrap();
    Vec3 { x: out[0], y: out[1], z: out[2] }
}

/// Calls `glam::Vec3::cross`, six multiplications and three subtractions in
/// single precision.
#[verifier::external_body]
fn glam_vec3_cross(a: Vec3, b: Vec3) -> (v: Vec3)
    ensures
        v@ == vec3_cross(a@, b@),
{
    let a: glam::Vec3 =
        zerocopy::FromBytes::read_from_bytes(zerocopy::IntoBytes::as_bytes(&[a.x, a.y, a.z])).unwrap();
    let b: glam::Vec3 =
        zerocopy::FromBytes::read_from_bytes(zerocopy::IntoBytes::as_bytes(&[b.x, b.y, b.z])).unwrap();
    let out: [u32; 3] =
        zerocopy::FromBytes::read_from_bytes(zerocopy::IntoBytes::as_bytes(&a.cross(b))).unwrap();
    Vec3 { x: out[0], y: out[1], z: out[2] }
}

/// Calls `glam::Vec3::normalize`, which multiplies the vector by one over its
/// length. Without `glam`'s assertion features, which this crate does not
/// turn on, it returns for every input.
#[verifier::external_body]
fn glam_vec3_normalize(v: Vec3) -> (n: Vec3)
    ensures
        n@ == vec3_normalized(v@),
{
    let v: glam::Vec3 =
        zerocopy::FromBytes::read_from_bytes(zerocopy::IntoBytes::as_bytes(&[v.x, v.y, v.z])).unwrap();
    let out: [u32; 3] =
        zerocopy::FromBytes::read_from_bytes(zerocopy::IntoBytes::as_bytes(&v.normalize())).unwrap();
    Vec3 { x: out[0], y: out[1], z: out[2] }
}

} // verus!
