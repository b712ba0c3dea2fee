//! The render target: a window surface or an offscreen texture. The
//! decisions are made here; acquiring, configuring and reading back are done
//! by the backend, which hands in what it observed.

use vstd::prelude::*;

verus! {

/// Why a window surface did not hand out its next texture.
#[derive(Clone, Copy, Debug, PartialEq, Eq, Structural)]
pub enum SurfaceError {
    Timeout,
    Outdated,
    Lost,
    OutOfMemory,
    Other,
}

/// What can go wrong between the device and the target.
#[derive(Clone, Copy, Debug, PartialEq, Eq, Structural)]
pub enum Error {
    /// No adapter was found.
    RequestAdapter,
    /// The adapter gave no device.
    RequestDevice,
    /// The surface gave no texture.
    SurfaceError(SurfaceError),
    /// An offscreen texture was asked of a window surface.
    NotOffscreen,
}

impl Error {
    /// Whether the error goes away when the target is set up anew: a lost or
    /// outdated surface does, nothing else.
    pub open spec fn transient(self) -> bool {
        self == Error::SurfaceError(SurfaceError::Lost) || self == Error::SurfaceError(
            SurfaceError::Outdated,
        )
    }

    /// Whether the error goes away when the target is set up anew.
    pub fn is_transient(&self) -> (t: bool)
        ensures
            t == self.transient(),
    {
        match self {
            Error::SurfaceError(SurfaceError::Lost) => true,
            Error::SurfaceError(SurfaceError::Outdated) => true,
            _ => false,
        }
    }
}

/// What backs a target.
#[derive(Clone, Copy, Debug, PartialEq, Eq, Structural)]
pub enum TargetKind {
    WindowSurface,
    Texture,
}

/// Something to render to, and the size it is configured for.
#[derive(Clone, Copy, Debug, PartialEq, Eq, Structural)]
pub struct Target {
    pub kind: TargetKind,
    pub width: u32,
    pub height: u32,
}

/// The image that a frame is drawn to.
#[derive(Clone, Copy, Debug, PartialEq, Eq, Structural)]
pub struct TargetDestination {
    /// Whether the image belongs to a surface and is to be presented.
    pub surface_texture: bool,
    pub width: u32,
    pub height: u32,
}

impl TargetDestination {
    pub fn width(&self) -> (w: u32)
        ensures
            w == self.width,
    {
        self.width
    }

    pub fn height(&self) -> (h: u32)
        ensures
            h == self.height,
    {
        self.height
    }

    /// Whether there is a surface texture to present.
    pub fn into_surface(self) -> (present: bool)
        ensures
            present == self.surface_texture,
    {
        self.surface_texture
    }
}

/// How the texture of an offscreen target is copied to a buffer that the
/// host reads.
#[derive(Clone, Copy, Debug, PartialEq, Eq, Structural)]
pub struct Readback {
    /// Size of the buffer in bytes: four for each texel.
    pub buffer_size: u64,
    pub bytes_per_row: u32,
    pub rows_per_image: u32,
    /// Width and height of the copy, each at least 1.
    pub extent_width: u32,
    pub extent_height: u32,
}

/// The larger of `a` and 1.
pub open spec fn at_least_one(a: u32) -> u32 {
    if a == 0 {
        1
    } else {
        a
    }
}

/// The larger of `a` and 1.
pub fn clamp_to_one(a: u32) -> (r: u32)
    ensures
        r == at_least_one(a),
{
    if a == 0 {
        1
    } else {
        a
    }
}

impl Target {
    /// Whether the target is a window surface.
    pub fn get_target(&self) -> (surface: bool)
        ensures
            surface == (self.kind == TargetKind::WindowSurface),
    {
        match self.kind {
            TargetKind::WindowSurface => true,
            TargetKind::Texture => false,
        }
    }

    /// The image of the next frame. `acquired` is what the surface answered
    /// when asked for its next texture, with the size of that texture; it is
    /// not looked at for an offscreen target, which never fails.
    pub fn destination(&self, acquired: Result<(u32, u32), SurfaceError>) -> (result: Result<
        TargetDestination,
        Error,
    >)
        ensures
            self.kind == TargetKind::Texture ==> result == Ok::<TargetDestination, Error>(
                TargetDestination { surface_texture: false, width: self.width, height: self.height },
            ),
            self.kind == TargetKind::WindowSurface ==> result == (match acquired {
                Ok((width, height)) => Ok::<TargetDestination, Error>(
                    TargetDestination { surface_texture: true, width, height },
                ),
                Err(e) => Err::<TargetDestination, Error>(Error::SurfaceError(e)),
            }),
    {
        match self.kind {
            TargetKind::WindowSurface => match acquired {
                Ok((width, height)) => Ok(TargetDestination { surface_texture: true, width, height }),
                Err(e) => Err(Error::SurfaceError(e)),
            },
            TargetKind::Texture => Ok(
                TargetDestination { surface_texture: false, width: self.width, height: self.height },
            ),
        }
    }

    /// Takes over the size of the window. A window surface whose window has
    /// a width and a height is set to that size, and the result is `true`:
    /// the surface is then to be configured. With a width or a height of
    /// zero, and for an offscreen target, nothing changes and the result is
    /// `false`.
    pub fn reconfigure(&mut self, window_width: u32, window_height: u32) -> (configured: bool)
        ensures
            configured == (old(self).kind == TargetKind::WindowSurface && window_width > 0
                && window_height > 0),
            !configured ==> *final(self) == *old(self),
            configured ==> *final(self) == (Target {
                kind: TargetKind::WindowSurface,
                width: window_width,
                height: window_height,
            }),
    {
        match self.kind {
            TargetKind::WindowSurface => {
                if window_width > 0 && window_height > 0 {
                    self.width = window_width;
                    self.height = window_height;
                    true
                } else {
                    false
                }
            },
            TargetKind::Texture => false,
        }
    }

    /// A window surface target. It starts with the configured size and
    /// takes over the size of the window at once, if the window has one.
    pub fn new_surface(width: u32, height: u32, window_width: u32, window_height: u32) -> (target:
        Target)
        ensures
            target.kind == TargetKind::WindowSurface,
            window_width > 0 && window_height > 0 ==> target.width == window_width && target.height
                == window_height,
            !(window_width > 0 && window_height > 0) ==> target.width == width && target.height
                == height,
    {
        let mut z = Target { kind: TargetKind::WindowSurface, width, height };
        z.reconfigure(window_width, window_height);
        z
    }

    /// An offscreen target of `width` by `height`.
    pub fn new_texture(width: u32, height: u32) -> (target: Target)
        ensures
            target == (Target { kind: TargetKind::Texture, width, height }),
    {
        Target { kind: TargetKind::Texture, width, height }
    }

    /// How to read the picture back for saving. Only an offscreen target
    /// can be saved.
    pub fn save(&self) -> (result: Result<Readback, Error>)
        requires
            4 * self.width <= u32::MAX,
            4 * self.width * self.height <= u32::MAX,
        ensures
            self.kind == TargetKind::WindowSurface ==> result == Err::<Readback, Error>(
                Error::NotOffscreen,
            ),
            self.kind == TargetKind::Texture ==> result == Ok::<Readback, Error>(
                Readback {
                    buffer_size: (4 * self.width * self.height) as u64,
                    bytes_per_row: (4 * self.width) as u32,
                    rows_per_image: self.height,
                    extent_width: at_least_one(self.width),
                    extent_height: at_least_one(self.height),
                },
            ),
    {
        match self.kind {
            TargetKind::WindowSurface => Err(Error::NotOffscreen),
            TargetKind::Texture => {
                let width = self.width;
                let height = self.height;
                let row: u64 = 4 * (width as u64);
                assert(row * (height as u64) == 4 * width * height) by (nonlinear_arith)
                    requires
                        row == 4 * width,
                ;
                let buffer_size: u64 = row * (height as u64);
                Ok(
                    Readback {
                        buffer_size,
                        bytes_per_row: 4 * width,
                        rows_per_image: height,
                        extent_width: clamp_to_one(width),
                        extent_height: clamp_to_one(height),
                    },
                )
            },
        }
    }
}

/// Which of the formats that a surface offers to use: the first that is
/// sRGB, and the first of all if none is. `is_srgb` tells for each format
/// offered whether it is sRGB.
pub fn choose_surface_format(is_srgb: &[bool]) -> (chosen: usize)
    requires
        is_srgb@.len() > 0,
    ensures
        chosen < is_srgb@.len(),
        forall|i: int| 0 <= i < chosen ==> !is_srgb@[i],
        is_srgb@[chosen as int] || (chosen == 0 && forall|i: int| 0 <= i < is_srgb@.len() ==> !is_srgb@[i]),
{
    let mut i: usize = 0;
    while i < is_srgb.len()
        invariant
            i <= is_srgb.len(),
            forall|k: int| 0 <= k < i ==> !is_srgb@[k],
        decreases is_srgb.len() - i,
    {
        if is_srgb[i] {
            return i;
        }
        i += 1;
    }
    0
}

} // verus!
