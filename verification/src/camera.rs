//! The camera: its settings and their validation, the order in which the
//! samples of an image are taken, and the bounces of a ray.

use vstd::prelude::*;
use crate::math::color::Color;
use crate::math::point::Point3;
use crate::math::scalar::Scalar;
use crate::math::scalar::ONE_BITS;
use crate::math::vec::Normalized;
use crate::math::vec::Vec3;

verus! {

/// The bit pattern of a quarter turn in radians, the default angle of view.
pub const QUARTER_TURN_BITS: u64 = 0x3FF9_21FB_5444_2D18;

/// The bit pattern of minus one.
pub const MINUS_ONE_BITS: u64 = 0xBFF0_0000_0000_0000;

/// The order of a tenth, the least ratio of width to height.
pub const MIN_ASPECT_ORD: i64 = 0x3FB9_9999_9999_999A;

/// The order of a hundred, the greatest ratio of width to height.
pub const MAX_ASPECT_ORD: i64 = 0x4059_0000_0000_0000;

/// The order of a hundredth, the least angle of view in degrees.
pub const MIN_VFOV_ORD: i64 = 0x3F84_7AE1_47AE_147B;

/// The order of 360, the bound that an angle of view stays under.
pub const MAX_VFOV_ORD: i64 = 0x4076_8000_0000_0000;

/// The order of 180, the bound that a defocus angle stays under.
pub const MAX_DEFOCUS_ORD: i64 = 0x4066_8000_0000_0000;

/// How the samples of a pixel are spread over it.
#[derive(Clone, Copy, Debug, PartialEq, Eq, Structural)]
pub enum AntialiasingType {
    /// Over a square of the width of the pixel, centred on it.
    Square,
    /// Over a disc of the width of the pixel, centred on it.
    Disc,
}

/// What a ray that meets nothing is given.
#[derive(Clone, Copy, Debug, PartialEq, Eq, Structural)]
pub enum Background {
    /// One colour everywhere.
    Constant(Color),
    /// A sky that changes with the height of the ray.
    Sky,
}

/// What can be wrong with the settings of a camera.
#[derive(Clone, Copy, Debug, PartialEq, Eq, Structural)]
pub enum CameraError {
    /// `dimensions` was given a width of 1 or less.
    DimensionsWidth(u32),
    /// `dimensions` was given a height of 1 or less.
    DimensionsHeight(u32),
    /// `with_aspect_ratio` was given a width of 1 or less.
    AspectWidth(u32),
    /// `with_aspect_ratio` was given a ratio outside a tenth to a hundred.
    AspectRatio(Scalar),
    /// `max_depth` was given no bounce at all.
    MaxDepth(u32),
    /// `background` was given a colour with a share outside zero to one.
    BackgroundColor(Color),
    /// `antialias` was given no sample at all.
    SamplesPerPx(u32),
    /// `focal_length` was given a length that is not above zero.
    FocalLength(Scalar),
    /// `vfov` was given an angle under a hundredth of a degree, or not
    /// under 360 degrees.
    Vfov(Scalar),
    /// `defocus_angle` was given an angle under zero, or not under 180
    /// degrees.
    DefocusAngle(Scalar),
    /// `build` found no writer.
    MissingWriter,
}

/// What a camera is set to.
#[derive(Clone, Copy, Debug)]
pub struct Settings {
    /// The width of the image in pixels.
    pub image_width: u32,
    /// The height of the image in pixels.
    pub image_height: u32,
    /// The vertical angle of view, in radians.
    pub vfov: Scalar,
    /// How the samples of a pixel are spread over it.
    pub antialiasing_type: AntialiasingType,
    /// How many samples are taken for a pixel.
    pub samples_per_px: u32,
    /// How many times a ray may bounce.
    pub max_depth: u32,
    /// What a ray that meets nothing is given.
    pub background: Background,
    /// Where the rays start.
    pub camera_center: Point3,
    /// The point that the camera looks at.
    pub camera_target: Point3,
    /// The direction that is up for the camera.
    pub vup: Vec3<Normalized>,
    /// The angle of the cone of rays through a pixel, in radians.
    pub defocus_angle: Scalar,
    /// How far from the camera things are in focus.
    pub focal_length: Scalar,
}

/// Collects the settings of a camera and what is wrong with them. Each
/// setter takes its value whether it is valid or not and notes each fault
/// at the end of the list, so that `build` can report all of them at once.
#[derive(Debug)]
pub struct CameraBuilder<W> {
    pub settings: Settings,
    /// Where the finished image goes.
    pub export_writer: Option<W>,
    pub errors: Vec<CameraError>,
}

/// A camera whose settings were found valid.
#[derive(Debug)]
pub struct Camera<W> {
    /// The settings, with the number of samples for a pixel lowered to the
    /// nearest square.
    pub settings: Settings,
    /// The number of rows and of columns of the grid of samples of a pixel.
    pub sqrt_spp: u32,
    /// Where the finished image goes.
    pub export_writer: W,
}

/// The settings that a builder starts from.
pub open spec fn default_settings() -> Settings {
    Settings {
        image_width: 400,
        image_height: 200,
        vfov: Scalar { bits: QUARTER_TURN_BITS },
        antialiasing_type: AntialiasingType::Square,
        samples_per_px: 10,
        max_depth: 10,
        background: Background::Sky,
        camera_center: Point3 {
            x: Scalar { bits: 0 },
            y: Scalar { bits: 0 },
            z: Scalar { bits: 0 },
        },
        camera_target: Point3 {
            x: Scalar { bits: 0 },
            y: Scalar { bits: 0 },
            z: Scalar { bits: MINUS_ONE_BITS },
        },
        vup: Vec3 {
            x: Scalar { bits: 0 },
            y: Scalar { bits: ONE_BITS },
            z: Scalar { bits: 0 },
            normalized: core::marker::PhantomData,
        },
        defocus_angle: Scalar { bits: 0 },
        focal_length: Scalar { bits: ONE_BITS },
    }
}

/// The list with `error` added at its end where `condition` holds, and the
/// list as it is where it does not.
pub open spec fn noted(errors: Seq<CameraError>, condition: bool, error: CameraError) -> Seq<
    CameraError,
> {
    if condition {
        errors.push(error)
    } else {
        errors
    }
}

/// The whole part of the square root of `n`: the greatest number whose
/// square is not above `n`.
pub open spec fn is_sqrt_floor(root: int, n: int) -> bool {
    0 <= root && root * root <= n < (root + 1) * (root + 1)
}

/// The whole part of the square root of `n`.
pub fn sqrt_floor(n: u32) -> (root: u32)
    ensures
        is_sqrt_floor(root as int, n as int),
        root <= 0xffff,
{
    let mut low: u64 = 0;
    let mut high: u64 = 0x1_0000;
    while high - low > 1
        invariant
            low < high <= 0x1_0000,
            low * low <= n,
            n < high * high,
        decreases high - low,
    {
        let mid: u64 = low + (high - low) / 2;
        assert(mid * mid <= 0x1_0000 * 0x1_0000) by (nonlinear_arith)
            requires
                mid <= 0x1_0000,
        ;
        if mid * mid <= n as u64 {
            low = mid;
        } else {
            high = mid;
        }
    }
    low as u32
}

impl<W> CameraBuilder<W> {
    /// A builder with the default settings, no writer and no fault.
    pub fn new() -> (r: CameraBuilder<W>)
        ensures
            r.settings == default_settings(),
            r.export_writer is None,
            r.errors@ == Seq::<CameraError>::empty(),
    {
        CameraBuilder {
            settings: Settings {
                image_width: 400,
                image_height: 200,
                vfov: Scalar::from_bits(QUARTER_TURN_BITS),
                antialiasing_type: AntialiasingType::Square,
                samples_per_px: 10,
                max_depth: 10,
                background: Background::Sky,
                camera_center: Point3::origin(),
                camera_target: Point3::new(
                    Scalar::zero(),
                    Scalar::zero(),
                    Scalar::from_bits(MINUS_ONE_BITS),
                ),
                vup: Vec3::new(Scalar::zero(), Scalar::one(), Scalar::zero()).assert_is_normalized(),
                defocus_angle: Scalar::zero(),
                focal_length: Scalar::one(),
            },
            export_writer: None,
            errors: Vec::new(),
        }
    }

    /// Notes `error` where `condition` holds.
    fn error(&mut self, condition: bool, error: CameraError)
        ensures
            final(self).errors@ == noted(old(self).errors@, condition, error),
            final(self).settings == old(self).settings,
            final(self).export_writer == old(self).export_writer,
    {
        if condition {
            self.errors.push(error);
        }
    }

    /// Sets the width and the height of the image, in pixels. Each must be
    /// above 1.
    pub fn dimensions(self, width: u32, height: u32) -> (r: CameraBuilder<W>)
        ensures
            r.settings == (Settings { image_width: width, image_height: height, ..self.settings }),
            r.errors@ == noted(
                noted(self.errors@, width <= 1, CameraError::DimensionsWidth(width)),
                height <= 1,
                CameraError::DimensionsHeight(height),
            ),
            r.export_writer == self.export_writer,
    {
        let mut this = self;
        this.error(width <= 1, CameraError::DimensionsWidth(width));
        this.error(height <= 1, CameraError::DimensionsHeight(height));
        this.settings.image_width = width;
        this.settings.image_height = height;
        this
    }

    /// Sets the width of the image and, through the ratio of width to
    /// height, its height. The width must be above 1 and the ratio between
    /// a tenth and a hundred. `height` is the width divided by the ratio
    /// and rounded, which the caller works out; it is taken as it is.
    pub fn with_aspect_ratio(self, width: u32, aspect_ratio: Scalar, height: u32) -> (r:
        CameraBuilder<W>)
        ensures
            r.settings == (Settings { image_width: width, image_height: height, ..self.settings }),
            r.errors@ == noted(
                noted(self.errors@, width <= 1, CameraError::AspectWidth(width)),
                !(MIN_ASPECT_ORD <= aspect_ratio.ord() <= MAX_ASPECT_ORD),
                CameraError::AspectRatio(aspect_ratio),
            ),
            r.export_writer == self.export_writer,
    {
        let mut this = self;
        this.error(width <= 1, CameraError::AspectWidth(width));
        let ratio = aspect_ratio.ord();
        this.error(
            !(MIN_ASPECT_ORD <= ratio && ratio <= MAX_ASPECT_ORD),
            CameraError::AspectRatio(aspect_ratio),
        );
        this.settings.image_width = width;
        this.settings.image_height = height;
        this
    }

    /// Sets how many times a ray may bounce: once at least.
    pub fn max_depth(self, depth: u32) -> (r: CameraBuilder<W>)
        ensures
            r.settings == (Settings { max_depth: depth, ..self.settings }),
            r.errors@ == noted(self.errors@, depth < 1, CameraError::MaxDepth(depth)),
            r.export_writer == self.export_writer,
    {
        let mut this = self;
        this.error(depth < 1, CameraError::MaxDepth(depth));
        this.settings.max_depth = depth;
        this
    }

    /// Sets what a ray that meets nothing is given. A constant colour must
    /// be valid.
    pub fn background(self, bg: Background) -> (r: CameraBuilder<W>)
        ensures
            r.settings == (Settings { background: bg, ..self.settings }),
            r.errors@ == (match bg {
                Background::Constant(col) => noted(
                    self.errors@,
                    !col.spec_is_valid(),
                    CameraError::BackgroundColor(col),
                ),
                Background::Sky => self.errors@,
            }),
            r.export_writer == self.export_writer,
    {
        let mut this = self;
        if let Background::Constant(col) = bg {
            this.error(!col.is_valid(), CameraError::BackgroundColor(col));
        }
        this.settings.background = bg;
        this
    }

    /// Sets how the samples of a pixel are spread and how many are taken:
    /// one at least.
    pub fn antialias(self, antialiasing_type: AntialiasingType, samples_per_px: u32) -> (r:
        CameraBuilder<W>)
        ensures
            r.settings == (Settings { antialiasing_type, samples_per_px, ..self.settings }),
            r.errors@ == noted(
                self.errors@,
                samples_per_px < 1,
                CameraError::SamplesPerPx(samples_per_px),
            ),
            r.export_writer == self.export_writer,
    {
        let mut this = self;
        this.error(samples_per_px < 1, CameraError::SamplesPerPx(samples_per_px));
        this.settings.antialiasing_type = antialiasing_type;
        this.settings.samples_per_px = samples_per_px;
        this
    }

    /// Sets where the rays start.
    pub fn camera_center(self, center: Point3) -> (r: CameraBuilder<W>)
        ensures
            r.settings == (Settings { camera_center: center, ..self.settings }),
            r.errors@ == self.errors@,
            r.export_writer == self.export_writer,
    {
        let mut this = self;
        this.settings.camera_center = center;
        this
    }

    /// Sets how far from the camera things are in focus: further than zero.
    pub fn focal_length(self, length: Scalar) -> (r: CameraBuilder<W>)
        ensures
            r.settings == (Settings { focal_length: length, ..self.settings }),
            r.errors@ == noted(self.errors@, length.ord() <= 0, CameraError::FocalLength(length)),
            r.export_writer == self.export_writer,
    {
        let mut this = self;
        this.error(length.ord() <= 0, CameraError::FocalLength(length));
        this.settings.focal_length = length;
        this
    }

    /// Sets the vertical angle of view. `deg` is the angle in degrees, which
    /// must be a hundredth at least and under 360; `radians` is the same
    /// angle in radians, which the caller works out and which is kept.
    pub fn vfov(self, deg: Scalar, radians: Scalar) -> (r: CameraBuilder<W>)
        ensures
            r.settings == (Settings { vfov: radians, ..self.settings }),
            r.errors@ == noted(
                self.errors@,
                !(MIN_VFOV_ORD <= deg.ord() < MAX_VFOV_ORD),
                CameraError::Vfov(deg),
            ),
            r.export_writer == self.export_writer,
    {
        let mut this = self;
        let angle = deg.ord();
        this.error(!(MIN_VFOV_ORD <= angle && angle < MAX_VFOV_ORD), CameraError::Vfov(deg));
        this.settings.vfov = radians;
        this
    }

    /// Sets the point that the camera looks at.
    pub fn camera_target(self, target: Point3) -> (r: CameraBuilder<W>)
        ensures
            r.settings == (Settings { camera_target: target, ..self.settings }),
            r.errors@ == self.errors@,
            r.export_writer == self.export_writer,
    {
        let mut this = self;
        this.settings.camera_target = target;
        this
    }

    /// Sets the direction that is up for the camera.
    pub fn vup(self, vec: Vec3<Normalized>) -> (r: CameraBuilder<W>)
        ensures
            r.settings == (Settings { vup: vec, ..self.settings }),
            r.errors@ == self.errors@,
            r.export_writer == self.export_writer,
    {
        let mut this = self;
        this.settings.vup = vec;
        this
    }

    /// Sets the angle of the cone of rays through a pixel. `angle` is the
    /// angle in degrees, which must be zero at least and under 180;
    /// `radians` is the same angle in radians, which the caller works out
    /// and which is kept.
    pub fn defocus_angle(self, angle: Scalar, radians: Scalar) -> (r: CameraBuilder<W>)
        ensures
            r.settings == (Settings { defocus_angle: radians, ..self.settings }),
            r.errors@ == noted(
                self.errors@,
                !(0 <= angle.ord() < MAX_DEFOCUS_ORD),
                CameraError::DefocusAngle(angle),
            ),
            r.export_writer == self.export_writer,
    {
        let mut this = self;
        let degrees = angle.ord();
        this.error(!(0 <= degrees && degrees < MAX_DEFOCUS_ORD), CameraError::DefocusAngle(angle));
        this.settings.defocus_angle = radians;
        this
    }

    /// Sets where the finished image goes.
    pub fn writer(self, writer: W) -> (r: CameraBuilder<W>)
        ensures
            r.settings == self.settings,
            r.errors@ == self.errors@,
            r.export_writer == Some(writer),
    {
        let mut this = self;
        this.export_writer = Some(writer);
        this
    }

    /// The camera, where no fault was noted and a writer was set; else the
    /// list of all faults in the order they were noted, with the missing
    /// writer as the last.
    pub fn build(self) -> (r: Result<Camera<W>, Vec<CameraError>>)
        ensures
            r is Ok <==> self.errors@.len() == 0 && self.export_writer is Some,
            match r {
                Ok(camera) => Camera::spec_build(self.settings, self.export_writer->0, camera),
                Err(errors) => errors@ == noted(
                    self.errors@,
                    self.export_writer is None,
                    CameraError::MissingWriter,
                ),
            },
    {
        let mut this = self;
        let missing = this.export_writer.is_none();
        this.error(missing, CameraError::MissingWriter);
        if this.errors.len() > 0 {
            return Err(this.errors);
        }
        match this.export_writer {
            Some(writer) => Ok(Camera::build(this.settings, writer)),
            None => Err(this.errors),
        }
    }
}

impl<W> Camera<W> {
    /// Whether `camera` is the camera that is built of `settings` and
    /// `writer`: the grid of samples of a pixel has as many rows as the
    /// whole part of the square root of the number of samples asked for,
    /// the number of samples is that of the places of the grid, and the
    /// other settings are as they were.
    pub open spec fn spec_build(settings: Settings, writer: W, camera: Camera<W>) -> bool {
        &&& is_sqrt_floor(camera.sqrt_spp as int, settings.samples_per_px as int)
        &&& camera.settings == (Settings {
            samples_per_px: (camera.sqrt_spp * camera.sqrt_spp) as u32,
            ..settings
        })
        &&& camera.settings.samples_per_px == camera.sqrt_spp * camera.sqrt_spp
        &&& camera.export_writer == writer
    }

    /// Whether the rays of a pixel start from a disc around the centre of
    /// the camera rather than from the centre itself: whether the defocus
    /// angle is above zero.
    pub fn defocuses(&self) -> (r: bool)
        ensures
            r <==> self.settings.defocus_angle.ord() > 0,
    {
        self.settings.defocus_angle.ord() > 0
    }

    /// The camera with the settings given, which the caller has found
    /// valid. The samples of a pixel are laid out on a square grid, so
    /// their number is lowered to the nearest square.
    pub fn build(settings: Settings, writer: W) -> (camera: Camera<W>)
        ensures
            Self::spec_build(settings, writer, camera),
    {
        let sqrt_spp = sqrt_floor(settings.samples_per_px);
        assert(sqrt_spp * sqrt_spp <= settings.samples_per_px) by (nonlinear_arith)
            requires
                is_sqrt_floor(sqrt_spp as int, settings.samples_per_px as int),
        ;
        let mut settings = settings;
        settings.samples_per_px = sqrt_spp * sqrt_spp;
        Camera { settings, sqrt_spp, export_writer: writer }
    }
}

} // verus!
