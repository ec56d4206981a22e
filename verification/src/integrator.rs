//! The path of a ray through its bounces, and the order in which the samples
//! of an image are taken and summed.

use vstd::prelude::*;
use vstd::arithmetic::div_mod::lemma_fundamental_div_mod_converse;
use crate::camera::Background;
use crate::camera::Camera;
use crate::hittable::HitRecord;
use crate::math::color::Color;
use crate::math::color::Scaled;
use crate::math::interval::Interval;
use crate::math::scalar::Scalar;
use crate::math::scalar::INFINITY_BITS;

verus! {

/// The bit pattern of a thousandth: the least distance at which a ray is
/// taken to meet a surface, so that it does not meet the surface that it
/// starts on.
pub const NEAR_BITS: u64 = 0x3F50_624D_D2F1_A9FC;

/// The range of distances at which a ray is taken to meet a surface: from a
/// thousandth to infinity.
pub open spec fn view_range() -> Interval {
    Interval { start: Scalar { bits: NEAR_BITS }, end: Scalar { bits: INFINITY_BITS } }
}

/// Whether `hit` gives for each ray and range only what `model` gives.
pub open spec fn hit_refines<R, H: Fn(R, Interval) -> Option<HitRecord>>(
    hit: &H,
    model: spec_fn(R, Interval) -> Option<HitRecord>,
) -> bool {
    forall|ray: R, range: Interval, r: Option<HitRecord>| #[trigger]
        call_ensures(hit, (ray, range), r) ==> r == model(ray, range)
}

/// Whether `emitted` gives for each ray and hit only what `model` gives.
pub open spec fn emitted_refines<R, E: Fn(R, HitRecord) -> Color>(
    emitted: &E,
    model: spec_fn(R, HitRecord) -> Color,
) -> bool {
    forall|ray: R, record: HitRecord, r: Color| #[trigger]
        call_ensures(emitted, (ray, record), r) ==> r == model(ray, record)
}

/// Whether `scatter` gives for each ray and hit only what `model` gives.
pub open spec fn scatter_refines<R, S: Fn(R, HitRecord) -> Option<(Color, R)>>(
    scatter: &S,
    model: spec_fn(R, HitRecord) -> Option<(Color, R)>,
) -> bool {
    forall|ray: R, record: HitRecord, r: Option<(Color, R)>| #[trigger]
        call_ensures(scatter, (ray, record), r) ==> r == model(ray, record)
}

/// Whether `sky` gives for each ray only what `model` gives.
pub open spec fn sky_refines<R, K: Fn(R) -> Color>(sky: &K, model: spec_fn(R) -> Color) -> bool {
    forall|ray: R, r: Color| #[trigger] call_ensures(sky, (ray,), r) ==> r == model(ray)
}

/// Whether `blend` gives for each three colours only what `model` gives.
pub open spec fn blend_refines<M: Fn(Color, Color, Color) -> Color>(
    blend: &M,
    model: spec_fn(Color, Color, Color) -> Color,
) -> bool {
    forall|emission: Color, attenuation: Color, incoming: Color, r: Color| #[trigger]
        call_ensures(blend, (emission, attenuation, incoming), r) ==> r == model(
            emission,
            attenuation,
            incoming,
        )
}

/// Whether `sample` gives for each place only what `model` gives.
pub open spec fn sample_refines<S: Fn(u32, u32, u32, u32) -> Color>(
    sample: &S,
    model: spec_fn(u32, u32, u32, u32) -> Color,
) -> bool {
    forall|i: u32, j: u32, strata_i: u32, strata_j: u32, r: Color| #[trigger]
        call_ensures(sample, (i, j, strata_i, strata_j), r) ==> r == model(
            i,
            j,
            strata_i,
            strata_j,
        )
}

/// Whether `accumulate` gives for each two colours only what `model` gives.
pub open spec fn accumulate_refines<A: Fn(Color, Color) -> Color>(
    accumulate: &A,
    model: spec_fn(Color, Color) -> Color,
) -> bool {
    forall|sum: Color, term: Color, r: Color| #[trigger]
        call_ensures(accumulate, (sum, term), r) ==> r == model(sum, term)
}

/// Whether `scale` gives for each colour only what `model` gives.
pub open spec fn scale_refines<F: Fn(Color) -> Scaled>(
    scale: &F,
    model: spec_fn(Color) -> Scaled,
) -> bool {
    forall|sum: Color, r: Scaled| #[trigger] call_ensures(scale, (sum,), r) ==> r == model(sum)
}

/// The colour of a pixel as it is handed to a writer: the mean of its
/// samples made ready for the eye by the square root of each share, and
/// then moved into the range from zero to one.
pub open spec fn spec_finish(scaled: Scaled) -> Color {
    scaled.mean.spec_finished(scaled.roots)
}

/// Black, with each share the pattern of zero.
pub open spec fn spec_black() -> Color {
    Color { r: Scalar { bits: 0 }, g: Scalar { bits: 0 }, b: Scalar { bits: 0 } }
}

/// The colour that comes back along a ray that may bounce `depth` times
/// more. Black once no bounce is left. Else the nearest hit of the ray is
/// looked for between a thousandth and infinity. Where there is none, the
/// colour is the background: the constant colour, or what `sky` gives for
/// the ray. Where there is one, the colour is the light that the surface
/// gives, and where the surface sends a ray on, what `blend` makes of that
/// light, the share that the surface lets through, and the colour that
/// comes back along the new ray with one bounce less.
pub open spec fn spec_ray_color<R>(
    background: Background,
    ray: R,
    depth: nat,
    hit: spec_fn(R, Interval) -> Option<HitRecord>,
    emitted: spec_fn(R, HitRecord) -> Color,
    scatter: spec_fn(R, HitRecord) -> Option<(Color, R)>,
    sky: spec_fn(R) -> Color,
    blend: spec_fn(Color, Color, Color) -> Color,
) -> Color
    decreases depth,
{
    if depth == 0 {
        spec_black()
    } else {
        match hit(ray, view_range()) {
            None => match background {
                Background::Constant(col) => col,
                Background::Sky => sky(ray),
            },
            Some(record) => match scatter(ray, record) {
                None => emitted(ray, record),
                Some((attenuation, scattered)) => blend(
                    emitted(ray, record),
                    attenuation,
                    spec_ray_color(
                        background,
                        scattered,
                        (depth - 1) as nat,
                        hit,
                        emitted,
                        scatter,
                        sky,
                        blend,
                    ),
                ),
            },
        }
    }
}

/// The sum of the first `count` samples of the pixel in column `i` and row
/// `j`, over a grid of `sqrt_spp` columns that is walked row by row: black
/// with each sample added in turn.
pub open spec fn pixel_sum(
    i: u32,
    j: u32,
    sqrt_spp: nat,
    count: nat,
    sample: spec_fn(u32, u32, u32, u32) -> Color,
    accumulate: spec_fn(Color, Color) -> Color,
) -> Color
    decreases count,
{
    if count == 0 || sqrt_spp == 0 {
        spec_black()
    } else {
        let place = (count - 1) as nat;
        accumulate(
            pixel_sum(i, j, sqrt_spp, place, sample, accumulate),
            sample(i, j, (place % sqrt_spp) as u32, (place / sqrt_spp) as u32),
        )
    }
}

/// The colour of the pixel at place `index` of an image of `width` columns
/// that is laid out row by row from the top left: the mean that `scale`
/// makes of the sum of all the samples of the pixel, made ready for the eye
/// by the square root of each share and then moved into the range from
/// zero to one.
pub open spec fn spec_pixel(
    index: int,
    width: nat,
    sqrt_spp: nat,
    sample: spec_fn(u32, u32, u32, u32) -> Color,
    accumulate: spec_fn(Color, Color) -> Color,
    scale: spec_fn(Color) -> Scaled,
) -> Color {
    spec_finish(
        scale(
            pixel_sum(
                (index % width as int) as u32,
                (index / width as int) as u32,
                sqrt_spp,
                sqrt_spp * sqrt_spp,
                sample,
                accumulate,
            ),
        ),
    )
}

impl<W> Camera<W> {
    /// The range of distances at which a ray is taken to meet a surface:
    /// from a thousandth to infinity.
    pub fn view_range() -> (r: Interval)
        ensures
            r == view_range(),
    {
        Interval::new(Scalar::from_bits(NEAR_BITS), Scalar::infinity())
    }

    /// The colour that comes back along `ray`, which may bounce `depth`
    /// times more. `hit` finds the nearest hit of a ray within a range,
    /// `emitted` gives the light of the surface at a hit, `scatter` the
    /// share of light that the surface lets through and the ray that it
    /// sends on, if it sends one, `sky` the colour of the sky behind a ray,
    /// and `blend` adds to the light of a surface the share that it lets
    /// through of what comes back.
    ///
    /// With no bounce left the colour is black and nothing is called.
    /// Where the five are functions of their arguments, the colour is that
    /// of [`spec_ray_color`] for the background of the camera.
    pub fn ray_color<
        R: Copy,
        H: Fn(R, Interval) -> Option<HitRecord>,
        E: Fn(R, HitRecord) -> Color,
        S: Fn(R, HitRecord) -> Option<(Color, R)>,
        K: Fn(R) -> Color,
        M: Fn(Color, Color, Color) -> Color,
    >(&self, ray: R, depth: u32, hit: &H, emitted: &E, scatter: &S, sky: &K, blend: &M) -> (c:
        Color)
        requires
            forall|ray: R, range: Interval| call_requires(hit, (ray, range)),
            forall|ray: R, record: HitRecord| call_requires(emitted, (ray, record)),
            forall|ray: R, record: HitRecord| call_requires(scatter, (ray, record)),
            forall|ray: R| call_requires(sky, (ray,)),
            forall|emission: Color, attenuation: Color, incoming: Color|
                call_requires(blend, (emission, attenuation, incoming)),
        ensures
            depth == 0 ==> c == spec_black(),
            forall|
                hit_model: spec_fn(R, Interval) -> Option<HitRecord>,
                emitted_model: spec_fn(R, HitRecord) -> Color,
                scatter_model: spec_fn(R, HitRecord) -> Option<(Color, R)>,
                sky_model: spec_fn(R) -> Color,
                blend_model: spec_fn(Color, Color, Color) -> Color,
            |
                hit_refines(hit, hit_model) && emitted_refines(emitted, emitted_model)
                    && scatter_refines(scatter, scatter_model) && sky_refines(sky, sky_model)
                    && blend_refines(blend, blend_model) ==> c == #[trigger] spec_ray_color(
                    self.settings.background,
                    ray,
                    depth as nat,
                    hit_model,
                    emitted_model,
                    scatter_model,
                    sky_model,
                    blend_model,
                ),
        decreases depth,
    {
        if depth == 0 {
            return Color::black();
        }
        let range = Self::view_range();
        let found = hit(ray, range);
        proof {
            assert(call_ensures(hit, (ray, range), found));
        }
        let record = match found {
            Some(record) => record,
            None => {
                return match self.settings.background {
                    Background::Constant(col) => col,
                    Background::Sky => {
                        let c = sky(ray);
                        proof {
                            assert(call_ensures(sky, (ray,), c));
                        }
                        c
                    },
                };
            },
        };
        let emission_color = emitted(ray, record);
        let scattered = scatter(ray, record);
        proof {
            assert(call_ensures(emitted, (ray, record), emission_color));
            assert(call_ensures(scatter, (ray, record), scattered));
        }
        match scattered {
            None => emission_color,
            Some((attenuation, next)) => {
                let incoming = self.ray_color(next, depth - 1, hit, emitted, scatter, sky, blend);
                let c = blend(emission_color, attenuation, incoming);
                proof {
                    assert(call_ensures(blend, (emission_color, attenuation, incoming), c));
                    assert forall|
                        hit_model: spec_fn(R, Interval) -> Option<HitRecord>,
                        emitted_model: spec_fn(R, HitRecord) -> Color,
                        scatter_model: spec_fn(R, HitRecord) -> Option<(Color, R)>,
                        sky_model: spec_fn(R) -> Color,
                        blend_model: spec_fn(Color, Color, Color) -> Color,
                    |
                        hit_refines(hit, hit_model) && emitted_refines(emitted, emitted_model)
                            && scatter_refines(scatter, scatter_model) && sky_refines(
                            sky,
                            sky_model,
                        ) && blend_refines(blend, blend_model) implies c
                        == #[trigger] spec_ray_color(
                        self.settings.background,
                        ray,
                        depth as nat,
                        hit_model,
                        emitted_model,
                        scatter_model,
                        sky_model,
                        blend_model,
                    ) by {
                        assert(incoming == spec_ray_color(
                            self.settings.background,
                            next,
                            (depth - 1) as nat,
                            hit_model,
                            emitted_model,
                            scatter_model,
                            sky_model,
                            blend_model,
                        ));
                    }
                }
                c
            },
        }
    }
}

impl<W> Camera<W> {
    /// The sum of the samples of the pixel in column `i` and row `j`. The
    /// grid of samples is walked row by row, and each sample is added to
    /// the sum of those before it, which starts as black.
    pub fn pixel_sum<S: Fn(u32, u32, u32, u32) -> Color, A: Fn(Color, Color) -> Color>(
        &self,
        i: u32,
        j: u32,
        sample: &S,
        accumulate: &A,
    ) -> (sum: Color)
        requires
            forall|i: u32, j: u32, strata_i: u32, strata_j: u32|
                call_requires(sample, (i, j, strata_i, strata_j)),
            forall|sum: Color, term: Color| call_requires(accumulate, (sum, term)),
        ensures
            self.sqrt_spp == 0 ==> sum == spec_black(),
            forall|
                sample_model: spec_fn(u32, u32, u32, u32) -> Color,
                accumulate_model: spec_fn(Color, Color) -> Color,
            |
                sample_refines(sample, sample_model) && accumulate_refines(
                    accumulate,
                    accumulate_model,
                ) ==> sum == #[trigger] pixel_sum(
                    i,
                    j,
                    self.sqrt_spp as nat,
                    (self.sqrt_spp * self.sqrt_spp) as nat,
                    sample_model,
                    accumulate_model,
                ),
    {
        let side = self.sqrt_spp;
        let mut px_color = Color::black();
        let mut strata_j: u32 = 0;
        while strata_j < side
            invariant
                side == self.sqrt_spp,
                0 <= strata_j <= side,
                strata_j == 0 ==> px_color == spec_black(),
                forall|i: u32, j: u32, strata_i: u32, strata_j: u32|
                    call_requires(sample, (i, j, strata_i, strata_j)),
                forall|sum: Color, term: Color| call_requires(accumulate, (sum, term)),
                forall|
                    sample_model: spec_fn(u32, u32, u32, u32) -> Color,
                    accumulate_model: spec_fn(Color, Color) -> Color,
                |
                    sample_refines(sample, sample_model) && accumulate_refines(
                        accumulate,
                        accumulate_model,
                    ) ==> px_color == #[trigger] pixel_sum(
                        i,
                        j,
                        side as nat,
                        (strata_j * side) as nat,
                        sample_model,
                        accumulate_model,
                    ),
            decreases side - strata_j,
        {
            let mut strata_i: u32 = 0;
            while strata_i < side
                invariant
                    side == self.sqrt_spp,
                    0 <= strata_j < side,
                    0 <= strata_i <= side,
                    forall|i: u32, j: u32, strata_i: u32, strata_j: u32|
                        call_requires(sample, (i, j, strata_i, strata_j)),
                    forall|sum: Color, term: Color| call_requires(accumulate, (sum, term)),
                    forall|
                        sample_model: spec_fn(u32, u32, u32, u32) -> Color,
                        accumulate_model: spec_fn(Color, Color) -> Color,
                    |
                        sample_refines(sample, sample_model) && accumulate_refines(
                            accumulate,
                            accumulate_model,
                        ) ==> px_color == #[trigger] pixel_sum(
                            i,
                            j,
                            side as nat,
                            (strata_j * side + strata_i) as nat,
                            sample_model,
                            accumulate_model,
                        ),
                decreases side - strata_i,
            {
                let term = sample(i, j, strata_i, strata_j);
                let ghost before = px_color;
                px_color = accumulate(px_color, term);
                proof {
                    let place = strata_j * side + strata_i;
                    lemma_fundamental_div_mod_converse(
                        place,
                        side as int,
                        strata_j as int,
                        strata_i as int,
                    );
                    assert(call_ensures(sample, (i, j, strata_i, strata_j), term));
                    assert(call_ensures(accumulate, (before, term), px_color));
                    assert forall|
                        sample_model: spec_fn(u32, u32, u32, u32) -> Color,
                        accumulate_model: spec_fn(Color, Color) -> Color,
                    |
                        sample_refines(sample, sample_model) && accumulate_refines(
                            accumulate,
                            accumulate_model,
                        ) implies px_color == #[trigger] pixel_sum(
                        i,
                        j,
                        side as nat,
                        (strata_j * side + strata_i + 1) as nat,
                        sample_model,
                        accumulate_model,
                    ) by {
                        assert(before == pixel_sum(
                            i,
                            j,
                            side as nat,
                            place as nat,
                            sample_model,
                            accumulate_model,
                        ));
                        assert(term == sample_model(i, j, strata_i, strata_j));
                    }
                }
                strata_i = strata_i + 1;
            }
            proof {
                assert(strata_j * side + side == (strata_j + 1) * side) by (nonlinear_arith);
            }
            strata_j = strata_j + 1;
        }
        px_color
    }

    /// The image: one colour for each pixel, row by row from the top left.
    /// `sample` gives the colour of one sample of a pixel, told by the
    /// column and the row of the pixel and by the column and the row of
    /// the sample in the grid of the pixel; `accumulate` adds a sample to a
    /// sum, and `scale` gives the mean of the samples of a pixel for their
    /// sum, with the square roots of its shares. Each mean is made ready
    /// for the eye by the root of each share and then moved into the range
    /// from zero to one, and so it stands in the image.
    ///
    /// Whatever the three return, the image has one colour for each pixel,
    /// and each share of each colour lies between zero and one. Where they
    /// are functions of their arguments, the colour at each place is that
    /// of [`spec_pixel`].
    pub fn render<
        S: Fn(u32, u32, u32, u32) -> Color,
        A: Fn(Color, Color) -> Color,
        F: Fn(Color) -> Scaled,
    >(&self, sample: &S, accumulate: &A, scale: &F) -> (buf: Vec<Color>)
        requires
            self.settings.image_width * self.settings.image_height <= u32::MAX,
            forall|i: u32, j: u32, strata_i: u32, strata_j: u32|
                call_requires(sample, (i, j, strata_i, strata_j)),
            forall|sum: Color, term: Color| call_requires(accumulate, (sum, term)),
            forall|sum: Color| call_requires(scale, (sum,)),
        ensures
            buf@.len() == self.settings.image_width * self.settings.image_height,
            forall|index: int| 0 <= index < buf@.len() ==> (#[trigger] buf@[index]).spec_is_valid(),
            forall|
                sample_model: spec_fn(u32, u32, u32, u32) -> Color,
                accumulate_model: spec_fn(Color, Color) -> Color,
                scale_model: spec_fn(Color) -> Scaled,
            |
                #![trigger sample_refines(sample, sample_model), accumulate_refines(accumulate, accumulate_model), scale_refines(scale, scale_model)]
                sample_refines(sample, sample_model) && accumulate_refines(
                    accumulate,
                    accumulate_model,
                ) && scale_refines(scale, scale_model) ==> forall|index: int|
                    0 <= index < buf@.len() ==> #[trigger] buf@[index] == spec_pixel(
                        index,
                        self.settings.image_width as nat,
                        self.sqrt_spp as nat,
                        sample_model,
                        accumulate_model,
                        scale_model,
                    ),
    {
        let width = self.settings.image_width;
        let height = self.settings.image_height;
        let mut buf: Vec<Color> = Vec::with_capacity((width as usize) * (height as usize));
        let mut j: u32 = 0;
        while j < height
            invariant
                width == self.settings.image_width,
                height == self.settings.image_height,
                width * height <= u32::MAX,
                0 <= j <= height,
                buf@.len() == j * width,
                forall|index: int|
                    0 <= index < buf@.len() ==> (#[trigger] buf@[index]).spec_is_valid(),
                forall|i: u32, j: u32, strata_i: u32, strata_j: u32|
                    call_requires(sample, (i, j, strata_i, strata_j)),
                forall|sum: Color, term: Color| call_requires(accumulate, (sum, term)),
                forall|sum: Color| call_requires(scale, (sum,)),
                forall|
                    sample_model: spec_fn(u32, u32, u32, u32) -> Color,
                    accumulate_model: spec_fn(Color, Color) -> Color,
                    scale_model: spec_fn(Color) -> Scaled,
                |
                    #![trigger sample_refines(sample, sample_model), accumulate_refines(accumulate, accumulate_model), scale_refines(scale, scale_model)]
                    sample_refines(sample, sample_model) && accumulate_refines(
                        accumulate,
                        accumulate_model,
                    ) && scale_refines(scale, scale_model) ==> forall|index: int|
                        0 <= index < buf@.len() ==> #[trigger] buf@[index] == spec_pixel(
                            index,
                            width as nat,
                            self.sqrt_spp as nat,
                            sample_model,
                            accumulate_model,
                            scale_model,
                        ),
            decreases height - j,
        {
            let mut i: u32 = 0;
            while i < width
                invariant
                    width == self.settings.image_width,
                    height == self.settings.image_height,
                    width * height <= u32::MAX,
                    0 <= j < height,
                    0 <= i <= width,
                    buf@.len() == j * width + i,
                    forall|index: int|
                        0 <= index < buf@.len() ==> (#[trigger] buf@[index]).spec_is_valid(),
                    forall|i: u32, j: u32, strata_i: u32, strata_j: u32|
                        call_requires(sample, (i, j, strata_i, strata_j)),
                    forall|sum: Color, term: Color| call_requires(accumulate, (sum, term)),
                    forall|sum: Color| call_requires(scale, (sum,)),
                    forall|
                        sample_model: spec_fn(u32, u32, u32, u32) -> Color,
                        accumulate_model: spec_fn(Color, Color) -> Color,
                        scale_model: spec_fn(Color) -> Scaled,
                    |
                        #![trigger sample_refines(sample, sample_model), accumulate_refines(accumulate, accumulate_model), scale_refines(scale, scale_model)]
                        sample_refines(sample, sample_model) && accumulate_refines(
                            accumulate,
                            accumulate_model,
                        ) && scale_refines(scale, scale_model) ==> forall|index: int|
                            0 <= index < buf@.len() ==> #[trigger] buf@[index] == spec_pixel(
                                index,
                                width as nat,
                                self.sqrt_spp as nat,
                                sample_model,
                                accumulate_model,
                                scale_model,
                            ),
                decreases width - i,
            {
                let sum = self.pixel_sum(i, j, sample, accumulate);
                let scaled = scale(sum);
                let px_color = scaled.mean.finished(&scaled.roots);
                let ghost before = buf@;
                buf.push(px_color);
                proof {
                    let place = j * width + i;
                    lemma_fundamental_div_mod_converse(place, width as int, j as int, i as int);
                    assert(call_ensures(scale, (sum,), scaled));
                    assert forall|
                        sample_model: spec_fn(u32, u32, u32, u32) -> Color,
                        accumulate_model: spec_fn(Color, Color) -> Color,
                        scale_model: spec_fn(Color) -> Scaled,
                    |
                        #![trigger sample_refines(sample, sample_model), accumulate_refines(accumulate, accumulate_model), scale_refines(scale, scale_model)]
                        sample_refines(sample, sample_model) && accumulate_refines(
                            accumulate,
                            accumulate_model,
                        ) && scale_refines(scale, scale_model) implies forall|index: int|
                        0 <= index < buf@.len() ==> #[trigger] buf@[index] == spec_pixel(
                            index,
                            width as nat,
                            self.sqrt_spp as nat,
                            sample_model,
                            accumulate_model,
                            scale_model,
                        ) by {
                        assert(sum == pixel_sum(
                            i,
                            j,
                            self.sqrt_spp as nat,
                            (self.sqrt_spp * self.sqrt_spp) as nat,
                            sample_model,
                            accumulate_model,
                        ));
                        assert(scaled == scale_model(sum));
                        assert forall|index: int| 0 <= index < buf@.len() implies #[trigger] buf@[index]
                            == spec_pixel(
                            index,
                            width as nat,
                            self.sqrt_spp as nat,
                            sample_model,
                            accumulate_model,
                            scale_model,
                        ) by {
                            if index < place {
                                assert(buf@[index] == before[index]);
                            }
                        }
                    }
                    assert(j * width + width <= height * width) by (nonlinear_arith)
                        requires
                            j < height,
                    ;
                }
                i = i + 1;
            }
            proof {
                assert(j * width + width == (j + 1) * width) by (nonlinear_arith);
            }
            j = j + 1;
        }
        proof {
            assert(j * width == height * width);
            assert(height * width == width * height) by (nonlinear_arith);
        }
        buf
    }
}

/// Where every sample is black, a sum of black colours is black and the
/// mean of black is black, every pixel of the image is black.
pub proof fn lemma_dark_image_is_black(
    index: int,
    width: nat,
    sqrt_spp: nat,
    sample: spec_fn(u32, u32, u32, u32) -> Color,
    accumulate: spec_fn(Color, Color) -> Color,
    scale: spec_fn(Color) -> Scaled,
)
    requires
        forall|i: u32, j: u32, strata_i: u32, strata_j: u32|
            (#[trigger] sample(i, j, strata_i, strata_j)).is_black(),
        forall|sum: Color, term: Color|
            sum.is_black() && term.is_black() ==> (#[trigger] accumulate(sum, term)).is_black(),
        forall|sum: Color| sum.is_black() ==> (#[trigger] scale(sum)).mean.is_black(),
    ensures
        spec_pixel(index, width, sqrt_spp, sample, accumulate, scale).is_black(),
{
    lemma_dark_sum_is_black(
        (index % width as int) as u32,
        (index / width as int) as u32,
        sqrt_spp,
        sqrt_spp * sqrt_spp,
        sample,
        accumulate,
    );
}

/// The sum of `count` samples that are all the colour `each`: black with
/// `each` added `count` times.
pub open spec fn repeated(each: Color, count: nat, accumulate: spec_fn(Color, Color) -> Color)
    -> Color
    decreases count,
{
    if count == 0 {
        spec_black()
    } else {
        accumulate(repeated(each, (count - 1) as nat, accumulate), each)
    }
}

/// Where every sample of every pixel is the one colour `each`, every pixel
/// of the image is one colour: what is made of `each` added to black as
/// often as a pixel has samples. Whether that colour is `each` again lies
/// with the arithmetic of `accumulate` and `scale`.
pub proof fn lemma_even_image(
    index: int,
    width: nat,
    sqrt_spp: nat,
    each: Color,
    sample: spec_fn(u32, u32, u32, u32) -> Color,
    accumulate: spec_fn(Color, Color) -> Color,
    scale: spec_fn(Color) -> Scaled,
)
    requires
        sqrt_spp > 0,
        forall|i: u32, j: u32, strata_i: u32, strata_j: u32|
            #[trigger] sample(i, j, strata_i, strata_j) == each,
    ensures
        spec_pixel(index, width, sqrt_spp, sample, accumulate, scale) == spec_finish(
            scale(repeated(each, sqrt_spp * sqrt_spp, accumulate)),
        ),
{
    lemma_even_sum(
        (index % width as int) as u32,
        (index / width as int) as u32,
        sqrt_spp,
        sqrt_spp * sqrt_spp,
        each,
        sample,
        accumulate,
    );
}

/// Where every sample is the one colour `each`, the sum of the first
/// `count` samples of a pixel is `each` added to black `count` times.
pub proof fn lemma_even_sum(
    i: u32,
    j: u32,
    sqrt_spp: nat,
    count: nat,
    each: Color,
    sample: spec_fn(u32, u32, u32, u32) -> Color,
    accumulate: spec_fn(Color, Color) -> Color,
)
    requires
        sqrt_spp > 0,
        forall|i: u32, j: u32, strata_i: u32, strata_j: u32|
            #[trigger] sample(i, j, strata_i, strata_j) == each,
    ensures
        pixel_sum(i, j, sqrt_spp, count, sample, accumulate) == repeated(each, count, accumulate),
    decreases count,
{
    if count > 0 {
        lemma_even_sum(i, j, sqrt_spp, (count - 1) as nat, each, sample, accumulate);
    }
}

/// Where every sample is black and a sum of black colours is black, the sum
/// of any number of samples of a pixel is black.
pub proof fn lemma_dark_sum_is_black(
    i: u32,
    j: u32,
    sqrt_spp: nat,
    count: nat,
    sample: spec_fn(u32, u32, u32, u32) -> Color,
    accumulate: spec_fn(Color, Color) -> Color,
)
    requires
        forall|i: u32, j: u32, strata_i: u32, strata_j: u32|
            (#[trigger] sample(i, j, strata_i, strata_j)).is_black(),
        forall|sum: Color, term: Color|
            sum.is_black() && term.is_black() ==> (#[trigger] accumulate(sum, term)).is_black(),
    ensures
        pixel_sum(i, j, sqrt_spp, count, sample, accumulate).is_black(),
    decreases count,
{
    if count > 0 && sqrt_spp > 0 {
        lemma_dark_sum_is_black(i, j, sqrt_spp, (count - 1) as nat, sample, accumulate);
    }
}

/// Where no surface gives light, every ray meets a surface or a black
/// background, and `blend` makes black of no light and black coming back,
/// the colour that comes back along any ray is black, however many bounces
/// it may take.
pub proof fn lemma_dark_scene_is_black<R>(
    background: Background,
    ray: R,
    depth: nat,
    hit: spec_fn(R, Interval) -> Option<HitRecord>,
    emitted: spec_fn(R, HitRecord) -> Color,
    scatter: spec_fn(R, HitRecord) -> Option<(Color, R)>,
    sky: spec_fn(R) -> Color,
    blend: spec_fn(Color, Color, Color) -> Color,
)
    requires
        forall|ray: R|
            (#[trigger] hit(ray, view_range())) is None ==> (background matches Background::Constant(
                col,
            ) && col.is_black()),
        forall|ray: R, record: HitRecord| (#[trigger] emitted(ray, record)).is_black(),
        forall|emission: Color, attenuation: Color, incoming: Color|
            emission.is_black() && incoming.is_black() ==> (#[trigger] blend(
                emission,
                attenuation,
                incoming,
            )).is_black(),
    ensures
        spec_ray_color(background, ray, depth, hit, emitted, scatter, sky, blend).is_black(),
    decreases depth,
{
    if depth > 0 {
        match hit(ray, view_range()) {
            Some(record) => {
                match scatter(ray, record) {
                    Some((attenuation, scattered)) => {
                        lemma_dark_scene_is_black(
                            background,
                            scattered,
                            (depth - 1) as nat,
                            hit,
                            emitted,
                            scatter,
                            sky,
                            blend,
                        );
                    },
                    None => {},
                }
            },
            None => {},
        }
    }
}

} // verus!
