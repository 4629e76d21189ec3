//! The camera: image dimensions, raster order, the image stream, and the
//! choice of ray origin.
use vstd::prelude::*;
use crate::color::{spec_image, write_header, write_pixels};
use crate::common::{is_offset_of, random_offset};
use crate::error::ConfigError;
use crate::scalar::Scalar;
use crate::vec3::Vec3;

verus! {

/// The default bounce budget of a primary ray.
pub const MAX_DEPTH: i32 = 50;

/// The viewport geometry, as the caller derived it from the field of view,
/// the focus distance, the view vectors and the image dimensions.
#[derive(Clone, Copy, Debug)]
pub struct Frame {
    /// The camera centre.
    pub center: Vec3,
    /// The centre of the pixel at column 0, row 0.
    pub pixel00_loc: Vec3,
    /// The offset from one pixel to the next in its row.
    pub pixel_delta_u: Vec3,
    /// The offset from one pixel to the one below it.
    pub pixel_delta_v: Vec3,
    /// The aperture angle; depth of field is off when it is not positive.
    pub defocus_angle: Scalar,
    /// The horizontal radius vector of the lens disk.
    pub defocus_disk_u: Vec3,
    /// The vertical radius vector of the lens disk.
    pub defocus_disk_v: Vec3,
}

impl Frame {
    /// Every component of the frame is a number.
    pub open spec fn is_ordered(self) -> bool {
        &&& self.center.is_ordered()
        &&& self.pixel00_loc.is_ordered()
        &&& self.pixel_delta_u.is_ordered()
        &&& self.pixel_delta_v.is_ordered()
        &&& !self.defocus_angle.is_nan()
        &&& self.defocus_disk_u.is_ordered()
        &&& self.defocus_disk_v.is_ordered()
    }

    /// Whether every component of the frame is a number.
    pub fn ordered(&self) -> (b: bool)
        ensures
            b == self.is_ordered(),
    {
        self.center.ordered() && self.pixel00_loc.ordered() && self.pixel_delta_u.ordered()
            && self.pixel_delta_v.ordered() && !self.defocus_angle.nan()
            && self.defocus_disk_u.ordered() && self.defocus_disk_v.ordered()
    }
}

/// An immutable camera: validated dimensions and counts, with the frame.
#[derive(Clone, Copy, Debug)]
pub struct Camera {
    pub image_width: i32,
    pub image_height: i32,
    pub samples_per_pixel: i32,
    pub max_depth: i32,
    pub frame: Frame,
}

/// The height of an image of the given width and aspect ratio
/// `aspect_width : aspect_height`, truncated to an integer.
pub open spec fn spec_image_height(aspect_width: u32, aspect_height: u32, image_width: i32) -> int {
    (image_width * aspect_height) / (aspect_width as int)
}

/// What, if anything, is wrong with the dimensions: the first of a
/// degenerate aspect ratio, a non-positive width, a zero height and a height
/// beyond the largest row index.
pub open spec fn spec_dimension_error(
    aspect_width: u32,
    aspect_height: u32,
    image_width: i32,
) -> Option<ConfigError> {
    if aspect_width == 0 || aspect_height == 0 {
        Some(ConfigError::DegenerateAspectRatio)
    } else if image_width <= 0 {
        Some(ConfigError::NonPositiveImageWidth)
    } else if spec_image_height(aspect_width, aspect_height, image_width) == 0 {
        Some(ConfigError::ZeroImageHeight)
    } else if spec_image_height(aspect_width, aspect_height, image_width) > i32::MAX {
        Some(ConfigError::ImageTooTall)
    } else {
        None
    }
}

/// What, if anything, is wrong with a camera configuration: a dimension
/// error first, then a non-positive sample count, then a non-positive bounce
/// budget, then a frame with a component that is not a number.
pub open spec fn spec_config_error(
    aspect_width: u32,
    aspect_height: u32,
    image_width: i32,
    samples_per_pixel: i32,
    max_depth: i32,
    frame: Frame,
) -> Option<ConfigError> {
    if spec_dimension_error(aspect_width, aspect_height, image_width).is_some() {
        spec_dimension_error(aspect_width, aspect_height, image_width)
    } else if samples_per_pixel <= 0 {
        Some(ConfigError::NoSamples)
    } else if max_depth <= 0 {
        Some(ConfigError::NoDepth)
    } else if !frame.is_ordered() {
        Some(ConfigError::DegenerateFrame)
    } else {
        None
    }
}

/// Derives the image height from the width and the aspect ratio.
pub fn image_height(aspect_width: u32, aspect_height: u32, image_width: i32) -> (r: Result<
    i32,
    ConfigError,
>)
    ensures
        match spec_dimension_error(aspect_width, aspect_height, image_width) {
            Some(e) => r == Err::<i32, ConfigError>(e),
            None => r == Ok::<i32, ConfigError>(
                spec_image_height(aspect_width, aspect_height, image_width) as i32,
            ),
        },
{
    if aspect_width == 0 || aspect_height == 0 {
        return Err(ConfigError::DegenerateAspectRatio);
    }
    if image_width <= 0 {
        return Err(ConfigError::NonPositiveImageWidth);
    }
    assert(image_width * aspect_height <= 0x7fff_ffff * 0xffff_ffff) by (nonlinear_arith)
        requires
            0 < image_width <= 0x7fff_ffff,
            0 < aspect_height <= 0xffff_ffff,
    ;
    let scaled: u64 = (image_width as u64) * (aspect_height as u64);
    let height: u64 = scaled / (aspect_width as u64);
    if height == 0 {
        Err(ConfigError::ZeroImageHeight)
    } else if height > 0x7fff_ffff {
        Err(ConfigError::ImageTooTall)
    } else {
        Ok(height as i32)
    }
}

impl Camera {
    /// The dimensions and counts are strictly positive.
    pub open spec fn wf(&self) -> bool {
        self.image_width > 0 && self.image_height > 0 && self.samples_per_pixel > 0
            && self.max_depth > 0
    }

    /// The number of pixels of the image.
    pub open spec fn spec_pixel_count(&self) -> int {
        self.image_width * self.image_height
    }

    /// The column and row of the pixel that is written at position `k` of
    /// the stream: rows from the last to the first, and within a row the
    /// columns from left to right.
    pub open spec fn spec_pixel_at(&self, k: int) -> (int, int) {
        (k % (self.image_width as int), self.image_height - 1 - k / (self.image_width as int))
    }

    /// The position in the stream of the pixel at column `i` and row `j`.
    pub open spec fn spec_position_of(&self, i: int, j: int) -> int {
        (self.image_height - 1 - j) * self.image_width + i
    }

    /// Builds a camera, or says what is wrong with the configuration. The
    /// image height is derived from the width and the aspect ratio.
    pub fn new(
        aspect_width: u32,
        aspect_height: u32,
        image_width: i32,
        samples_per_pixel: i32,
        max_depth: i32,
        frame: Frame,
    ) -> (r: Result<Camera, ConfigError>)
        ensures
            match spec_config_error(
                aspect_width,
                aspect_height,
                image_width,
                samples_per_pixel,
                max_depth,
                frame,
            ) {
                Some(e) => r == Err::<Camera, ConfigError>(e),
                None => r == Ok::<Camera, ConfigError>(
                    Camera {
                        image_width,
                        image_height: spec_image_height(aspect_width, aspect_height, image_width)
                            as i32,
                        samples_per_pixel,
                        max_depth,
                        frame,
                    },
                ),
            },
            r matches Ok(camera) ==> camera.wf(),
    {
        let image_height = match image_height(aspect_width, aspect_height, image_width) {
            Ok(h) => h,
            Err(e) => {
                return Err(e);
            },
        };
        if samples_per_pixel <= 0 {
            return Err(ConfigError::NoSamples);
        }
        if max_depth <= 0 {
            return Err(ConfigError::NoDepth);
        }
        if !frame.ordered() {
            return Err(ConfigError::DegenerateFrame);
        }
        Ok(Camera { image_width, image_height, samples_per_pixel, max_depth, frame })
    }

    /// The number of pixels of the image.
    pub fn pixel_count(&self) -> (n: u64)
        ensures
            self.wf() ==> n == self.spec_pixel_count(),
            !self.wf() ==> n == 0,
    {
        if self.image_width > 0 && self.image_height > 0 && self.samples_per_pixel > 0
            && self.max_depth > 0 {
            assert(self.image_width * self.image_height <= 0x7fff_ffff * 0x7fff_ffff)
                by (nonlinear_arith)
                requires
                    0 < self.image_width <= 0x7fff_ffff,
                    0 < self.image_height <= 0x7fff_ffff,
            ;
            (self.image_width as u64) * (self.image_height as u64)
        } else {
            0
        }
    }

    /// The column and row of the pixel written at position `k`, if the image
    /// has that many pixels.
    pub fn pixel_at(&self, k: u64) -> (pixel: Option<(i32, i32)>)
        ensures
            self.wf() && k < self.spec_pixel_count() ==> pixel.is_some() && (
                pixel.unwrap().0 as int,
                pixel.unwrap().1 as int,
            ) == self.spec_pixel_at(k as int),
            pixel matches Some((i, j)) ==> 0 <= i < self.image_width && 0 <= j
                < self.image_height,
            !(self.wf() && k < self.spec_pixel_count()) ==> pixel.is_none(),
    {
        if k >= self.pixel_count() {
            return None;
        }
        let w: u64 = self.image_width as u64;
        let h: u64 = self.image_height as u64;
        let row: u64 = k / w;
        let col: u64 = k % w;
        assert(row < h) by (nonlinear_arith)
            requires
                k < w * h,
                row == k / w,
                w > 0,
        ;
        Some((col as i32, (h - 1 - row) as i32))
    }

    /// The image stream of the camera: the header, then the line of each
    /// pixel. `pixels` holds the gamma-corrected colours in raster order,
    /// one for each pixel of the image; with any other number of colours
    /// there is no image.
    pub fn render(&self, pixels: &Vec<Vec3>) -> (stream: Option<Vec<u8>>)
        ensures
            self.wf() && pixels@.len() == self.spec_pixel_count() ==> stream.is_some()
                && stream.unwrap()@ == spec_image(
                self.image_width as nat,
                self.image_height as nat,
                pixels@,
            ),
            !(self.wf() && pixels@.len() == self.spec_pixel_count()) ==> stream.is_none(),
    {
        let count = self.pixel_count();
        proof {
            if self.wf() {
                assert(self.image_width * self.image_height > 0) by (nonlinear_arith)
                    requires
                        self.image_width > 0,
                        self.image_height > 0,
                ;
            }
        }
        if count == 0 || pixels.len() as u64 != count {
            return None;
        }
        let mut out: Vec<u8> = Vec::new();
        write_header(&mut out, self.image_width as u32, self.image_height as u32);
        write_pixels(&mut out, pixels);
        proof {
            assert(out@ =~= spec_image(
                self.image_width as nat,
                self.image_height as nat,
                pixels@,
            ));
        }
        Some(out)
    }

    /// A random offset within the square of one pixel: each of the first two
    /// components is uniform in `[-1/2, 1/2)` and the third is zero.
    pub fn sample_square() -> (offset: Vec3)
        ensures
            exists|word: u64| #[trigger] is_offset_of(offset.e0, word),
            exists|word: u64| #[trigger] is_offset_of(offset.e1, word),
            offset.e2.bits == 0,
    {
        let x = random_offset();
        let y = random_offset();
        Vec3::new(x, y, Scalar::zero())
    }

    /// Whether rays start on the lens disk: they do unless the aperture angle
    /// is at most zero, in which case every ray starts at the camera centre.
    pub fn uses_lens(&self) -> (b: bool)
        ensures
            b == !self.frame.defocus_angle.spec_le(Scalar { bits: 0 }),
    {
        !self.frame.defocus_angle.le(&Scalar::zero())
    }
}

/// The raster order visits every pixel exactly once: a position and the
/// pixel written there determine each other.
pub proof fn lemma_raster_order_bijective(camera: Camera, k: int, i: int, j: int)
    requires
        camera.wf(),
    ensures
        0 <= k < camera.spec_pixel_count() ==> {
            let (pi, pj) = camera.spec_pixel_at(k);
            &&& 0 <= pi < camera.image_width
            &&& 0 <= pj < camera.image_height
            &&& camera.spec_position_of(pi, pj) == k
        },
        0 <= i < camera.image_width && 0 <= j < camera.image_height ==> {
            let p = camera.spec_position_of(i, j);
            &&& 0 <= p < camera.spec_pixel_count()
            &&& camera.spec_pixel_at(p) == (i, j)
        },
{
    let w = camera.image_width as int;
    let h = camera.image_height as int;
    if 0 <= k < w * h {
        assert(0 <= k / w < h && 0 <= k % w < w && (k / w) * w + k % w == k) by (nonlinear_arith)
            requires
                0 <= k < w * h,
                w > 0,
        ;
    }
    if 0 <= i < w && 0 <= j < h {
        let r = h - 1 - j;
        assert(0 <= r * w + i < w * h && (r * w + i) / w == r && (r * w + i) % w == i)
            by (nonlinear_arith)
            requires
                0 <= i < w,
                0 <= r < h,
        ;
    }
}

} // verus!
