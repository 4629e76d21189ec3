//! Configuration errors reported at construction.
use vstd::prelude::*;

verus! {

/// Why a scene or camera parameter was refused.
#[derive(Clone, Copy, Debug, PartialEq, Eq, Structural)]
pub enum ConfigError {
    /// A sphere radius that is not strictly positive.
    NonPositiveRadius,
    /// A metal roughness outside `[0, 1]`.
    FuzzOutOfRange,
    /// A refractive index that is not strictly positive.
    NonPositiveRefractiveIndex,
    /// A sphere that names a material the scene does not hold.
    UnknownMaterial,
    /// An aspect ratio with a zero numerator or denominator.
    DegenerateAspectRatio,
    /// An image width that is not strictly positive.
    NonPositiveImageWidth,
    /// An image whose derived height is zero.
    ZeroImageHeight,
    /// An image whose derived height exceeds the largest row index.
    ImageTooTall,
    /// A sample count that is not strictly positive.
    NoSamples,
    /// A bounce budget that is not strictly positive.
    NoDepth,
    /// A viewport with a component that is not a number, as a view
    /// direction of zero length gives.
    DegenerateFrame,
}

impl ConfigError {
    /// The sentence that describes the error.
    pub open spec fn spec_describe(self) -> Seq<char> {
        match self {
            ConfigError::NonPositiveRadius => "the radius of a sphere must be positive"@,
            ConfigError::FuzzOutOfRange => "the fuzz of a metal must lie between 0 and 1"@,
            ConfigError::NonPositiveRefractiveIndex => "the refractive index must be positive"@,
            ConfigError::UnknownMaterial => "the sphere refers to a material that was not added"@,
            ConfigError::DegenerateAspectRatio => "the aspect ratio must have two positive terms"@,
            ConfigError::NonPositiveImageWidth => "the image width must be positive"@,
            ConfigError::ZeroImageHeight => "the image is too wide for its height to reach one row"@,
            ConfigError::ImageTooTall => "the image height does not fit the row index"@,
            ConfigError::NoSamples => "the number of samples per pixel must be positive"@,
            ConfigError::NoDepth => "the bounce budget must be positive"@,
            ConfigError::DegenerateFrame => "the view vectors do not span a viewport"@,
        }
    }

    /// Describes the error in a sentence.
    pub fn describe(&self) -> (text: &'static str)
        ensures
            text@ == self.spec_describe(),
    {
        match self {
            ConfigError::NonPositiveRadius => "the radius of a sphere must be positive",
            ConfigError::FuzzOutOfRange => "the fuzz of a metal must lie between 0 and 1",
            ConfigError::NonPositiveRefractiveIndex => "the refractive index must be positive",
            ConfigError::UnknownMaterial => "the sphere refers to a material that was not added",
            ConfigError::DegenerateAspectRatio => "the aspect ratio must have two positive terms",
            ConfigError::NonPositiveImageWidth => "the image width must be positive",
            ConfigError::ZeroImageHeight => "the image is too wide for its height to reach one row",
            ConfigError::ImageTooTall => "the image height does not fit the row index",
            ConfigError::NoSamples => "the number of samples per pixel must be positive",
            ConfigError::NoDepth => "the bounce budget must be positive",
            ConfigError::DegenerateFrame => "the view vectors do not span a viewport",
        }
    }
}

} // verus!
