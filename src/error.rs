use vstd::prelude::*;

verus! {

/// Why loading a material failed.
#[derive(Clone, Copy, Debug, PartialEq, Eq, Structural)]
pub enum AmbientCGErrorType {
    /// The tier list was exhausted without finding an existing directory.
    NoSmallerTier,
    /// A channel image exists but could not be decoded.
    DecodeFailure,
    /// The roughness and metalness images differ in width or height.
    DimensionMismatch,
}

/// The error returned by a failed material load.
#[derive(Clone, Copy, Debug, PartialEq, Eq, Structural)]
pub struct AmbientCGImportError(pub AmbientCGErrorType);

pub open spec fn error_description(kind: AmbientCGErrorType) -> Seq<char> {
    match kind {
        AmbientCGErrorType::NoSmallerTier =>
            "Could not find a smaller texture size than missing requested resolution"@,
        AmbientCGErrorType::DecodeFailure => "Could not decode texture image"@,
        AmbientCGErrorType::DimensionMismatch =>
            "Roughness and metalness images must have the same dimensions"@,
    }
}

impl AmbientCGImportError {
    /// The kind of failure.
    pub fn kind(&self) -> (r: AmbientCGErrorType)
        ensures
            r == self.0,
    {
        self.0
    }

    /// A human-readable explanation of the failure.
    pub fn description(&self) -> (r: &'static str)
        ensures
            r@ == error_description(self.0),
    {
        match self.0 {
            AmbientCGErrorType::NoSmallerTier =>
                "Could not find a smaller texture size than missing requested resolution",
            AmbientCGErrorType::DecodeFailure => "Could not decode texture image",
            AmbientCGErrorType::DimensionMismatch =>
                "Roughness and metalness images must have the same dimensions",
        }
    }
}

} // verus!
