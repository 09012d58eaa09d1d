use vstd::prelude::*;

use crate::error::{AmbientCGErrorType, AmbientCGImportError};

verus! {

/// A texture resolution tier, ordered from smallest to largest.
#[derive(Clone, Copy, Debug, PartialEq, Eq, Structural)]
pub enum AmbientCGResolution {
    OneK,
    TwoK,
    FourK,
    EightK,
    TwelveK,
    SixteenK,
}

/// Position of a tier in the ordered list 1K, 2K, 4K, 8K, 12K, 16K.
pub open spec fn rank(t: AmbientCGResolution) -> nat {
    match t {
        AmbientCGResolution::OneK => 0,
        AmbientCGResolution::TwoK => 1,
        AmbientCGResolution::FourK => 2,
        AmbientCGResolution::EightK => 3,
        AmbientCGResolution::TwelveK => 4,
        AmbientCGResolution::SixteenK => 5,
    }
}

/// The tier standing at position `n` of the ordered list.
pub open spec fn tier_at(n: nat) -> AmbientCGResolution
    recommends
        n < 6,
{
    if n == 0 {
        AmbientCGResolution::OneK
    } else if n == 1 {
        AmbientCGResolution::TwoK
    } else if n == 2 {
        AmbientCGResolution::FourK
    } else if n == 3 {
        AmbientCGResolution::EightK
    } else if n == 4 {
        AmbientCGResolution::TwelveK
    } else {
        AmbientCGResolution::SixteenK
    }
}

/// The text that names a tier in directory and file names.
pub open spec fn tier_label(t: AmbientCGResolution) -> Seq<char> {
    match t {
        AmbientCGResolution::OneK => "1K"@,
        AmbientCGResolution::TwoK => "2K"@,
        AmbientCGResolution::FourK => "4K"@,
        AmbientCGResolution::EightK => "8K"@,
        AmbientCGResolution::TwelveK => "12K"@,
        AmbientCGResolution::SixteenK => "16K"@,
    }
}

/// The tier just below `t`, or `None` for the smallest tier.
pub open spec fn spec_next_smaller(t: AmbientCGResolution) -> Option<AmbientCGResolution> {
    if rank(t) == 0 {
        None
    } else {
        Some(tier_at((rank(t) - 1) as nat))
    }
}

impl Default for AmbientCGResolution {
    fn default() -> (r: Self)
        ensures
            r == AmbientCGResolution::OneK,
    {
        AmbientCGResolution::OneK
    }
}

impl AmbientCGResolution {
    /// The tier immediately below this one; fails on the smallest tier.
    pub fn next_smaller(&self) -> (r: Result<Self, AmbientCGImportError>)
        ensures
            match spec_next_smaller(*self) {
                Some(t) => r == Ok::<Self, AmbientCGImportError>(t),
                None => r == Err::<Self, AmbientCGImportError>(
                    AmbientCGImportError(AmbientCGErrorType::NoSmallerTier),
                ),
            },
    {
        match self {
            AmbientCGResolution::OneK => Err(AmbientCGImportError(AmbientCGErrorType::NoSmallerTier)),
            AmbientCGResolution::TwoK => Ok(AmbientCGResolution::OneK),
            AmbientCGResolution::FourK => Ok(AmbientCGResolution::TwoK),
            AmbientCGResolution::EightK => Ok(AmbientCGResolution::FourK),
            AmbientCGResolution::TwelveK => Ok(AmbientCGResolution::EightK),
            AmbientCGResolution::SixteenK => Ok(AmbientCGResolution::TwelveK),
        }
    }

    /// The tier's name as it appears in directory and file names.
    pub fn label(&self) -> (r: &'static str)
        ensures
            r@ == tier_label(*self),
    {
        match self {
            AmbientCGResolution::OneK => "1K",
            AmbientCGResolution::TwoK => "2K",
            AmbientCGResolution::FourK => "4K",
            AmbientCGResolution::EightK => "8K",
            AmbientCGResolution::TwelveK => "12K",
            AmbientCGResolution::SixteenK => "16K",
        }
    }
}

/// Every tier but the smallest has as its next smaller tier the one standing
/// immediately before it in the ordered list; the smallest has none.
pub proof fn lemma_next_smaller_is_predecessor(t: AmbientCGResolution)
    ensures
        rank(t) < 6,
        tier_at(rank(t)) == t,
        t == AmbientCGResolution::OneK <==> spec_next_smaller(t) is None,
        t != AmbientCGResolution::OneK ==> rank(spec_next_smaller(t)->0) + 1 == rank(t),
{
}

} // verus!
