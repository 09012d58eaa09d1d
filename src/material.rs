use vstd::prelude::*;

use crate::error::{AmbientCGErrorType, AmbientCGImportError};
use crate::resolution::{rank, spec_next_smaller, tier_at, AmbientCGResolution};

verus! {

/// Where materials are looked for and whether a missing tier falls back to
/// smaller ones.
#[derive(Clone, Debug)]
pub struct AmbientCGConfig {
    /// Directory of the material sets, relative to the asset root.
    pub materials_path: String,
    /// Whether a missing tier is replaced by the next smaller one present.
    pub resolution_negotiation: bool,
}

impl Default for AmbientCGConfig {
    fn default() -> (r: Self)
        ensures
            r.materials_path@ == "materials"@,
            r.resolution_negotiation,
    {
        AmbientCGConfig { materials_path: String::from_str("materials"), resolution_negotiation: true }
    }
}

/// A named AmbientCG texture set at a requested resolution tier.
#[derive(Clone, Debug)]
pub struct AmbientCGMaterial {
    /// The set's name, such as `Bricks001`.
    pub name: String,
    /// The requested tier.
    pub resolution: AmbientCGResolution,
    /// An optional directory between the materials path and the set's own directory.
    pub subfolder: Option<String>,
}

/// The tier that negotiation settles on when the requested tier is `t` and
/// the directories of the tiers in `existing` are present: the largest present
/// tier no larger than `t`, or `None` when there is none.
pub open spec fn negotiated_tier(t: AmbientCGResolution, existing: Seq<AmbientCGResolution>) -> Option<
    AmbientCGResolution,
>
    decreases rank(t),
{
    if existing.contains(t) {
        Some(t)
    } else {
        match spec_next_smaller(t) {
            None => None,
            Some(s) => negotiated_tier(s, existing),
        }
    }
}

/// The same material at another tier.
pub open spec fn at_tier(m: AmbientCGMaterial, t: AmbientCGResolution) -> AmbientCGMaterial {
    AmbientCGMaterial { name: m.name, resolution: t, subfolder: m.subfolder }
}

/// What negotiation returns for `m` when the tiers in `existing` are present.
pub open spec fn negotiation_result(m: AmbientCGMaterial, existing: Seq<AmbientCGResolution>) -> Result<
    AmbientCGMaterial,
    AmbientCGImportError,
> {
    match negotiated_tier(m.resolution, existing) {
        Some(t) => Ok(at_tier(m, t)),
        None => Err(AmbientCGImportError(AmbientCGErrorType::NoSmallerTier)),
    }
}

fn tier_listed(existing: &Vec<AmbientCGResolution>, t: AmbientCGResolution) -> (r: bool)
    ensures
        r == existing@.contains(t),
{
    let mut i: usize = 0;
    while i < existing.len()
        invariant
            i <= existing@.len(),
            forall|j: int| 0 <= j < i ==> existing@[j] != t,
        decreases existing@.len() - i,
    {
        if existing[i] == t {
            return true;
        }
        i = i + 1;
    }
    false
}

impl AmbientCGMaterial {
    /// Walks down from the requested tier to the first one whose directory is
    /// present, as listed in `existing`; fails when none at or below it is.
    pub fn negotiate_resolution(self, existing: &Vec<AmbientCGResolution>) -> (r: Result<
        AmbientCGMaterial,
        AmbientCGImportError,
    >)
        ensures
            r == negotiation_result(self, existing@),
    {
        let ghost requested = self;
        let mut current = self;
        loop
            invariant
                requested == self,
                current == at_tier(requested, current.resolution),
                negotiated_tier(current.resolution, existing@) == negotiated_tier(
                    requested.resolution,
                    existing@,
                ),
            decreases rank(current.resolution),
        {
            if tier_listed(existing, current.resolution) {
                assert(negotiated_tier(current.resolution, existing@) == Some(current.resolution));
                return Ok(current);
            }
            match current.resolution.next_smaller() {
                Err(e) => {
                    assert(negotiated_tier(current.resolution, existing@) is None);
                    return Err(e);
                },
                Ok(t) => {
                    current = AmbientCGMaterial {
                        name: current.name,
                        resolution: t,
                        subfolder: current.subfolder,
                    };
                },
            }
        }
    }

    /// The material whose channels are to be loaded: negotiated when the
    /// configuration asks for it, else the requested one unchanged.
    pub fn resolve(self, config: &AmbientCGConfig, existing: &Vec<AmbientCGResolution>) -> (r: Result<
        AmbientCGMaterial,
        AmbientCGImportError,
    >)
        ensures
            config.resolution_negotiation ==> r == negotiation_result(self, existing@),
            !config.resolution_negotiation ==> r == Ok::<AmbientCGMaterial, AmbientCGImportError>(self),
    {
        if config.resolution_negotiation {
            self.negotiate_resolution(existing)
        } else {
            Ok(self)
        }
    }
}

/// Negotiation settles on the largest present tier that is no larger than the
/// requested one: it never goes up and never passes over a present tier on its
/// way down; it fails only when no tier at or below the requested one is present.
pub proof fn lemma_negotiation_descends_without_skipping(
    t: AmbientCGResolution,
    existing: Seq<AmbientCGResolution>,
)
    ensures
        match negotiated_tier(t, existing) {
            Some(s) => {
                &&& existing.contains(s)
                &&& rank(s) <= rank(t)
                &&& forall|k: nat| rank(s) < k <= rank(t) ==> !existing.contains(tier_at(k))
            },
            None => forall|k: nat| k <= rank(t) ==> !existing.contains(tier_at(k)),
        },
    decreases rank(t),
{
    if !existing.contains(t) {
        match spec_next_smaller(t) {
            None => {},
            Some(s) => {
                lemma_negotiation_descends_without_skipping(s, existing);
            },
        }
    }
}

/// Negotiating a material whose tier is present returns it unchanged, and
/// negotiating the result of a negotiation again changes nothing.
pub proof fn lemma_negotiation_idempotent(
    m: AmbientCGMaterial,
    existing: Seq<AmbientCGResolution>,
)
    ensures
        existing.contains(m.resolution) ==> negotiation_result(m, existing) == Ok::<
            AmbientCGMaterial,
            AmbientCGImportError,
        >(m),
        negotiation_result(m, existing) is Ok ==> negotiation_result(
            negotiation_result(m, existing)->Ok_0,
            existing,
        ) == negotiation_result(m, existing),
{
    lemma_negotiation_descends_without_skipping(m.resolution, existing);
}

} // verus!
