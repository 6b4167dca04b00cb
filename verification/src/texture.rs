//! Texture dimension values consumed by the pixel-target set: a rendering
//! size tuple and the anti-aliasing mode, together with the conservative
//! componentwise maximum used when aggregating target sizes.

use vstd::prelude::*;

verus! {

/// Dimension size, in texels or layers.
pub type Size = u16;
/// Number of samples per fragment.
pub type NumSamples = u8;
/// Number of fragments per sample.
pub type NumFragments = u8;

/// How a surface is anti-aliased.
#[derive(Clone, Copy, Debug, PartialEq, Eq, Hash)]
pub enum AaMode {
    /// No additional sample storage.
    Single,
    /// Multi-sampled with the given number of samples per fragment.
    Multi(NumSamples),
    /// Coverage-sampled with the given numbers of samples and fragments.
    Coverage(NumSamples, NumFragments),
}

/// Rendering dimensions of a target: width, height, layer count and
/// anti-aliasing mode.
pub type Dimensions = (Size, Size, Size, AaMode);

/// Total order on anti-aliasing modes used when two targets of one set
/// disagree: no anti-aliasing is least, multi-sampling is ordered by its
/// sample count, and coverage sampling is greatest, ordered by its two
/// counts in turn.
pub open spec fn spec_aa_le(a: AaMode, b: AaMode) -> bool {
    match (a, b) {
        (AaMode::Single, _) => true,
        (AaMode::Multi(_), AaMode::Single) => false,
        (AaMode::Multi(x), AaMode::Multi(y)) => x <= y,
        (AaMode::Multi(_), AaMode::Coverage(_, _)) => true,
        (AaMode::Coverage(_, _), AaMode::Single) => false,
        (AaMode::Coverage(_, _), AaMode::Multi(_)) => false,
        (AaMode::Coverage(s1, f1), AaMode::Coverage(s2, f2)) => s1 < s2 || (s1 == s2 && f1
            <= f2),
    }
}

/// The greater of two anti-aliasing modes, under `spec_aa_le`.
pub open spec fn spec_aa_max(a: AaMode, b: AaMode) -> AaMode {
    if spec_aa_le(a, b) {
        b
    } else {
        a
    }
}

/// The componentwise maximum of two dimension tuples: each extent is the
/// larger of the two, and the anti-aliasing mode the greater under
/// `spec_aa_le`.
pub open spec fn spec_dim_max(a: Dimensions, b: Dimensions) -> Dimensions {
    (
        if a.0 >= b.0 {
            a.0
        } else {
            b.0
        },
        if a.1 >= b.1 {
            a.1
        } else {
            b.1
        },
        if a.2 >= b.2 {
            a.2
        } else {
            b.2
        },
        spec_aa_max(a.3, b.3),
    )
}

/// The greater of two anti-aliasing modes.
pub fn aa_max(a: AaMode, b: AaMode) -> (r: AaMode)
    ensures
        r == spec_aa_max(a, b),
{
    let le: bool = match (a, b) {
        (AaMode::Single, _) => true,
        (AaMode::Multi(_), AaMode::Single) => false,
        (AaMode::Multi(x), AaMode::Multi(y)) => x <= y,
        (AaMode::Multi(_), AaMode::Coverage(_, _)) => true,
        (AaMode::Coverage(_, _), AaMode::Single) => false,
        (AaMode::Coverage(_, _), AaMode::Multi(_)) => false,
        (AaMode::Coverage(s1, f1), AaMode::Coverage(s2, f2)) => s1 < s2 || (s1 == s2 && f1
            <= f2),
    };
    if le {
        b
    } else {
        a
    }
}

/// The componentwise maximum of two dimension tuples.
pub fn dim_max(a: Dimensions, b: Dimensions) -> (r: Dimensions)
    ensures
        r == spec_dim_max(a, b),
{
    (
        if a.0 >= b.0 {
            a.0
        } else {
            b.0
        },
        if a.1 >= b.1 {
            a.1
        } else {
            b.1
        },
        if a.2 >= b.2 {
            a.2
        } else {
            b.2
        },
        aa_max(a.3, b.3),
    )
}

} // verus!
