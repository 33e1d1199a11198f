use vstd::prelude::*;

verus! {

/// What the host measured at a hit, for the material that was hit.
#[derive(Clone, Copy, Debug, PartialEq, Eq, Structural)]
pub enum Observation {
    /// Normal plus a random unit vector is numerically zero.
    Lambertian { degenerate: bool },
    /// The fuzzed reflection points into or along the surface.
    Metal { below_surface: bool },
    /// `eta * sin(theta) > 1`, and whether Schlick's reflectance exceeds the uniform draw.
    Dielectric { cannot_refract: bool, reflectance_wins: bool },
}

/// The direction a scattered ray takes, or absorption.
#[derive(Clone, Copy, Debug, PartialEq, Eq, Structural)]
pub enum Outcome {
    /// Along the normal plus a random unit vector.
    Diffuse,
    /// Along the normal itself.
    AlongNormal,
    /// Mirror reflection of the unit incident direction, perturbed by the fuzz.
    FuzzedReflection,
    /// Mirror reflection of the unit incident direction.
    Reflection,
    /// Refraction of the unit incident direction.
    Refraction,
    /// The ray is absorbed.
    Absorbed,
}

/// Scattering rule of each material kind.
pub open spec fn spec_scatter_outcome(obs: Observation) -> Outcome {
    match obs {
        Observation::Lambertian { degenerate } => if degenerate {
            Outcome::AlongNormal
        } else {
            Outcome::Diffuse
        },
        Observation::Metal { below_surface } => if below_surface {
            Outcome::Absorbed
        } else {
            Outcome::FuzzedReflection
        },
        Observation::Dielectric { cannot_refract, reflectance_wins } => if cannot_refract
            || reflectance_wins {
            Outcome::Reflection
        } else {
            Outcome::Refraction
        },
    }
}

/// Lambertian surfaces scatter along the normal plus a random unit vector, or
/// along the normal when that sum vanishes; metals reflect with fuzz and absorb
/// what would leave below the surface; dielectrics reflect under total internal
/// reflection or when Schlick's reflectance wins the draw, and refract otherwise.
pub fn scatter_outcome(obs: Observation) -> (r: Outcome)
    ensures
        r == spec_scatter_outcome(obs),
{
    match obs {
        Observation::Lambertian { degenerate } => if degenerate {
            Outcome::AlongNormal
        } else {
            Outcome::Diffuse
        },
        Observation::Metal { below_surface } => if below_surface {
            Outcome::Absorbed
        } else {
            Outcome::FuzzedReflection
        },
        Observation::Dielectric { cannot_refract, reflectance_wins } => if cannot_refract
            || reflectance_wins {
            Outcome::Reflection
        } else {
            Outcome::Refraction
        },
    }
}

/// Only a metal absorbs; a Lambertian surface and a dielectric always scatter,
/// and a Lambertian one never along a degenerate direction.
pub proof fn lemma_only_metal_absorbs(obs: Observation)
    ensures
        spec_scatter_outcome(obs) == Outcome::Absorbed ==> obs is Metal,
        obs matches Observation::Lambertian { degenerate } ==> (degenerate
            <==> spec_scatter_outcome(obs) == Outcome::AlongNormal),
{
}

/// Under total internal reflection a dielectric reflects, whatever the draw.
pub proof fn lemma_total_internal_reflection(reflectance_wins: bool)
    ensures
        spec_scatter_outcome(Observation::Dielectric { cannot_refract: true, reflectance_wins })
            == Outcome::Reflection,
{
}

} // verus!
