use vstd::prelude::*;

verus! {

/// The three material variants of the shading model.
#[derive(Copy, Clone, Debug, PartialEq, Eq, Structural)]
pub enum MaterialKind {
    /// Matte surface: always scatters, tinted by its albedo.
    Diffuse,
    /// Mirror-like surface with a roughness in [0, 1]: scatters unless the
    /// perturbed reflection points into the surface.
    Specular,
    /// Light source: radiates its emission color and never scatters.
    Emissive,
}

/// Whether a material produces a continuation ray.  `deflected_inward` is
/// the one geometric fact the rule consumes: whether the candidate outgoing
/// direction points into the surface (its dot product with the surface
/// normal is not positive).
pub open spec fn scatters_spec(kind: MaterialKind, deflected_inward: bool) -> bool {
    match kind {
        MaterialKind::Diffuse => true,
        MaterialKind::Specular => !deflected_inward,
        MaterialKind::Emissive => false,
    }
}

/// Decision core of `scatter`: a diffuse surface never absorbs, a specular
/// surface absorbs exactly when its perturbed reflection points into the
/// surface, and an emissive surface never scatters.
pub fn scatters(kind: MaterialKind, deflected_inward: bool) -> (s: bool)
    ensures
        s == scatters_spec(kind, deflected_inward),
{
    match kind {
        MaterialKind::Diffuse => true,
        MaterialKind::Specular => !deflected_inward,
        MaterialKind::Emissive => false,
    }
}

/// Whether a material contributes emission of its own; every variant other
/// than the emissive one has the default emission of zero.
pub open spec fn emits_spec(kind: MaterialKind) -> bool {
    kind is Emissive
}

/// Decision core of `emitted`: only the emissive variant radiates; the
/// others report the zero color.
pub fn emits(kind: MaterialKind) -> (e: bool)
    ensures
        e == emits_spec(kind),
{
    match kind {
        MaterialKind::Emissive => true,
        _ => false,
    }
}

/// An emissive material refuses to scatter for every incoming ray and every
/// hit: whatever geometry produced the query, the rule ignores it.
pub proof fn lemma_emissive_never_scatters(deflected_inward: bool)
    ensures
        !scatters_spec(MaterialKind::Emissive, deflected_inward),
{
}

/// A diffuse material always scatters: it never absorbs a path, whatever
/// the geometry of the bounce.
pub proof fn lemma_diffuse_always_scatters(deflected_inward: bool)
    ensures
        scatters_spec(MaterialKind::Diffuse, deflected_inward),
{
}

} // verus!
