//! The non-destructive mesh modifier stack.
use vstd::prelude::*;

verus! {

/// A non-destructive deformer of a mesh; scalars are `f32` bit patterns.
#[derive(Clone, Copy, Debug, PartialEq, Eq)]
pub enum MeshModifier {
    /// Helical twist about the Y axis (angle in radians).
    Twist { enabled: bool, angle: u32 },
    /// Bend along the Y axis towards X (angle in radians).
    Bend { enabled: bool, angle: u32 },
    /// Flare or narrowing along the height (scale factor at the top).
    Taper { enabled: bool, factor: u32 },
    /// Travelling sine wave.
    Wave { enabled: bool, amplitude: u32, frequency: u32, speed: u32 },
    /// Procedural relief along the normals.
    Noise { enabled: bool, strength: u32, frequency: u32 },
    /// Elastic squash and stretch.
    Squash { enabled: bool, intensity: u32 },
}

/// Whether a modifier takes part in the evaluation of the stack.
pub open spec fn modifier_enabled(m: MeshModifier) -> bool {
    match m {
        MeshModifier::Twist { enabled, .. } => enabled,
        MeshModifier::Bend { enabled, .. } => enabled,
        MeshModifier::Taper { enabled, .. } => enabled,
        MeshModifier::Wave { enabled, .. } => enabled,
        MeshModifier::Noise { enabled, .. } => enabled,
        MeshModifier::Squash { enabled, .. } => enabled,
    }
}

/// `m` with its enabled flag set to `val`, every parameter kept.
pub open spec fn modifier_with_enabled(m: MeshModifier, val: bool) -> MeshModifier {
    match m {
        MeshModifier::Twist { angle, .. } => MeshModifier::Twist { enabled: val, angle },
        MeshModifier::Bend { angle, .. } => MeshModifier::Bend { enabled: val, angle },
        MeshModifier::Taper { factor, .. } => MeshModifier::Taper { enabled: val, factor },
        MeshModifier::Wave { amplitude, frequency, speed, .. } => MeshModifier::Wave {
            enabled: val,
            amplitude,
            frequency,
            speed,
        },
        MeshModifier::Noise { strength, frequency, .. } => MeshModifier::Noise {
            enabled: val,
            strength,
            frequency,
        },
        MeshModifier::Squash { intensity, .. } => MeshModifier::Squash { enabled: val, intensity },
    }
}

/// Display name of the kind of a modifier.
pub open spec fn modifier_name(m: MeshModifier) -> Seq<char> {
    match m {
        MeshModifier::Twist { .. } => "🌀 Twist (Torsion)"@,
        MeshModifier::Bend { .. } => "🎋 Bend (Courbure)"@,
        MeshModifier::Taper { .. } => "📐 Taper (Évasement)"@,
        MeshModifier::Wave { .. } => "🌊 Wave (Vague)"@,
        MeshModifier::Noise { .. } => "🏔 Noise (Relief)"@,
        MeshModifier::Squash { .. } => "🍮 Squash & Stretch"@,
    }
}

impl MeshModifier {
    /// Whether the modifier takes part in the evaluation of the stack.
    pub fn is_enabled(&self) -> (r: bool)
        ensures
            r == modifier_enabled(*self),
    {
        match self {
            MeshModifier::Twist { enabled, .. } => *enabled,
            MeshModifier::Bend { enabled, .. } => *enabled,
            MeshModifier::Taper { enabled, .. } => *enabled,
            MeshModifier::Wave { enabled, .. } => *enabled,
            MeshModifier::Noise { enabled, .. } => *enabled,
            MeshModifier::Squash { enabled, .. } => *enabled,
        }
    }

    /// Switches the modifier on or off, keeping its parameters.
    pub fn set_enabled(&mut self, val: bool)
        ensures
            *final(self) == modifier_with_enabled(*old(self), val),
    {
        *self = match *self {
            MeshModifier::Twist { angle, .. } => MeshModifier::Twist { enabled: val, angle },
            MeshModifier::Bend { angle, .. } => MeshModifier::Bend { enabled: val, angle },
            MeshModifier::Taper { factor, .. } => MeshModifier::Taper { enabled: val, factor },
            MeshModifier::Wave { amplitude, frequency, speed, .. } => MeshModifier::Wave {
                enabled: val,
                amplitude,
                frequency,
                speed,
            },
            MeshModifier::Noise { strength, frequency, .. } => MeshModifier::Noise {
                enabled: val,
                strength,
                frequency,
            },
            MeshModifier::Squash { intensity, .. } => MeshModifier::Squash { enabled: val, intensity },
        };
    }

    /// Display name of the kind of modifier.
    pub fn name(&self) -> (r: &'static str)
        ensures
            r@ == modifier_name(*self),
    {
        match self {
            MeshModifier::Twist { .. } => "🌀 Twist (Torsion)",
            MeshModifier::Bend { .. } => "🎋 Bend (Courbure)",
            MeshModifier::Taper { .. } => "📐 Taper (Évasement)",
            MeshModifier::Wave { .. } => "🌊 Wave (Vague)",
            MeshModifier::Noise { .. } => "🏔 Noise (Relief)",
            MeshModifier::Squash { .. } => "🍮 Squash & Stretch",
        }
    }
}

/// Whether some modifier of the stack is enabled.
pub fn any_enabled(modifiers: &[MeshModifier]) -> (r: bool)
    ensures
        r == exists|i: int| 0 <= i < modifiers@.len() && modifier_enabled(#[trigger] modifiers@[i]),
{
    let mut i: usize = 0;
    while i < modifiers.len()
        invariant
            0 <= i <= modifiers@.len(),
            forall|k: int| 0 <= k < i ==> !modifier_enabled(#[trigger] modifiers@[k]),
        decreases modifiers@.len() - i,
    {
        if modifiers[i].is_enabled() {
            return true;
        }
        i = i + 1;
    }
    false
}

/// Toggling a modifier changes nothing but its flag: reading the flag gives
/// what was written, the kind (and so the name) is kept, and writing back the
/// old flag restores the modifier.
pub proof fn lemma_set_enabled_laws(m: MeshModifier, val: bool)
    ensures
        modifier_enabled(modifier_with_enabled(m, val)) == val,
        modifier_name(modifier_with_enabled(m, val)) == modifier_name(m),
        modifier_with_enabled(modifier_with_enabled(m, val), modifier_enabled(m)) == m,
{
}

} // verus!
