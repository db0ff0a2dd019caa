use vstd::prelude::*;

verus! {

/// Fixed-point scale of the severities: `SEVERITY_UNIT` stands for 1.0.
pub const SEVERITY_UNIT: u32 = 10000;

/// How a viewer perceives color.
#[derive(Clone, Copy, Debug, PartialEq, Eq, Structural)]
pub enum Vision {
    Normal,
    Protanopia,
    Protanomaly,
    Deuteranopia,
    Deuteranomaly,
    Tritanopia,
    Tritanomaly,
    Achromatopsia,
    Achromatomaly,
}

/// The cone class that a dichromacy projection removes.
#[derive(Clone, Copy, Debug, PartialEq, Eq, Structural)]
pub enum Deficiency {
    /// Red-deficient.
    Protan,
    /// Green-deficient.
    Deutan,
    /// Blue-deficient.
    Tritan,
}

/// How far a simulation moves a color toward its deficient image.
#[derive(Clone, Copy, Debug, PartialEq, Eq, Structural)]
pub enum Severity {
    /// The full deficiency (factor 1.0).
    Full,
    /// The anomalous, partial form (factor 0.6).
    Partial,
}

/// The numeric strategy that simulates a vision variant.
#[derive(Clone, Copy, Debug, PartialEq, Eq, Structural)]
pub enum Simulation {
    /// The color is left as it is.
    Identity,
    /// Each channel is blended toward the color's luma.
    Monochrome(Severity),
    /// The linear color is projected onto a dichromat's plane, then blended.
    Dichromacy(Deficiency, Severity),
}

impl Severity {
    pub open spec fn spec_factor(self) -> nat {
        match self {
            Severity::Full => 10000,
            Severity::Partial => 6000,
        }
    }

    /// The blend factor in ten-thousandths: 10000 for a full deficiency,
    /// 6000 for the partial one.
    pub fn factor(self) -> (r: u32)
        ensures
            r == self.spec_factor(),
            r <= SEVERITY_UNIT,
    {
        match self {
            Severity::Full => 10000,
            Severity::Partial => 6000,
        }
    }
}

impl Vision {
    pub open spec fn spec_simulation(self) -> Simulation {
        match self {
            Vision::Normal => Simulation::Identity,
            Vision::Achromatopsia => Simulation::Monochrome(Severity::Full),
            Vision::Achromatomaly => Simulation::Monochrome(Severity::Partial),
            Vision::Protanopia => Simulation::Dichromacy(Deficiency::Protan, Severity::Full),
            Vision::Protanomaly => Simulation::Dichromacy(Deficiency::Protan, Severity::Partial),
            Vision::Deuteranopia => Simulation::Dichromacy(Deficiency::Deutan, Severity::Full),
            Vision::Deuteranomaly => Simulation::Dichromacy(Deficiency::Deutan, Severity::Partial),
            Vision::Tritanopia => Simulation::Dichromacy(Deficiency::Tritan, Severity::Full),
            Vision::Tritanomaly => Simulation::Dichromacy(Deficiency::Tritan, Severity::Partial),
        }
    }

    /// The strategy, and its parameters, that simulates this vision.
    pub fn simulation(self) -> (r: Simulation)
        ensures
            r == self.spec_simulation(),
    {
        match self {
            Vision::Normal => Simulation::Identity,
            Vision::Achromatopsia => Simulation::Monochrome(Severity::Full),
            Vision::Achromatomaly => Simulation::Monochrome(Severity::Partial),
            Vision::Protanopia => Simulation::Dichromacy(Deficiency::Protan, Severity::Full),
            Vision::Protanomaly => Simulation::Dichromacy(Deficiency::Protan, Severity::Partial),
            Vision::Deuteranopia => Simulation::Dichromacy(Deficiency::Deutan, Severity::Full),
            Vision::Deuteranomaly => Simulation::Dichromacy(Deficiency::Deutan, Severity::Partial),
            Vision::Tritanopia => Simulation::Dichromacy(Deficiency::Tritan, Severity::Full),
            Vision::Tritanomaly => Simulation::Dichromacy(Deficiency::Tritan, Severity::Partial),
        }
    }
}

/// Normal vision is the one variant that a simulation leaves unchanged.
pub proof fn lemma_only_normal_vision_is_identity(v: Vision)
    ensures
        (v.spec_simulation() == Simulation::Identity) <==> v == Vision::Normal,
{
}

/// Fixed-point scale of the projection constants: `MATRIX_UNIT` stands for 1.0.
pub const MATRIX_UNIT: i32 = 100000;

/// The constants of a dichromacy projection, in hundred-thousandths.
///
/// A linear color whose dot product with `separation_plane_normal` is
/// non-negative is projected by `rgb_cvd_from_rgb_1`, any other by
/// `rgb_cvd_from_rgb_2`; both are 3x3 matrices in row-major order.
#[derive(Clone, Copy, Debug)]
pub struct BrettelParams {
    pub rgb_cvd_from_rgb_1: [i32; 9],
    pub rgb_cvd_from_rgb_2: [i32; 9],
    pub separation_plane_normal: [i32; 3],
}

impl Deficiency {
    pub open spec fn spec_brettel_params(self) -> BrettelParams {
        match self {
            Deficiency::Protan => BrettelParams {
                rgb_cvd_from_rgb_1: [14510i32, 120165i32, -34675i32, 10447i32, 85316i32, 4237i32, 429i32, -603i32, 100174i32],
                rgb_cvd_from_rgb_2: [14115i32, 116782i32, -30897i32, 10495i32, 85730i32, 3776i32, 431i32, -586i32, 100155i32],
                separation_plane_normal: [48i32, 416i32, -464i32],
            },
            Deficiency::Deutan => BrettelParams {
                rgb_cvd_from_rgb_1: [36198i32, 86755i32, -22953i32, 26099i32, 64512i32, 9389i32, -1975i32, 2686i32, 99289i32],
                rgb_cvd_from_rgb_2: [37009i32, 88540i32, -25549i32, 25767i32, 63782i32, 10451i32, -1950i32, 2741i32, 99209i32],
                separation_plane_normal: [-293i32, -645i32, 938i32],
            },
            Deficiency::Tritan => BrettelParams {
                rgb_cvd_from_rgb_1: [101354i32, 14268i32, -15622i32, -1181i32, 87561i32, 13619i32, 7707i32, 81208i32, 11085i32],
                rgb_cvd_from_rgb_2: [93337i32, 19999i32, -13336i32, 5809i32, 82565i32, 11626i32, -37923i32, 113825i32, 24098i32],
                separation_plane_normal: [3960i32, -2831i32, -1129i32],
            },
        }
    }

    /// The projection constants of this deficiency.
    pub fn brettel_params(self) -> (r: BrettelParams)
        ensures
            r == self.spec_brettel_params(),
    {
        match self {
            Deficiency::Protan => BrettelParams {
                rgb_cvd_from_rgb_1: [14510, 120165, -34675, 10447, 85316, 4237, 429, -603, 100174],
                rgb_cvd_from_rgb_2: [14115, 116782, -30897, 10495, 85730, 3776, 431, -586, 100155],
                separation_plane_normal: [48, 416, -464],
            },
            Deficiency::Deutan => BrettelParams {
                rgb_cvd_from_rgb_1: [36198, 86755, -22953, 26099, 64512, 9389, -1975, 2686, 99289],
                rgb_cvd_from_rgb_2: [37009, 88540, -25549, 25767, 63782, 10451, -1950, 2741, 99209],
                separation_plane_normal: [-293, -645, 938],
            },
            Deficiency::Tritan => BrettelParams {
                rgb_cvd_from_rgb_1: [101354, 14268, -15622, -1181, 87561, 13619, 7707, 81208, 11085],
                rgb_cvd_from_rgb_2: [93337, 19999, -13336, 5809, 82565, 11626, -37923, 113825, 24098],
                separation_plane_normal: [3960, -2831, -1129],
            },
        }
    }
}

} // verus!
