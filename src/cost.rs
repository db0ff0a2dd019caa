use vstd::prelude::*;

verus! {

/// Fixed-point scale of weights and ratios: `UNIT` stands for 1.0.
pub const UNIT: u32 = 10000;

/// How far a partition may sum from `UNIT` and still be accepted (0.01).
pub const PARTITION_TOLERANCE: u32 = 100;

/// The contrast that a pair of colors is held to.
#[derive(Clone, Copy, Debug, PartialEq, Eq, Structural)]
pub enum ContrastNeed {
    /// Two backgrounds side by side: at least 3:1.
    Background,
    /// Text on a background: at least 4.5:1.
    Text,
}

impl ContrastNeed {
    pub open spec fn spec_minimum_ratio(self) -> nat {
        match self {
            ContrastNeed::Background => 30000,
            ContrastNeed::Text => 45000,
        }
    }

    /// The lowest acceptable contrast ratio, in ten-thousandths.
    pub fn minimum_ratio(self) -> (r: u32)
        ensures
            r == self.spec_minimum_ratio(),
    {
        match self {
            ContrastNeed::Background => 30000,
            ContrastNeed::Text => 45000,
        }
    }
}

/// How a value in a report should be highlighted.
#[derive(Clone, Copy, Debug, PartialEq, Eq, Structural)]
pub enum Attention {
    Good,
    Normal,
    Bad,
}

/// A value that a report can highlight.
pub trait DrawAttention {
    fn attention(&self) -> Attention;
}

/// A group of weights that must sum to one.
#[derive(Clone, Copy, Debug, PartialEq, Eq, Structural)]
pub enum WeightPartition {
    /// `distance_bg_bg_weight`, `distance_bg_fg_weight`, `distance_fg_fg_weight`.
    Distance,
    /// `target_bg_weight`, `target_fg_weight`.
    Target,
    /// `contrast_bg_bg_weight`, `contrast_bg_fg_weight`.
    Contrast,
}

/// The weights of the cost terms, each in ten-thousandths.
///
/// The first seven weigh the terms of a total cost against each other. The
/// other three groups each blend the parts of one term and form a
/// partition: after [`Weights::initialize`] each group sums to exactly `UNIT`.
#[derive(Clone, Copy, Debug, PartialEq, Eq, Structural)]
pub struct Weights {
    pub contrast_weight: u32,
    pub distance_weight: u32,
    pub range_weight: u32,
    pub target_weight: u32,
    pub protanopia_weight: u32,
    pub deuteranopia_weight: u32,
    pub tritanopia_weight: u32,
    pub distance_bg_bg_weight: u32,
    pub distance_bg_fg_weight: u32,
    pub distance_fg_fg_weight: u32,
    pub target_bg_weight: u32,
    pub target_fg_weight: u32,
    pub contrast_bg_bg_weight: u32,
    pub contrast_bg_fg_weight: u32,
}

/// A partition given as the sum of all its members and the sum of the
/// members other than the derived one is usable when the first is within
/// the tolerance of `UNIT` and the second leaves a non-negative remainder.
pub open spec fn partition_usable(all: int, fixed: int) -> bool {
    UNIT - PARTITION_TOLERANCE <= all <= UNIT + PARTITION_TOLERANCE && fixed <= UNIT
}

impl Weights {
    pub open spec fn distance_sum(self) -> int {
        self.distance_bg_bg_weight + self.distance_bg_fg_weight + self.distance_fg_fg_weight
    }

    pub open spec fn target_sum(self) -> int {
        self.target_bg_weight + self.target_fg_weight
    }

    pub open spec fn contrast_sum(self) -> int {
        self.contrast_bg_bg_weight + self.contrast_bg_fg_weight
    }

    /// Every partition sums to exactly one.
    pub open spec fn wf(self) -> bool {
        &&& self.distance_sum() == UNIT
        &&& self.target_sum() == UNIT
        &&& self.contrast_sum() == UNIT
    }

    /// What [`Weights::initialize`] returns: the first malformed partition,
    /// or the weights with the last member of each partition derived from
    /// the others.
    pub open spec fn spec_initialize(self) -> Result<Weights, WeightPartition> {
        if !partition_usable(
            self.distance_sum(),
            self.distance_bg_bg_weight + self.distance_bg_fg_weight,
        ) {
            Err(WeightPartition::Distance)
        } else if !partition_usable(self.target_sum(), self.target_bg_weight as int) {
            Err(WeightPartition::Target)
        } else if !partition_usable(self.contrast_sum(), self.contrast_bg_bg_weight as int) {
            Err(WeightPartition::Contrast)
        } else {
            Ok(
                Weights {
                    distance_fg_fg_weight: (UNIT - (self.distance_bg_bg_weight
                        + self.distance_bg_fg_weight)) as u32,
                    target_fg_weight: (UNIT - self.target_bg_weight) as u32,
                    contrast_bg_fg_weight: (UNIT - self.contrast_bg_bg_weight) as u32,
                    ..self
                },
            )
        }
    }

    /// Checks each partition (distance, then target, then contrast) and makes
    /// it consistent by construction: its last member becomes one minus the
    /// others. A partition is malformed when its sum is off one by more than
    /// 0.01, or when its other members already exceed one.
    pub fn initialize(self) -> (r: Result<Weights, WeightPartition>)
        ensures
            r == self.spec_initialize(),
    {
        let distance_fixed: u64 = self.distance_bg_bg_weight as u64
            + self.distance_bg_fg_weight as u64;
        if !usable(distance_fixed + self.distance_fg_fg_weight as u64, distance_fixed) {
            return Err(WeightPartition::Distance);
        }
        let target_fixed: u64 = self.target_bg_weight as u64;
        if !usable(target_fixed + self.target_fg_weight as u64, target_fixed) {
            return Err(WeightPartition::Target);
        }
        let contrast_fixed: u64 = self.contrast_bg_bg_weight as u64;
        if !usable(contrast_fixed + self.contrast_bg_fg_weight as u64, contrast_fixed) {
            return Err(WeightPartition::Contrast);
        }
        let mut w = self;
        w.distance_fg_fg_weight = UNIT - distance_fixed as u32;
        w.target_fg_weight = UNIT - target_fixed as u32;
        w.contrast_bg_fg_weight = UNIT - contrast_fixed as u32;
        Ok(w)
    }
}

fn usable(all: u64, fixed: u64) -> (r: bool)
    ensures
        r == partition_usable(all as int, fixed as int),
{
    (UNIT - PARTITION_TOLERANCE) as u64 <= all && all <= (UNIT + PARTITION_TOLERANCE) as u64
        && fixed <= UNIT as u64
}

/// Initialization leaves every partition of the weights summing to exactly
/// one, so well within its tolerance of 0.01.
pub proof fn lemma_initialized_partitions_sum_to_one(w: Weights)
    requires
        w.spec_initialize() is Ok,
    ensures
        w.spec_initialize()->Ok_0.wf(),
        UNIT - PARTITION_TOLERANCE <= w.spec_initialize()->Ok_0.distance_sum() <= UNIT
            + PARTITION_TOLERANCE,
        UNIT - PARTITION_TOLERANCE <= w.spec_initialize()->Ok_0.target_sum() <= UNIT
            + PARTITION_TOLERANCE,
        UNIT - PARTITION_TOLERANCE <= w.spec_initialize()->Ok_0.contrast_sum() <= UNIT
            + PARTITION_TOLERANCE,
{
}

/// Weights that are already consistent come out of initialization unchanged.
pub proof fn lemma_initialize_keeps_consistent_weights(w: Weights)
    requires
        w.wf(),
    ensures
        w.spec_initialize() == Ok::<Weights, WeightPartition>(w),
{
}

} // verus!
