//! The scatter quality setting and the per-layer settings derived from it.
//!
//! One user-facing [`QualitySetting`] drives every scatter layer. Each layer
//! has a setting of its own with the same four rungs, so that a layer can be
//! tuned apart from the others; the conversions here keep the rung.

use vstd::prelude::*;
use vstd::std_specs::convert::FromSpec;

verus! {

/// The user-facing scatter quality. The derived order is
/// `Low < Medium < High < Ultra`.
#[derive(Debug, PartialEq, Eq, Structural, Clone, Copy, PartialOrd, Ord)]
pub enum QualitySetting {
    Low,
    Medium,
    High,
    Ultra,
}

impl QualitySetting {
    /// Position of the setting on the ladder, `Low` being 0.
    pub open spec fn rank(self) -> int {
        match self {
            QualitySetting::Low => 0,
            QualitySetting::Medium => 1,
            QualitySetting::High => 2,
            QualitySetting::Ultra => 3,
        }
    }

    /// The setting at a position of the ladder; positions past the top give
    /// `Ultra`.
    pub open spec fn at(rank: int) -> QualitySetting {
        if rank <= 0 {
            QualitySetting::Low
        } else if rank == 1 {
            QualitySetting::Medium
        } else if rank == 2 {
            QualitySetting::High
        } else {
            QualitySetting::Ultra
        }
    }

    /// The setting one step up the ladder, the step from the top leading
    /// back to the bottom.
    pub open spec fn successor(self) -> QualitySetting {
        QualitySetting::at((self.rank() + 1) % 4)
    }

    /// The setting one step up, wrapping from `Ultra` back to `Low`.
    pub fn next(&self) -> (r: Self)
        ensures
            r == self.successor(),
    {
        match self {
            QualitySetting::Low => QualitySetting::Medium,
            QualitySetting::Medium => QualitySetting::High,
            QualitySetting::High => QualitySetting::Ultra,
            QualitySetting::Ultra => QualitySetting::Low,
        }
    }
}

impl Default for QualitySetting {
    fn default() -> (r: Self)
        ensures
            r == QualitySetting::Medium,
    {
        QualitySetting::Medium
    }
}

/// Stepping up four times comes back to where it started, and no fewer
/// steps do.
pub proof fn lemma_next_cycles(q: QualitySetting)
    ensures
        q.successor().successor().successor().successor() == q,
        q.successor() != q,
        q.successor().successor() != q,
        q.successor().successor().successor() != q,
{
}

/// `at` and `rank` are inverse to each other on the four rungs.
pub proof fn lemma_rank_at(q: QualitySetting, rank: int)
    ensures
        QualitySetting::at(q.rank()) == q,
        0 <= q.rank() < 4,
        0 <= rank < 4 ==> QualitySetting::at(rank).rank() == rank,
{
}

/// Instances per unit of area that a scatter layer is asked to place.
#[derive(Debug, PartialEq, Eq, Structural, Clone, Copy)]
pub struct DistributionDensity(pub u32);

/// How densely grass is scattered.
#[derive(Debug, PartialEq, Eq, Structural, Clone, Copy, PartialOrd, Ord)]
pub enum GrassDensitySetting {
    Low,
    Medium,
    High,
    Ultra,
}

impl Default for GrassDensitySetting {
    fn default() -> (r: Self)
        ensures
            r == GrassDensitySetting::Medium,
    {
        GrassDensitySetting::Medium
    }
}

impl From<QualitySetting> for GrassDensitySetting {
    /// The rung of the same name.
    fn from(value: QualitySetting) -> (r: Self) {
        match value {
            QualitySetting::Low => GrassDensitySetting::Low,
            QualitySetting::Medium => GrassDensitySetting::Medium,
            QualitySetting::High => GrassDensitySetting::High,
            QualitySetting::Ultra => GrassDensitySetting::Ultra,
        }
    }
}

impl vstd::std_specs::convert::FromSpecImpl<QualitySetting> for GrassDensitySetting {
    open spec fn obeys_from_spec() -> bool {
        true
    }

    open spec fn from_spec(value: QualitySetting) -> Self {
        match value {
            QualitySetting::Low => GrassDensitySetting::Low,
            QualitySetting::Medium => GrassDensitySetting::Medium,
            QualitySetting::High => GrassDensitySetting::High,
            QualitySetting::Ultra => GrassDensitySetting::Ultra,
        }
    }
}

impl From<GrassDensitySetting> for DistributionDensity {
    fn from(value: GrassDensitySetting) -> (r: Self) {
        match value {
            GrassDensitySetting::Low => DistributionDensity(100),
            GrassDensitySetting::Medium => DistributionDensity(150),
            GrassDensitySetting::High => DistributionDensity(200),
            GrassDensitySetting::Ultra => DistributionDensity(250),
        }
    }
}

impl vstd::std_specs::convert::FromSpecImpl<GrassDensitySetting> for DistributionDensity {
    open spec fn obeys_from_spec() -> bool {
        true
    }

    open spec fn from_spec(value: GrassDensitySetting) -> Self {
        match value {
            GrassDensitySetting::Low => DistributionDensity(100),
            GrassDensitySetting::Medium => DistributionDensity(150),
            GrassDensitySetting::High => DistributionDensity(200),
            GrassDensitySetting::Ultra => DistributionDensity(250),
        }
    }
}

/// How densely mushrooms are scattered.
#[derive(Debug, PartialEq, Eq, Structural, Clone, Copy, PartialOrd, Ord)]
pub enum MushroomDensitySetting {
    Low,
    Medium,
    High,
    Ultra,
}

impl Default for MushroomDensitySetting {
    fn default() -> (r: Self)
        ensures
            r == MushroomDensitySetting::High,
    {
        MushroomDensitySetting::High
    }
}

impl From<QualitySetting> for MushroomDensitySetting {
    /// The rung of the same name.
    fn from(value: QualitySetting) -> (r: Self) {
        match value {
            QualitySetting::Low => MushroomDensitySetting::Low,
            QualitySetting::Medium => MushroomDensitySetting::Medium,
            QualitySetting::High => MushroomDensitySetting::High,
            QualitySetting::Ultra => MushroomDensitySetting::Ultra,
        }
    }
}

impl vstd::std_specs::convert::FromSpecImpl<QualitySetting> for MushroomDensitySetting {
    open spec fn obeys_from_spec() -> bool {
        true
    }

    open spec fn from_spec(value: QualitySetting) -> Self {
        match value {
            QualitySetting::Low => MushroomDensitySetting::Low,
            QualitySetting::Medium => MushroomDensitySetting::Medium,
            QualitySetting::High => MushroomDensitySetting::High,
            QualitySetting::Ultra => MushroomDensitySetting::Ultra,
        }
    }
}

impl From<MushroomDensitySetting> for DistributionDensity {
    fn from(value: MushroomDensitySetting) -> (r: Self) {
        match value {
            MushroomDensitySetting::Low => DistributionDensity(60),
            MushroomDensitySetting::Medium => DistributionDensity(80),
            MushroomDensitySetting::High => DistributionDensity(100),
            MushroomDensitySetting::Ultra => DistributionDensity(140),
        }
    }
}

impl vstd::std_specs::convert::FromSpecImpl<MushroomDensitySetting> for DistributionDensity {
    open spec fn obeys_from_spec() -> bool {
        true
    }

    open spec fn from_spec(value: MushroomDensitySetting) -> Self {
        match value {
            MushroomDensitySetting::Low => DistributionDensity(60),
            MushroomDensitySetting::Medium => DistributionDensity(80),
            MushroomDensitySetting::High => DistributionDensity(100),
            MushroomDensitySetting::Ultra => DistributionDensity(140),
        }
    }
}

/// How densely rocks are scattered.
#[derive(Debug, PartialEq, Eq, Structural, Clone, Copy, PartialOrd, Ord)]
pub enum RockDensitySetting {
    Low,
    Medium,
    High,
    Ultra,
}

impl Default for RockDensitySetting {
    fn default() -> (r: Self)
        ensures
            r == RockDensitySetting::High,
    {
        RockDensitySetting::High
    }
}

impl From<QualitySetting> for RockDensitySetting {
    /// The rung of the same name.
    fn from(value: QualitySetting) -> (r: Self) {
        match value {
            QualitySetting::Low => RockDensitySetting::Low,
            QualitySetting::Medium => RockDensitySetting::Medium,
            QualitySetting::High => RockDensitySetting::High,
            QualitySetting::Ultra => RockDensitySetting::Ultra,
        }
    }
}

impl vstd::std_specs::convert::FromSpecImpl<QualitySetting> for RockDensitySetting {
    open spec fn obeys_from_spec() -> bool {
        true
    }

    open spec fn from_spec(value: QualitySetting) -> Self {
        match value {
            QualitySetting::Low => RockDensitySetting::Low,
            QualitySetting::Medium => RockDensitySetting::Medium,
            QualitySetting::High => RockDensitySetting::High,
            QualitySetting::Ultra => RockDensitySetting::Ultra,
        }
    }
}

impl From<RockDensitySetting> for DistributionDensity {
    fn from(value: RockDensitySetting) -> (r: Self) {
        match value {
            RockDensitySetting::Low => DistributionDensity(10),
            RockDensitySetting::Medium => DistributionDensity(20),
            RockDensitySetting::High => DistributionDensity(25),
            RockDensitySetting::Ultra => DistributionDensity(30),
        }
    }
}

impl vstd::std_specs::convert::FromSpecImpl<RockDensitySetting> for DistributionDensity {
    open spec fn obeys_from_spec() -> bool {
        true
    }

    open spec fn from_spec(value: RockDensitySetting) -> Self {
        match value {
            RockDensitySetting::Low => DistributionDensity(10),
            RockDensitySetting::Medium => DistributionDensity(20),
            RockDensitySetting::High => DistributionDensity(25),
            RockDensitySetting::Ultra => DistributionDensity(30),
        }
    }
}

/// How far away rocks stay visible.
#[derive(Debug, PartialEq, Eq, Structural, Clone, Copy, PartialOrd, Ord)]
pub enum RockVisibilityRangeQuality {
    Low,
    Medium,
    High,
    Ultra,
}

impl Default for RockVisibilityRangeQuality {
    fn default() -> (r: Self)
        ensures
            r == RockVisibilityRangeQuality::High,
    {
        RockVisibilityRangeQuality::High
    }
}

impl From<QualitySetting> for RockVisibilityRangeQuality {
    /// The rung of the same name.
    fn from(value: QualitySetting) -> (r: Self) {
        match value {
            QualitySetting::Low => RockVisibilityRangeQuality::Low,
            QualitySetting::Medium => RockVisibilityRangeQuality::Medium,
            QualitySetting::High => RockVisibilityRangeQuality::High,
            QualitySetting::Ultra => RockVisibilityRangeQuality::Ultra,
        }
    }
}

impl vstd::std_specs::convert::FromSpecImpl<QualitySetting> for RockVisibilityRangeQuality {
    open spec fn obeys_from_spec() -> bool {
        true
    }

    open spec fn from_spec(value: QualitySetting) -> Self {
        match value {
            QualitySetting::Low => RockVisibilityRangeQuality::Low,
            QualitySetting::Medium => RockVisibilityRangeQuality::Medium,
            QualitySetting::High => RockVisibilityRangeQuality::High,
            QualitySetting::Ultra => RockVisibilityRangeQuality::Ultra,
        }
    }
}

/// How far away mushrooms stay visible.
#[derive(Debug, PartialEq, Eq, Structural, Clone, Copy, PartialOrd, Ord)]
pub enum MushroomVisibilityRangeQuality {
    Low,
    Medium,
    High,
    Ultra,
}

impl Default for MushroomVisibilityRangeQuality {
    fn default() -> (r: Self)
        ensures
            r == MushroomVisibilityRangeQuality::High,
    {
        MushroomVisibilityRangeQuality::High
    }
}

impl From<QualitySetting> for MushroomVisibilityRangeQuality {
    /// The rung of the same name.
    fn from(value: QualitySetting) -> (r: Self) {
        match value {
            QualitySetting::Low => MushroomVisibilityRangeQuality::Low,
            QualitySetting::Medium => MushroomVisibilityRangeQuality::Medium,
            QualitySetting::High => MushroomVisibilityRangeQuality::High,
            QualitySetting::Ultra => MushroomVisibilityRangeQuality::Ultra,
        }
    }
}

impl vstd::std_specs::convert::FromSpecImpl<QualitySetting> for MushroomVisibilityRangeQuality {
    open spec fn obeys_from_spec() -> bool {
        true
    }

    open spec fn from_spec(value: QualitySetting) -> Self {
        match value {
            QualitySetting::Low => MushroomVisibilityRangeQuality::Low,
            QualitySetting::Medium => MushroomVisibilityRangeQuality::Medium,
            QualitySetting::High => MushroomVisibilityRangeQuality::High,
            QualitySetting::Ultra => MushroomVisibilityRangeQuality::Ultra,
        }
    }
}

/// How far away grass stays visible, and how it thins out.
#[derive(Debug, PartialEq, Eq, Structural, Clone, Copy, PartialOrd, Ord)]
pub enum GrassVisibilityRangeQuality {
    Low,
    Medium,
    High,
    Ultra,
}

impl Default for GrassVisibilityRangeQuality {
    fn default() -> (r: Self)
        ensures
            r == GrassVisibilityRangeQuality::High,
    {
        GrassVisibilityRangeQuality::High
    }
}

impl From<QualitySetting> for GrassVisibilityRangeQuality {
    /// The rung of the same name.
    fn from(value: QualitySetting) -> (r: Self) {
        match value {
            QualitySetting::Low => GrassVisibilityRangeQuality::Low,
            QualitySetting::Medium => GrassVisibilityRangeQuality::Medium,
            QualitySetting::High => GrassVisibilityRangeQuality::High,
            QualitySetting::Ultra => GrassVisibilityRangeQuality::Ultra,
        }
    }
}

impl vstd::std_specs::convert::FromSpecImpl<QualitySetting> for GrassVisibilityRangeQuality {
    open spec fn obeys_from_spec() -> bool {
        true
    }

    open spec fn from_spec(value: QualitySetting) -> Self {
        match value {
            QualitySetting::Low => GrassVisibilityRangeQuality::Low,
            QualitySetting::Medium => GrassVisibilityRangeQuality::Medium,
            QualitySetting::High => GrassVisibilityRangeQuality::High,
            QualitySetting::Ultra => GrassVisibilityRangeQuality::Ultra,
        }
    }
}

/// A higher quality never scatters fewer instances, on any layer.
pub proof fn lemma_density_monotone(a: QualitySetting, b: QualitySetting)
    requires
        a.rank() <= b.rank(),
    ensures
        DistributionDensity::from_spec(GrassDensitySetting::from_spec(a)).0
            <= DistributionDensity::from_spec(GrassDensitySetting::from_spec(b)).0,
        DistributionDensity::from_spec(MushroomDensitySetting::from_spec(a)).0
            <= DistributionDensity::from_spec(MushroomDensitySetting::from_spec(b)).0,
        DistributionDensity::from_spec(RockDensitySetting::from_spec(a)).0
            <= DistributionDensity::from_spec(RockDensitySetting::from_spec(b)).0,
{
}

} // verus!
