//! The road: lane layout, tile selection, and where the car spawners stand.
//!
//! A road is a row of lanes along z, each lane a strip of tiles along x.
//! Driving lanes get a spawner on their far boundary line.  A border lane
//! immediately before a driving lane also gets one, with that lane's
//! direction, so that cars enter smoothly over the border; a border with no
//! driving lane after it gets none.

use vstd::prelude::*;

use crate::car::LaneDirection;
use crate::consts::LANE_WIDTH_MILLI;

verus! {

/// The kinds of lane a road is built from.
#[derive(Clone, Copy, Debug, PartialEq, Eq, Structural)]
pub enum LaneType {
    Border,
    LeftToRight,
    Separator,
    RightToLeft,
}

/// The three tile models a lane can be drawn with.
#[derive(Clone, Copy, Debug, PartialEq, Eq, Structural)]
pub enum LaneScene {
    Straight,
    Border,
    Separator,
}

impl LaneType {
    /// Whether traffic drives on this lane.
    pub open spec fn spec_is_driving(self) -> bool {
        self is LeftToRight || self is RightToLeft
    }

    pub fn is_driving(&self) -> (b: bool)
        ensures
            b == self.spec_is_driving(),
    {
        match self {
            LaneType::LeftToRight => true,
            LaneType::RightToLeft => true,
            _ => false,
        }
    }

    /// The driving direction of a driving lane.
    pub open spec fn spec_direction(self) -> LaneDirection {
        if self is LeftToRight {
            LaneDirection::PosX
        } else {
            LaneDirection::NegX
        }
    }

    pub fn direction(&self) -> (d: LaneDirection)
        ensures
            d == self.spec_direction(),
    {
        match self {
            LaneType::LeftToRight => LaneDirection::PosX,
            _ => LaneDirection::NegX,
        }
    }

    /// Which tile model the lane is drawn with: border and separator lanes
    /// have their own, every driving lane uses the straight road tile.
    pub fn scene(&self) -> (s: LaneScene)
        ensures
            self is Border ==> s is Border,
            self is Separator ==> s is Separator,
            self.spec_is_driving() ==> s is Straight,
    {
        match self {
            LaneType::Border => LaneScene::Border,
            LaneType::Separator => LaneScene::Separator,
            _ => LaneScene::Straight,
        }
    }

    /// Only separator lanes carry a collider, so that cars cannot cross the
    /// middle of the road.
    pub fn has_collider(&self) -> (b: bool)
        ensures
            b <==> self is Separator,
    {
        match self {
            LaneType::Separator => true,
            _ => false,
        }
    }
}

/// The lane layout of the game's one road, from far side to near side: two
/// lanes driving left to right and two driving right to left, each pair
/// fenced by borders, with separator strips outside and between them.
pub open spec fn spec_standard_road() -> Seq<LaneType> {
    seq![
        LaneType::Separator,
        LaneType::Border,
        LaneType::LeftToRight,
        LaneType::LeftToRight,
        LaneType::Border,
        LaneType::Separator,
        LaneType::Border,
        LaneType::RightToLeft,
        LaneType::RightToLeft,
        LaneType::Border,
        LaneType::Separator,
    ]
}

pub fn standard_road() -> (lanes: Vec<LaneType>)
    ensures
        lanes@ == spec_standard_road(),
{
    let mut lanes: Vec<LaneType> = Vec::new();
    lanes.push(LaneType::Separator);
    lanes.push(LaneType::Border);
    lanes.push(LaneType::LeftToRight);
    lanes.push(LaneType::LeftToRight);
    lanes.push(LaneType::Border);
    lanes.push(LaneType::Separator);
    lanes.push(LaneType::Border);
    lanes.push(LaneType::RightToLeft);
    lanes.push(LaneType::RightToLeft);
    lanes.push(LaneType::Border);
    lanes.push(LaneType::Separator);
    proof {
        assert(lanes@ =~= spec_standard_road());
    }
    lanes
}

/// The z coordinate of the far (upper-z) boundary of lane `i` on a road of
/// `n` lanes: half a lane width past the lane's tile centre.
///
/// The road is centred on the origin and the lanes span `n` lane widths.
/// Car spawners stand on these boundary lines.
pub open spec fn spec_lane_edge_z_milli(i: int, n: int) -> int {
    LANE_WIDTH_MILLI * (i + 1) - (n * LANE_WIDTH_MILLI) / 2
}

pub fn lane_edge_z_milli(i: usize, n: usize) -> (z: i64)
    requires
        i < n,
        n <= 1000000,
    ensures
        z == spec_lane_edge_z_milli(i as int, n as int),
{
    let li: i64 = i as i64;
    let ln: i64 = n as i64;
    LANE_WIDTH_MILLI * (li + 1) - (ln * LANE_WIDTH_MILLI) / 2
}

/// The spawner a single lane of the road contributes, if any, on the lane's
/// far boundary line: driving lanes contribute one with their own direction,
/// a border immediately before a driving lane contributes one with that
/// lane's direction.
pub open spec fn spec_spawner_entry(lanes: Seq<LaneType>, i: int) -> Option<(LaneDirection, int)> {
    let n = lanes.len() as int;
    if lanes[i].spec_is_driving() {
        Some((lanes[i].spec_direction(), spec_lane_edge_z_milli(i, n)))
    } else if lanes[i] is Border && i + 1 < n && lanes[i + 1].spec_is_driving() {
        Some((lanes[i + 1].spec_direction(), spec_lane_edge_z_milli(i, n)))
    } else {
        None
    }
}

/// The spawners contributed by the first `i` lanes, in lane order.
pub open spec fn spec_spawner_plan_prefix(lanes: Seq<LaneType>, i: int) -> Seq<
    (LaneDirection, int),
>
    decreases i,
{
    if i <= 0 {
        Seq::empty()
    } else {
        let rest = spec_spawner_plan_prefix(lanes, i - 1);
        match spec_spawner_entry(lanes, i - 1) {
            Some(e) => rest.push(e),
            None => rest,
        }
    }
}

/// The car spawners of a whole road, in lane order.
pub open spec fn spec_spawner_plan(lanes: Seq<LaneType>) -> Seq<(LaneDirection, int)> {
    spec_spawner_plan_prefix(lanes, lanes.len() as int)
}

/// Walks the lanes of a road and collects the spawner of each lane that has
/// one: its driving direction and the z coordinate of the lane's far edge.
pub fn car_spawner_plan(lanes: &Vec<LaneType>) -> (plan: Vec<(LaneDirection, i64)>)
    requires
        lanes@.len() <= 1000000,
    ensures
        plan@.len() == spec_spawner_plan(lanes@).len(),
        forall|j: int|
            0 <= j < plan@.len() ==> plan@[j].0 == spec_spawner_plan(lanes@)[j].0 && plan@[j].1
                == spec_spawner_plan(lanes@)[j].1,
{
    let n = lanes.len();
    let mut plan: Vec<(LaneDirection, i64)> = Vec::new();
    let mut i: usize = 0;
    while i < n
        invariant
            i <= n,
            n == lanes@.len() <= 1000000,
            plan@.len() == spec_spawner_plan_prefix(lanes@, i as int).len(),
            forall|j: int|
                0 <= j < plan@.len() ==> plan@[j].0 == spec_spawner_plan_prefix(lanes@, i as int)[j].0
                    && plan@[j].1 == spec_spawner_plan_prefix(lanes@, i as int)[j].1,
        decreases n - i,
    {
        let lane = lanes[i];
        if lane.is_driving() {
            let z = lane_edge_z_milli(i, n);
            plan.push((lane.direction(), z));
        } else if i + 1 < n {
            let next = lanes[i + 1];
            if matches!(lane, LaneType::Border) && next.is_driving() {
                let z = lane_edge_z_milli(i, n);
                plan.push((next.direction(), z));
            }
        }
        i = i + 1;
    }
    plan
}

} // verus!
