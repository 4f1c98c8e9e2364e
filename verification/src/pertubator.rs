//! The hazard catalogue ("pertubators"), and the shop economy that unlocks
//! them.
//!
//! Each pertubator is placed on the road and waits for traffic.  What kind of
//! collider triggers it, what happens then, and how long it stays active
//! afterwards is fixed per kind and stated here exactly; so are its price in
//! the shop, its display name and its placement geometry.

use vstd::prelude::*;

use crate::consts::BARREL_BLAST_RADIUS_MILLI;
use crate::consts::BARREL_EXPLOSION_STRENGTH_MILLI;

verus! {

/// Every kind of hazard the player can place.
#[derive(Clone, Copy, Debug, PartialEq, Eq, Structural)]
pub enum Pertubator {
    Spring,
    Nails,
    Soap,
    Barrel,
}

/// The lasting marks a triggered hazard can leave on a wheel.
#[derive(Clone, Copy, Debug, PartialEq, Eq, Structural)]
pub enum WheelTag {
    Soaped,
    Nailed,
}

/// What a pertubator does when traffic touches it.
///
/// `active_ms` is how long the hazard stays in the world once triggered.
#[derive(Clone, Copy, Debug, PartialEq, Eq, Structural)]
pub enum HazardEffect {
    /// Wrecks the car that touched the sensor.
    WreckOnCarContact { active_ms: u32 },
    /// Marks the wheel that touched it.
    TagWheel { tag: WheelTag, active_ms: u32 },
    /// Wrecks and pushes away every car within the blast radius.
    Explode { radius_milli: u32, impulse_milli: u32, active_ms: u32 },
}

/// How a placed pertubator takes part in the physics simulation.
#[derive(Clone, Copy, Debug, PartialEq, Eq, Structural)]
pub enum BodyKind {
    Kinematic,
    Static,
}

impl Pertubator {
    /// The display name of this pertubator.
    pub open spec fn spec_name(self) -> Seq<char> {
        match self {
            Pertubator::Spring => "Spring"@,
            Pertubator::Nails => "Nails"@,
            Pertubator::Soap => "Sludge"@,
            Pertubator::Barrel => "Barrel"@,
        }
    }

    pub fn name(&self) -> (r: &'static str)
        ensures
            r@ == self.spec_name(),
    {
        match self {
            Pertubator::Spring => "Spring",
            Pertubator::Nails => "Nails",
            Pertubator::Soap => "Sludge",
            Pertubator::Barrel => "Barrel",
        }
    }

    /// The shop price; the sludge patch is free (and owned from the start).
    pub open spec fn spec_cost(self) -> int {
        match self {
            Pertubator::Spring => 100,
            Pertubator::Nails => 10,
            Pertubator::Soap => -1,
            Pertubator::Barrel => 1000,
        }
    }

    pub fn cost(&self) -> (c: i32)
        ensures
            c == self.spec_cost(),
    {
        match self {
            Pertubator::Spring => 100,
            Pertubator::Nails => 10,
            Pertubator::Soap => -1,
            Pertubator::Barrel => 1000,
        }
    }

    /// The uniform factor by which the placed model is scaled.
    pub open spec fn spec_scale(self) -> int {
        match self {
            Pertubator::Spring => 1,
            Pertubator::Nails => 2,
            Pertubator::Soap => 2,
            Pertubator::Barrel => 2,
        }
    }

    pub fn scale(&self) -> (s: u32)
        ensures
            s == self.spec_scale(),
    {
        match self {
            Pertubator::Spring => 1,
            Pertubator::Nails => 2,
            Pertubator::Soap => 2,
            Pertubator::Barrel => 2,
        }
    }

    /// What placing and triggering this pertubator does.
    pub open spec fn spec_effect(self) -> HazardEffect {
        match self {
            Pertubator::Spring => HazardEffect::WreckOnCarContact { active_ms: 2000 },
            Pertubator::Nails => HazardEffect::TagWheel { tag: WheelTag::Nailed, active_ms: 1000 },
            Pertubator::Soap => HazardEffect::TagWheel { tag: WheelTag::Soaped, active_ms: 1000 },
            Pertubator::Barrel => HazardEffect::Explode {
                radius_milli: BARREL_BLAST_RADIUS_MILLI,
                impulse_milli: BARREL_EXPLOSION_STRENGTH_MILLI,
                active_ms: 100,
            },
        }
    }

    pub fn effect(&self) -> (e: HazardEffect)
        ensures
            e == self.spec_effect(),
    {
        match self {
            Pertubator::Spring => HazardEffect::WreckOnCarContact { active_ms: 2000 },
            Pertubator::Nails => HazardEffect::TagWheel { tag: WheelTag::Nailed, active_ms: 1000 },
            Pertubator::Soap => HazardEffect::TagWheel { tag: WheelTag::Soaped, active_ms: 1000 },
            Pertubator::Barrel => HazardEffect::Explode {
                radius_milli: BARREL_BLAST_RADIUS_MILLI,
                impulse_milli: BARREL_EXPLOSION_STRENGTH_MILLI,
                active_ms: 100,
            },
        }
    }

    /// The spring is pushed up through the simulation; the rest stand still.
    pub fn body_kind(&self) -> (k: BodyKind)
        ensures
            k == (if self is Spring { BodyKind::Kinematic } else { BodyKind::Static }),
    {
        match self {
            Pertubator::Spring => BodyKind::Kinematic,
            _ => BodyKind::Static,
        }
    }

    /// Radius and height of the cylinder collider of the placed hazard.
    pub open spec fn spec_collider_cylinder_milli(self) -> (u32, u32) {
        match self {
            Pertubator::Spring => (1000u32, 4000u32),
            Pertubator::Nails => (500u32, 500u32),
            Pertubator::Soap => (500u32, 500u32),
            Pertubator::Barrel => (250u32, 250u32),
        }
    }

    pub fn collider_cylinder_milli(&self) -> (c: (u32, u32))
        ensures
            c == self.spec_collider_cylinder_milli(),
    {
        match self {
            Pertubator::Spring => (1000, 4000),
            Pertubator::Nails => (500, 500),
            Pertubator::Soap => (500, 500),
            Pertubator::Barrel => (250, 250),
        }
    }
}

/// The player's money balance.
#[derive(Clone, Copy, Debug, PartialEq, Eq, Structural)]
pub struct Money(pub i32);

impl Default for Money {
    /// A new game starts without money.
    fn default() -> (m: Money)
        ensures
            m.0 == 0,
    {
        Money(0)
    }
}

/// The pertubators the player has bought so far, in purchase order.
#[derive(Clone, Debug)]
pub struct UnlockedPertubators(pub Vec<Pertubator>);

impl UnlockedPertubators {
    /// Whether the given pertubator has been unlocked.
    pub open spec fn spec_owns(&self, p: Pertubator) -> bool {
        self.0@.contains(p)
    }

    pub fn owns(&self, p: Pertubator) -> (b: bool)
        ensures
            b == self.spec_owns(p),
    {
        let mut i: usize = 0;
        while i < self.0.len()
            invariant
                i <= self.0.len(),
                forall|j: int| 0 <= j < i ==> self.0@[j] != p,
            decreases self.0.len() - i,
        {
            if self.0[i] == p {
                return true;
            }
            i = i + 1;
        }
        false
    }
}

impl Default for UnlockedPertubators {
    /// The sludge patch is available from the start.
    fn default() -> (u: UnlockedPertubators)
        ensures
            u.0@ == seq![Pertubator::Soap],
    {
        let mut v: Vec<Pertubator> = Vec::new();
        v.push(Pertubator::Soap);
        proof {
            assert(v@ =~= seq![Pertubator::Soap]);
        }
        UnlockedPertubators(v)
    }
}

/// What came of an attempt to buy a pertubator in the shop.
#[derive(Clone, Copy, Debug, PartialEq, Eq, Structural)]
pub enum UnlockOutcome {
    /// The pertubator was bought: its cost left the balance.
    Unlocked,
    /// It was owned already; nothing changed.
    AlreadyOwned,
    /// The balance does not cover the cost; nothing changed.
    TooExpensive,
}

/// The shop's unlock rule.
///
/// An owned pertubator cannot be bought again.  Otherwise the purchase goes
/// through exactly when the balance covers the cost: the cost is subtracted
/// and the pertubator appended to the unlocked list.
pub fn try_unlock(money: &mut Money, unlocked: &mut UnlockedPertubators, p: Pertubator) -> (r:
    UnlockOutcome)
    requires
        old(money).0 < i32::MAX,
    ensures
        old(unlocked).spec_owns(p) ==> {
            &&& r is AlreadyOwned
            &&& *final(money) == *old(money)
            &&& final(unlocked).0@ == old(unlocked).0@
        },
        !old(unlocked).spec_owns(p) && old(money).0 >= p.spec_cost() ==> {
            &&& r is Unlocked
            &&& final(money).0 == old(money).0 - p.spec_cost()
            &&& final(unlocked).0@ == old(unlocked).0@.push(p)
        },
        !old(unlocked).spec_owns(p) && old(money).0 < p.spec_cost() ==> {
            &&& r is TooExpensive
            &&& *final(money) == *old(money)
            &&& final(unlocked).0@ == old(unlocked).0@
        },
{
    if unlocked.owns(p) {
        return UnlockOutcome::AlreadyOwned;
    }
    let cost = p.cost();
    if money.0 >= cost {
        money.0 = money.0 - cost;
        unlocked.0.push(p);
        UnlockOutcome::Unlocked
    } else {
        UnlockOutcome::TooExpensive
    }
}

} // verus!
