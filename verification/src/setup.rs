//! Level setup: the values materialized when the state machine enters
//! `Spawn` — the player-controlled hero with its vitals, walk speed, tool
//! kit and equipped fire blast, and the avatar of the side-scrolling
//! variant. The host engine allocates the entity identifiers and attaches
//! these values to them.

use vstd::prelude::*;
use crate::body::Body;
use crate::body::PIXEL_RATIO;
use crate::body::Rot;
use crate::physics::Avatar;
use crate::physics::Walk;
use crate::skills::FIRE_BLAST_STAMINA_COST;
use crate::skills::FireBlastSpell;
use crate::toolkit::ToolKit;
use crate::vitals::Cost;
use crate::vitals::Vitals;

verus! {

/// Mana the hero spawns with.
pub const HERO_MANA: u8 = 3;

/// Life (fixed-point) the hero spawns with.
pub const HERO_LIFE: i64 = 100_000;

/// Stamina (fixed-point) the hero spawns with.
pub const HERO_STAMINA: i64 = 100_000;

/// The hero's walk speed, in whole units per second.
pub const HERO_WALK_SPEED: i64 = 100;

/// Everything the hero entity is spawned with.
#[derive(PartialEq, Eq, Clone, Copy, Debug)]
pub struct HeroSetup {
    pub skill: FireBlastSpell,
    pub skill_cost: Cost,
    pub kit: ToolKit,
    pub vitals: Vitals,
    pub walk: Walk,
    pub body: Body,
}

/// Computes the hero bundle for a fresh level: a ready fire blast under
/// the given entity id, equipped alone in slot zero of an active kit,
/// full vitals, the configured walk speed, and an untransformed body at
/// the world origin.
pub fn setup_level(fire_blaster: u64) -> (r: HeroSetup)
    ensures
        r.skill == (FireBlastSpell { cooldown: 0 }),
        r.skill_cost.vitals == (Vitals { mana: 0, life: 0, stamina: FIRE_BLAST_STAMINA_COST }),
        r.kit.active == 0,
        r.kit.spec_get_active() == Some(fire_blaster),
        forall|i: int| 1 <= i < 9 ==> r.kit.slots@[i] is None,
        r.vitals == (Vitals { mana: HERO_MANA, life: HERO_LIFE, stamina: HERO_STAMINA }),
        r.walk == (Walk { speed: HERO_WALK_SPEED }),
        r.body == (Body {
            x: 0,
            y: 0,
            rot: Rot::Upright,
            scale_x: PIXEL_RATIO,
            scale_y: PIXEL_RATIO,
        }),
{
    let skill = FireBlastSpell::default();
    let skill_cost = Cost::default().with_stamina(FIRE_BLAST_STAMINA_COST);
    let kit = ToolKit::new(vec![fire_blaster]);
    let vitals = Vitals { mana: HERO_MANA, life: HERO_LIFE, stamina: HERO_STAMINA };
    let walk = Walk::new(HERO_WALK_SPEED);
    let body = Body::at_origin(PIXEL_RATIO);
    HeroSetup { skill, skill_cost, kit, vitals, walk, body }
}

/// The avatar of the side-scrolling variant as spawned: at rest at the
/// world origin, at sprite scale.
pub fn spawn_avatar() -> (r: Avatar)
    ensures
        r.velocity == 0,
        r.body == (Body {
            x: 0,
            y: 0,
            rot: Rot::Upright,
            scale_x: PIXEL_RATIO,
            scale_y: PIXEL_RATIO,
        }),
{
    Avatar { body: Body::at_origin(PIXEL_RATIO), velocity: 0 }
}

} // verus!
