//! Combat skills: the capability set a castable skill exposes (cost,
//! readiness, effect), the cooldown capability decayed once per tick, and
//! the fire blast spell implementing both.

use vstd::prelude::*;
use crate::body::Body;
use crate::vitals::Vitals;

verus! {

/// Seconds (fixed-point) a fire blast needs between casts.
pub const FIRE_BLAST_COOLDOWN: i64 = 1_000;

/// Stamina (fixed-point) one fire blast cast deducts.
pub const FIRE_BLAST_STAMINA_COST: i64 = 10_000;

/// Speed (fixed-point) a spawned fire bolt travels at.
pub const FIRE_BOLT_VELOCITY: i64 = 1_000_000;

/// Destructive capability (fixed-point) of a spawned fire bolt.
pub const FIRE_BOLT_POWER: i64 = 30_000;

/// A projectile payload: spawned as the side effect of a successful cast;
/// its motion and lifecycle belong to the host engine.
#[derive(PartialEq, Eq, Structural, Clone, Copy, Debug)]
pub struct FireBolt {
    pub velocity: i64,
    /// The destructive capability.
    pub power: i64,
}

/// What a successful cast asks the host engine to materialize: a
/// projectile at the caster's current transform.
#[derive(PartialEq, Eq, Structural, Clone, Copy, Debug)]
pub struct SkillEffect {
    pub origin: Body,
    pub bolt: FireBolt,
}

/// The capability set of a castable combat skill — a fireball, a sword
/// swing, a dodge roll. Casting is gated by `cost` against the caster's
/// vitals and by `ready` against the skill's own cooldown state;
/// `preform` yields the effect and advances the skill's state.
pub trait CombatSkill: Sized {
    /// What one cast deducts from the caster.
    spec fn spec_cost(&self) -> Vitals;

    /// Whether the cooldown has elapsed.
    spec fn spec_ready(&self) -> bool;

    /// The skill's state after a cast (its cooldown rewound to the top).
    spec fn spec_performed(&self) -> Self;

    /// The effect a cast from `origin` produces.
    spec fn spec_effect(&self, origin: Body) -> SkillEffect;

    fn cost(&self) -> (r: Vitals)
        ensures
            r == self.spec_cost(),
            r.nonneg(),
    ;

    fn ready(&self) -> (r: bool)
        ensures
            r == self.spec_ready(),
    ;

    fn preform(&mut self, origin: &Body) -> (eff: SkillEffect)
        ensures
            *final(self) == old(self).spec_performed(),
            eff == old(self).spec_effect(*origin),
    ;
}

/// The per-tick cooldown-decay capability: a timer decremented by
/// delta-time while — and only while — the skill is not yet ready.
pub trait Cooldown: Sized {
    /// Whether the timer has run out (cooldown at or below zero).
    spec fn spec_ready(&self) -> bool;

    /// The state after decaying the timer by `dt`.
    spec fn spec_cooled(&self, dt: int) -> Self;

    /// Machine-limit guard: the decayed timer still fits its field.
    spec fn spec_cool_ok(&self, dt: int) -> bool;

    fn ready(&self) -> (r: bool)
        ensures
            r == self.spec_ready(),
    ;

    fn cooldown(&mut self, dt: i64)
        requires
            0 <= dt,
            old(self).spec_cool_ok(dt as int),
        ensures
            *final(self) == old(self).spec_cooled(dt as int),
    ;
}

/// The fire blast spell: its whole state is the cooldown timer,
/// fixed-point seconds until it may be cast again.
#[derive(PartialEq, Eq, Structural, Clone, Copy, Debug)]
pub struct FireBlastSpell {
    pub cooldown: i64,
}

impl Default for FireBlastSpell {
    /// A fresh spell is ready at once.
    fn default() -> (r: FireBlastSpell)
        ensures
            r == (FireBlastSpell { cooldown: 0 }),
    {
        FireBlastSpell { cooldown: 0 }
    }
}

impl CombatSkill for FireBlastSpell {
    open spec fn spec_cost(&self) -> Vitals {
        Vitals { mana: 0, life: 0, stamina: FIRE_BLAST_STAMINA_COST }
    }

    open spec fn spec_ready(&self) -> bool {
        self.cooldown <= 0
    }

    open spec fn spec_performed(&self) -> FireBlastSpell {
        FireBlastSpell { cooldown: FIRE_BLAST_COOLDOWN }
    }

    open spec fn spec_effect(&self, origin: Body) -> SkillEffect {
        SkillEffect {
            origin,
            bolt: FireBolt { velocity: FIRE_BOLT_VELOCITY, power: FIRE_BOLT_POWER },
        }
    }

    fn cost(&self) -> (r: Vitals)
    {
        Vitals::default().with_stamina(FIRE_BLAST_STAMINA_COST)
    }

    fn ready(&self) -> (r: bool)
    {
        self.cooldown <= 0
    }

    /// Casts the blast: rewinds the cooldown to its configured maximum and
    /// asks for a fire bolt at the caster's transform.
    fn preform(&mut self, origin: &Body) -> (eff: SkillEffect)
    {
        self.cooldown = FIRE_BLAST_COOLDOWN;
        SkillEffect {
            origin: *origin,
            bolt: FireBolt { velocity: FIRE_BOLT_VELOCITY, power: FIRE_BOLT_POWER },
        }
    }
}

impl Cooldown for FireBlastSpell {
    open spec fn spec_ready(&self) -> bool {
        self.cooldown <= 0
    }

    open spec fn spec_cooled(&self, dt: int) -> FireBlastSpell {
        FireBlastSpell { cooldown: (self.cooldown - dt) as i64 }
    }

    open spec fn spec_cool_ok(&self, dt: int) -> bool {
        i64::MIN <= self.cooldown - dt
    }

    fn ready(&self) -> (r: bool)
    {
        self.cooldown <= 0
    }

    fn cooldown(&mut self, dt: i64)
    {
        self.cooldown = self.cooldown - dt;
    }
}

/// The per-tick decay pass: every instance that is not yet ready has its
/// timer decremented by this tick's delta-time; ready instances are left
/// exactly as they are.
pub fn cooldown_system<T: Cooldown>(q: &mut Vec<T>, dt: i64)
    requires
        0 <= dt,
        forall|i: int|
            0 <= i < old(q).len() ==> !(#[trigger] old(q)[i]).spec_ready() ==> old(
                q,
            )[i].spec_cool_ok(dt as int),
    ensures
        final(q).len() == old(q).len(),
        forall|i: int|
            0 <= i < old(q).len() ==> #[trigger] final(q)[i] == (if old(q)[i].spec_ready() {
                old(q)[i]
            } else {
                old(q)[i].spec_cooled(dt as int)
            }),
{
    let n = q.len();
    let mut i: usize = 0;
    while i < n
        invariant
            i <= n,
            n == q.len(),
            n == old(q).len(),
            0 <= dt,
            forall|j: int|
                0 <= j < n ==> !(#[trigger] old(q)[j]).spec_ready() ==> old(q)[j].spec_cool_ok(
                    dt as int,
                ),
            forall|j: int| i <= j < n ==> #[trigger] q[j] == old(q)[j],
            forall|j: int|
                0 <= j < i ==> #[trigger] q[j] == (if old(q)[j].spec_ready() {
                    old(q)[j]
                } else {
                    old(q)[j].spec_cooled(dt as int)
                }),
        decreases n - i,
    {
        let cooler = &mut q[i];
        if cooler.ready() {
        } else {
            cooler.cooldown(dt);
        }
        i = i + 1;
    }
}

} // verus!
