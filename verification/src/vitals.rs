//! The vitals ledger: a per-actor resource pool of mana, life and stamina,
//! consumed by skill casts. Debits are gated by an explicit sufficiency
//! check; an unchecked component-wise subtraction is treated as a hard
//! precondition violation, never as a silent underflow.

use vstd::prelude::*;

verus! {

/// An actor's consumable resource pool. `life` and `stamina` are fixed-point
/// values with three decimal places; `mana` is a small whole count.
#[derive(PartialEq, Eq, Structural, Clone, Copy, Debug)]
pub struct Vitals {
    pub mana: u8,
    pub life: i64,
    pub stamina: i64,
}

impl Vitals {
    /// A pool (or a cost) with no negative component.
    pub open spec fn nonneg(self) -> bool {
        self.life >= 0 && self.stamina >= 0
    }

    /// The sufficiency order: every component of `self` covers `cost`.
    pub open spec fn spec_sufficient(self, cost: Vitals) -> bool {
        self.mana >= cost.mana && self.life >= cost.life && self.stamina >= cost.stamina
    }

    pub open spec fn spec_sub(self, rhs: Vitals) -> Vitals {
        Vitals {
            mana: (self.mana - rhs.mana) as u8,
            life: (self.life - rhs.life) as i64,
            stamina: (self.stamina - rhs.stamina) as i64,
        }
    }

    /// True when every component of `self` covers `cost`; a debit may only
    /// follow a positive answer.
    pub fn sufficient(&self, cost: &Vitals) -> (r: bool)
        ensures
            r == self.spec_sufficient(*cost),
    {
        self.mana >= cost.mana && self.life >= cost.life && self.stamina >= cost.stamina
    }

    /// Component-wise subtraction. The sufficiency precondition rules out
    /// underflow of the unsigned mana field.
    pub fn sub(self, rhs: Vitals) -> (r: Vitals)
        requires
            self.spec_sufficient(rhs),
            rhs.nonneg(),
        ensures
            r == self.spec_sub(rhs),
    {
        Vitals {
            mana: self.mana - rhs.mana,
            life: self.life - rhs.life,
            stamina: self.stamina - rhs.stamina,
        }
    }

    /// In-place component-wise debit, under the same guard as `sub`.
    pub fn sub_assign(&mut self, rhs: &Vitals)
        requires
            old(self).spec_sufficient(*rhs),
            rhs.nonneg(),
        ensures
            *final(self) == old(self).spec_sub(*rhs),
    {
        self.mana = self.mana - rhs.mana;
        self.life = self.life - rhs.life;
        self.stamina = self.stamina - rhs.stamina;
    }

    /// Debit that gates itself: subtracts only when sufficient, and reports
    /// whether it did. An insufficient pool is left untouched.
    pub fn try_sub(&mut self, rhs: &Vitals) -> (paid: bool)
        requires
            rhs.nonneg(),
        ensures
            paid == old(self).spec_sufficient(*rhs),
            paid ==> *final(self) == old(self).spec_sub(*rhs),
            !paid ==> *final(self) == *old(self),
    {
        if self.sufficient(rhs) {
            self.sub_assign(rhs);
            true
        } else {
            false
        }
    }

    pub fn with_mana(self, mana: u8) -> (r: Vitals)
        ensures
            r == (Vitals { mana, ..self }),
    {
        Vitals { mana, ..self }
    }

    pub fn with_life(self, life: i64) -> (r: Vitals)
        ensures
            r == (Vitals { life, ..self }),
    {
        Vitals { life, ..self }
    }

    pub fn with_stamina(self, stamina: i64) -> (r: Vitals)
        ensures
            r == (Vitals { stamina, ..self }),
    {
        Vitals { stamina, ..self }
    }
}

impl Default for Vitals {
    /// The empty pool: zero in every component.
    fn default() -> (r: Vitals)
        ensures
            r == (Vitals { mana: 0, life: 0, stamina: 0 }),
    {
        Vitals { mana: 0, life: 0, stamina: 0 }
    }
}

/// An immutable price tag attached to a skill: what one cast deducts.
#[derive(PartialEq, Eq, Structural, Clone, Copy, Debug)]
pub struct Cost {
    pub vitals: Vitals,
}

impl Cost {
    pub fn with_mana(self, mana: u8) -> (r: Cost)
        ensures
            r.vitals == (Vitals { mana, ..self.vitals }),
    {
        Cost { vitals: Vitals { mana, ..self.vitals } }
    }

    pub fn with_life(self, life: i64) -> (r: Cost)
        ensures
            r.vitals == (Vitals { life, ..self.vitals }),
    {
        Cost { vitals: Vitals { life, ..self.vitals } }
    }

    pub fn with_stamina(self, stamina: i64) -> (r: Cost)
        ensures
            r.vitals == (Vitals { stamina, ..self.vitals }),
    {
        Cost { vitals: Vitals { stamina, ..self.vitals } }
    }
}

impl Default for Cost {
    /// A free cast: zero in every component.
    fn default() -> (r: Cost)
        ensures
            r.vitals == (Vitals { mana: 0, life: 0, stamina: 0 }),
    {
        Cost { vitals: Vitals { mana: 0, life: 0, stamina: 0 } }
    }
}

} // verus!
