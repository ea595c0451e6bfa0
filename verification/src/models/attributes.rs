//! Base and computed stats of a combatant.

use vstd::prelude::*;

verus! {

/// The five base attributes from which a combatant's computed stats derive.
/// None of them is ever negative.
#[derive(Clone, Copy, Debug, PartialEq, Eq, Structural)]
pub struct Attributes {
    strength: u32,
    dexterity: u32,
    intelligence: u32,
    vitality: u32,
    luck: u32,
}

impl Attributes {
    pub closed spec fn spec_strength(&self) -> u32 {
        self.strength
    }

    pub closed spec fn spec_dexterity(&self) -> u32 {
        self.dexterity
    }

    pub closed spec fn spec_intelligence(&self) -> u32 {
        self.intelligence
    }

    pub closed spec fn spec_vitality(&self) -> u32 {
        self.vitality
    }

    pub closed spec fn spec_luck(&self) -> u32 {
        self.luck
    }

    #[verifier::when_used_as_spec(spec_strength)]
    pub fn strength(&self) -> (r: u32)
        ensures
            r == self.spec_strength(),
    {
        self.strength
    }

    #[verifier::when_used_as_spec(spec_dexterity)]
    pub fn dexterity(&self) -> (r: u32)
        ensures
            r == self.spec_dexterity(),
    {
        self.dexterity
    }

    #[verifier::when_used_as_spec(spec_intelligence)]
    pub fn intelligence(&self) -> (r: u32)
        ensures
            r == self.spec_intelligence(),
    {
        self.intelligence
    }

    #[verifier::when_used_as_spec(spec_vitality)]
    pub fn vitality(&self) -> (r: u32)
        ensures
            r == self.spec_vitality(),
    {
        self.vitality
    }

    #[verifier::when_used_as_spec(spec_luck)]
    pub fn luck(&self) -> (r: u32)
        ensures
            r == self.spec_luck(),
    {
        self.luck
    }
}

impl Attributes {
    /// The base attributes of a fresh character: one point each.
    pub closed spec fn initial() -> Attributes {
        Attributes { strength: 1, dexterity: 1, intelligence: 1, vitality: 1, luck: 1 }
    }

    /// What `initial` holds, field by field.
    pub proof fn lemma_initial()
        ensures
            Self::initial().strength() == 1,
            Self::initial().dexterity() == 1,
            Self::initial().intelligence() == 1,
            Self::initial().vitality() == 1,
            Self::initial().luck() == 1,
    {
    }
}

impl Default for Attributes {
    /// Every base attribute starts at one.
    fn default() -> (r: Self)
        ensures
            r == Attributes::initial(),
            r.strength() == 1,
            r.dexterity() == 1,
            r.intelligence() == 1,
            r.vitality() == 1,
            r.luck() == 1,
    {
        Attributes { strength: 1, dexterity: 1, intelligence: 1, vitality: 1, luck: 1 }
    }
}

/// A health pool, in thousandths of a hit point. `hp` may sink below zero
/// between a hit and the death check that follows it.
#[derive(Clone, Copy, Debug, PartialEq, Eq, Structural)]
pub struct Health {
    pub max_hp: i64,
    pub hp: i64,
}

impl Health {
    /// A full pool.
    pub fn new(max_hp: i64) -> (r: Self)
        ensures
            r == (Health { max_hp, hp: max_hp }),
    {
        Self { max_hp, hp: max_hp }
    }

    /// The pool holds between nothing and its maximum.
    pub open spec fn within_bounds(&self) -> bool {
        0 <= self.hp <= self.max_hp
    }
}

impl Default for Health {
    fn default() -> (r: Self)
        ensures
            r == (Health { max_hp: 0, hp: 0 }),
    {
        Self { max_hp: 0, hp: 0 }
    }
}

/// A mana pool, in thousandths of a mana point.
#[derive(Clone, Copy, Debug, PartialEq, Eq, Structural)]
pub struct Mana {
    pub max_mp: i64,
    pub mp: i64,
}

impl Mana {
    /// A full pool.
    pub fn new(max_mp: i64) -> (r: Self)
        ensures
            r == (Mana { max_mp, mp: max_mp }),
    {
        Self { max_mp, mp: max_mp }
    }

    /// The pool holds between nothing and its maximum.
    pub open spec fn within_bounds(&self) -> bool {
        0 <= self.mp <= self.max_mp
    }
}

impl Default for Mana {
    fn default() -> (r: Self)
        ensures
            r == (Mana { max_mp: 0, mp: 0 }),
    {
        Self { max_mp: 0, mp: 0 }
    }
}

/// The stats that combat and movement read. Rates and factors are in
/// thousandths; `attack_rate` is the pause between two hits in thousandths of a
/// second; `attack_range` and `move_speed` are in thousandths of a distance unit.
#[derive(Clone, Copy, Debug, PartialEq, Eq, Structural)]
pub struct ComputedAttributes {
    pub attack: u32,
    pub defence: u32,
    pub magic_defence: u32,
    pub magic_attack: u32,
    pub hit_rate: u32,
    pub dodge_rate: u32,
    pub crit_rate: u32,
    pub attack_rate: u32,
    pub attack_range: u32,
    pub move_speed: u32,
    pub health: Health,
    pub mana: Mana,
}

impl ComputedAttributes {
    /// The stats of a combatant that nothing has been configured for.
    pub open spec fn initial() -> ComputedAttributes {
        ComputedAttributes {
            attack: 1000,
            defence: 0,
            magic_defence: 0,
            magic_attack: 1000,
            hit_rate: 1000,
            dodge_rate: 0,
            crit_rate: 0,
            attack_rate: 1000,
            attack_range: 1000,
            move_speed: 10_000,
            health: Health { max_hp: 1000, hp: 1000 },
            mana: Mana { max_mp: 1000, mp: 1000 },
        }
    }
}

impl Default for ComputedAttributes {
    fn default() -> (r: Self)
        ensures
            r == ComputedAttributes::initial(),
    {
        ComputedAttributes {
            attack: 1000,
            defence: 0,
            magic_defence: 0,
            magic_attack: 1000,
            hit_rate: 1000,
            dodge_rate: 0,
            crit_rate: 0,
            attack_rate: 1000,
            attack_range: 1000,
            move_speed: 10_000,
            health: Health::new(1000),
            mana: Mana::new(1000),
        }
    }
}

} // verus!
