//! The rarity tiers of graded wares and their order.

use std::cmp::Ordering;
use vstd::prelude::*;
use vstd::std_specs::cmp::PartialOrdSpecImpl;

use crate::text::{fold_case, folded, spells};

verus! {

/// How rare a graded ware is. The tiers are totally ordered, from `Common`
/// (lowest) to `Legendary` (highest).
#[derive(Debug, Clone, Copy, PartialEq, Eq, Structural, Ord, Hash)]
pub enum Rarity {
    Common,
    Uncommon,
    Rare,
    VeryRare,
    Legendary,
}

impl Rarity {
    /// The position of the tier in the order, counted from `Common` at 0.
    pub open spec fn rank(self) -> nat {
        match self {
            Rarity::Common => 0,
            Rarity::Uncommon => 1,
            Rarity::Rare => 2,
            Rarity::VeryRare => 3,
            Rarity::Legendary => 4,
        }
    }

    /// The tier that a lower-case name stands for. A name that is not one of
    /// the five tier names stands for `Common`.
    pub open spec fn named(name: Seq<char>) -> Rarity {
        if name == "uncommon"@ {
            Rarity::Uncommon
        } else if name == "rare"@ {
            Rarity::Rare
        } else if name == "very rare"@ {
            Rarity::VeryRare
        } else if name == "legendary"@ {
            Rarity::Legendary
        } else {
            Rarity::Common
        }
    }

    /// The name under which the tier is shown.
    pub open spec fn name(self) -> Seq<char> {
        match self {
            Rarity::Common => "Common"@,
            Rarity::Uncommon => "Uncommon"@,
            Rarity::Rare => "Rare"@,
            Rarity::VeryRare => "Very Rare"@,
            Rarity::Legendary => "Legendary"@,
        }
    }

    /// Returns the tier's position in the order.
    pub fn tier(self) -> (r: u8)
        ensures
            r == self.rank(),
    {
        match self {
            Rarity::Common => 0,
            Rarity::Uncommon => 1,
            Rarity::Rare => 2,
            Rarity::VeryRare => 3,
            Rarity::Legendary => 4,
        }
    }

    /// Tells whether this tier lies strictly below `ceiling`.
    pub fn is_below(self, ceiling: Rarity) -> (b: bool)
        ensures
            b == (self.rank() < ceiling.rank()),
    {
        self.tier() < ceiling.tier()
    }

    /// Returns the name under which the tier is shown.
    pub fn label(self) -> (s: &'static str)
        ensures
            s@ == self.name(),
    {
        match self {
            Rarity::Common => "Common",
            Rarity::Uncommon => "Uncommon",
            Rarity::Rare => "Rare",
            Rarity::VeryRare => "Very Rare",
            Rarity::Legendary => "Legendary",
        }
    }

    /// Reads a tier from its name, written in any mix of upper and lower
    /// case. Any other text gives `Common`.
    pub fn from_name(name: &str) -> (r: Rarity)
        ensures
            r == Rarity::named(folded(name@)),
    {
        let lowered = fold_case(name);
        if spells(&lowered, "uncommon") {
            Rarity::Uncommon
        } else if spells(&lowered, "rare") {
            Rarity::Rare
        } else if spells(&lowered, "very rare") {
            Rarity::VeryRare
        } else if spells(&lowered, "legendary") {
            Rarity::Legendary
        } else {
            Rarity::Common
        }
    }
}

impl Default for Rarity {
    fn default() -> (r: Rarity)
        ensures
            r == Rarity::Common,
    {
        Rarity::Common
    }
}

impl PartialOrd for Rarity {
    fn partial_cmp(&self, other: &Rarity) -> (r: Option<Ordering>) {
        let a: u8 = self.tier();
        let b: u8 = other.tier();
        if a < b {
            Some(Ordering::Less)
        } else if a == b {
            Some(Ordering::Equal)
        } else {
            Some(Ordering::Greater)
        }
    }
}

impl PartialOrdSpecImpl for Rarity {
    open spec fn obeys_partial_cmp_spec() -> bool {
        true
    }

    open spec fn partial_cmp_spec(&self, other: &Rarity) -> Option<Ordering> {
        if self.rank() < other.rank() {
            Some(Ordering::Less)
        } else if self.rank() == other.rank() {
            Some(Ordering::Equal)
        } else {
            Some(Ordering::Greater)
        }
    }
}

/// The ranks order the tiers totally: only a tier itself has its rank, so of
/// two different tiers exactly one lies below the other.
pub proof fn lemma_tiers_are_totally_ordered(a: Rarity, b: Rarity)
    ensures
        a.rank() == b.rank() <==> a == b,
        a != b ==> (a.rank() < b.rank()) != (b.rank() < a.rank()),
{
}

} // verus!
