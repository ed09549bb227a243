//! The armors a player can take into a raid, with their stats.
//!
//! Fractions of the game are given as exact integers in hundredths
//! (percent): the share of incoming damage that gets through, the multiplier
//! on magic damage, and the colour channels.

use vstd::prelude::*;
use crate::text::{decimal, mentions, lemma_mentions_at, lemma_decimal_below_thousand};

verus! {

/// An armor of the loadout screen.
#[derive(Clone, Copy, Debug, PartialEq, Eq, Structural)]
pub enum ArmorType {
    Steel,
    Dragonhide,
    MageRobes,
}

impl Default for ArmorType {
    /// The loadout starts with steel plate.
    fn default() -> (a: Self)
        ensures
            a == ArmorType::Steel,
    {
        ArmorType::Steel
    }
}

/// The description of an armor on the loadout screen.
pub open spec fn armor_desc(a: ArmorType) -> Seq<char> {
    match a {
        ArmorType::Steel => "100 HP  45% dmg reduction  Best melee def"@,
        ArmorType::Dragonhide => " 90 HP  30% dmg reduction  Best ranged def"@,
        ArmorType::MageRobes => " 80 HP  15% dmg reduction  +25% magic dmg"@,
    }
}

impl ArmorType {
    /// The name shown on the loadout screen.
    pub fn name(self) -> (r: &'static str)
        ensures
            r@ == match self {
                ArmorType::Steel => "Steel Plate"@,
                ArmorType::Dragonhide => "Dragonhide"@,
                ArmorType::MageRobes => "Mage Robes"@,
            },
    {
        match self {
            ArmorType::Steel => "Steel Plate",
            ArmorType::Dragonhide => "Dragonhide",
            ArmorType::MageRobes => "Mage Robes",
        }
    }

    /// The one-line description shown on the loadout screen.
    pub fn desc(self) -> (r: &'static str)
        ensures
            r@ == armor_desc(self),
    {
        match self {
            ArmorType::Steel => "100 HP  45% dmg reduction  Best melee def",
            ArmorType::Dragonhide => " 90 HP  30% dmg reduction  Best ranged def",
            ArmorType::MageRobes => " 80 HP  15% dmg reduction  +25% magic dmg",
        }
    }

    /// The hit points of a player wearing the armor.
    #[verifier::allow_in_spec]
    pub fn max_hp(self) -> u32
        returns
            match self {
                ArmorType::Steel => 100u32,
                ArmorType::Dragonhide => 90u32,
                ArmorType::MageRobes => 80u32,
            },
    {
        match self {
            ArmorType::Steel => 100,
            ArmorType::Dragonhide => 90,
            ArmorType::MageRobes => 80,
        }
    }

    /// The share of incoming damage that gets through the armor, in percent.
    #[verifier::allow_in_spec]
    pub fn dmg_taken_pct(self) -> u32
        returns
            match self {
                ArmorType::Steel => 55u32,
                ArmorType::Dragonhide => 70u32,
                ArmorType::MageRobes => 85u32,
            },
    {
        match self {
            ArmorType::Steel => 55,
            ArmorType::Dragonhide => 70,
            ArmorType::MageRobes => 85,
        }
    }

    /// The multiplier on the wearer's magic damage, in percent.
    #[verifier::allow_in_spec]
    pub fn magic_bonus_pct(self) -> u32
        returns
            match self {
                ArmorType::MageRobes => 125u32,
                _ => 100u32,
            },
    {
        match self {
            ArmorType::MageRobes => 125,
            _ => 100,
        }
    }

    /// The colour of the armor, as red, green and blue in hundredths of full
    /// intensity (sRGB).
    #[verifier::allow_in_spec]
    pub fn color_pct(self) -> (u32, u32, u32)
        returns
            match self {
                ArmorType::Steel => (72u32, 72u32, 78u32),
                ArmorType::Dragonhide => (22u32, 62u32, 16u32),
                ArmorType::MageRobes => (52u32, 6u32, 62u32),
            },
    {
        match self {
            ArmorType::Steel => (72, 72, 78),
            ArmorType::Dragonhide => (22, 62, 16),
            ArmorType::MageRobes => (52, 6, 62),
        }
    }
}

/// Armors trade hit points for protection: of two armors, the one with more
/// hit points lets less damage through.
pub proof fn lemma_armor_tradeoff(a: ArmorType, b: ArmorType)
    ensures
        a.max_hp() > b.max_hp() <==> a.dmg_taken_pct() < b.dmg_taken_pct(),
        a.max_hp() == b.max_hp() <==> a == b,
{
}

/// Every armor reduces damage without blocking all of it, and only the mage
/// robes boost magic damage.
pub proof fn lemma_armor_stats_bounded(a: ArmorType)
    ensures
        0 < a.dmg_taken_pct() < 100,
        a.max_hp() > 0,
        a.magic_bonus_pct() >= 100,
        a.magic_bonus_pct() > 100 <==> a == ArmorType::MageRobes,
{
}

/// The description of an armor quotes its hit points, its damage reduction
/// (the share of damage it stops) and, for an armor that boosts magic, the
/// size of the boost.
pub proof fn lemma_armor_desc_quotes_stats(a: ArmorType)
    ensures
        mentions(armor_desc(a), decimal(a.max_hp() as nat) + " HP"@),
        mentions(armor_desc(a), decimal((100 - a.dmg_taken_pct()) as nat) + "% dmg reduction"@),
        a.magic_bonus_pct() > 100 ==> mentions(
            armor_desc(a),
            seq!['+'] + decimal((a.magic_bonus_pct() - 100) as nat) + "% magic dmg"@,
        ),
{
    reveal_strlit(" HP");
    reveal_strlit("% dmg reduction");
    reveal_strlit("% magic dmg");
    let d = armor_desc(a);
    match a {
        ArmorType::Steel => {
            reveal_strlit("100 HP  45% dmg reduction  Best melee def");
            lemma_decimal_below_thousand(100);
            lemma_decimal_below_thousand(45);
            assert(decimal(100) =~= seq!['1', '0', '0']);
            assert(decimal(45) =~= seq!['4', '5']);
            let hp = decimal(100) + " HP"@;
            assert(d.subrange(0, 6) =~= hp);
            lemma_mentions_at(d, hp, 0);
            let red = decimal(45) + "% dmg reduction"@;
            assert(d.subrange(8, 25) =~= red);
            lemma_mentions_at(d, red, 8);
        },
        ArmorType::Dragonhide => {
            reveal_strlit(" 90 HP  30% dmg reduction  Best ranged def");
            lemma_decimal_below_thousand(90);
            lemma_decimal_below_thousand(30);
            assert(decimal(90) =~= seq!['9', '0']);
            assert(decimal(30) =~= seq!['3', '0']);
            let hp = decimal(90) + " HP"@;
            assert(d.subrange(1, 6) =~= hp);
            lemma_mentions_at(d, hp, 1);
            let red = decimal(30) + "% dmg reduction"@;
            assert(d.subrange(8, 25) =~= red);
            lemma_mentions_at(d, red, 8);
        },
        ArmorType::MageRobes => {
            reveal_strlit(" 80 HP  15% dmg reduction  +25% magic dmg");
            lemma_decimal_below_thousand(80);
            lemma_decimal_below_thousand(15);
            lemma_decimal_below_thousand(25);
            assert(decimal(80) =~= seq!['8', '0']);
            assert(decimal(15) =~= seq!['1', '5']);
            assert(decimal(25) =~= seq!['2', '5']);
            let hp = decimal(80) + " HP"@;
            assert(d.subrange(1, 6) =~= hp);
            lemma_mentions_at(d, hp, 1);
            let red = decimal(15) + "% dmg reduction"@;
            assert(d.subrange(8, 25) =~= red);
            lemma_mentions_at(d, red, 8);
            let boost = seq!['+'] + decimal(25) + "% magic dmg"@;
            assert(d.subrange(27, 41) =~= boost);
            lemma_mentions_at(d, boost, 27);
        },
    }
}

} // verus!
