//! The weapons a player can take into a raid, with their stats.
//!
//! Quantities that the game uses as fractions are given here as exact integers
//! in a stated unit: damage in hit points, cooldowns in milliseconds, speeds in
//! metres per second, areas of effect in centimetres, colour channels in
//! hundredths of full intensity.

use vstd::prelude::*;
use crate::text::{decimal, fixed_text, mentions, lemma_mentions_at, lemma_decimal_below_thousand, lemma_fixed_text_thousandths, lemma_fixed_text_hundredths};

verus! {

/// A weapon of the loadout screen.
#[derive(Clone, Copy, Debug, PartialEq, Eq, Structural)]
pub enum WeaponType {
    Sword,
    Bow,
    Magic,
}

impl Default for WeaponType {
    /// The loadout starts with the sword.
    fn default() -> (w: Self)
        ensures
            w == WeaponType::Sword,
    {
        WeaponType::Sword
    }
}

/// The description of a weapon on the loadout screen.
pub open spec fn weapon_desc(w: WeaponType) -> Seq<char> {
    match w {
        WeaponType::Sword => "Melee  12-24 dmg  0.65s cd  Range 2.3m"@,
        WeaponType::Bow => "Ranged 10-20 dmg  1.1s  cd  Range 40m"@,
        WeaponType::Magic => "Ranged 16-28 dmg  1.4s  cd  AoE 2.2m"@,
    }
}

impl WeaponType {
    /// The name shown on the loadout screen.
    pub fn name(self) -> (r: &'static str)
        ensures
            r@ == match self {
                WeaponType::Sword => "Sword & Shield"@,
                WeaponType::Bow => "Bow & Arrow"@,
                WeaponType::Magic => "Magic Staff"@,
            },
    {
        match self {
            WeaponType::Sword => "Sword & Shield",
            WeaponType::Bow => "Bow & Arrow",
            WeaponType::Magic => "Magic Staff",
        }
    }

    /// The one-line description shown on the loadout screen.
    pub fn desc(self) -> (r: &'static str)
        ensures
            r@ == weapon_desc(self),
    {
        match self {
            WeaponType::Sword => "Melee  12-24 dmg  0.65s cd  Range 2.3m",
            WeaponType::Bow => "Ranged 10-20 dmg  1.1s  cd  Range 40m",
            WeaponType::Magic => "Ranged 16-28 dmg  1.4s  cd  AoE 2.2m",
        }
    }

    /// The lowest and the highest damage of one hit, in hit points.
    #[verifier::allow_in_spec]
    pub fn dmg_range(self) -> (u32, u32)
        returns
            match self {
                WeaponType::Sword => (12u32, 24u32),
                WeaponType::Bow => (10u32, 20u32),
                WeaponType::Magic => (16u32, 28u32),
            },
    {
        match self {
            WeaponType::Sword => (12, 24),
            WeaponType::Bow => (10, 20),
            WeaponType::Magic => (16, 28),
        }
    }

    /// The time between two attacks, in milliseconds.
    #[verifier::allow_in_spec]
    pub fn cooldown_ms(self) -> u32
        returns
            match self {
                WeaponType::Sword => 650u32,
                WeaponType::Bow => 1100u32,
                WeaponType::Magic => 1400u32,
            },
    {
        match self {
            WeaponType::Sword => 650,
            WeaponType::Bow => 1100,
            WeaponType::Magic => 1400,
        }
    }

    /// Whether the weapon fires projectiles rather than striking in melee.
    #[verifier::allow_in_spec]
    pub fn is_ranged(self) -> bool
        returns
            !(self is Sword),
    {
        !matches!(self, WeaponType::Sword)
    }

    /// The speed of the weapon's projectiles, in metres per second; 0 for a
    /// melee weapon.
    #[verifier::allow_in_spec]
    pub fn proj_speed(self) -> u32
        returns
            match self {
                WeaponType::Bow => 38u32,
                WeaponType::Magic => 28u32,
                WeaponType::Sword => 0u32,
            },
    {
        match self {
            WeaponType::Bow => 38,
            WeaponType::Magic => 28,
            _ => 0,
        }
    }

    /// The radius of the area that a hit damages, in centimetres; 0 for a
    /// weapon that hits one target.
    #[verifier::allow_in_spec]
    pub fn aoe_cm(self) -> u32
        returns
            match self {
                WeaponType::Magic => 220u32,
                _ => 0u32,
            },
    {
        match self {
            WeaponType::Magic => 220,
            _ => 0,
        }
    }

    /// The colour of the held weapon, as red, green and blue in hundredths of
    /// full intensity (sRGB).
    #[verifier::allow_in_spec]
    pub fn color_pct(self) -> (u32, u32, u32)
        returns
            match self {
                WeaponType::Sword => (75u32, 75u32, 82u32),
                WeaponType::Bow => (55u32, 35u32, 12u32),
                WeaponType::Magic => (45u32, 10u32, 95u32),
            },
    {
        match self {
            WeaponType::Sword => (75, 75, 82),
            WeaponType::Bow => (55, 35, 12),
            WeaponType::Magic => (45, 10, 95),
        }
    }
}

/// A weapon is ranged exactly when its projectiles move.
pub proof fn lemma_ranged_iff_projectiles(w: WeaponType)
    ensures
        w.is_ranged() <==> w.proj_speed() > 0,
{
}

/// Only a ranged weapon hits an area, and the lowest damage of every weapon
/// is below its highest damage.
pub proof fn lemma_weapon_stats_consistent(w: WeaponType)
    ensures
        w.aoe_cm() > 0 ==> w.is_ranged(),
        w.dmg_range().0 < w.dmg_range().1,
        w.cooldown_ms() > 0,
{
}

/// The description of a weapon opens with "Melee" or "Ranged" as the weapon
/// is, and quotes its damage range, its cooldown in seconds and, for a weapon
/// that hits an area, the radius of that area in metres.
pub proof fn lemma_weapon_desc_quotes_stats(w: WeaponType)
    ensures
        ({
            let kind = if w.is_ranged() { "Ranged"@ } else { "Melee"@ };
            weapon_desc(w).subrange(0, kind.len() as int) == kind
        }),
        mentions(
            weapon_desc(w),
            decimal(w.dmg_range().0 as nat) + seq!['-'] + decimal(w.dmg_range().1 as nat) + " dmg"@,
        ),
        mentions(weapon_desc(w), fixed_text(w.cooldown_ms() as nat, 3) + seq!['s']),
        w.aoe_cm() > 0 ==> mentions(weapon_desc(w), "AoE "@ + fixed_text(w.aoe_cm() as nat, 2) + seq!['m']),
{
    reveal_strlit("Ranged");
    reveal_strlit("Melee");
    reveal_strlit(" dmg");
    reveal_strlit("AoE ");
    let d = weapon_desc(w);
    let (lo, hi) = w.dmg_range();
    lemma_decimal_below_thousand(lo as nat);
    lemma_decimal_below_thousand(hi as nat);
    let dmg = decimal(lo as nat) + seq!['-'] + decimal(hi as nat) + " dmg"@;
    let cd = fixed_text(w.cooldown_ms() as nat, 3) + seq!['s'];
    match w {
        WeaponType::Sword => {
            reveal_strlit("Melee  12-24 dmg  0.65s cd  Range 2.3m");
            lemma_fixed_text_thousandths(650);
            assert(d.subrange(0, 5) =~= "Melee"@);
            assert(d.subrange(7, 16) =~= dmg);
            lemma_mentions_at(d, dmg, 7);
            assert(d.subrange(18, 23) =~= cd);
            lemma_mentions_at(d, cd, 18);
        },
        WeaponType::Bow => {
            reveal_strlit("Ranged 10-20 dmg  1.1s  cd  Range 40m");
            lemma_fixed_text_thousandths(1100);
            assert(d.subrange(0, 6) =~= "Ranged"@);
            assert(d.subrange(7, 16) =~= dmg);
            lemma_mentions_at(d, dmg, 7);
            assert(d.subrange(18, 22) =~= cd);
            lemma_mentions_at(d, cd, 18);
        },
        WeaponType::Magic => {
            reveal_strlit("Ranged 16-28 dmg  1.4s  cd  AoE 2.2m");
            lemma_fixed_text_thousandths(1400);
            lemma_fixed_text_hundredths(220);
            assert(d.subrange(0, 6) =~= "Ranged"@);
            assert(d.subrange(7, 16) =~= dmg);
            lemma_mentions_at(d, dmg, 7);
            assert(d.subrange(18, 22) =~= cd);
            lemma_mentions_at(d, cd, 18);
            let area = "AoE "@ + fixed_text(220, 2) + seq!['m'];
            assert(d.subrange(28, 36) =~= area);
            lemma_mentions_at(d, area, 28);
        },
    }
}

} // verus!
