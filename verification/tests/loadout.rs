use osrs_fps::armor::ArmorType;
use osrs_fps::weapon::WeaponType;

const WEAPONS: [WeaponType; 3] = [WeaponType::Sword, WeaponType::Bow, WeaponType::Magic];
const ARMORS: [ArmorType; 3] = [ArmorType::Steel, ArmorType::Dragonhide, ArmorType::MageRobes];

#[test]
fn defaults_are_sword_and_steel() {
    assert_eq!(WeaponType::default(), WeaponType::Sword);
    assert_eq!(ArmorType::default(), ArmorType::Steel);
}

#[test]
fn weapon_names_and_descriptions() {
    assert_eq!(WeaponType::Sword.name(), "Sword & Shield");
    assert_eq!(WeaponType::Bow.name(), "Bow & Arrow");
    assert_eq!(WeaponType::Magic.name(), "Magic Staff");
    assert_eq!(WeaponType::Sword.desc(), "Melee  12-24 dmg  0.65s cd  Range 2.3m");
    assert_eq!(WeaponType::Bow.desc(), "Ranged 10-20 dmg  1.1s  cd  Range 40m");
    assert_eq!(WeaponType::Magic.desc(), "Ranged 16-28 dmg  1.4s  cd  AoE 2.2m");
}

#[test]
fn weapon_stats() {
    assert_eq!(WeaponType::Sword.dmg_range(), (12, 24));
    assert_eq!(WeaponType::Bow.dmg_range(), (10, 20));
    assert_eq!(WeaponType::Magic.dmg_range(), (16, 28));
    assert_eq!(WeaponType::Sword.cooldown_ms(), 650);
    assert_eq!(WeaponType::Bow.cooldown_ms(), 1100);
    assert_eq!(WeaponType::Magic.cooldown_ms(), 1400);
    assert!(!WeaponType::Sword.is_ranged());
    assert!(WeaponType::Bow.is_ranged());
    assert!(WeaponType::Magic.is_ranged());
    assert_eq!(WeaponType::Sword.proj_speed(), 0);
    assert_eq!(WeaponType::Bow.proj_speed(), 38);
    assert_eq!(WeaponType::Magic.proj_speed(), 28);
    assert_eq!(WeaponType::Sword.aoe_cm(), 0);
    assert_eq!(WeaponType::Bow.aoe_cm(), 0);
    assert_eq!(WeaponType::Magic.aoe_cm(), 220);
    assert_eq!(WeaponType::Sword.color_pct(), (75, 75, 82));
    assert_eq!(WeaponType::Bow.color_pct(), (55, 35, 12));
    assert_eq!(WeaponType::Magic.color_pct(), (45, 10, 95));
}

#[test]
fn weapon_stats_in_game_units_match_the_fractions() {
    // The game works in seconds and metres; the exact integers divide to the
    // same floating-point values as the fractions written out.
    assert_eq!(WeaponType::Sword.cooldown_ms() as f32 / 1000.0, 0.65f32);
    assert_eq!(WeaponType::Bow.cooldown_ms() as f32 / 1000.0, 1.1f32);
    assert_eq!(WeaponType::Magic.cooldown_ms() as f32 / 1000.0, 1.4f32);
    assert_eq!(WeaponType::Magic.aoe_cm() as f32 / 100.0, 2.2f32);
    assert_eq!(WeaponType::Bow.color_pct().2 as f32 / 100.0, 0.12f32);
}

#[test]
fn ranged_weapons_are_exactly_those_with_projectiles() {
    for w in WEAPONS {
        assert_eq!(w.is_ranged(), w.proj_speed() > 0);
        if w.aoe_cm() > 0 {
            assert!(w.is_ranged());
        }
        let (lo, hi) = w.dmg_range();
        assert!(lo < hi);
        assert!(w.cooldown_ms() > 0);
    }
}

#[test]
fn weapon_descriptions_quote_the_stats() {
    for w in WEAPONS {
        let d = w.desc();
        assert_eq!(d.starts_with("Ranged"), w.is_ranged());
        assert_eq!(d.starts_with("Melee"), !w.is_ranged());
        let (lo, hi) = w.dmg_range();
        assert!(d.contains(&format!("{}-{} dmg", lo, hi)));
        let secs = w.cooldown_ms() as f32 / 1000.0;
        assert!(d.contains(&format!("{}s", secs)));
        if w.aoe_cm() > 0 {
            let metres = w.aoe_cm() as f32 / 100.0;
            assert!(d.contains(&format!("AoE {}m", metres)));
        }
    }
}

#[test]
fn armor_names_and_descriptions() {
    assert_eq!(ArmorType::Steel.name(), "Steel Plate");
    assert_eq!(ArmorType::Dragonhide.name(), "Dragonhide");
    assert_eq!(ArmorType::MageRobes.name(), "Mage Robes");
    assert_eq!(ArmorType::Steel.desc(), "100 HP  45% dmg reduction  Best melee def");
    assert_eq!(ArmorType::Dragonhide.desc(), " 90 HP  30% dmg reduction  Best ranged def");
    assert_eq!(ArmorType::MageRobes.desc(), " 80 HP  15% dmg reduction  +25% magic dmg");
}

#[test]
fn armor_stats() {
    assert_eq!(ArmorType::Steel.max_hp(), 100);
    assert_eq!(ArmorType::Dragonhide.max_hp(), 90);
    assert_eq!(ArmorType::MageRobes.max_hp(), 80);
    assert_eq!(ArmorType::Steel.dmg_taken_pct(), 55);
    assert_eq!(ArmorType::Dragonhide.dmg_taken_pct(), 70);
    assert_eq!(ArmorType::MageRobes.dmg_taken_pct(), 85);
    assert_eq!(ArmorType::Steel.magic_bonus_pct(), 100);
    assert_eq!(ArmorType::Dragonhide.magic_bonus_pct(), 100);
    assert_eq!(ArmorType::MageRobes.magic_bonus_pct(), 125);
    assert_eq!(ArmorType::Steel.color_pct(), (72, 72, 78));
    assert_eq!(ArmorType::Dragonhide.color_pct(), (22, 62, 16));
    assert_eq!(ArmorType::MageRobes.color_pct(), (52, 6, 62));
    assert_eq!(ArmorType::Steel.dmg_taken_pct() as f32 / 100.0, 0.55f32);
    assert_eq!(ArmorType::MageRobes.magic_bonus_pct() as f32 / 100.0, 1.25f32);
}

#[test]
fn armors_trade_hit_points_for_protection() {
    for a in ARMORS {
        assert!(a.dmg_taken_pct() > 0 && a.dmg_taken_pct() < 100);
        assert!(a.max_hp() > 0);
        assert_eq!(a.magic_bonus_pct() > 100, a == ArmorType::MageRobes);
        for b in ARMORS {
            assert_eq!(a.max_hp() > b.max_hp(), a.dmg_taken_pct() < b.dmg_taken_pct());
            assert_eq!(a.max_hp() == b.max_hp(), a == b);
        }
    }
}

#[test]
fn armor_descriptions_quote_the_stats() {
    for a in ARMORS {
        let d = a.desc();
        assert!(d.contains(&format!("{} HP", a.max_hp())));
        assert!(d.contains(&format!("{}% dmg reduction", 100 - a.dmg_taken_pct())));
        if a.magic_bonus_pct() > 100 {
            assert!(d.contains(&format!("+{}% magic dmg", a.magic_bonus_pct() - 100)));
        }
    }
}
