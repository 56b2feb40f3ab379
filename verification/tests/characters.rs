use tusslehussle::characters::{
    CharStat, CharUnit, Character, EquipError, GameStats, Stats, DEFAULT_EQUIPMENT_CAP,
};
use tusslehussle::combat::{Actor, DamageType};
use tusslehussle::effects::{DamageResistance, Effect, EffectKind, StatAdditive, TimedEffect};
use tusslehussle::equipment::{Equipment, EquipmentType};
use tusslehussle::factor::Factor;
use tusslehussle::mov::{BarehandedBlow, Counter, ManeuverKind, Move, ReactionKind};
use tusslehussle::text::{InfoGrid, InfoLine, MakesWords, TextFormatting};

/// Basic test character to use
fn test_character() -> Character {
    Character::new(
        String::from("Lindtbert"),
        None,
        Stats { str: 3, dex: 4, grt: 6, wil: 2, int: 5, cha: 6 },
    )
}

fn no_requirements() -> Stats {
    Stats { str: 0, dex: 0, grt: 0, wil: 0, int: 0, cha: 0 }
}

fn piece(name: &str, eq_type: EquipmentType) -> Equipment {
    Equipment::new(name.to_string(), eq_type, no_requirements())
}

#[test]
fn it_works() {
    let _character = test_character();
}

#[test]
fn test_basic_statboost() {
    let mut character = test_character();

    let cha_pre = character.calculate_current_stats().cha;

    // After 4 turns, the effect should be cancelled
    for _ in 0..4 {
        // Call post turn to progress duration
        character.post_turn()
    }

    assert_eq!(character.calculate_current_stats().cha, cha_pre);
}

#[test]
fn a_timed_boost_lasts_its_turns() {
    let mut character = test_character();
    let cha_pre = character.calculate_current_stats().cha;
    character.apply_timed_effect(EffectKind::StatAdditive(StatAdditive(CharStat::CHA(20))), 4);
    assert_eq!(character.calculate_current_stats().cha, cha_pre + 20);
    for turn in 1..=4 {
        character.post_turn();
        let expected = if turn < 4 { cha_pre + 20 } else { cha_pre };
        assert_eq!(character.calculate_current_stats().cha, expected);
    }
    assert_eq!(character.timed_effects().len(), 0);
    // an effect for no turns is gone after the round in which it was given
    character.apply_timed_effect(EffectKind::StatAdditive(StatAdditive(CharStat::CHA(20))), 0);
    character.apply_timed_effect(EffectKind::StatAdditive(StatAdditive(CharStat::STR(1))), 2);
    character.post_turn();
    let left: Vec<TimedEffect> = character.timed_effects().clone();
    assert_eq!(left.len(), 1);
    assert_eq!(left[0].1, 1);
}

#[test]
fn capacities_follow_the_formulas() {
    let s = Stats { dex: 4, str: 3, grt: 6, wil: 2, cha: 6, int: 5 };
    assert_eq!(s.max_hp(), 100 + 12 * ((6 + 2) * 2 + 3 + 6));
    assert_eq!(s.max_hp(), 400);
    assert_eq!(s.max_mp(), 2 * ((5 + 6) * 2 + 2 + 4));
    assert_eq!(s.max_mp(), 56);
    // floor(0.2 * ((4 + 5 + 2) * 2 + 6)) = floor(5.6)
    assert_eq!(s.max_ap(), 5);
    // 1 + floor(0.05 * ((4 + 5) * 2 + 6 + 2)) = 1 + floor(1.3)
    assert_eq!(s.action_points(), 2);
    assert_eq!(s.move_speed(), 0);
    // floor(1.2 * 9) = floor(10.8)
    assert_eq!(s.phys_defense(), 10);
    // floor(1.2 * 8) = floor(9.6)
    assert_eq!(s.mag_defense(), 9);
    // floor(1.2 * 9)
    assert_eq!(s.mobility(), 10);
    // 1 + floor(0.6 * (12 + 2 + 3)) = 1 + floor(10.2)
    assert_eq!(s.health_regen(), 11);
    // 1 + floor(0.33 * (4 + 6 + 5)) = 1 + floor(4.95)
    assert_eq!(s.magic_regen(), 5);
    assert_eq!(s.max_vit(), 15 * (24 + 6 + 3 + 6));
    assert_eq!(s.max_vit(), 585);
    let g = s.to_game_stats();
    assert_eq!(
        g,
        GameStats { mhp: 400, mmp: 56, map: 5, mve: 0, pdf: 10, mdf: 9, mob: 10, hrg: 11, mrg: 5, tap: 2 }
    );
    assert_eq!(
        (g.mhp(), g.mmp(), g.max_ap(), g.mve(), g.pdf(), g.mdf(), g.mob(), g.hrg(), g.mrg(), g.tap()),
        (400, 56, 5, 0, 10, 9, 10, 11, 5, 2)
    );
    assert_eq!(g.to_string(), "");
    assert_eq!(s.copy(), s);
}

#[test]
fn capacities_round_down_below_zero_and_stay_in_range() {
    let s = Stats { dex: -1, str: -1, grt: -1, wil: -1, cha: -1, int: -1 };
    // floor(0.2 * -7) = floor(-1.4) = -2
    assert_eq!(s.max_ap(), -2);
    // 1 + floor(0.05 * -6) = 1 + floor(-0.3) = 0
    assert_eq!(s.action_points(), 0);
    // floor(1.2 * -2) = floor(-2.4) = -3
    assert_eq!(s.phys_defense(), -3);
    assert_eq!(s.max_hp(), 100 - 72);
    let huge = Stats { dex: i64::MAX, str: i64::MAX, grt: i64::MAX, wil: i64::MAX, cha: i64::MAX, int: i64::MAX };
    assert_eq!(huge.max_hp(), i64::MAX);
    assert_eq!(huge.max_vit(), i64::MAX);
    let tiny = Stats { dex: i64::MIN, str: i64::MIN, grt: i64::MIN, wil: i64::MIN, cha: i64::MIN, int: i64::MIN };
    assert_eq!(tiny.max_mp(), i64::MIN);
}

#[test]
fn derivation_is_pure() {
    let a = test_character();
    let b = test_character();
    assert_eq!(a.calculate_game_stats(), b.calculate_game_stats());
    assert_eq!(a.calculate_game_stats(), a.calculate_game_stats());
    assert_eq!(a.calculate_current_stats(), a.calculate_current_stats());
}

#[test]
fn a_new_character_is_at_its_maximum() {
    let c = test_character();
    assert_eq!(c.name(), "Lindtbert");
    assert_eq!(c.owner(), &None);
    assert_eq!(c.party(), "<no party>");
    assert_eq!((c.hp(), c.mp(), c.ap(), c.vit()), (400, 56, 5, 585));
    assert_eq!(c.equipment_cap(), DEFAULT_EQUIPMENT_CAP);
    assert_eq!(c.equipment_cap(), 3);
    assert_eq!(c.equipment().len(), 0);
    assert_eq!(c.iter_equipment().count(), 0);
    assert_eq!(c.hp_to_max_hp_ratio(), Factor::one());
    assert!(c.party_check(&"<no party>".to_string()));
    assert!(!c.party_check(&"other".to_string()));
    assert_eq!(c.next_move(), ManeuverKind::BarehandedBlow(BarehandedBlow));
    let owned = Character::with_equipment_cap("x".to_string(), Some("me".to_string()), no_requirements(), 1);
    assert_eq!(owned.owner(), &Some("me".to_string()));
    assert_eq!(owned.equipment_cap(), 1);
}

#[test]
fn requirements_ask_for_every_attribute() {
    let s = Stats { dex: 4, str: 3, grt: 6, wil: 2, cha: 6, int: 5 };
    assert!(s.meets_requirements(&s));
    assert!(s.meets_requirements(&no_requirements()));
    assert!(!s.meets_requirements(&Stats { dex: 5, ..no_requirements() }));
    assert!(!s.meets_requirements(&Stats { int: 6, ..s }));
    assert_eq!(s.format_as_req_string(), "4 DEX, 3 STR, 6 GRT, 2 WIL, 6 CHA, 5 INT");
    assert_eq!(Stats { dex: 5, ..no_requirements() }.format_as_req_string(), "5 DEX");
    assert_eq!(Stats { wil: 12, int: 1, str: -4, ..no_requirements() }.format_as_req_string(), "12 WIL, 1 INT");
    assert_eq!(no_requirements().format_as_req_string(), "");
}

#[test]
fn equipping_beyond_the_cap_fails() {
    let mut c = test_character();
    c.equip(piece("a", EquipmentType::Ring)).unwrap();
    c.equip(piece("b", EquipmentType::Ring)).unwrap();
    c.equip(piece("c", EquipmentType::Weapon)).unwrap();
    assert_eq!(c.equipment().len(), 3);
    let result = c.equip(piece("d", EquipmentType::Feet));
    assert_eq!(result, Err(EquipError::CapacityExceeded(3)));
    assert_eq!(result.unwrap_err().to_string(), "Cannot equip more than 3 items.");
    // what is worn is what was worn
    let names: Vec<&String> = c.iter_equipment().map(|e| e.name()).collect();
    assert_eq!(names, vec!["a", "b", "c"]);
    assert_eq!(c.count_equipped(&EquipmentType::Ring), 2);
    assert_eq!(c.count_equipped(&EquipmentType::Feet), 0);
}

#[test]
fn equipping_asks_for_attributes_and_room_for_the_type() {
    let mut c = Character::with_equipment_cap("c".to_string(), None, test_character().calculate_current_stats(), 10);
    // the attributes are checked against the current ones
    let needy = Equipment::new("heavy".to_string(), EquipmentType::Chest, Stats { str: 4, ..no_requirements() });
    let result = c.equip(needy);
    assert_eq!(result, Err(EquipError::RequirementUnmet));
    assert_eq!(result.unwrap_err().to_string(), "Not meeting the stat requirement.");
    assert_eq!(c.equipment().len(), 0);
    let mut belt = piece("belt", EquipmentType::Accessory);
    belt.add_passive_effect(EffectKind::StatAdditive(StatAdditive(CharStat::STR(1))));
    c.equip(belt).unwrap();
    c.equip(Equipment::new("heavy".to_string(), EquipmentType::Chest, Stats { str: 4, ..no_requirements() }))
        .unwrap();
    // no second piece for the chest
    assert!(!EquipmentType::Chest.can_equip(&c));
    assert!(EquipmentType::Head.can_equip(&c));
    let result = c.equip(piece("vest", EquipmentType::Chest));
    assert_eq!(result, Err(EquipError::TypeCapExceeded(EquipmentType::Chest)));
    assert_eq!(result.unwrap_err().to_string(), "Cannot equip more [CHST]");
    assert_eq!(c.equipment().len(), 2);
    // rings up to four
    for i in 0..4 {
        c.equip(piece(&format!("ring {}", i), EquipmentType::Ring)).unwrap();
    }
    assert_eq!(c.equip(piece("ring 4", EquipmentType::Ring)), Err(EquipError::TypeCapExceeded(EquipmentType::Ring)));
    // a character that can wear nothing
    let mut bare = Character::with_equipment_cap("bare".to_string(), None, no_requirements(), 0);
    assert_eq!(bare.equip(piece("a", EquipmentType::Ring)), Err(EquipError::CapacityExceeded(0)));
}

#[test]
fn equipment_types_have_their_limits_and_codes() {
    let all = [
        (EquipmentType::Weapon, 2, "WPON"),
        (EquipmentType::Head, 1, "HEAD"),
        (EquipmentType::Chest, 1, "CHST"),
        (EquipmentType::Arms, 2, "ARMS"),
        (EquipmentType::Hands, 2, "HNDS"),
        (EquipmentType::Feet, 2, "FEET"),
        (EquipmentType::Ring, 4, "RING"),
        (EquipmentType::Accessory, 2, "ACCS"),
    ];
    for (t, max, code) in all {
        assert_eq!(t.equipment_max(), max);
        assert_eq!(t.shortcode(), code);
        assert_eq!(t.to_string(), format!("[{}]", code));
    }
}

#[test]
fn equipment_grants_what_it_holds() {
    let mut eq = Equipment::new("Ring".to_string(), EquipmentType::Ring, Stats { dex: 5, ..no_requirements() });
    assert_eq!(eq.name(), "Ring");
    assert_eq!(eq.get_eq_type(), &EquipmentType::Ring);
    assert_eq!(eq.get_stat_requirements().dex, 5);
    eq.add_passive_effect(EffectKind::StatAdditive(StatAdditive(CharStat::GRT(10))));
    eq.add_passive_effect(EffectKind::StatAdditive(StatAdditive(CharStat::PDF(2))));
    eq.add_move(ManeuverKind::BarehandedBlow(BarehandedBlow));
    eq.add_reaction(ReactionKind::Counter(Counter::new(DamageType::PHY(""), Factor::zero(), Factor::one())));
    assert_eq!(eq.get_passive_effects().len(), 2);
    assert_eq!(eq.get_moves().len(), 1);
    let mut reactions = vec![];
    eq.add_reactions(&mut reactions);
    eq.add_reactions(&mut reactions);
    assert_eq!(reactions.len(), 2);
    let mut c = Character::new("c".to_string(), None, Stats { dex: 5, grt: 1, ..no_requirements() });
    let before = c.calculate_game_stats();
    c.equip(eq).unwrap();
    assert_eq!(c.calculate_current_stats().grt, 11);
    assert_eq!(c.all_current_reactions().len(), 1);
    assert_eq!(c.all_current_effects().len(), 2);
    // the capacities follow the attributes, and take what is added to them on top
    let after = c.calculate_game_stats();
    assert_eq!(after.mhp(), before.mhp() + 12 * 20);
    assert_eq!(after.pdf(), 13 + 2);
}

#[test]
fn effects_resolve_in_order_of_priority() {
    let add = EffectKind::StatAdditive(StatAdditive(CharStat::DEX(5)));
    let sub = EffectKind::StatAdditive(StatAdditive(CharStat::DEX(-2)));
    let res = EffectKind::DamageResistance(DamageResistance(DamageType::MAG("Fire"), Factor::from_millis(500)));
    assert_eq!(add.effect_order(), 1);
    assert_eq!(res.effect_order(), 10);
    assert!(!add.cancel_self());
    assert!(!res.cancel_self());
    let sorted = tusslehussle::effects::sort_for_resolution(&vec![res, add, res, sub]);
    let orders: Vec<i64> = sorted.iter().map(|e| e.effect_order()).collect();
    assert_eq!(orders, vec![1, 1, 10, 10]);
    assert_eq!(sorted[0].describe(), "+5 DEX");
    assert_eq!(sorted[1].describe(), "-2 DEX");
    let mut stats = no_requirements();
    tusslehussle::effects::apply_all_to_stats(&sorted, &mut stats);
    assert_eq!(stats.dex, 3);
    let mut boosted = Stats { dex: i64::MAX - 1, ..no_requirements() };
    add.apply_to_stats(&mut boosted);
    assert_eq!(boosted.dex, i64::MAX);
}

#[test]
fn effects_describe_themselves() {
    assert_eq!(StatAdditive(CharStat::DEX(5)).describe(), "+5 DEX");
    assert_eq!(StatAdditive(CharStat::MHP(-12)).describe(), "-12 MHP");
    assert_eq!(StatAdditive(CharStat::INT(0)).describe(), "-0 INT");
    assert_eq!(StatAdditive(CharStat::STR(i64::MIN)).describe(), "-9223372036854775808 STR");
    assert_eq!(
        DamageResistance(DamageType::MAG("Fire"), Factor::from_millis(500)).describe(),
        "50% RES to [MAG] Fire"
    );
    assert_eq!(
        DamageResistance(DamageType::ULT, Factor::from_millis(-255)).describe(),
        "25% VUL to ULTIMATE"
    );
    let names: Vec<&str> = [
        CharStat::STR(1), CharStat::DEX(1), CharStat::GRT(1), CharStat::WIL(1), CharStat::CHA(1),
        CharStat::INT(1), CharStat::MHP(1), CharStat::MMP(1), CharStat::MAP(1), CharStat::MVE(1),
        CharStat::PDF(1), CharStat::MDF(1), CharStat::MOB(1), CharStat::HRG(1), CharStat::MRG(1),
        CharStat::TAP(1),
    ]
    .iter()
    .map(|s| s.get_stat_name())
    .collect();
    assert_eq!(
        names,
        vec!["STR", "DEX", "GRT", "WIL", "CHA", "INT", "MHP", "MMP", "MAP", "MVE", "PDF", "MDF", "MOB", "HRG", "MRG", "TAP"]
    );
    assert_eq!(CharStat::TAP(-3).get_value(), -3);
}

#[test]
fn units_show_themselves() {
    assert_eq!(CharUnit::HP(15).unit_name(), "HP");
    assert_eq!(CharUnit::VIT(15).info_class(), "vit");
    assert_eq!(CharUnit::AP(-4).unit_value(), -4);
    assert_eq!(CharUnit::HP(15).format_line(8, TextFormatting::Plain), "15    HP");
    assert_eq!(CharUnit::MP(-50).format_line(7, TextFormatting::Plain), "-50  MP");
    assert_eq!(CharUnit::MP(-50).format_line(6, TextFormatting::Plain), "-50 MP");
    assert_eq!(CharUnit::HP(15).format_line(0, TextFormatting::Plain), "15 HP");
    assert_eq!(CharUnit::HP(15).format_line(6, TextFormatting::Console), "\x1b[31m15  HP\x1b[0m");
    assert_eq!(
        CharUnit::VIT(1500).format_words(TextFormatting::Plain),
        vec![("1.5".to_string(), 3), ("VIT".to_string(), 3)]
    );
}

#[test]
fn moves_have_names_and_costs() {
    assert_eq!(BarehandedBlow.name(), "Barehanded Blow");
    assert!(BarehandedBlow.describe().starts_with("When nothing else helps"));
    assert_eq!(BarehandedBlow.mp_cost(), 0);
    let counter = Counter::new(DamageType::PHY(""), Factor::from_millis(500), Factor::from_millis(500));
    assert_eq!(counter.name(), "Counter");
    assert_eq!(counter.describe(), "Counter");
    assert_eq!(ReactionKind::Counter(counter).name(), "Counter");
    assert_eq!(ManeuverKind::BarehandedBlow(BarehandedBlow).mp_cost(), 0);
}

#[test]
fn a_character_shows_itself() {
    let mut c = test_character();
    let lines = c.display(20, 5, TextFormatting::Plain);
    assert_eq!(
        lines,
        vec![
            "Lindtbert           ",
            "HP: 400  <:::::::::>",
            "MP: 56   >>>>>>>>>>>",
            "AP: 5    !!!!!!!!!!!",
            "EQ: <no EQ>         ",
        ]
    );
    assert_eq!(c.display(20, 9, TextFormatting::Plain).len(), 5);
    assert_eq!(c.display(20, 2, TextFormatting::Plain).len(), 2);
    c.equip(piece("Wand", EquipmentType::Weapon)).unwrap();
    c.equip(piece("A very long ring", EquipmentType::Ring)).unwrap();
    assert_eq!(c.build_equipment_description(30), "[WPON] Wand    [RING] A very..");
    assert_eq!(c.display(34, 5, TextFormatting::Plain)[4], "EQ: [WPON] Wand    [RING] A very..");
    assert_eq!(c.display(9, 2, TextFormatting::Plain), vec!["Lindtbert", "HP:<::::>"]);
}
