use tusslehussle::characters::{CharUnit, Character, Stats};
use tusslehussle::combat::{
    Action, ActionEffect, ActionStack, Actor, Combat, Damage, DamageType, EntityPointer,
};
use tusslehussle::effects::{EffectKind, StatAdditive};
use tusslehussle::equipment::{Equipment, EquipmentType};
use tusslehussle::factor::Factor;
use tusslehussle::layouts::LayoutWeight::{Absolute, Distribute};
use tusslehussle::layouts::{distribute_sizes, LayoutDirection, LayoutWeight, LinearLayout};
use tusslehussle::mov::{Counter, ReactionKind};
use tusslehussle::text::{FrameType, InfoGrid, InfoLine, MakesWords, TextFormatting};
use tusslehussle::ui::{CombatTurnDisplay, TextUI};
use tusslehussle::world::{TurnLogger, WorldContext};

/// Basic test character to use
fn test_character(name: String) -> Character {
    Character::new(
        String::from(name),
        None,
        Stats { str: 3, dex: 8, grt: 6, wil: 2, int: 5, cha: 6 },
    )
}

fn build_combat() -> Combat {
    let mut party = vec![test_character("Lindtbert".to_string())];
    let mut baddies = vec![test_character("Baddie".to_string())];
    for char in party.iter_mut() {
        char.set_party("Best Friends".to_string());
    }
    for char in baddies.iter_mut() {
        char.set_party("Baddies!".to_string());
    }
    // conjoin both groups into one encounter list
    party.extend(baddies);
    Combat::from_participants(party)
}

fn equip_counter_ring(combat: &mut Combat) {
    // This time, equip Lindtbert with a ring to give him a special counter ability
    let lindtbert = combat.get_character_mut(&"Lindtbert".to_string()).unwrap();

    let mut eq = Equipment::new(
        "Counter Ring".to_string(),
        EquipmentType::Ring,
        Stats { dex: 5, str: 0, grt: 0, wil: 0, cha: 0, int: 0 },
    );
    eq.add_reaction(ReactionKind::Counter(Counter::new(
        DamageType::PHY(""),
        Factor::zero(),
        Factor::one(),
    )));

    lindtbert.equip(eq).unwrap();
}

struct Quiet;

impl TurnLogger for Quiet {
    fn maneuver_stack(&mut self, _stack: &ActionStack) {}
}

fn words(text: &str) -> Vec<(String, usize)> {
    TextFormatting::Plain.to_words(text.to_string(), "", None)
}

#[test]
fn test_layout() {
    let mut combat = build_combat();
    equip_counter_ring(&mut combat);

    for _ in 0..8 {
        combat.process_turn(None).unwrap();

        {
            let lindtbert = combat.get_character(&"Lindtbert".to_string()).unwrap();
            let baddie = combat.get_character(&"Baddie".to_string()).unwrap();
            // Map each Character to their individual line-by-line output

            let mut view = LinearLayout::from(vec![lindtbert, baddie]);

            view.set_frame(Some(FrameType::Double));
            view.set_direction(LayoutDirection::Vertical);

            for line in view.display(50, 12, TextFormatting::Console) {
                println!("{}", line);
            }
        }
    }
}

#[test]
fn test_combat_view() {
    let mut combat = build_combat();
    equip_counter_ring(&mut combat);

    for _ in 0..8 {
        let mut ui = CombatTurnDisplay::with(TextFormatting::Console);
        combat.process_turn(Some(&mut ui)).unwrap();

        for line in ui.render(&combat, 60, 9, TextFormatting::Console) {
            println!("{}", line);
        }
    }
}

#[test]
fn sizes_are_shared_by_weight() {
    assert_eq!(Absolute(3).amount(), 3);
    assert_eq!(Distribute(4).amount(), 4);
    // equal shares
    assert_eq!(distribute_sizes(&vec![Distribute(1), Distribute(1)], 10), vec![5, 5]);
    // what is left over goes to the smallest remainder first, and to the first among equals
    assert_eq!(distribute_sizes(&vec![Distribute(1), Distribute(1)], 9), vec![5, 4]);
    assert_eq!(distribute_sizes(&vec![Distribute(1), Distribute(1), Distribute(1)], 10), vec![4, 3, 3]);
    // 10 * 1 / 3 = 3 rest 1, 10 * 2 / 3 = 6 rest 2
    assert_eq!(distribute_sizes(&vec![Distribute(2), Distribute(1)], 10), vec![6, 4]);
    // absolute weights are taken off first, and are first in line for what is left over
    assert_eq!(distribute_sizes(&vec![Distribute(1), Absolute(4), Distribute(1)], 11), vec![3, 5, 3]);
    assert_eq!(distribute_sizes(&vec![Absolute(4), Absolute(2)], 6), vec![4, 2]);
    assert_eq!(distribute_sizes(&vec![Absolute(4), Absolute(2)], 9), vec![5, 3]);
    // more asked for than there is
    assert_eq!(distribute_sizes(&vec![Absolute(4), Distribute(1)], 3), vec![4, 0]);
    // weights of nothing share nothing
    assert_eq!(distribute_sizes(&vec![Distribute(0), Distribute(0)], 4), vec![1, 1]);
    assert_eq!(distribute_sizes(&vec![], 4), Vec::<usize>::new());
    assert_eq!(distribute_sizes(&vec![Distribute(usize::MAX), Distribute(usize::MAX)], usize::MAX).iter().sum::<usize>(), usize::MAX);
}

#[test]
fn elements_stand_side_by_side() {
    let left = words("one two");
    let right = words("three");
    // without a frame: a space behind every element
    let mut row = LinearLayout::configure(LayoutDirection::Horizontal, None);
    row.add(&left, LayoutWeight::Distribute(1));
    row.add(&right, LayoutWeight::Distribute(1));
    assert_eq!(row.display(11, 2, TextFormatting::Plain), vec!["one   three ", "two         "]);
    // with a frame: 17 - 1 - 6 = 10 characters to share
    row.set_frame(Some(FrameType::Single));
    assert_eq!(
        row.display(17, 4, TextFormatting::Plain),
        vec![
            "┌───────┬───────┐",
            "│ one   │ three │",
            "│ two   │       │",
            "└───────┴───────┘",
        ]
    );
    let shares = row.distribute(10);
    assert_eq!(shares.iter().map(|s| s.1).collect::<Vec<usize>>(), vec![5, 5]);
    // the default: side by side in a single frame
    let same = LinearLayout::from(vec![&left as &dyn InfoGrid, &right as &dyn InfoGrid]);
    assert_eq!(same.display(17, 4, TextFormatting::Plain), row.display(17, 4, TextFormatting::Plain));
    // no elements
    assert_eq!(LinearLayout::empty().display(4, 3, TextFormatting::Plain), vec!["┌", "│ ", "└"]);
}

#[test]
fn elements_stand_one_above_the_other() {
    let upper = words("one two");
    let lower = words("three");
    let mut column = LinearLayout::configure(LayoutDirection::Vertical, None);
    column.add(&upper, LayoutWeight::Absolute(2));
    column.add(&lower, LayoutWeight::Distribute(1));
    assert_eq!(column.display(5, 3, TextFormatting::Plain), vec!["one  ", "two  ", "three"]);
    column.set_frame(Some(FrameType::Double));
    assert_eq!(
        column.display(9, 6, TextFormatting::Plain),
        vec![
            "╔━━━━━━━╗",
            "┃ one   ┃",
            "┃ two   ┃",
            "╠━━━━━━━╣",
            "┃ three ┃",
            "╚━━━━━━━╝",
        ]
    );
    // layouts in layouts
    let mut outer = LinearLayout::configure(LayoutDirection::Horizontal, None);
    outer.add(&column, LayoutWeight::Distribute(1));
    outer.add(&lower, LayoutWeight::Absolute(5));
    // 16 characters less the space between the two: 5 for the words, 10 for the column
    assert_eq!(
        outer.display(16, 6, TextFormatting::Plain),
        vec![
            "╔━━━━━━━━╗ three ",
            "┃ one    ┃       ",
            "┃ two    ┃       ",
            "╠━━━━━━━━╣       ",
            "┃ three  ┃       ",
            "╚━━━━━━━━╝       ",
        ]
    );
}

#[test]
fn the_display_of_a_round_shows_the_cast_above_the_story() {
    let mut combat = build_combat();
    let mut ui = CombatTurnDisplay::with(TextFormatting::Plain);
    assert_eq!(ui.turn_description().len(), 0);
    combat.process_turn(Some(&mut ui)).unwrap();
    let story: Vec<&str> = ui.turn_description().iter().map(|w| w.0.as_str()).collect();
    assert_eq!(
        story,
        vec![
            "Lindtbert", "attacks", "Baddie", "for", "19", "[PHY]", "Strike",
            "Baddie", "attacks", "Lindtbert", "for", "19", "[PHY]", "Strike",
        ]
    );
    let lines = ui.render(&combat, 40, 10, TextFormatting::Plain);
    assert_eq!(
        lines,
        vec![
            "┌───────────────────┬──────────────────┐",
            "│ Lindtbert         │ Baddie           │",
            // 391 of 400 hit points: beyond the half, floor(0.955 * 6) and floor(0.955 * 5)
            "│ HP: 391  <:::::.> │ HP: 391  <::::.> │",
            "│ MP: 64   >>>>>>>> │ MP: 64   >>>>>>> │",
            "└───────────────────┴──────────────────┘",
            "Lindtbert attacks Baddie for 19 [PHY]   ",
            "Strike Baddie attacks Lindtbert for 19  ",
            "[PHY] Strike                            ",
            "                                        ",
            "                                        ",
        ]
    );
}

#[test]
fn actions_tell_themselves() {
    let a = || EntityPointer::Character(vec!["Ann".to_string()]);
    let group = || EntityPointer::Character(vec!["Bob".to_string(), "Cy".to_string()]);
    let blow = Action::from_source(a(), ActionEffect::Attack(Damage(DamageType::PHY("Slash"), 12)), group());
    assert_eq!(blow.to_string(), "[ Ann] ATK on  Bob Cy");
    assert_eq!(
        blow.format_line(0, TextFormatting::Plain),
        "Ann strikes the group of Bob, Cy for 12 [PHY] Slash"
    );
    let text = |effect: ActionEffect| {
        let f = TextFormatting::Plain;
        format!(
            "{}|{}|{}|{}",
            effect.short_name(),
            effect.verb(),
            effect.preposition(),
            effect.format_value(6, f)
        )
    };
    assert_eq!(text(ActionEffect::Attack(Damage(DamageType::ULT, -3))), "ATK|obliterates|for|-3 ULTIMATE");
    assert_eq!(text(ActionEffect::Attack(Damage(DamageType::MAG("Ice"), 3))), "ATK|freezes|for|3 [MAG] Ice");
    assert_eq!(text(ActionEffect::Heal(CharUnit::HP(15))), "HEA|heals|for|15  HP");
    assert_eq!(
        text(ActionEffect::GiveTimedEffect(
            EffectKind::StatAdditive(StatAdditive(tusslehussle::characters::CharStat::DEX(5))),
            4
        )),
        "EFF|affects|with|+5 DEX for 4 turns"
    );
    assert_eq!(text(ActionEffect::Cancel), "CCL|cancels||");
    assert_eq!(text(ActionEffect::Canceled), "XXX|--||");
    assert_eq!(text(ActionEffect::AdjustDamageAbs(1500)), "ADA|increases the damage of|by|1.5   ");
    assert_eq!(text(ActionEffect::AdjustDamageAbs(0)), "ADA|decreases the damage of|by|0     ");
    assert_eq!(text(ActionEffect::AdjustDamageMul(Factor::from_millis(1500))), "ADM|increases the damage of|by|-50%");
    assert_eq!(text(ActionEffect::AdjustDamageMul(Factor::from_millis(255))), "ADM|decreases the damage of|by|74%");
    assert_eq!(text(ActionEffect::AdjustDamageMul(Factor::from_millis(-500))), "ADM|decreases the damage of|by|-150%");
    assert_eq!(text(ActionEffect::ChangeTarget(EntityPointer::Environment)), "CHT|change the target of|to|the environment");
    // pointers
    let effect = EntityPointer::Effect(Box::new(EntityPointer::Environment), "Heat".to_string());
    assert_eq!(effect.to_string(), "effect: Heat");
    assert_eq!(effect.format_line(0, TextFormatting::Plain), "an effect (Heat)");
    assert_eq!(EntityPointer::Action(12).to_string(), "prev: 12");
    assert_eq!(EntityPointer::Action(12).format_line(0, TextFormatting::Plain), "a previous action");
    assert_eq!(EntityPointer::Environment.to_string(), "the environment");
    assert_eq!(EntityPointer::Character(vec![]).format_line(0, TextFormatting::Plain), "the group of ");
    assert_eq!(EntityPointer::Character(vec![]).num_entities(), 0);
    assert_eq!(group().num_entities(), 2);
    assert_eq!(effect.clone().to_string(), "effect: Heat");
    // damage
    assert_eq!(Damage(DamageType::ZAP("Spark"), 7).to_string(), "7 [ZAP] Spark");
    assert_eq!(Damage(DamageType::ZAP("Spark"), 7).format_line(3, TextFormatting::Html), "7 [ZAP] Spark");
    assert_eq!(DamageType::ULT.to_string(), "ULTIMATE");
    assert_eq!(DamageType::PHY("Blunt").get_subtype_name(), "Blunt");
    assert_eq!(DamageType::ULT.get_subtype_name(), "");
    assert_eq!(DamageType::MAG("x").get_damage_type_name(), "MAG");
    let verbs: Vec<&str> = [
        DamageType::PHY("Pierce"), DamageType::PHY("Slash"), DamageType::PHY("Blunt"), DamageType::PHY("Bite"),
        DamageType::MAG("Fire"), DamageType::MAG("Ice"), DamageType::MAG("Void"), DamageType::ZAP("x"), DamageType::ULT,
    ]
    .iter()
    .map(|d| d.verb())
    .collect();
    assert_eq!(
        verbs,
        vec!["stabs", "strikes", "pummels", "attacks", "burns", "freezes", "casts a spell attack on", "zaps", "obliterates"]
    );
}

#[test]
fn a_stack_narrates_itself() {
    let mut combat = build_combat();
    let order = combat.build_turn_order();
    let blow = Action::from_source(
        EntityPointer::Character(vec!["Baddie".to_string()]),
        ActionEffect::Attack(Damage(DamageType::PHY("Slash"), 30)),
        EntityPointer::Character(vec!["Lindtbert".to_string()]),
    );
    let curse = Action::from_source(
        EntityPointer::Environment,
        ActionEffect::Cancel,
        EntityPointer::Action(0),
    );
    let mut stack = ActionStack::new();
    stack.build(vec![blow, curse], &mut combat, &order);
    assert_eq!(stack.get_action(1).stack_position(), Some(1));
    assert_eq!(stack.brief_narration(), "\n[ Baddie] ATK on  Lindtbert\n[the environment] CCL on prev: 0");
    assert_eq!(
        stack.format_line(0, TextFormatting::Plain),
        "Baddie strikes Lindtbert for 30 [PHY] Slash\nthe environment cancels a previous action  "
    );
    let words: Vec<String> = stack.format_words(TextFormatting::Plain).into_iter().map(|w| w.0).collect();
    assert_eq!(words.len(), 13);
    assert_eq!(words[7], "the");
    // a stack shows itself through its words
    assert_eq!(
        stack.display(24, 3, TextFormatting::Plain),
        vec!["Baddie strikes Lindtbert", "for 30 [PHY] Slash the  ", "environment cancels a   "]
    );
    let hp = combat.characters()[0].hp();
    stack.resolve(&mut combat);
    assert_eq!(combat.characters()[0].hp(), hp);
}

#[test]
fn plain_words_are_enriched_one_by_one() {
    let plain: Vec<(String, &str, Option<String>)> =
        vec![("12".to_string(), "hp", None), ("HP".to_string(), "unit", Some("Hitpoints".to_string()))];
    assert_eq!(
        plain.format_words(TextFormatting::Html),
        vec![
            ("<span class=\"hp\">12</span>".to_string(), 2),
            ("<span class=\"unit\"data-info=\"Hitpoints\">HP</span>".to_string(), 2)
        ]
    );
    assert_eq!(plain.display(5, 1, TextFormatting::Plain), vec!["12 HP"]);
    let equipment = Equipment::new("Wand".to_string(), EquipmentType::Weapon, Stats { dex: 0, str: 0, grt: 0, wil: 0, cha: 0, int: 0 });
    assert_eq!(equipment.format_line(14, TextFormatting::Plain), "[WPON] Wand   ");
    assert_eq!(equipment.format_line(11, TextFormatting::Plain), "[WPON] Wa..");
    assert_eq!(equipment.format_line(3, TextFormatting::Plain), "[WPON] ..");
    let mut combat = build_combat();
    let mut quiet = Quiet;
    combat.process_turn(Some(&mut quiet)).unwrap();
    let mut same = build_combat();
    same.process_turn(None).unwrap();
    // a logger makes no difference to the round
    for (a, b) in combat.characters().iter().zip(same.characters().iter()) {
        assert_eq!((a.hp(), a.mp(), a.ap()), (b.hp(), b.mp(), b.ap()));
    }
    let mut c = test_character("x".to_string());
    c.post_turn();
}
