use tusslehussle::characters::{CharStat, CharUnit, Character, Stats};
use tusslehussle::combat::{
    Action, ActionEffect, ActionStack, Actor, Combat, Damage, DamageType, EntityPointer,
};
use tusslehussle::effects::{EffectKind, StatAdditive};
use tusslehussle::equipment::{Equipment, EquipmentType};
use tusslehussle::factor::Factor;
use tusslehussle::mov::{Counter, ReactionKind};
use tusslehussle::text::{InfoGrid, InfoLine, TextFormatting};
use tusslehussle::world::{LogSink, TurnLogger, WorldContext};

/// Basic test character to use
fn test_character(name: String) -> Character {
    Character::new(
        String::from(name),
        None,
        Stats { str: 3, dex: 8, grt: 6, wil: 2, int: 5, cha: 6 },
    )
}

fn build_combat() -> Combat {
    let mut party = vec![test_character("Lindtbert".to_string())];
    let mut baddies = vec![test_character("Baddie".to_string())];
    for char in party.iter_mut() {
        char.set_party("Best Friends".to_string());
    }
    for char in baddies.iter_mut() {
        char.set_party("Baddies!".to_string());
    }
    // conjoin both groups into one encounter list
    party.extend(baddies);
    Combat::from_participants(party)
}

/// A logger that keeps the narration of every stack it is shown.
struct Recorder {
    stacks: Vec<Vec<String>>,
}

impl TurnLogger for Recorder {
    fn maneuver_stack(&mut self, stack: &ActionStack) {
        self.stacks.push(stack.actions().iter().map(|a| a.to_string()).collect());
    }
}

fn nines(name: &str, party: &str) -> Character {
    let mut c = Character::new(
        name.to_string(),
        None,
        Stats { str: 9, dex: 9, grt: 9, wil: 9, int: 9, cha: 9 },
    );
    c.set_party(party.to_string());
    c
}

fn counter_ring(incoming: Factor, outgoing: Factor) -> Equipment {
    let mut eq = Equipment::new(
        "Counter Ring".to_string(),
        EquipmentType::Ring,
        Stats { dex: 5, str: 0, grt: 0, wil: 0, cha: 0, int: 0 },
    );
    eq.add_reaction(ReactionKind::Counter(Counter::new(DamageType::PHY(""), incoming, outgoing)));
    eq
}

#[test]
fn test_single_stack() {
    let _combat = build_combat();
}

#[test]
fn test_turn() {
    let mut combat = build_combat();

    println!("PRE\n\n\n------------------------\n\n\n");
    for char in combat.iter_characters() {
        println!("{}", char.display(20, 3, TextFormatting::Console).join("\n"));
    }

    let charname = "Lindtbert".to_string();
    let hp_pre = combat.get_character(&charname).unwrap().hp();

    combat.process_turn(None).unwrap();

    for char in combat.iter_characters() {
        println!("{}", char.display(20, 3, TextFormatting::Console).join("\n"));
    }

    assert!(hp_pre > combat.get_character(&charname).unwrap().hp());
}

#[test]
fn test_reaction() {
    let mut combat = build_combat();

    {
        // This time, equip Lindtbert with a ring to give him a special counter ability
        let lindtbert = combat.get_character_mut(&"Lindtbert".to_string()).unwrap();

        let mut eq = Equipment::new(
            "Counter Ring".to_string(),
            EquipmentType::Ring,
            Stats { dex: 5, str: 0, grt: 0, wil: 0, cha: 0, int: 0 },
        );
        eq.add_reaction(ReactionKind::Counter(Counter::new(
            DamageType::PHY(""),
            Factor::zero(),
            Factor::one(),
        )));

        lindtbert.equip(eq).unwrap();

        println!("{}", lindtbert.display(20, 4, TextFormatting::Console).join("\n"));
    }

    for _ in 0..8 {
        combat.process_turn(None).unwrap();

        {
            let num_lines = 4;
            let max_length = 20 * 2 + 2;
            let len_char = max_length / 2;
            let lindtbert = combat.get_character(&"Lindtbert".to_string()).unwrap();
            let baddie = combat.get_character(&"Baddie".to_string()).unwrap();
            // Map each Character to their individual line-by-line output
            let chars: Vec<(&Character, Vec<String>)> = vec![lindtbert, baddie]
                .iter()
                .map(|c| (*c, c.display(len_char, num_lines, TextFormatting::Console)))
                .collect();

            for i in 0..num_lines {
                let mut line = String::with_capacity(len_char);
                for (_c, lines) in &chars {
                    line.push_str(&lines.get(i).unwrap());
                    line.push(' ');
                }
                println!("{}", line);
            }
        }
    }
}

#[test]
fn turn_takes_exact_damage() {
    let mut combat = build_combat();
    let charname = "Lindtbert".to_string();
    let hp_pre = combat.get_character(&charname).unwrap().hp();
    combat.process_turn(None).unwrap();
    // blow: floor(0.45 * ((8 + 3) * 3 + 6 + 5)) = 19, defense floor(1.2 * 9) = 10
    assert_eq!(combat.get_character(&charname).unwrap().hp(), hp_pre - 9);
    assert_eq!(combat.get_character(&"Baddie".to_string()).unwrap().hp(), hp_pre - 9);
}

#[test]
fn one_round_between_two_of_nines() {
    // everyone at their maximum: 100 + 12 * (36 + 18) = 748
    let mut combat = Combat::from_participants(vec![nines("A", "left"), nines("B", "right")]);
    assert_eq!(combat.characters()[0].hp(), 748);
    combat.process_turn(None).unwrap();
    // blow floor(0.45 * 72) = 32, defense floor(1.2 * 18) = 21
    let attacker = &combat.characters()[0];
    let defender = &combat.characters()[1];
    assert_eq!(defender.hp(), 748 - 11);
    assert!(defender.hp() < 748);
    assert_eq!(attacker.hp(), 748 - 11);
    // the roster is who it was
    assert_eq!(combat.characters().len(), 2);
    assert_eq!(combat.characters()[0].name(), "A");
    assert_eq!(combat.characters()[1].name(), "B");
    assert_eq!(combat.characters()[0].party(), "left");
    assert_eq!(combat.characters()[1].party(), "right");
}

#[test]
fn a_full_counter_turns_the_blow_around() {
    let mut defender = nines("B", "right");
    defender.equip(counter_ring(Factor::zero(), Factor::one())).unwrap();
    let mut combat = Combat::from_participants(vec![nines("A", "left"), defender]);
    let order = combat.build_turn_order();
    assert_eq!(order, vec![0, 1]);
    let mut recorder = Recorder { stacks: vec![] };
    // the attacker's maneuver alone
    {
        let mut sink = LogSink::to(Some(&mut recorder));
        combat.take_turn(0, &order, &mut sink);
    }
    let attacker = &combat.characters()[0];
    let defender = &combat.characters()[1];
    // nothing gets through to the defender
    assert_eq!(defender.hp(), 748);
    // the attacker is struck by the full 32, less its defense of 21
    assert_eq!(attacker.hp(), 748 - 11);
    assert!(attacker.hp() < 748);
    // the counter cost 3 AP and floor(10 * 0.7) + floor(15 * 0.7) = 17 MP
    assert_eq!(defender.ap(), 12 - 3);
    assert_eq!(defender.mp(), 108 - 17);
    assert_eq!(
        recorder.stacks,
        vec![vec![
            "[ A] ATK on  B".to_string(),
            "[ B] ADM on prev: 0".to_string(),
            "[ B] ATK on  A".to_string()
        ]]
    );
}

#[test]
fn a_full_counter_strikes_back_with_the_full_blow() {
    let mut defender = nines("B", "right");
    defender.equip(counter_ring(Factor::zero(), Factor::one())).unwrap();
    let mut combat = Combat::from_participants(vec![nines("A", "left"), defender]);
    let order = combat.build_turn_order();
    let opening = combat.characters()[0].next_move();
    let actions = {
        let attacker = &combat.characters()[0];
        tusslehussle::mov::Maneuver::execute(&opening, attacker, &combat)
    };
    let mut stack = ActionStack::new();
    stack.build(actions, &mut combat, &order);
    let amounts: Vec<Option<i64>> = stack
        .actions()
        .iter()
        .map(|a| match a.get_effect() {
            ActionEffect::Attack(d) => Some(d.amount()),
            _ => None,
        })
        .collect();
    // the blow of 32, the factor that wipes it out, the strike back of the full 32
    assert_eq!(amounts, vec![Some(32), None, Some(32)]);
    let log = stack.resolve(&mut combat);
    // resolved from the top: the strike back as it was, the blow wiped out
    assert!(matches!(log[0].get_effect(), ActionEffect::Attack(d) if d.amount() == 32));
    assert!(matches!(log[2].get_effect(), ActionEffect::Attack(d) if d.amount() == 0));
    assert_eq!(combat.characters()[1].hp(), 748);
    assert_eq!(combat.characters()[0].hp(), 748 - (32 - 21));
}

#[test]
fn reactions_are_built_depth_first_and_resolved_last_in_first_out() {
    // A strikes B. B counters: half the blow gets through, all of it goes back.
    // A counters that in turn: nothing gets through, nothing goes back.
    let mut a = nines("A", "left");
    a.equip(counter_ring(Factor::zero(), Factor::zero())).unwrap();
    let mut b = nines("B", "right");
    b.equip(counter_ring(Factor::from_millis(500), Factor::one())).unwrap();
    let mut combat = Combat::from_participants(vec![a, b]);
    let order = combat.build_turn_order();

    let blow = Action::from_source(
        EntityPointer::Character(vec!["A".to_string()]),
        ActionEffect::Attack(Damage(DamageType::PHY("Strike"), 100)),
        EntityPointer::Character(vec!["B".to_string()]),
    );
    let mut stack = ActionStack::new();
    stack.build(vec![blow], &mut combat, &order);
    let built: Vec<String> = stack.actions().iter().map(|a| a.to_string()).collect();
    assert_eq!(
        built,
        vec![
            "[ A] ATK on  B",       // A, the blow
            "[ B] ADM on prev: 0",  // B halves it
            "[ B] ATK on  A",       // B strikes back
            "[ A] ADM on prev: 2",  // C: A wipes out the strike
        ]
    );
    for (i, action) in stack.actions().iter().enumerate() {
        assert_eq!(action.stack_position(), Some(i));
    }

    let log = stack.resolve(&mut combat);
    assert_eq!(stack.len(), 0);
    let resolved: Vec<Option<usize>> = log.iter().map(|a| a.stack_position()).collect();
    assert_eq!(resolved, vec![Some(3), Some(2), Some(1), Some(0)]);
    // The strike back was wiped out before it was resolved, the blow was halved.
    match log[1].get_effect() {
        ActionEffect::Attack(d) => assert_eq!(d.amount(), 0),
        _ => panic!("the strike back is an attack"),
    }
    match log[3].get_effect() {
        ActionEffect::Attack(d) => assert_eq!(d.amount(), 50),
        _ => panic!("the blow is an attack"),
    }
    assert_eq!(combat.characters()[0].hp(), 748);
    assert_eq!(combat.characters()[1].hp(), 748 - (50 - 21));
}

#[test]
fn turn_order_goes_by_mobility() {
    // mobility floor(1.2 * (DEX + INT)): 15 for 13, 10 for 9, 4 for 4 and one more from an effect
    let stats = |dex: i64| Stats { str: 1, dex, grt: 1, wil: 1, int: 0, cha: 1 };
    let mut fast = Character::new("fast".to_string(), None, stats(13));
    fast.set_party("x".to_string());
    let mut middle = Character::new("middle".to_string(), None, stats(9));
    middle.set_party("y".to_string());
    let mut slow = Character::new("slow".to_string(), None, stats(4));
    slow.set_party("z".to_string());
    slow.apply_timed_effect(EffectKind::StatAdditive(StatAdditive(CharStat::MOB(1))), 100);
    assert_eq!(fast.calculate_game_stats().mob(), 15);
    assert_eq!(middle.calculate_game_stats().mob(), 10);
    assert_eq!(slow.calculate_game_stats().mob(), 5);

    let mut combat = Combat::from_participants(vec![fast, slow, middle]);
    for _ in 0..3 {
        assert_eq!(combat.build_turn_order(), vec![1, 2, 0]);
        let mut recorder = Recorder { stacks: vec![] };
        combat.process_turn(Some(&mut recorder)).unwrap();
        // one stack for every turn, in ascending order of mobility
        let sources: Vec<String> =
            recorder.stacks.iter().map(|s| s[0][..7].to_string()).collect();
        assert_eq!(sources, vec!["[ slow]", "[ middl", "[ fast]"]);
    }
}

#[test]
fn reactions_are_asked_for_in_the_reverse_of_the_turn_order() {
    let stats = |dex: i64| Stats { str: 1, dex, grt: 1, wil: 1, int: 0, cha: 1 };
    let ring = || {
        let mut eq = Equipment::new(
            "Ring".to_string(),
            EquipmentType::Ring,
            Stats { dex: 0, str: 0, grt: 0, wil: 0, cha: 0, int: 0 },
        );
        eq.add_reaction(ReactionKind::Counter(Counter::new(
            DamageType::PHY(""),
            Factor::from_millis(700),
            Factor::zero(),
        )));
        eq
    };
    let mut fast = Character::new("fast".to_string(), None, stats(13));
    fast.equip(ring()).unwrap();
    let mut middle = Character::new("middle".to_string(), None, stats(9));
    middle.equip(ring()).unwrap();
    let slow = Character::new("slow".to_string(), None, stats(4));
    let mut combat = Combat::from_participants(vec![middle, slow, fast]);
    assert_eq!(combat.build_turn_order(), vec![1, 0, 2]);

    // an attack from outside on both ring bearers
    let mut blow = Action::from_source(
        EntityPointer::Environment,
        ActionEffect::Attack(Damage(DamageType::PHY("Rock"), 10)),
        EntityPointer::Character(vec!["middle".to_string(), "fast".to_string()]),
    );
    blow.set_stack_location(0);
    let reactions = combat.request_reactions(&blow);
    let who: Vec<String> = reactions.iter().map(|a| a.get_source().to_string()).collect();
    // the most mobile answers first, the least mobile last
    assert_eq!(who, vec![" fast", " middle"]);
}

#[test]
fn characters_without_opponents_cannot_fight() {
    let mut alone = Combat::from_participants(vec![nines("A", "left"), nines("B", "left")]);
    let before = alone.characters()[0].hp();
    assert_eq!(alone.process_turn(None), Err("Couldn't find a target".to_string()));
    assert_eq!(alone.characters()[0].hp(), before);
    assert!(!alone.everyone_has_opponent());
    let mut nobody = Combat::from_participants(vec![]);
    assert_eq!(nobody.process_turn(None), Ok(()));
}

#[test]
fn damage_goes_against_the_right_defense() {
    // defenses: physical floor(1.2 * 9) = 10, magical floor(1.2 * 8) = 9
    let mut c = test_character("c".to_string());
    let (hp, mp) = (c.hp(), c.mp());
    c.apply_damage(&Damage(DamageType::PHY("Slash"), 15));
    assert_eq!(c.hp(), hp - 5);
    c.apply_damage(&Damage(DamageType::MAG("Fire"), 15));
    assert_eq!(c.hp(), hp - 5 - 6);
    c.apply_damage(&Damage(DamageType::ULT, 15));
    assert_eq!(c.hp(), hp - 5 - 6 - 15);
    // zap goes against half the magical defense, and on the mental points
    c.apply_damage(&Damage(DamageType::ZAP("Spark"), 15));
    assert_eq!(c.mp(), mp - 11);
    assert_eq!(c.hp(), hp - 5 - 6 - 15);
    // too little damage does nothing
    c.apply_damage(&Damage(DamageType::PHY("Slash"), 3));
    assert_eq!(c.hp(), hp - 5 - 6 - 15);
}

#[test]
fn direct_application_adds_or_sets() {
    let mut c = test_character("c".to_string());
    let (hp, vit) = (c.hp(), c.vit());
    c.apply_directly(&CharUnit::HP(-20));
    assert_eq!(c.hp(), hp - 20);
    c.apply_directly(&CharUnit::HP(5));
    assert_eq!(c.hp(), hp - 15);
    c.apply_directly(&CharUnit::MP(7));
    assert_eq!(c.mp(), 7);
    c.apply_directly(&CharUnit::AP(-2));
    assert_eq!(c.ap(), -2);
    c.apply_directly(&CharUnit::VIT(-10));
    assert_eq!(c.vit(), vit - 10);
    c.apply_directly(&CharUnit::HP(i64::MAX));
    assert_eq!(c.hp(), i64::MAX);
}

#[test]
fn regeneration_stops_at_the_maximum() {
    let mut c = test_character("c".to_string());
    let stats = c.calculate_game_stats();
    // rates: 1 + floor(0.6 * 17) = 11 HP, 1 + floor(0.33 * 15) = 5 MP, 1 + floor(0.05 * 34) = 2 AP
    assert_eq!((stats.hrg(), stats.mrg(), stats.tap()), (11, 5, 2));
    c.apply_directly(&CharUnit::HP(-20));
    c.apply_directly(&CharUnit::MP(10));
    c.apply_directly(&CharUnit::AP(-1));
    let hp = c.hp();
    c.pre_turn();
    assert_eq!(c.hp(), hp + 11);
    assert_eq!(c.mp(), 15);
    assert_eq!(c.ap(), 1);
    c.pre_turn();
    assert_eq!(c.hp(), stats.mhp());
    for _ in 0..20 {
        c.pre_turn();
    }
    assert_eq!(c.hp(), stats.mhp());
    assert_eq!(c.mp(), stats.mmp());
    assert_eq!(c.ap(), stats.max_ap());
}

#[test]
fn a_character_in_debt_does_not_react() {
    let mut b = nines("B", "right");
    b.equip(counter_ring(Factor::one(), Factor::one())).unwrap();
    let mut blow = Action::from_source(
        EntityPointer::Character(vec!["A".to_string()]),
        ActionEffect::Attack(Damage(DamageType::PHY("Strike"), 10)),
        EntityPointer::Character(vec!["B".to_string()]),
    );
    blow.set_stack_location(4);
    // AP 12: the counter is taken while AP are not below zero, whatever it costs
    b.apply_directly(&CharUnit::AP(0));
    let mut reactions = vec![];
    b.respond_to_action(&blow, &mut reactions);
    assert_eq!(reactions.len(), 1);
    assert_eq!(b.ap(), -3);
    // now the character is in debt
    b.respond_to_action(&blow, &mut reactions);
    assert_eq!(reactions.len(), 1);
    assert_eq!(b.ap(), -3);
    // a reaction that costs more MP than there are is skipped
    b.apply_directly(&CharUnit::AP(5));
    b.apply_directly(&CharUnit::MP(9));
    b.respond_to_action(&blow, &mut reactions);
    assert_eq!(reactions.len(), 1);
    assert_eq!((b.ap(), b.mp()), (5, 9));
    b.apply_directly(&CharUnit::MP(10));
    b.respond_to_action(&blow, &mut reactions);
    assert_eq!(reactions.len(), 2);
    assert_eq!((b.ap(), b.mp()), (2, 0));
}

#[test]
fn actions_on_actions_take_hold_before_their_target_is_resolved() {
    let mut combat = Combat::from_participants(vec![nines("A", "left"), nines("B", "right")]);
    let order = combat.build_turn_order();
    let a = || EntityPointer::Character(vec!["A".to_string()]);
    let b = || EntityPointer::Character(vec!["B".to_string()]);
    let actions = vec![
        // 0: a blow at B that will be redirected to A, raised and doubled
        Action::from_source(a(), ActionEffect::Attack(Damage(DamageType::ULT, 10)), b()),
        // 1: a blow at B that will be cancelled
        Action::from_source(a(), ActionEffect::Attack(Damage(DamageType::ULT, 500)), b()),
        Action::from_source(a(), ActionEffect::Cancel, EntityPointer::Action(1)),
        Action::from_source(a(), ActionEffect::AdjustDamageMul(Factor::from_millis(2000)), EntityPointer::Action(0)),
        Action::from_source(a(), ActionEffect::AdjustDamageAbs(5), EntityPointer::Action(0)),
        Action::from_source(a(), ActionEffect::ChangeTarget(a()), EntityPointer::Action(0)),
        Action::from_source(a(), ActionEffect::Heal(CharUnit::HP(-7)), b()),
        Action::from_source(a(), ActionEffect::Attack(Damage(DamageType::ULT, 1)), EntityPointer::Environment),
        Action::from_source(
            a(),
            ActionEffect::GiveTimedEffect(EffectKind::StatAdditive(StatAdditive(CharStat::STR(4))), 2),
            b(),
        ),
    ];
    let mut stack = ActionStack::new();
    stack.build(actions, &mut combat, &order);
    assert_eq!(stack.len(), 9);
    let log = stack.resolve(&mut combat);
    assert_eq!(log.len(), 9);
    // what waits is applied in the order of resolution: last in, first out
    // blow 0: target changed, then +5, then doubled: (10 + 5) * 2 = 30 on A
    assert_eq!(combat.characters()[0].hp(), 748 - 30);
    // blow 1 was cancelled; the heal of -7 went through
    assert_eq!(combat.characters()[1].hp(), 748 - 7);
    assert!(matches!(log[7].get_effect(), ActionEffect::Canceled));
    // the timed effect was given
    assert_eq!(combat.characters()[1].calculate_current_stats().str, 13);
    assert_eq!(combat.characters()[1].timed_effects().len(), 1);
}

#[test]
fn an_empty_stack_resolves_to_nothing() {
    let mut combat = build_combat();
    let mut stack = ActionStack::new();
    assert_eq!(stack.resolve(&mut combat).len(), 0);
    assert_eq!(stack.brief_narration(), "");
    assert_eq!(stack.format_line(0, TextFormatting::Plain), "");
}

#[test]
fn characters_are_found_by_name_and_by_filter() {
    let combat = build_combat();
    assert!(combat.get_character(&"Nobody".to_string()).is_none());
    assert_eq!(combat.get_character(&"Baddie".to_string()).unwrap().party(), "Baddies!");
    let friends = combat.find_characters(|c: &Character| c.party_check(&"Best Friends".to_string()));
    assert_eq!(friends.len(), 1);
    assert_eq!(friends[0].name(), "Lindtbert");
    assert_eq!(combat.find_characters(|_c: &Character| true).len(), 2);
    let target = combat.characters()[0].as_target();
    assert_eq!(target.num_entities(), 1);
    assert!(!target.is_action());
    assert!(EntityPointer::Action(3).is_action());
}
