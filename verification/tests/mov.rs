use tusslehussle::characters::{Character, Stats};
use tusslehussle::combat::{
    Action, ActionEffect, Actor, Combat, Damage, DamageType, EntityPointer,
};
use tusslehussle::factor::Factor;
use tusslehussle::mov::{BarehandedBlow, Counter, Maneuver, Move, Reaction};

fn counter(filter: DamageType, incoming: i64, outgoing: i64) -> Counter {
    Counter::new(filter, Factor::from_millis(incoming), Factor::from_millis(outgoing))
}

fn someone(name: &str, party: &str) -> Character {
    let mut c = Character::new(
        name.to_string(),
        None,
        Stats { str: 9, dex: 9, grt: 9, wil: 9, int: 9, cha: 9 },
    );
    c.set_party(party.to_string());
    c
}

fn attack_on(target: &str, damage: Damage) -> Action {
    let mut action = Action::from_source(
        EntityPointer::Character(vec!["Foe".to_string()]),
        ActionEffect::Attack(damage),
        EntityPointer::Character(vec![target.to_string()]),
    );
    action.set_stack_location(7);
    action
}

#[test]
fn a_balanced_counter_costs_five() {
    // floor(10 * 0.2) + floor(15 * 0.2) = 2 + 3
    assert_eq!(counter(DamageType::PHY(""), 500, 500).mp_cost(), 5);
    assert_eq!(counter(DamageType::ULT, 500, 500).mp_cost(), 5);
}

#[test]
fn counters_are_free_within_their_thresholds() {
    assert_eq!(counter(DamageType::PHY(""), 700, 300).mp_cost(), 0);
    assert_eq!(counter(DamageType::PHY(""), 1000, 0).mp_cost(), 0);
    assert_eq!(counter(DamageType::PHY(""), 2000, -500).mp_cost(), 0);
    // floor(10 * 0.7) + floor(15 * 0.7) = 7 + 10
    assert_eq!(counter(DamageType::PHY(""), 0, 1000).mp_cost(), 17);
    // floor(10 * 0.099) = 0, floor(15 * 0.067) = 1
    assert_eq!(counter(DamageType::PHY(""), 601, 367).mp_cost(), 1);
    assert_eq!(counter(DamageType::PHY(""), 600, 366).mp_cost(), 1);
    assert_eq!(counter(DamageType::PHY(""), 700, 366).mp_cost(), 0);
    assert_eq!(counter(DamageType::PHY(""), i64::MIN, i64::MAX).mp_cost() > 0, true);
    assert_eq!(counter(DamageType::PHY(""), 0, 0).ap_cost(), 3);
}

#[test]
fn counters_answer_their_kind_of_damage() {
    let any_phy = counter(DamageType::PHY(""), 500, 500);
    assert!(any_phy.relevant_for(&DamageType::PHY("Slash")));
    assert!(any_phy.relevant_for(&DamageType::PHY("")));
    assert!(!any_phy.relevant_for(&DamageType::MAG("Fire")));
    assert!(!any_phy.relevant_for(&DamageType::MAG("")));
    assert!(!any_phy.relevant_for(&DamageType::ZAP("Slash")));
    assert!(!any_phy.relevant_for(&DamageType::ULT));
    let slash = counter(DamageType::PHY("Slash"), 500, 500);
    assert!(slash.relevant_for(&DamageType::PHY("Slash")));
    assert!(!slash.relevant_for(&DamageType::PHY("Pierce")));
    assert!(!slash.relevant_for(&DamageType::PHY("")));
    assert!(!slash.relevant_for(&DamageType::MAG("Slash")));
    let fire = counter(DamageType::MAG("Fire"), 500, 500);
    assert!(fire.relevant_for(&DamageType::MAG("Fire")));
    assert!(!fire.relevant_for(&DamageType::MAG("Ice")));
    let any_zap = counter(DamageType::ZAP(""), 500, 500);
    assert!(any_zap.relevant_for(&DamageType::ZAP("Spark")));
    assert!(!any_zap.relevant_for(&DamageType::PHY("Spark")));
    // a counter for ultimate damage answers nothing
    let ult = counter(DamageType::ULT, 500, 500);
    for incoming in [DamageType::PHY("Slash"), DamageType::MAG("Fire"), DamageType::ZAP(""), DamageType::ULT] {
        assert!(!ult.relevant_for(&incoming));
    }
}

#[test]
fn a_counter_reacts_to_attacks_on_its_bearer() {
    let me = someone("Me", "mine");
    let c = counter(DamageType::PHY(""), 500, 500);
    // physical: both answers
    let answer = c.react(&me, &attack_on("Me", Damage(DamageType::PHY("Slash"), 41))).unwrap();
    assert_eq!(answer.len(), 2);
    assert_eq!(answer[0].get_source().to_string(), " Me");
    assert!(matches!(answer[0].get_effect(), ActionEffect::AdjustDamageMul(f) if f.millis() == 500));
    assert!(matches!(answer[0].get_target(), EntityPointer::Action(7)));
    assert_eq!(answer[0].stack_position(), None);
    match answer[1].get_effect() {
        ActionEffect::Attack(d) => {
            // half of 41, rounded toward zero
            assert_eq!(d.amount(), 20);
            assert!(matches!(d.dmg_type(), DamageType::PHY("Slash")));
        }
        _ => panic!("the second answer strikes back"),
    }
    assert_eq!(answer[1].get_target().to_string(), " Foe");
    // not for magic, not for ultimate damage
    assert!(c.react(&me, &attack_on("Me", Damage(DamageType::MAG("Fire"), 41))).is_none());
    assert!(c.react(&me, &attack_on("Me", Damage(DamageType::ULT, 41))).is_none());
    // not where somebody else is the target
    assert!(c.react(&me, &attack_on("You", Damage(DamageType::PHY("Slash"), 41))).is_none());
    // not for what is no attack
    let mut heal = Action::from_source(
        EntityPointer::Environment,
        ActionEffect::Heal(tusslehussle::characters::CharUnit::HP(3)),
        EntityPointer::Character(vec!["Me".to_string()]),
    );
    heal.set_stack_location(0);
    assert!(c.react(&me, &heal).is_none());
    // a counter for ultimate damage never reacts
    let ult = counter(DamageType::ULT, 500, 500);
    assert!(ult.react(&me, &attack_on("Me", Damage(DamageType::PHY("Slash"), 41))).is_none());
    assert!(ult.react(&me, &attack_on("Me", Damage(DamageType::ULT, 41))).is_none());
}

#[test]
fn a_counter_leaves_out_what_changes_nothing() {
    let me = someone("Me", "mine");
    let blow = attack_on("Me", Damage(DamageType::PHY("Slash"), -41));
    // one lets everything through, zero strikes nothing back
    let idle = counter(DamageType::PHY(""), 1000, 0).react(&me, &blow).unwrap();
    assert_eq!(idle.len(), 0);
    let only_back = counter(DamageType::PHY(""), 1000, 1500).react(&me, &blow).unwrap();
    assert_eq!(only_back.len(), 1);
    match only_back[0].get_effect() {
        // one and a half times -41, rounded toward zero
        ActionEffect::Attack(d) => assert_eq!(d.amount(), -61),
        _ => panic!("an attack"),
    }
    let only_less = counter(DamageType::PHY(""), 0, 0).react(&me, &blow).unwrap();
    assert_eq!(only_less.len(), 1);
    assert!(matches!(only_less[0].get_effect(), ActionEffect::AdjustDamageMul(_)));
}

#[test]
fn a_blow_goes_for_the_opponent_with_the_most_left() {
    let me = someone("Me", "mine");
    let friend = someone("Friend", "mine");
    let mut hurt = someone("Hurt", "theirs");
    hurt.apply_directly(&tusslehussle::characters::CharUnit::HP(-300));
    let fresh = someone("Fresh", "theirs");
    let also_fresh = someone("Also fresh", "others");
    let combat = Combat::from_participants(vec![someone("Me", "mine"), friend, hurt, fresh, also_fresh]);
    let actions = BarehandedBlow.execute(&me, &combat);
    assert_eq!(actions.len(), 1);
    assert_eq!(actions[0].get_source().to_string(), " Me");
    // of those with the most left, the last
    assert_eq!(actions[0].get_target().to_string(), " Also fresh");
    match actions[0].get_effect() {
        // floor(0.45 * 72) = 32
        ActionEffect::Attack(d) => {
            assert_eq!(d.amount(), 32);
            assert!(matches!(d.dmg_type(), DamageType::PHY("Strike")));
        }
        _ => panic!("a blow is an attack"),
    }
    assert_eq!(actions[0].stack_position(), None);
    assert_eq!(me.next_move(), tusslehussle::mov::ManeuverKind::BarehandedBlow(BarehandedBlow));
    // nobody to go for: no action
    let alone = Combat::from_participants(vec![someone("Me", "mine"), someone("Friend", "mine")]);
    assert_eq!(BarehandedBlow.execute(&me, &alone).len(), 0);
    // the weakest still deal one
    let weak = Character::new("weak".to_string(), None, Stats { str: -9, dex: 0, grt: 0, wil: 0, int: 0, cha: 0 });
    match BarehandedBlow.execute(&weak, &combat)[0].get_effect() {
        ActionEffect::Attack(d) => assert_eq!(d.amount(), 1),
        _ => panic!("a blow is an attack"),
    }
}

#[test]
fn factors_scale_exactly() {
    assert_eq!(Factor::one().scale_floor(41), 41);
    assert_eq!(Factor::zero().scale_floor(41), 0);
    assert_eq!(Factor::from_millis(500).scale_floor(41), 20);
    assert_eq!(Factor::from_millis(500).scale_floor(-41), -21);
    assert_eq!(Factor::from_millis(500).scale_trunc(-41), -20);
    assert_eq!(Factor::from_millis(-500).scale_trunc(41), -20);
    assert_eq!(Factor::from_millis(-500).scale_floor(41), -21);
    assert_eq!(Factor::from_percent(45).scale_floor(72), 32);
    assert_eq!(Factor::from_percent(45).millis(), 450);
    assert_eq!(Factor::from_percent(i64::MAX).millis(), i64::MAX);
    assert_eq!(Factor::from_millis(i64::MAX).scale_floor(i64::MAX), i64::MAX);
    assert_eq!(Factor::from_millis(i64::MAX).scale_floor(i64::MIN), i64::MIN);
    assert!(Factor::one().is_one() && !Factor::one().is_zero());
    assert!(Factor::zero().is_zero() && !Factor::zero().is_one());
    // ratios in thousandths, toward zero
    assert_eq!(Factor::ratio(1, 3).millis(), 333);
    assert_eq!(Factor::ratio(-1, 3).millis(), -333);
    assert_eq!(Factor::ratio(1, -3).millis(), -333);
    assert_eq!(Factor::ratio(748, 748).millis(), 1000);
    assert_eq!(Factor::ratio(5, 0).millis(), i64::MAX);
    assert_eq!(Factor::ratio(-5, 0).millis(), i64::MIN);
    assert_eq!(Factor::ratio(0, 0).millis(), 0);
}
