//! Moves: what actors do on the action stack.
//!
//! A *maneuver* is the one move an actor starts per round. A *reaction* is a
//! conditional answer to an action that has just been announced, paid for with
//! action points.
use vstd::prelude::*;
use crate::arith::{clamp_i64, clamp_to_i64, div_floor, floor_div, max_int};
use crate::characters::{Character, CharacterView, Stats};
use crate::combat::{
    actions_view, roster_view, Action, ActionEffect, ActionEffectView, ActionView, Combat, Damage,
    DamageType, PointerView,
};
use crate::factor::{scaled_trunc, Factor};
use crate::strutil::str_eq;

verus! {

/// What maneuvers and reactions share.
pub trait Move {
    /// The name of the move.
    spec fn spec_name(&self) -> Seq<char>;

    /// The description shown to players.
    spec fn spec_describe(&self) -> Seq<char>;

    /// The mental points that one use of the move costs.
    spec fn spec_mp_cost(&self) -> int;

    /// Every move has a name.
    fn name(&self) -> (name: String)
        ensures
            name@ == self.spec_name(),
    ;

    /// A general description of the move.
    fn describe(&self) -> (text: String)
        ensures
            text@ == self.spec_describe(),
    ;

    /// How many mental points the move costs; zero for plain physical moves.
    fn mp_cost(&self) -> (cost: i64)
        ensures
            cost == self.spec_mp_cost(),
    ;
}

/// A move that an actor starts of its own accord. During one round every
/// actor gets one maneuver only.
pub trait Maneuver: Move {
    /// The actions with which `character` opens its turn among `roster`.
    spec fn spec_execute(&self, character: CharacterView, roster: Seq<CharacterView>) -> Seq<
        ActionView,
    >;

    /// Executes the move for `character`. The `context` serves to find
    /// targets. The actions returned start the stack of this turn; none of
    /// them has a position on it yet.
    fn execute(&self, character: &Character, context: &Combat) -> (actions: Vec<Action>)
        ensures
            actions_view(actions@) == self.spec_execute(character@, context@),
    ;
}

/// A move in answer to an action that has just been announced on the stack.
/// Reactions can answer maneuvers and other reactions alike, which lets
/// attacks go back and forth between counters.
pub trait Reaction: Move {
    /// The action points that one use of the reaction costs.
    spec fn spec_ap_cost(&self) -> int;

    /// The answer of `character` to `action`: `None` where the reaction does
    /// not apply.
    spec fn spec_react(&self, character: CharacterView, action: ActionView) -> Option<
        Seq<ActionView>,
    >;

    /// Every reaction costs action points, the measure of how much a
    /// character can still react.
    fn ap_cost(&self) -> (cost: i64)
        ensures
            cost == self.spec_ap_cost(),
    ;

    /// The actions with which `character` answers `action`, or `None` if this
    /// reaction does not apply to it. The action must have its position on
    /// the stack, so that an answer can point at it.
    fn react(&self, character: &Character, action: &Action) -> (answer: Option<Vec<Action>>)
        requires
            action@.stack_position is Some,
        ensures
            match answer {
                Some(actions) => self.spec_react(character@, action@) == Some(
                    actions_view(actions@),
                ),
                None => self.spec_react(character@, action@) is None,
            },
    ;
}

/// A basic move that every character has.
#[derive(Clone, Copy, Debug, PartialEq, Eq, Structural)]
pub struct BarehandedBlow;

impl Move for BarehandedBlow {
    open spec fn spec_name(&self) -> Seq<char> {
        "Barehanded Blow"@
    }

    open spec fn spec_describe(&self) -> Seq<char> {
        "When nothing else helps, your body is a weapon, too. A meager move, except in the hands of the exceptionally physically capable."@
    }

    open spec fn spec_mp_cost(&self) -> int {
        0
    }

    fn name(&self) -> (name: String) {
        String::from_str("Barehanded Blow")
    }

    fn describe(&self) -> (text: String) {
        String::from_str(
            "When nothing else helps, your body is a weapon, too. A meager move, except in the hands of the exceptionally physically capable.",
        )
    }

    fn mp_cost(&self) -> (cost: i64) {
        0
    }
}

/// The damage of a barehanded blow: `floor(0.45 * ((DEX + STR) * 3 + GRT +
/// INT))`, and at least 1.
pub open spec fn blow_damage(stats: Stats) -> int {
    max_int(clamp_i64(floor_div(9 * ((stats.dex + stats.str) * 3 + stats.grt + stats.int), 20)), 1)
}

/// The character that a blow from a member of `party` goes for, among the
/// first `n` of the roster: of those that are not of the party the one with
/// the largest share of its hit points left, and of several such the last.
pub open spec fn best_opponent(roster: Seq<CharacterView>, party: Seq<char>, n: nat) -> Option<
    int,
>
    decreases n,
{
    if n == 0 {
        None
    } else {
        let earlier = best_opponent(roster, party, (n - 1) as nat);
        let i = n - 1;
        if roster[i].party == party {
            earlier
        } else {
            match earlier {
                Some(b) => if roster[b].hp_ratio() > roster[i].hp_ratio() {
                    earlier
                } else {
                    Some(i)
                },
                None => Some(i),
            }
        }
    }
}

/// What [`best_opponent`] picks is an opponent, none has a larger share of
/// its hit points left, and none behind it has as large a share. It picks
/// nobody only where there is no opponent.
pub proof fn lemma_best_opponent(roster: Seq<CharacterView>, party: Seq<char>, n: nat)
    requires
        n <= roster.len(),
    ensures
        match best_opponent(roster, party, n) {
            Some(t) => {
                &&& 0 <= t < n
                &&& roster[t].party != party
                &&& forall|j: int|
                    0 <= j < n && roster[j].party != party ==> roster[j].hp_ratio()
                        <= roster[t].hp_ratio()
                &&& forall|j: int|
                    t < j < n && roster[j].party != party ==> roster[j].hp_ratio()
                        < roster[t].hp_ratio()
            },
            None => forall|j: int| 0 <= j < n ==> roster[j].party == party,
        },
    decreases n,
{
    if n > 0 {
        lemma_best_opponent(roster, party, (n - 1) as nat);
    }
}

impl Maneuver for BarehandedBlow {
    open spec fn spec_execute(&self, character: CharacterView, roster: Seq<CharacterView>) -> Seq<
        ActionView,
    > {
        match best_opponent(roster, character.party, roster.len()) {
            Some(t) => seq![
                ActionView {
                    source: character.pointer(),
                    effect: ActionEffectView::Attack(
                        Damage(
                            DamageType::PHY("Strike"),
                            blow_damage(character.current_stats()) as i64,
                        ),
                    ),
                    target: roster[t].pointer(),
                    stack_position: None,
                },
            ],
            None => Seq::empty(),
        }
    }

    /// One attack on one opponent; no action where there is no opponent.
    fn execute(&self, character: &Character, context: &Combat) -> (actions: Vec<Action>) {
        // The damage follows from the attributes.
        let stats = character.calculate_current_stats();
        let strength: i128 = (stats.dex as i128 + stats.str as i128) * 3 + stats.grt as i128
            + stats.int as i128;
        let scaled = clamp_to_i64(div_floor(9 * strength, 20));
        let blow_damage: i64 = if scaled > 1 {
            scaled
        } else {
            1
        };
        // The blow goes for one target: whoever is not of our party and has
        // the largest share of hit points left.
        let roster = context.participants();
        let mut best: Option<usize> = None;
        let mut best_ratio: i64 = 0;
        let mut i: usize = 0;
        while i < roster.len()
            invariant
                i <= roster.len(),
                roster_view(roster@) == context@,
                match best {
                    Some(b) => best_opponent(context@, character@.party, i as nat) == Some(
                        b as int,
                    ) && b < i && best_ratio == context@[b as int].hp_ratio(),
                    None => best_opponent(context@, character@.party, i as nat) is None,
                },
            decreases roster.len() - i,
        {
            if !roster[i].party_check(character.party()) {
                let ratio = roster[i].hp_to_max_hp_ratio().millis();
                let better = match best {
                    Some(_) => !(best_ratio > ratio),
                    None => true,
                };
                if better {
                    best = Some(i);
                    best_ratio = ratio;
                }
            }
            i += 1;
        }
        let mut actions: Vec<Action> = Vec::new();
        match best {
            Some(b) => {
                let blow = ActionEffect::Attack(Damage(DamageType::PHY("Strike"), blow_damage));
                actions.push(Action::from_source(character.as_target(), blow, roster[b].as_target()));
            },
            None => {
            },
        }
        actions
    }
}

/// A counter: a reaction to an attack that can lower the damage that comes in
/// and strike back at the attacker.
#[derive(Clone, Copy, Debug)]
pub struct Counter {
    /// The damage this counter answers. With an empty subtype, as in
    /// `DamageType::PHY("")`, every subtype of that kind is answered; with a
    /// subtype only that one. Ultimate damage is never answered.
    pub damage_type: DamageType,
    /// What is left of the incoming damage. One leaves it as it is.
    pub incoming_factor: Factor,
    /// The share of the incoming damage that is dealt back. Zero deals
    /// nothing back.
    pub outgoing_factor: Factor,
}

/// Whether a counter for `filter` answers damage of type `incoming`.
///
/// The kinds must agree, and the filter's subtype must be empty or the very
/// subtype that comes in. Ultimate damage cannot be countered, and a filter
/// for ultimate damage answers nothing.
pub open spec fn counters(filter: DamageType, incoming: DamageType) -> bool {
    match (filter, incoming) {
        (DamageType::PHY(f), DamageType::PHY(s)) => f@.len() == 0 || f@ == s@,
        (DamageType::MAG(f), DamageType::MAG(s)) => f@.len() == 0 || f@ == s@,
        (DamageType::ZAP(f), DamageType::ZAP(s)) => f@.len() == 0 || f@ == s@,
        _ => false,
    }
}

/// What it costs to keep out part of the incoming damage:
/// `floor(10 * max(0, 0.7 - incoming))`. Letting through 70% or more is free.
pub open spec fn reduction_cost(incoming_millis: int) -> int {
    floor_div(10 * max_int(0, 700 - incoming_millis), 1000)
}

/// What it costs to strike back: `floor(15 * max(0, outgoing - 0.3))`.
/// Dealing back 30% or less is free.
pub open spec fn return_cost(outgoing_millis: int) -> int {
    floor_div(15 * max_int(0, outgoing_millis - 300), 1000)
}

impl Counter {
    /// A counter for damage of type `damage_type`.
    pub fn new(damage_type: DamageType, incoming_factor: Factor, outgoing_factor: Factor) -> (c:
        Counter)
        ensures
            c.damage_type == damage_type,
            c.incoming_factor == incoming_factor,
            c.outgoing_factor == outgoing_factor,
    {
        Counter { damage_type, incoming_factor, outgoing_factor }
    }

    /// Whether this counter answers damage of type `incoming`.
    pub fn relevant_for(&self, incoming: &DamageType) -> (relevant: bool)
        ensures
            relevant == counters(self.damage_type, *incoming),
    {
        // Ultimate damage cannot be blocked.
        if let DamageType::ULT = incoming {
            return false;
        }
        match self.damage_type {
            DamageType::PHY(s) => {
                if let DamageType::PHY(s2) = incoming {
                    // An empty subtype answers every physical subtype.
                    s.is_empty() || str_eq(s, s2)
                } else {
                    false
                }
            },
            DamageType::MAG(s) => {
                if let DamageType::MAG(s2) = incoming {
                    // An empty subtype answers every magical subtype.
                    s.is_empty() || str_eq(s, s2)
                } else {
                    false
                }
            },
            DamageType::ZAP(s) => {
                if let DamageType::ZAP(s2) = incoming {
                    // An empty subtype answers every zap subtype.
                    s.is_empty() || str_eq(s, s2)
                } else {
                    false
                }
            },
            DamageType::ULT => false,
        }
    }
}

impl Move for Counter {
    open spec fn spec_name(&self) -> Seq<char> {
        "Counter"@
    }

    open spec fn spec_describe(&self) -> Seq<char> {
        "Counter"@
    }

    open spec fn spec_mp_cost(&self) -> int {
        reduction_cost(self.incoming_factor.millis as int) + return_cost(
            self.outgoing_factor.millis as int,
        )
    }

    fn name(&self) -> (name: String) {
        String::from_str("Counter")
    }

    fn describe(&self) -> (text: String) {
        String::from_str("Counter")
    }

    /// The cost follows from the two factors.
    fn mp_cost(&self) -> (cost: i64) {
        let mut total_cost: i128 = 0;
        // Keeping out up to 30% of the damage is free.
        let red_cutoff: i128 = 700;
        if (self.incoming_factor.millis as i128) < red_cutoff {
            let red_cost = div_floor(10 * (red_cutoff - self.incoming_factor.millis as i128), 1000);
            total_cost = total_cost + red_cost;
        }
        // Dealing back up to 30% of the damage is free.
        let dmg_cutoff: i128 = 300;
        if (self.outgoing_factor.millis as i128) > dmg_cutoff {
            let dmg_cost = div_floor(15 * (self.outgoing_factor.millis as i128 - dmg_cutoff), 1000);
            total_cost = total_cost + dmg_cost;
        }
        clamp_to_i64(total_cost)
    }
}

impl Counter {
    /// The action that lowers the incoming damage, unless the factor is one.
    pub open spec fn reduction(self, character: CharacterView, action: ActionView) -> Seq<
        ActionView,
    > {
        if self.incoming_factor.millis != 1000 {
            seq![
                ActionView {
                    source: character.pointer(),
                    effect: ActionEffectView::AdjustDamageMul(self.incoming_factor),
                    target: PointerView::Action(action.stack_position->0),
                    stack_position: None,
                },
            ]
        } else {
            Seq::empty()
        }
    }

    /// The attack on the source of the incoming attack, unless the factor is
    /// zero: the same type of damage, the amount multiplied by the factor.
    pub open spec fn strike_back(
        self,
        character: CharacterView,
        action: ActionView,
        incoming: Damage,
    ) -> Seq<ActionView> {
        if self.outgoing_factor.millis != 0 {
            seq![
                ActionView {
                    source: character.pointer(),
                    effect: ActionEffectView::Attack(
                        Damage(
                            incoming.0,
                            clamp_i64(
                                scaled_trunc(self.outgoing_factor.millis as int, incoming.1 as int),
                            ) as i64,
                        ),
                    ),
                    target: action.source,
                    stack_position: None,
                },
            ]
        } else {
            Seq::empty()
        }
    }
}

impl Reaction for Counter {
    open spec fn spec_ap_cost(&self) -> int {
        3
    }

    /// A counter answers an attack that is aimed at the character itself and
    /// whose damage it is relevant for.
    open spec fn spec_react(&self, character: CharacterView, action: ActionView) -> Option<
        Seq<ActionView>,
    > {
        if !action.target.names(character.name) {
            None
        } else {
            match action.effect {
                ActionEffectView::Attack(damage) => if counters(self.damage_type, damage.0) {
                    Some(
                        self.reduction(character, action) + self.strike_back(
                            character,
                            action,
                            damage,
                        ),
                    )
                } else {
                    None
                },
                _ => None,
            }
        }
    }

    fn ap_cost(&self) -> (cost: i64) {
        3
    }

    fn react(&self, character: &Character, action: &Action) -> (answer: Option<Vec<Action>>) {
        // Requirement 1: the action is aimed at this very character.
        if !action.targets_character(character.name()) {
            return None;
        }
        // Requirement 2: the action is an attack.
        if let ActionEffect::Attack(damage) = action.get_effect() {
            let dt = *damage.dmg_type();
            // Requirement 3: the damage is of the type we counter.
            if self.relevant_for(&dt) {
                let mut res: Vec<Action> = Vec::new();
                // Possibly lower the incoming damage.
                if !self.incoming_factor.is_one() {
                    res.push(
                        Action::from_source(
                            character.as_target(),
                            ActionEffect::AdjustDamageMul(self.incoming_factor),
                            action.build_self_target(),
                        ),
                    );
                }
                // Possibly strike back.
                if !self.outgoing_factor.is_zero() {
                    res.push(
                        Action::from_source(
                            character.as_target(),
                            ActionEffect::Attack(
                                Damage(dt, self.outgoing_factor.scale_trunc(damage.amount())),
                            ),
                            action.get_source().clone(),
                        ),
                    );
                }
                Some(res)
            } else {
                None
            }
        } else {
            // This action is nothing a counter answers.
            None
        }
    }
}

/// Ultimate damage is never countered, and a counter for ultimate damage
/// answers nothing. A counter with an empty subtype answers every subtype of
/// its kind and nothing of another kind.
pub proof fn lemma_counter_relevance(filter: DamageType, incoming: DamageType)
    ensures
        incoming is ULT ==> !counters(filter, incoming),
        filter is ULT ==> !counters(filter, incoming),
        !filter.same_kind(incoming) ==> !counters(filter, incoming),
        filter.same_kind(incoming) && !(filter is ULT) && filter.subtype().len() == 0 ==> counters(
            filter,
            incoming,
        ),
        filter.same_kind(incoming) && !(filter is ULT) && filter.subtype().len() > 0 ==> (counters(
            filter,
            incoming,
        ) <==> filter.subtype() == incoming.subtype()),
{
}

/// A counter answers nothing but attacks that are aimed at its bearer and
/// that it is relevant for. So a counter for ultimate damage never reacts.
pub proof fn lemma_counter_reacts(c: Counter, character: CharacterView, action: ActionView)
    ensures
        c.spec_react(character, action) is Some <==> (action.target.names(character.name)
            && action.effect is Attack && counters(c.damage_type, action.effect->Attack_0.0)),
        c.damage_type is ULT ==> c.spec_react(character, action) is None,
{
}

/// A counter that lets half through and deals half back costs 2 + 3 mental
/// points, and the cost is never negative.
pub proof fn lemma_counter_cost(c: Counter)
    ensures
        c.spec_mp_cost() >= 0,
        c.incoming_factor.millis >= 700 && c.outgoing_factor.millis <= 300 ==> c.spec_mp_cost()
            == 0,
        c.incoming_factor.millis == 500 && c.outgoing_factor.millis == 500 ==> c.spec_mp_cost()
            == 5,
{
}

/// The closed set of maneuvers.
#[derive(Clone, Copy, Debug, PartialEq, Eq, Structural)]
pub enum ManeuverKind {
    /// The blow that every character can deal
    BarehandedBlow(BarehandedBlow),
}

/// The closed set of reactions.
#[derive(Clone, Copy, Debug)]
pub enum ReactionKind {
    /// A counter to an incoming attack
    Counter(Counter),
}

impl Move for ManeuverKind {
    open spec fn spec_name(&self) -> Seq<char> {
        match self {
            ManeuverKind::BarehandedBlow(m) => m.spec_name(),
        }
    }

    open spec fn spec_describe(&self) -> Seq<char> {
        match self {
            ManeuverKind::BarehandedBlow(m) => m.spec_describe(),
        }
    }

    open spec fn spec_mp_cost(&self) -> int {
        match self {
            ManeuverKind::BarehandedBlow(m) => m.spec_mp_cost(),
        }
    }

    fn name(&self) -> (name: String) {
        match self {
            ManeuverKind::BarehandedBlow(m) => m.name(),
        }
    }

    fn describe(&self) -> (text: String) {
        match self {
            ManeuverKind::BarehandedBlow(m) => m.describe(),
        }
    }

    fn mp_cost(&self) -> (cost: i64) {
        match self {
            ManeuverKind::BarehandedBlow(m) => m.mp_cost(),
        }
    }
}

impl Move for ReactionKind {
    open spec fn spec_name(&self) -> Seq<char> {
        match self {
            ReactionKind::Counter(r) => r.spec_name(),
        }
    }

    open spec fn spec_describe(&self) -> Seq<char> {
        match self {
            ReactionKind::Counter(r) => r.spec_describe(),
        }
    }

    open spec fn spec_mp_cost(&self) -> int {
        match self {
            ReactionKind::Counter(r) => r.spec_mp_cost(),
        }
    }

    fn name(&self) -> (name: String) {
        match self {
            ReactionKind::Counter(r) => r.name(),
        }
    }

    fn describe(&self) -> (text: String) {
        match self {
            ReactionKind::Counter(r) => r.describe(),
        }
    }

    fn mp_cost(&self) -> (cost: i64) {
        match self {
            ReactionKind::Counter(r) => r.mp_cost(),
        }
    }
}

impl Maneuver for ManeuverKind {
    open spec fn spec_execute(&self, character: CharacterView, roster: Seq<CharacterView>) -> Seq<
        ActionView,
    > {
        match self {
            ManeuverKind::BarehandedBlow(m) => m.spec_execute(character, roster),
        }
    }

    fn execute(&self, character: &Character, context: &Combat) -> (actions: Vec<Action>) {
        match self {
            ManeuverKind::BarehandedBlow(m) => m.execute(character, context),
        }
    }
}

impl Reaction for ReactionKind {
    open spec fn spec_ap_cost(&self) -> int {
        match self {
            ReactionKind::Counter(r) => r.spec_ap_cost(),
        }
    }

    open spec fn spec_react(&self, character: CharacterView, action: ActionView) -> Option<
        Seq<ActionView>,
    > {
        match self {
            ReactionKind::Counter(r) => r.spec_react(character, action),
        }
    }

    fn ap_cost(&self) -> (cost: i64) {
        match self {
            ReactionKind::Counter(r) => r.ap_cost(),
        }
    }

    fn react(&self, character: &Character, action: &Action) -> (answer: Option<Vec<Action>>) {
        match self {
            ReactionKind::Counter(r) => r.react(character, action),
        }
    }
}

/// Every reaction costs at least one action point, so a character cannot
/// react for ever.
pub proof fn lemma_reactions_cost(reaction: ReactionKind)
    ensures
        reaction.spec_ap_cost() >= 1,
        reaction.spec_mp_cost() >= 0,
{
}

} // verus!
