//! Passive effects: modifiers that an actor carries for some turns or for as
//! long as a piece of equipment is worn.
use vstd::prelude::*;
use crate::arith::{clamp_i64, sat_add};
use crate::characters::{CharStat, GameStats, Stats};
use crate::combat::DamageType;
use crate::factor::Factor;
use crate::order::{is_stable_order, stable_order, stable_order_of};
use crate::strutil::{decimal, magnitude, push_decimal};

verus! {

/// What every passive effect can do.
///
/// An effect changes the attributes or the derived capacities of the actor
/// that carries it. Effects are resolved in ascending [`Effect::effect_order`].
pub trait Effect {
    /// The attributes after this effect has been applied to `stats`.
    spec fn stats_after(&self, stats: Stats) -> Stats;

    /// The capacities after this effect has been applied to `stats`.
    spec fn game_stats_after(&self, stats: GameStats) -> GameStats;

    /// Whether the effect asks to end before its time is up.
    spec fn cancels(&self) -> bool;

    /// The priority of the effect: lower resolves first.
    spec fn order(&self) -> i64;

    /// A few words on the effect.
    spec fn description(&self) -> Seq<char>;

    /// Describes the effect in a few words.
    fn describe(&self) -> (text: String)
        ensures
            text@ == self.description(),
    ;

    /// Applies the effect to the attributes of its bearer.
    fn apply_to_stats(&self, stats: &mut Stats)
        ensures
            *final(stats) == self.stats_after(*old(stats)),
    ;

    /// Applies the effect to the derived capacities of its bearer.
    fn apply_to_game_stats(&self, stats: &mut GameStats)
        ensures
            *final(stats) == self.game_stats_after(*old(stats)),
    ;

    /// Asked once every turn of a timed effect: `true` ends it early.
    fn cancel_self(&self) -> (cancel: bool)
        ensures
            cancel == self.cancels(),
    ;

    /// The priority of the effect: the higher the number, the later it is
    /// applied.
    fn effect_order(&self) -> (order: i64)
        ensures
            order == self.order(),
    ;
}

/// Adds the wrapped amount to the attribute or capacity that its tag names.
#[derive(Clone, Copy, Debug, PartialEq, Eq, Structural)]
pub struct StatAdditive(pub CharStat);

/// Resistance to one type of damage. A negative factor is a vulnerability.
#[derive(Clone, Copy, Debug)]
pub struct DamageResistance(pub DamageType, pub Factor);

/// The closed set of effects.
#[derive(Clone, Copy, Debug)]
pub enum EffectKind {
    /// An additive change of an attribute or capacity
    StatAdditive(StatAdditive),
    /// A resistance or vulnerability
    DamageResistance(DamageResistance),
}

/// An effect together with the number of turns it has left.
#[derive(Clone, Copy, Debug)]
pub struct TimedEffect(pub EffectKind, pub i64);

/// `stats` with `delta` added to the attribute it names; capacities are left
/// to [`add_to_game_stats`].
pub open spec fn add_to_stats(delta: CharStat, stats: Stats) -> Stats {
    match delta {
        CharStat::STR(d) => Stats { str: clamp_i64(stats.str + d) as i64, ..stats },
        CharStat::DEX(d) => Stats { dex: clamp_i64(stats.dex + d) as i64, ..stats },
        CharStat::GRT(d) => Stats { grt: clamp_i64(stats.grt + d) as i64, ..stats },
        CharStat::WIL(d) => Stats { wil: clamp_i64(stats.wil + d) as i64, ..stats },
        CharStat::CHA(d) => Stats { cha: clamp_i64(stats.cha + d) as i64, ..stats },
        CharStat::INT(d) => Stats { int: clamp_i64(stats.int + d) as i64, ..stats },
        _ => stats,
    }
}

/// `stats` with `delta` added to the capacity it names; attributes are left
/// to [`add_to_stats`].
pub open spec fn add_to_game_stats(delta: CharStat, stats: GameStats) -> GameStats {
    match delta {
        CharStat::MHP(d) => GameStats { mhp: clamp_i64(stats.mhp + d) as i64, ..stats },
        CharStat::MMP(d) => GameStats { mmp: clamp_i64(stats.mmp + d) as i64, ..stats },
        CharStat::MAP(d) => GameStats { map: clamp_i64(stats.map + d) as i64, ..stats },
        CharStat::MVE(d) => GameStats { mve: clamp_i64(stats.mve + d) as i64, ..stats },
        CharStat::PDF(d) => GameStats { pdf: clamp_i64(stats.pdf + d) as i64, ..stats },
        CharStat::MDF(d) => GameStats { mdf: clamp_i64(stats.mdf + d) as i64, ..stats },
        CharStat::MOB(d) => GameStats { mob: clamp_i64(stats.mob + d) as i64, ..stats },
        CharStat::HRG(d) => GameStats { hrg: clamp_i64(stats.hrg + d) as i64, ..stats },
        CharStat::MRG(d) => GameStats { mrg: clamp_i64(stats.mrg + d) as i64, ..stats },
        CharStat::TAP(d) => GameStats { tap: clamp_i64(stats.tap + d) as i64, ..stats },
        _ => stats,
    }
}

impl Effect for StatAdditive {
    /// The sign, the amount and the name, as in `+5 DEX`.
    open spec fn description(&self) -> Seq<char> {
        (if self.0.spec_value() > 0 {
            "+"@
        } else {
            "-"@
        }) + decimal(
            (if self.0.spec_value() < 0 {
                -self.0.spec_value()
            } else {
                self.0.spec_value() as int
            }) as nat,
        ) + " "@ + self.0.spec_name()
    }

    fn describe(&self) -> (text: String) {
        let value = self.0.get_value();
        let mut text = String::from_str(
            if value > 0 {
                "+"
            } else {
                "-"
            },
        );
        push_decimal(&mut text, magnitude(value));
        text.append(" ");
        text.append(self.0.get_stat_name());
        text
    }

    open spec fn stats_after(&self, stats: Stats) -> Stats {
        add_to_stats(self.0, stats)
    }

    open spec fn game_stats_after(&self, stats: GameStats) -> GameStats {
        add_to_game_stats(self.0, stats)
    }

    open spec fn cancels(&self) -> bool {
        false
    }

    open spec fn order(&self) -> i64 {
        1
    }

    fn apply_to_stats(&self, stats: &mut Stats) {
        match self.0 {
            CharStat::STR(d) => {
                stats.str = sat_add(stats.str, d);
            },
            CharStat::DEX(d) => {
                stats.dex = sat_add(stats.dex, d);
            },
            CharStat::GRT(d) => {
                stats.grt = sat_add(stats.grt, d);
            },
            CharStat::WIL(d) => {
                stats.wil = sat_add(stats.wil, d);
            },
            CharStat::CHA(d) => {
                stats.cha = sat_add(stats.cha, d);
            },
            CharStat::INT(d) => {
                stats.int = sat_add(stats.int, d);
            },
            // The remaining tags name derived capacities.
            _ => {},
        }
    }

    fn apply_to_game_stats(&self, stats: &mut GameStats) {
        match self.0 {
            CharStat::MHP(d) => {
                stats.mhp = sat_add(stats.mhp, d);
            },
            CharStat::MMP(d) => {
                stats.mmp = sat_add(stats.mmp, d);
            },
            CharStat::MAP(d) => {
                stats.map = sat_add(stats.map, d);
            },
            CharStat::MVE(d) => {
                stats.mve = sat_add(stats.mve, d);
            },
            CharStat::PDF(d) => {
                stats.pdf = sat_add(stats.pdf, d);
            },
            CharStat::MDF(d) => {
                stats.mdf = sat_add(stats.mdf, d);
            },
            CharStat::MOB(d) => {
                stats.mob = sat_add(stats.mob, d);
            },
            CharStat::HRG(d) => {
                stats.hrg = sat_add(stats.hrg, d);
            },
            CharStat::MRG(d) => {
                stats.mrg = sat_add(stats.mrg, d);
            },
            CharStat::TAP(d) => {
                stats.tap = sat_add(stats.tap, d);
            },
            // The remaining tags name base attributes.
            _ => {},
        }
    }

    fn cancel_self(&self) -> (cancel: bool) {
        false
    }

    fn effect_order(&self) -> (order: i64) {
        1
    }
}

impl Effect for DamageResistance {
    /// The size of the factor in percent, whether it is a resistance or a
    /// vulnerability, and the type of damage, as in `50% RES to [MAG] Fire`.
    open spec fn description(&self) -> Seq<char> {
        decimal(
            ((if self.1.millis < 0 {
                -self.1.millis
            } else {
                self.1.millis as int
            }) / 10) as nat,
        ) + "% "@ + (if self.1.millis > 0 {
            "RES"@
        } else {
            "VUL"@
        }) + " to "@ + self.0.display()
    }

    fn describe(&self) -> (text: String) {
        let in_percentpoints = magnitude(self.1.millis) / 10;
        let mut text = String::new();
        push_decimal(&mut text, in_percentpoints);
        text.append("% ");
        text.append(
            if self.1.millis > 0 {
                "RES"
            } else {
                "VUL"
            },
        );
        text.append(" to ");
        text.append(self.0.to_string().as_str());
        text
    }

    open spec fn stats_after(&self, stats: Stats) -> Stats {
        stats
    }

    open spec fn game_stats_after(&self, stats: GameStats) -> GameStats {
        stats
    }

    open spec fn cancels(&self) -> bool {
        false
    }

    /// Multiplicative effects come after the additive ones.
    open spec fn order(&self) -> i64 {
        10
    }

    fn apply_to_stats(&self, stats: &mut Stats) {
    }

    fn apply_to_game_stats(&self, stats: &mut GameStats) {
    }

    fn cancel_self(&self) -> (cancel: bool) {
        false
    }

    fn effect_order(&self) -> (order: i64) {
        10
    }
}

impl Effect for EffectKind {
    open spec fn description(&self) -> Seq<char> {
        match self {
            EffectKind::StatAdditive(e) => e.description(),
            EffectKind::DamageResistance(e) => e.description(),
        }
    }

    fn describe(&self) -> (text: String) {
        match self {
            EffectKind::StatAdditive(e) => e.describe(),
            EffectKind::DamageResistance(e) => e.describe(),
        }
    }

    open spec fn stats_after(&self, stats: Stats) -> Stats {
        match self {
            EffectKind::StatAdditive(e) => e.stats_after(stats),
            EffectKind::DamageResistance(e) => e.stats_after(stats),
        }
    }

    open spec fn game_stats_after(&self, stats: GameStats) -> GameStats {
        match self {
            EffectKind::StatAdditive(e) => e.game_stats_after(stats),
            EffectKind::DamageResistance(e) => e.game_stats_after(stats),
        }
    }

    open spec fn cancels(&self) -> bool {
        match self {
            EffectKind::StatAdditive(e) => e.cancels(),
            EffectKind::DamageResistance(e) => e.cancels(),
        }
    }

    open spec fn order(&self) -> i64 {
        match self {
            EffectKind::StatAdditive(e) => e.order(),
            EffectKind::DamageResistance(e) => e.order(),
        }
    }

    fn apply_to_stats(&self, stats: &mut Stats) {
        match self {
            EffectKind::StatAdditive(e) => e.apply_to_stats(stats),
            EffectKind::DamageResistance(e) => e.apply_to_stats(stats),
        }
    }

    fn apply_to_game_stats(&self, stats: &mut GameStats) {
        match self {
            EffectKind::StatAdditive(e) => e.apply_to_game_stats(stats),
            EffectKind::DamageResistance(e) => e.apply_to_game_stats(stats),
        }
    }

    fn cancel_self(&self) -> (cancel: bool) {
        match self {
            EffectKind::StatAdditive(e) => e.cancel_self(),
            EffectKind::DamageResistance(e) => e.cancel_self(),
        }
    }

    fn effect_order(&self) -> (order: i64) {
        match self {
            EffectKind::StatAdditive(e) => e.effect_order(),
            EffectKind::DamageResistance(e) => e.effect_order(),
        }
    }
}

/// The priorities of a list of effects.
pub open spec fn effect_orders(effects: Seq<EffectKind>) -> Seq<i64> {
    Seq::new(effects.len(), |i: int| effects[i].order())
}

/// The effects in the order in which they resolve: ascending by priority,
/// earlier entry first among equals.
pub open spec fn in_resolution_order(effects: Seq<EffectKind>) -> Seq<EffectKind> {
    let order = stable_order(effect_orders(effects));
    Seq::new(effects.len(), |i: int| effects[order[i] as int])
}

/// `stats` after each of `effects` has been applied in turn.
pub open spec fn stats_after_all(effects: Seq<EffectKind>, stats: Stats) -> Stats
    decreases effects.len(),
{
    if effects.len() == 0 {
        stats
    } else {
        effects.last().stats_after(stats_after_all(effects.drop_last(), stats))
    }
}

/// `stats` after each of `effects` has been applied in turn.
pub open spec fn game_stats_after_all(effects: Seq<EffectKind>, stats: GameStats) -> GameStats
    decreases effects.len(),
{
    if effects.len() == 0 {
        stats
    } else {
        effects.last().game_stats_after(game_stats_after_all(effects.drop_last(), stats))
    }
}

/// Sorts effects into the order in which they resolve.
pub fn sort_for_resolution(effects: &Vec<EffectKind>) -> (sorted: Vec<EffectKind>)
    ensures
        sorted@ == in_resolution_order(effects@),
{
    let mut keys: Vec<i64> = Vec::new();
    let mut i: usize = 0;
    while i < effects.len()
        invariant
            i <= effects.len(),
            keys@ == effect_orders(effects@).take(i as int),
        decreases effects.len() - i,
    {
        keys.push(effects[i].effect_order());
        i += 1;
    }
    assert(keys@ =~= effect_orders(effects@));
    let order = stable_order_of(&keys);
    let mut sorted: Vec<EffectKind> = Vec::new();
    let mut k: usize = 0;
    while k < order.len()
        invariant
            k <= order.len(),
            order@ == stable_order(effect_orders(effects@)),
            is_stable_order(effect_orders(effects@), order@),
            order.len() == effects.len(),
            sorted@ == in_resolution_order(effects@).take(k as int),
        decreases order.len() - k,
    {
        let at = order[k];
        sorted.push(effects[at]);
        k += 1;
    }
    sorted
}

/// Applies each effect in turn to `stats`.
pub fn apply_all_to_stats(effects: &Vec<EffectKind>, stats: &mut Stats)
    ensures
        *final(stats) == stats_after_all(effects@, *old(stats)),
{
    let mut i: usize = 0;
    while i < effects.len()
        invariant
            i <= effects.len(),
            *stats == stats_after_all(effects@.take(i as int), *old(stats)),
        decreases effects.len() - i,
    {
        proof {
            assert(effects@.take(i + 1).drop_last() =~= effects@.take(i as int));
        }
        effects[i].apply_to_stats(stats);
        i += 1;
    }
    assert(effects@.take(effects.len() as int) =~= effects@);
}

/// Applies each effect in turn to `stats`.
pub fn apply_all_to_game_stats(effects: &Vec<EffectKind>, stats: &mut GameStats)
    ensures
        *final(stats) == game_stats_after_all(effects@, *old(stats)),
{
    let mut i: usize = 0;
    while i < effects.len()
        invariant
            i <= effects.len(),
            *stats == game_stats_after_all(effects@.take(i as int), *old(stats)),
        decreases effects.len() - i,
    {
        proof {
            assert(effects@.take(i + 1).drop_last() =~= effects@.take(i as int));
        }
        effects[i].apply_to_game_stats(stats);
        i += 1;
    }
    assert(effects@.take(effects.len() as int) =~= effects@);
}

} // verus!
