//! Base attributes, the capacities derived from them, and the characters that
//! carry them.
use vstd::prelude::*;
use crate::arith::{clamp_i64, clamp_to_i64, div_floor, div_trunc, floor_div, max_int, min_int, sat_add, sat_sub, trunc_div};
use crate::combat::{
    actions_view, Action, ActionView, Actor, Damage, DamageType, EntityPointer, PointerView,
};
use crate::effects::{
    apply_all_to_game_stats, apply_all_to_stats, game_stats_after_all, in_resolution_order,
    sort_for_resolution, stats_after_all, Effect, EffectKind, TimedEffect,
};
use crate::equipment::{Equipment, EquipmentType, EquipmentView};
use crate::factor::{ratio_millis, Factor};
use crate::mov::{
    lemma_reactions_cost, BarehandedBlow, ManeuverKind, Move, Reaction, ReactionKind,
};
use crate::strutil::{decimal, push_decimal, push_signed, signed_decimal, str_len, byte_len};
use crate::text::text_util::{labelled_bar, render_bar_with_num};
use crate::text::{
    enriched, fitted, shortened, split_words, word_entries, BarStyle,
    InfoGrid, InfoLine, MakesWords, TextFormatting,
};

verus! {

/// The six base attributes of a game entity.
///
/// They change during play: every active effect may add to or take from them.
/// All combat capacities are derived from them, see [`GameStats`].
#[derive(Clone, Copy, Debug, PartialEq, Eq, Structural)]
pub struct Stats {
    /// Dexterity
    pub dex: i64,
    /// Strength
    pub str: i64,
    /// Grit
    pub grt: i64,
    /// Willpower
    pub wil: i64,
    /// Charisma
    pub cha: i64,
    /// Intelligence
    pub int: i64,
}

/// The combat capacities of a character, derived from [`Stats`].
#[derive(Clone, Copy, Debug, PartialEq, Eq, Structural)]
pub struct GameStats {
    /// Maximum hit points
    pub mhp: i64,
    /// Maximum mental points
    pub mmp: i64,
    /// Maximum action points
    pub map: i64,
    /// Maximum movement distance per turn
    pub mve: i64,
    /// Physical defense
    pub pdf: i64,
    /// Magical defense
    pub mdf: i64,
    /// Mobility
    pub mob: i64,
    /// Hit points regained per turn
    pub hrg: i64,
    /// Mental points regained per turn
    pub mrg: i64,
    /// Action points regained per turn
    pub tap: i64,
}

/// A list of requirements with one more: an attribute above zero joins the
/// list with its name, behind a comma where the list holds something already.
pub open spec fn with_req(base: Seq<char>, value: i64, name: Seq<char>) -> Seq<char> {
    if value > 0 {
        (if base.len() > 0 {
            base + ", "@
        } else {
            base
        }) + signed_decimal(value as int) + " "@ + name
    } else {
        base
    }
}

/// Appends one requirement to a list: see [`with_req`].
pub fn append_req(base: &mut String, value: i64, name: &str)
    ensures
        final(base)@ == with_req(old(base)@, value, name@),
{
    if value > 0 {
        if !base.as_str().is_empty() {
            base.append(", ");
        }
        push_signed(base, value);
        base.append(" ");
        base.append(name);
    }
}

/// The largest magnitude of an attribute for which no derived capacity
/// leaves the range of `i64`.
pub const MODERATE_STAT: i64 = 1_000_000_000_000_000;

impl Stats {
    /// `100 + 12 * ((GRT + WIL) * 2 + STR + CHA)`
    pub open spec fn spec_max_hp(self) -> int {
        clamp_i64(100 + 12 * ((self.grt + self.wil) * 2 + self.str + self.cha))
    }

    /// `2 * ((INT + CHA) * 2 + WIL + DEX)`
    pub open spec fn spec_max_mp(self) -> int {
        clamp_i64(2 * ((self.int + self.cha) * 2 + self.wil + self.dex))
    }

    /// `floor(0.2 * ((DEX + INT + WIL) * 2 + GRT))`
    pub open spec fn spec_max_ap(self) -> int {
        clamp_i64(floor_div((self.dex + self.int + self.wil) * 2 + self.grt, 5))
    }

    /// `1 + floor(0.05 * ((DEX + INT) * 2 + GRT + WIL))`
    pub open spec fn spec_action_points(self) -> int {
        clamp_i64(1 + floor_div((self.dex + self.int) * 2 + self.grt + self.wil, 20))
    }

    /// No attribute adds to the movement distance.
    pub open spec fn spec_move_speed(self) -> int {
        0
    }

    /// `floor(1.2 * (GRT + STR))`
    pub open spec fn spec_phys_defense(self) -> int {
        clamp_i64(floor_div(6 * (self.grt + self.str), 5))
    }

    /// `floor(1.2 * (WIL + CHA))`
    pub open spec fn spec_mag_defense(self) -> int {
        clamp_i64(floor_div(6 * (self.wil + self.cha), 5))
    }

    /// `floor(1.2 * (DEX + INT))`
    pub open spec fn spec_mobility(self) -> int {
        clamp_i64(floor_div(6 * (self.dex + self.int), 5))
    }

    /// `1 + floor(0.60 * (2 * GRT + WIL + STR))`
    pub open spec fn spec_health_regen(self) -> int {
        clamp_i64(1 + floor_div(3 * (2 * self.grt + self.wil + self.str), 5))
    }

    /// `1 + floor(0.33 * (2 * WIL + CHA + INT))`
    pub open spec fn spec_magic_regen(self) -> int {
        clamp_i64(1 + floor_div(33 * (2 * self.wil + self.cha + self.int), 100))
    }

    /// `15 * (4 * GRT + 3 * WIL + STR + CHA)`
    pub open spec fn spec_max_vit(self) -> int {
        clamp_i64(15 * (4 * self.grt + 3 * self.wil + self.str + self.cha))
    }

    /// All derived capacities at once.
    pub open spec fn spec_game_stats(self) -> GameStats {
        GameStats {
            mhp: self.spec_max_hp() as i64,
            mmp: self.spec_max_mp() as i64,
            map: self.spec_max_ap() as i64,
            mve: self.spec_move_speed() as i64,
            pdf: self.spec_phys_defense() as i64,
            mdf: self.spec_mag_defense() as i64,
            mob: self.spec_mobility() as i64,
            hrg: self.spec_health_regen() as i64,
            mrg: self.spec_magic_regen() as i64,
            tap: self.spec_action_points() as i64,
        }
    }

    /// Every attribute is at least the matching attribute of `req`.
    pub open spec fn spec_meets(self, req: Stats) -> bool {
        &&& self.dex >= req.dex
        &&& self.str >= req.str
        &&& self.grt >= req.grt
        &&& self.wil >= req.wil
        &&& self.cha >= req.cha
        &&& self.int >= req.int
    }

    /// The requirements that these attributes stand for, as text.
    pub open spec fn spec_req_string(self) -> Seq<char> {
        with_req(
            with_req(
                with_req(
                    with_req(
                        with_req(with_req(Seq::empty(), self.dex, "DEX"@), self.str, "STR"@),
                        self.grt,
                        "GRT"@,
                    ),
                    self.wil,
                    "WIL"@,
                ),
                self.cha,
                "CHA"@,
            ),
            self.int,
            "INT"@,
        )
    }

    /// No attribute is beyond [`MODERATE_STAT`] in either direction.
    pub open spec fn moderate(self) -> bool {
        &&& -MODERATE_STAT <= self.dex <= MODERATE_STAT
        &&& -MODERATE_STAT <= self.str <= MODERATE_STAT
        &&& -MODERATE_STAT <= self.grt <= MODERATE_STAT
        &&& -MODERATE_STAT <= self.wil <= MODERATE_STAT
        &&& -MODERATE_STAT <= self.cha <= MODERATE_STAT
        &&& -MODERATE_STAT <= self.int <= MODERATE_STAT
    }

    /// Maximum hit points.
    pub fn max_hp(&self) -> (r: i64)
        ensures
            r == self.spec_max_hp(),
    {
        let stat_factor: i128 = (self.grt as i128 + self.wil as i128) * 2 + self.str as i128
            + self.cha as i128;
        clamp_to_i64(100 + stat_factor * 12)
    }

    /// Maximum mental points.
    pub fn max_mp(&self) -> (r: i64)
        ensures
            r == self.spec_max_mp(),
    {
        let stat_factor: i128 = (self.int as i128 + self.cha as i128) * 2 + self.wil as i128
            + self.dex as i128;
        clamp_to_i64(stat_factor * 2)
    }

    /// Maximum action points.
    pub fn max_ap(&self) -> (r: i64)
        ensures
            r == self.spec_max_ap(),
    {
        let stat_factor: i128 = (self.dex as i128 + self.int as i128 + self.wil as i128) * 2
            + self.grt as i128;
        clamp_to_i64(div_floor(stat_factor, 5))
    }

    /// Action points regained per turn, at least one for moderate attributes
    /// that are not negative.
    pub fn action_points(&self) -> (r: i64)
        ensures
            r == self.spec_action_points(),
    {
        let stat_factor: i128 = (self.dex as i128 + self.int as i128) * 2 + self.grt as i128
            + self.wil as i128;
        clamp_to_i64(1 + div_floor(stat_factor, 20))
    }

    /// Maximum movement distance for a single turn.
    pub fn move_speed(&self) -> (r: i64)
        ensures
            r == self.spec_move_speed(),
    {
        0
    }

    /// Physical defense.
    pub fn phys_defense(&self) -> (r: i64)
        ensures
            r == self.spec_phys_defense(),
    {
        let stat_factor: i128 = self.grt as i128 + self.str as i128;
        clamp_to_i64(div_floor(6 * stat_factor, 5))
    }

    /// Magical defense.
    pub fn mag_defense(&self) -> (r: i64)
        ensures
            r == self.spec_mag_defense(),
    {
        let stat_factor: i128 = self.wil as i128 + self.cha as i128;
        clamp_to_i64(div_floor(6 * stat_factor, 5))
    }

    /// Mobility, which sets the turn order.
    pub fn mobility(&self) -> (r: i64)
        ensures
            r == self.spec_mobility(),
    {
        let stat_factor: i128 = self.dex as i128 + self.int as i128;
        clamp_to_i64(div_floor(6 * stat_factor, 5))
    }

    /// Hit points regained per turn.
    pub fn health_regen(&self) -> (r: i64)
        ensures
            r == self.spec_health_regen(),
    {
        let stat_factor: i128 = self.grt as i128 * 2 + self.wil as i128 + self.str as i128;
        clamp_to_i64(1 + div_floor(3 * stat_factor, 5))
    }

    /// Mental points regained per turn.
    pub fn magic_regen(&self) -> (r: i64)
        ensures
            r == self.spec_magic_regen(),
    {
        let stat_factor: i128 = self.wil as i128 * 2 + self.cha as i128 + self.int as i128;
        clamp_to_i64(1 + div_floor(33 * stat_factor, 100))
    }

    /// Runs every derivation and collects the results.
    pub fn to_game_stats(&self) -> (g: GameStats)
        ensures
            g == self.spec_game_stats(),
    {
        GameStats {
            mhp: self.max_hp(),
            mmp: self.max_mp(),
            tap: self.action_points(),
            mve: self.move_speed(),
            pdf: self.phys_defense(),
            mdf: self.mag_defense(),
            mob: self.mobility(),
            hrg: self.health_regen(),
            mrg: self.magic_regen(),
            map: self.max_ap(),
        }
    }

    /// A copy of these attributes.
    pub fn copy(&self) -> (s: Stats)
        ensures
            s == *self,
    {
        Stats {
            dex: self.dex,
            str: self.str,
            grt: self.grt,
            wil: self.wil,
            cha: self.cha,
            int: self.int,
        }
    }

    /// The vitality a character starts out with after resting.
    pub fn max_vit(&self) -> (r: i64)
        ensures
            r == self.spec_max_vit(),
    {
        let stat_factor: i128 = self.grt as i128 * 4 + self.wil as i128 * 3 + self.str as i128
            + self.cha as i128;
        clamp_to_i64(stat_factor * 15)
    }

    /// These attributes as a list of requirements: every attribute above
    /// zero with its name, as in `5 DEX, 3 STR`.
    pub fn format_as_req_string(&self) -> (text: String)
        ensures
            text@ == self.spec_req_string(),
    {
        let mut requirements = String::new();
        append_req(&mut requirements, self.dex, "DEX");
        append_req(&mut requirements, self.str, "STR");
        append_req(&mut requirements, self.grt, "GRT");
        append_req(&mut requirements, self.wil, "WIL");
        append_req(&mut requirements, self.cha, "CHA");
        append_req(&mut requirements, self.int, "INT");
        requirements
    }

    /// Whether these attributes meet the minimum that `req` asks of each.
    pub fn meets_requirements(&self, req: &Stats) -> (b: bool)
        ensures
            b == self.spec_meets(*req),
    {
        self.dex >= req.dex && self.str >= req.str && self.grt >= req.grt && self.wil >= req.wil
            && self.cha >= req.cha && self.int >= req.int
    }
}

/// For moderate attributes every derived capacity is the plain formula: the
/// clamp to `i64` never takes hold.
pub proof fn lemma_derivation_exact(s: Stats)
    requires
        s.moderate(),
    ensures
        s.spec_max_hp() == 100 + 12 * ((s.grt + s.wil) * 2 + s.str + s.cha),
        s.spec_max_mp() == 2 * ((s.int + s.cha) * 2 + s.wil + s.dex),
        s.spec_max_ap() == ((s.dex + s.int + s.wil) * 2 + s.grt) / 5,
        s.spec_action_points() == 1 + ((s.dex + s.int) * 2 + s.grt + s.wil) / 20,
        s.spec_phys_defense() == (6 * (s.grt + s.str)) / 5,
        s.spec_mag_defense() == (6 * (s.wil + s.cha)) / 5,
        s.spec_mobility() == (6 * (s.dex + s.int)) / 5,
        s.spec_health_regen() == 1 + (3 * (2 * s.grt + s.wil + s.str)) / 5,
        s.spec_magic_regen() == 1 + (33 * (2 * s.wil + s.cha + s.int)) / 100,
        s.spec_max_vit() == 15 * (4 * s.grt + 3 * s.wil + s.str + s.cha),
{
}

/// Derivation is a function of the attributes alone: equal attributes give
/// equal capacities, and deriving twice gives the same result.
pub proof fn lemma_derivation_pure(a: Stats, b: Stats)
    requires
        a == b,
    ensures
        a.spec_game_stats() == b.spec_game_stats(),
        a.spec_max_vit() == b.spec_max_vit(),
{
}

impl GameStats {
    /// The capacities as text: they have none of their own.
    pub fn to_string(&self) -> (text: String)
        ensures
            text@ == Seq::<char>::empty(),
    {
        String::new()
    }

    /// Maximum hit points
    pub fn mhp(&self) -> (r: i64)
        ensures
            r == self.mhp,
    {
        self.mhp
    }

    /// Maximum mental points
    pub fn mmp(&self) -> (r: i64)
        ensures
            r == self.mmp,
    {
        self.mmp
    }

    /// Maximum action points
    pub fn max_ap(&self) -> (r: i64)
        ensures
            r == self.map,
    {
        self.map
    }

    /// Action points regained per turn
    pub fn tap(&self) -> (r: i64)
        ensures
            r == self.tap,
    {
        self.tap
    }

    /// Maximum movement distance per turn
    pub fn mve(&self) -> (r: i64)
        ensures
            r == self.mve,
    {
        self.mve
    }

    /// Physical defense
    pub fn pdf(&self) -> (r: i64)
        ensures
            r == self.pdf,
    {
        self.pdf
    }

    /// Magical defense
    pub fn mdf(&self) -> (r: i64)
        ensures
            r == self.mdf,
    {
        self.mdf
    }

    /// Mobility
    pub fn mob(&self) -> (r: i64)
        ensures
            r == self.mob,
    {
        self.mob
    }

    /// Hit points regained per turn
    pub fn hrg(&self) -> (r: i64)
        ensures
            r == self.hrg,
    {
        self.hrg
    }

    /// Mental points regained per turn
    pub fn mrg(&self) -> (r: i64)
        ensures
            r == self.mrg,
    {
        self.mrg
    }
}

/// An amount of one of the units a character manages during its lifetime.
///
/// Unlike the passive [`Stats`], these vary all the time: characters lose and
/// heal hit points, use up and regain mental and action points.
#[derive(Clone, Copy, Debug, PartialEq, Eq, Structural)]
pub enum CharUnit {
    /// An amount of hit points.
    HP(i64),
    /// An amount of mental points.
    MP(i64),
    /// An amount of action points.
    AP(i64),
    /// An amount of vitality.
    VIT(i64),
}

impl CharUnit {
    /// The amount, whatever the unit.
    pub open spec fn spec_value(self) -> i64 {
        match self {
            CharUnit::HP(v) => v,
            CharUnit::MP(v) => v,
            CharUnit::AP(v) => v,
            CharUnit::VIT(v) => v,
        }
    }

    /// The unit's name in capitals.
    pub open spec fn spec_name(self) -> Seq<char> {
        match self {
            CharUnit::HP(_) => "HP"@,
            CharUnit::MP(_) => "MP"@,
            CharUnit::AP(_) => "AP"@,
            CharUnit::VIT(_) => "VIT"@,
        }
    }

    /// The tag under which the unit is styled.
    pub open spec fn spec_info_class(self) -> Seq<char> {
        match self {
            CharUnit::HP(_) => "hp"@,
            CharUnit::MP(_) => "mp"@,
            CharUnit::AP(_) => "ap"@,
            CharUnit::VIT(_) => "vit"@,
        }
    }

    /// The unit's name in capitals.
    pub fn unit_name(&self) -> (s: &'static str)
        ensures
            s@ == self.spec_name(),
    {
        match self {
            CharUnit::HP(_) => "HP",
            CharUnit::MP(_) => "MP",
            CharUnit::AP(_) => "AP",
            CharUnit::VIT(_) => "VIT",
        }
    }

    /// The tag under which the unit is styled.
    pub fn info_class(&self) -> (s: &'static str)
        ensures
            s@ == self.spec_info_class(),
    {
        match self {
            CharUnit::HP(_) => "hp",
            CharUnit::MP(_) => "mp",
            CharUnit::AP(_) => "ap",
            CharUnit::VIT(_) => "vit",
        }
    }

    /// The amount, whatever the unit.
    pub fn unit_value(&self) -> (v: i64)
        ensures
            v == self.spec_value(),
    {
        match self {
            CharUnit::HP(v) => *v,
            CharUnit::MP(v) => *v,
            CharUnit::AP(v) => *v,
            CharUnit::VIT(v) => *v,
        }
    }
}

/// What is left of `len` characters after `taken` of them.
pub open spec fn room_after(len: nat, taken: nat) -> nat {
    if taken > len {
        0
    } else {
        (len - taken) as nat
    }
}

/// What is left of `len` characters after `taken` of them.
pub fn room_left(len: usize, taken: usize) -> (left: usize)
    ensures
        left == room_after(len as nat, taken as nat),
{
    if taken > len {
        0
    } else {
        len - taken
    }
}

/// An amount tells itself in two words: the amount in five characters, and
/// the unit.
impl MakesWords for CharUnit {
    open spec fn words(&self, formatting: TextFormatting) -> Seq<(Seq<char>, usize)> {
        word_entries(
            formatting,
            split_words(shortened(self.spec_value() as int, 5)),
            "amount"@,
            None,
        ) + word_entries(formatting, split_words(self.spec_name()), self.spec_name(), None)
    }

    fn format_words(&self, formatting: TextFormatting) -> (words: Vec<(String, usize)>) {
        // The amount
        let mut output = formatting.to_words(
            self.unit_value().format_line(5, formatting),
            "amount",
            None,
        );
        // The unit
        let mut unit = formatting.to_words(
            String::from_str(self.unit_name()),
            self.unit_name(),
            None,
        );
        output.append(&mut unit);
        output
    }
}

/// An amount shows itself in one line, as in `15 HP` or `-50 MP`.
impl InfoLine for CharUnit {
    open spec fn line(&self, len: usize, formatting: TextFormatting) -> Seq<char> {
        enriched(
            formatting,
            shortened(
                self.spec_value() as int,
                room_after(len as nat, byte_len(self.spec_name()) + 1),
            ) + " "@ + self.spec_name(),
            self.spec_info_class(),
            None,
        )
    }

    fn format_line(&self, len: usize, formatting: TextFormatting) -> (s: String) {
        let name = self.unit_name();
        let taken = str_len(name);
        let room = if taken < usize::MAX {
            room_left(len, taken + 1)
        } else {
            0
        };
        let mut text = self.unit_value().format_line(room, formatting);
        text.append(" ");
        text.append(name);
        formatting.enrich_text(text, self.info_class(), None)
    }
}

/// A tagged amount of one base attribute or one derived capacity.
#[derive(Clone, Copy, Debug, PartialEq, Eq, Structural)]
pub enum CharStat {
    /// Strength
    STR(i64),
    /// Dexterity
    DEX(i64),
    /// Grit
    GRT(i64),
    /// Willpower
    WIL(i64),
    /// Charisma
    CHA(i64),
    /// Intelligence
    INT(i64),
    /// Maximum hit points
    MHP(i64),
    /// Maximum mental points
    MMP(i64),
    /// Maximum action points
    MAP(i64),
    /// Maximum movement distance per turn
    MVE(i64),
    /// Physical defense
    PDF(i64),
    /// Magical defense
    MDF(i64),
    /// Mobility
    MOB(i64),
    /// Hit points regained per turn
    HRG(i64),
    /// Mental points regained per turn
    MRG(i64),
    /// Action points regained per turn
    TAP(i64),
}

impl CharStat {
    /// The amount, whatever the tag.
    pub open spec fn spec_value(self) -> i64 {
        match self {
            CharStat::STR(v) => v,
            CharStat::DEX(v) => v,
            CharStat::GRT(v) => v,
            CharStat::WIL(v) => v,
            CharStat::CHA(v) => v,
            CharStat::INT(v) => v,
            CharStat::MHP(v) => v,
            CharStat::MMP(v) => v,
            CharStat::MAP(v) => v,
            CharStat::MVE(v) => v,
            CharStat::PDF(v) => v,
            CharStat::MDF(v) => v,
            CharStat::MOB(v) => v,
            CharStat::HRG(v) => v,
            CharStat::MRG(v) => v,
            CharStat::TAP(v) => v,
        }
    }

    /// The three-letter name of the tag.
    pub open spec fn spec_name(self) -> Seq<char> {
        match self {
            CharStat::STR(_) => "STR"@,
            CharStat::DEX(_) => "DEX"@,
            CharStat::GRT(_) => "GRT"@,
            CharStat::WIL(_) => "WIL"@,
            CharStat::CHA(_) => "CHA"@,
            CharStat::INT(_) => "INT"@,
            CharStat::MHP(_) => "MHP"@,
            CharStat::MMP(_) => "MMP"@,
            CharStat::MAP(_) => "MAP"@,
            CharStat::MVE(_) => "MVE"@,
            CharStat::PDF(_) => "PDF"@,
            CharStat::MDF(_) => "MDF"@,
            CharStat::MOB(_) => "MOB"@,
            CharStat::HRG(_) => "HRG"@,
            CharStat::MRG(_) => "MRG"@,
            CharStat::TAP(_) => "TAP"@,
        }
    }

    /// The amount, whatever the tag.
    pub fn get_value(&self) -> (v: i64)
        ensures
            v == self.spec_value(),
    {
        match self {
            CharStat::STR(v) => *v,
            CharStat::DEX(v) => *v,
            CharStat::GRT(v) => *v,
            CharStat::WIL(v) => *v,
            CharStat::CHA(v) => *v,
            CharStat::INT(v) => *v,
            CharStat::MHP(v) => *v,
            CharStat::MMP(v) => *v,
            CharStat::MAP(v) => *v,
            CharStat::MVE(v) => *v,
            CharStat::PDF(v) => *v,
            CharStat::MDF(v) => *v,
            CharStat::MOB(v) => *v,
            CharStat::HRG(v) => *v,
            CharStat::MRG(v) => *v,
            CharStat::TAP(v) => *v,
        }
    }

    /// The three-letter name of the tag.
    pub fn get_stat_name(&self) -> (s: &'static str)
        ensures
            s@ == self.spec_name(),
    {
        match self {
            CharStat::STR(_) => "STR",
            CharStat::DEX(_) => "DEX",
            CharStat::GRT(_) => "GRT",
            CharStat::WIL(_) => "WIL",
            CharStat::CHA(_) => "CHA",
            CharStat::INT(_) => "INT",
            CharStat::MHP(_) => "MHP",
            CharStat::MMP(_) => "MMP",
            CharStat::MAP(_) => "MAP",
            CharStat::MVE(_) => "MVE",
            CharStat::PDF(_) => "PDF",
            CharStat::MDF(_) => "MDF",
            CharStat::MOB(_) => "MOB",
            CharStat::HRG(_) => "HRG",
            CharStat::MRG(_) => "MRG",
            CharStat::TAP(_) => "TAP",
        }
    }
}

/// How many pieces of equipment a character can wear unless it is given
/// another limit.
pub const DEFAULT_EQUIPMENT_CAP: usize = 3;

/// Why a piece of equipment could not be put on.
#[derive(Clone, Copy, Debug, PartialEq, Eq, Structural)]
pub enum EquipError {
    /// The character already wears as many pieces as it can; the limit is
    /// attached.
    CapacityExceeded(usize),
    /// The character's current attributes are below what the piece asks.
    RequirementUnmet,
    /// The character already wears as many pieces of this type as anyone can.
    TypeCapExceeded(EquipmentType),
}

impl EquipError {
    /// The reason in words.
    pub open spec fn spec_message(self) -> Seq<char> {
        match self {
            EquipError::CapacityExceeded(cap) => "Cannot equip more than "@ + decimal(cap as nat)
                + " items."@,
            EquipError::RequirementUnmet => "Not meeting the stat requirement."@,
            EquipError::TypeCapExceeded(t) => "Cannot equip more "@ + t.display(),
        }
    }

    /// The reason in words.
    pub fn to_string(&self) -> (text: String)
        ensures
            text@ == self.spec_message(),
    {
        match self {
            EquipError::CapacityExceeded(cap) => {
                let mut text = String::from_str("Cannot equip more than ");
                push_decimal(&mut text, *cap as u64);
                text.append(" items.");
                text
            },
            EquipError::RequirementUnmet => String::from_str("Not meeting the stat requirement."),
            EquipError::TypeCapExceeded(t) => {
                let mut text = String::from_str("Cannot equip more ");
                text.append(t.to_string().as_str());
                text
            },
        }
    }
}

/// The key actors of the game world.
pub struct Character {
    /// The name, by which actions address the character.
    name: String,
    /// The player who owns and controls the character, if any.
    owner: Option<String>,
    /// Characters are friendly to those of their party and unfriendly to all
    /// others.
    party: String,
    /// The attributes before any effect.
    base_stats: Stats,
    /// What the character wears.
    equipment: Vec<Equipment>,
    /// Effects from other sources, each with the turns it has left. Effects of
    /// equipment are not among them: they hold for as long as it is worn.
    timed_effects: Vec<TimedEffect>,
    /// Current hit points
    hp: i64,
    /// Current mental points
    mp: i64,
    /// Current action points, spent on reactions. They may fall below zero.
    ap: i64,
    /// Current vitality, which wears off slowly and comes back with rest
    vit: i64,
    /// How many pieces of equipment the character can wear
    equipment_cap: usize,
}

/// What a [`Character`] is, in mathematical terms.
pub struct CharacterView {
    pub name: Seq<char>,
    pub owner: Option<Seq<char>>,
    pub party: Seq<char>,
    pub base_stats: Stats,
    pub equipment: Seq<EquipmentView>,
    pub timed_effects: Seq<TimedEffect>,
    pub hp: i64,
    pub mp: i64,
    pub ap: i64,
    pub vit: i64,
    pub equipment_cap: usize,
}

/// The views of a list of equipment.
pub open spec fn equipment_views(equipment: Seq<Equipment>) -> Seq<EquipmentView> {
    Seq::new(equipment.len(), |i: int| equipment[i]@)
}

/// The characters of an optional string.
pub open spec fn option_view(s: Option<String>) -> Option<Seq<char>> {
    match s {
        Some(s) => Some(s@),
        None => None,
    }
}

/// The passive effects of all pieces, piece by piece.
pub open spec fn all_passive_effects(equipment: Seq<EquipmentView>) -> Seq<EffectKind>
    decreases equipment.len(),
{
    if equipment.len() == 0 {
        Seq::empty()
    } else {
        all_passive_effects(equipment.drop_last()) + equipment.last().passive_effects
    }
}

/// The reactions of all pieces, piece by piece.
pub open spec fn all_reactions(equipment: Seq<EquipmentView>) -> Seq<ReactionKind>
    decreases equipment.len(),
{
    if equipment.len() == 0 {
        Seq::empty()
    } else {
        all_reactions(equipment.drop_last()) + equipment.last().reactions
    }
}

/// How many of the pieces are of type `eq_type`.
pub open spec fn count_of_type(equipment: Seq<EquipmentView>, eq_type: EquipmentType) -> nat
    decreases equipment.len(),
{
    if equipment.len() == 0 {
        0
    } else {
        count_of_type(equipment.drop_last(), eq_type) + if equipment.last().eq_type == eq_type {
            1nat
        } else {
            0nat
        }
    }
}

/// The effects of a list of timed effects, without their durations.
pub open spec fn effects_of(timed: Seq<TimedEffect>) -> Seq<EffectKind> {
    Seq::new(timed.len(), |i: int| timed[i].0)
}

/// The timed effects after one more turn: each has one turn less, and those
/// that have none left or ask to be cancelled are gone.
pub open spec fn tick_effects(timed: Seq<TimedEffect>) -> Seq<TimedEffect>
    decreases timed.len(),
{
    if timed.len() == 0 {
        Seq::empty()
    } else {
        let earlier = tick_effects(timed.drop_last());
        let left = clamp_i64(timed.last().1 - 1);
        if left > 0 && !timed.last().0.cancels() {
            earlier.push(TimedEffect(timed.last().0, left as i64))
        } else {
            earlier
        }
    }
}

/// The defense that stands against damage of type `dmg_type`: physical
/// defense against physical damage, magical against magical, half the magical
/// against zap, none against ultimate damage.
pub open spec fn defense_against(stats: GameStats, dmg_type: DamageType) -> int {
    match dmg_type {
        DamageType::PHY(_) => stats.pdf as int,
        DamageType::MAG(_) => stats.mdf as int,
        DamageType::ZAP(_) => trunc_div(stats.mdf as int, 2),
        DamageType::ULT => 0,
    }
}

/// The damage that gets through the defense: never below zero.
pub open spec fn effective_damage(stats: GameStats, damage: Damage) -> int {
    max_int(clamp_i64(damage.1 - defense_against(stats, damage.0)), 0)
}

impl CharacterView {
    /// The invariant of a character: it wears no more pieces than its limit
    /// allows, and of no type more than anyone can wear. A new character
    /// meets it and [`Character::equip`] keeps it; nothing else touches the
    /// equipment.
    pub open spec fn wf(self) -> bool {
        &&& self.equipment.len() <= self.equipment_cap
        &&& forall|t: EquipmentType| #[trigger] count_of_type(self.equipment, t) <= t.spec_max()
    }

    /// Every effect on the character: the timed ones, then those of its
    /// equipment.
    pub open spec fn active_effects(self) -> Seq<EffectKind> {
        effects_of(self.timed_effects) + all_passive_effects(self.equipment)
    }

    /// The base attributes plus what every active effect adds, the effects
    /// applied in ascending order of priority.
    pub open spec fn current_stats(self) -> Stats {
        stats_after_all(in_resolution_order(self.active_effects()), self.base_stats)
    }

    /// The capacities derived from the current attributes, plus what every
    /// active effect adds to a capacity.
    pub open spec fn game_stats(self) -> GameStats {
        game_stats_after_all(
            in_resolution_order(self.active_effects()),
            self.current_stats().spec_game_stats(),
        )
    }

    /// The reactions that the equipment makes available, in the order in
    /// which they were declared.
    pub open spec fn reactions(self) -> Seq<ReactionKind> {
        all_reactions(self.equipment)
    }

    /// Hit points as a share of the current maximum, in thousandths.
    pub open spec fn hp_ratio(self) -> int {
        ratio_millis(self.hp as int, self.game_stats().mhp as int)
    }

    /// The maneuver that the character makes in its turn: the simplest move,
    /// which is always at hand.
    pub open spec fn next_move(self) -> ManeuverKind {
        ManeuverKind::BarehandedBlow(BarehandedBlow)
    }

    /// The character and its answers after the first `k` of its reactions
    /// have been considered against `action`.
    ///
    /// A reaction whose MP cost is positive and more than the character has is
    /// skipped. One that does not apply is passed over. One that applies is
    /// taken whatever it costs: its AP cost is paid, which may drive AP below
    /// zero, its MP cost is paid if positive, and its actions join the answers.
    pub open spec fn respond_upto(self, action: ActionView, k: nat) -> (
        CharacterView,
        Seq<ActionView>,
    )
        decreases k,
    {
        if k == 0 {
            (self, Seq::empty())
        } else {
            let (earlier, answers) = self.respond_upto(action, (k - 1) as nat);
            let reaction = self.reactions()[k - 1];
            let mp_cost = reaction.spec_mp_cost();
            if mp_cost > 0 && earlier.mp < mp_cost {
                (earlier, answers)
            } else {
                match reaction.spec_react(earlier, action) {
                    None => (earlier, answers),
                    Some(actions) => (
                        CharacterView {
                            ap: clamp_i64(earlier.ap - reaction.spec_ap_cost()) as i64,
                            mp: if mp_cost > 0 {
                                clamp_i64(earlier.mp - mp_cost) as i64
                            } else {
                                earlier.mp
                            },
                            ..earlier
                        },
                        answers + actions,
                    ),
                }
            }
        }
    }

    /// The character and its answers to `action`. A character whose AP are
    /// below zero does not react.
    pub open spec fn respond(self, action: ActionView) -> (CharacterView, Seq<ActionView>) {
        if self.ap < 0 {
            (self, Seq::empty())
        } else {
            self.respond_upto(action, self.reactions().len())
        }
    }

    /// The character after regeneration: each of HP, MP and AP gains its rate
    /// but does not pass its maximum.
    pub open spec fn after_pre_turn(self) -> CharacterView {
        let g = self.game_stats();
        CharacterView {
            hp: min_int(clamp_i64(self.hp + g.hrg), g.mhp as int) as i64,
            mp: min_int(clamp_i64(self.mp + g.mrg), g.mmp as int) as i64,
            ap: min_int(clamp_i64(self.ap + g.tap), g.map as int) as i64,
            ..self
        }
    }

    /// The character after the round: see [`tick_effects`].
    pub open spec fn after_post_turn(self) -> CharacterView {
        CharacterView { timed_effects: tick_effects(self.timed_effects), ..self }
    }

    /// The character after taking `damage`: zap damage drains MP, all other
    /// damage HP.
    pub open spec fn after_damage(self, damage: Damage) -> CharacterView {
        let effective = effective_damage(self.game_stats(), damage);
        match damage.0 {
            DamageType::ZAP(_) => CharacterView {
                mp: clamp_i64(self.mp - effective) as i64,
                ..self
            },
            _ => CharacterView { hp: clamp_i64(self.hp - effective) as i64, ..self },
        }
    }

    /// The character after `val` has been applied directly: HP and VIT change
    /// by the amount, MP and AP are set to it.
    pub open spec fn after_direct(self, val: CharUnit) -> CharacterView {
        match val {
            CharUnit::HP(v) => CharacterView { hp: clamp_i64(self.hp + v) as i64, ..self },
            CharUnit::MP(v) => CharacterView { mp: v, ..self },
            CharUnit::AP(v) => CharacterView { ap: v, ..self },
            CharUnit::VIT(v) => CharacterView { vit: clamp_i64(self.vit + v) as i64, ..self },
        }
    }

    /// The character with one more timed effect.
    pub open spec fn after_timed_effect(self, effect: EffectKind, duration: i64) -> CharacterView {
        CharacterView {
            timed_effects: self.timed_effects.push(TimedEffect(effect, duration)),
            ..self
        }
    }

    /// Why `item` cannot be put on, if it cannot. The limit on the number of
    /// pieces is checked first, then the attributes, then the limit of the
    /// item's type.
    pub open spec fn equip_error(self, item: EquipmentView) -> Option<EquipError> {
        if self.equipment.len() >= self.equipment_cap {
            Some(EquipError::CapacityExceeded(self.equipment_cap))
        } else if !self.current_stats().spec_meets(item.stat_requirements) {
            Some(EquipError::RequirementUnmet)
        } else if count_of_type(self.equipment, item.eq_type) >= item.eq_type.spec_max() {
            Some(EquipError::TypeCapExceeded(item.eq_type))
        } else {
            None
        }
    }

    /// The pointer that addresses this character alone.
    pub open spec fn pointer(self) -> PointerView {
        PointerView::Character(seq![self.name])
    }
}

/// What stays the same about a character whatever happens in combat: its
/// name, owner and party, its base attributes, and what it wears.
pub open spec fn same_identity(a: CharacterView, b: CharacterView) -> bool {
    &&& a.name == b.name
    &&& a.owner == b.owner
    &&& a.party == b.party
    &&& a.base_stats == b.base_stats
    &&& a.equipment == b.equipment
    &&& a.equipment_cap == b.equipment_cap
}

/// The invariant of a character goes with its identity: whatever leaves the
/// identity alone, as all of combat does, leaves the invariant in place.
pub proof fn lemma_wf_kept(before: CharacterView, after: CharacterView)
    requires
        same_identity(after, before),
        before.wf(),
    ensures
        after.wf(),
{
}

/// Attributes and capacities are functions of the base attributes and the
/// active effects alone: characters that agree in these agree in their
/// current attributes and in every capacity.
pub proof fn lemma_game_stats_pure(a: CharacterView, b: CharacterView)
    requires
        a.base_stats == b.base_stats,
        a.active_effects() == b.active_effects(),
    ensures
        a.current_stats() == b.current_stats(),
        a.game_stats() == b.game_stats(),
{
}

/// After regeneration each of HP, MP and AP is its value before plus its
/// rate, or its maximum where that is less, and so none is above its
/// maximum. The capacities themselves are as before.
///
/// The sum is taken as it is unless it falls below the range of `i64`, which
/// takes a negative rate on top of points near the lower end of the range.
pub proof fn lemma_pre_turn(c: CharacterView)
    ensures
        c.after_pre_turn().game_stats() == c.game_stats(),
        c.after_pre_turn().hp <= c.game_stats().mhp,
        c.after_pre_turn().mp <= c.game_stats().mmp,
        c.after_pre_turn().ap <= c.game_stats().map,
        c.hp + c.game_stats().hrg >= i64::MIN ==> c.after_pre_turn().hp == min_int(
            c.hp + c.game_stats().hrg,
            c.game_stats().mhp as int,
        ),
        c.mp + c.game_stats().mrg >= i64::MIN ==> c.after_pre_turn().mp == min_int(
            c.mp + c.game_stats().mrg,
            c.game_stats().mmp as int,
        ),
        c.ap + c.game_stats().tap >= i64::MIN ==> c.after_pre_turn().ap == min_int(
            c.ap + c.game_stats().tap,
            c.game_stats().map as int,
        ),
        same_identity(c.after_pre_turn(), c),
{
}

/// A character that wears as many pieces as its limit allows cannot put on
/// another, whatever the piece: the attempt fails for want of capacity.
pub proof fn lemma_equip_beyond_cap(c: CharacterView, item: EquipmentView)
    requires
        c.equipment.len() >= c.equipment_cap,
    ensures
        c.equip_error(item) == Some(EquipError::CapacityExceeded(c.equipment_cap)),
{
}

/// Whatever is done to a character in combat leaves its identity alone.
pub proof fn lemma_identity_kept(c: CharacterView, damage: Damage, unit: CharUnit, effect: EffectKind, turns: i64)
    ensures
        same_identity(c.after_damage(damage), c),
        same_identity(c.after_direct(unit), c),
        same_identity(c.after_timed_effect(effect, turns), c),
        same_identity(c.after_post_turn(), c),
{
}

/// How many more action points a character can lose before it stops
/// reacting: none once its AP are below zero.
pub open spec fn readiness(c: CharacterView) -> nat {
    if c.ap >= 0 {
        (c.ap + 1) as nat
    } else {
        0
    }
}

/// Considering reactions changes nothing about a character but its AP and MP,
/// and its AP only fall. If it was able to react and gave an answer, its AP
/// fell indeed.
pub proof fn lemma_respond_upto(c: CharacterView, action: ActionView, k: nat)
    ensures
        c.respond_upto(action, k).0 == (CharacterView {
            ap: c.respond_upto(action, k).0.ap,
            mp: c.respond_upto(action, k).0.mp,
            ..c
        }),
        c.respond_upto(action, k).0.ap <= c.ap,
        c.ap >= 0 && c.respond_upto(action, k).1.len() > 0 ==> c.respond_upto(action, k).0.ap
            < c.ap,
    decreases k,
{
    if k > 0 {
        lemma_respond_upto(c, action, (k - 1) as nat);
        lemma_reactions_cost(c.reactions()[k - 1]);
    }
}

/// A character whose AP are below zero does not react: it gives no answer,
/// and nothing about it changes.
pub proof fn lemma_in_debt(c: CharacterView, action: ActionView)
    requires
        c.ap < 0,
    ensures
        c.respond(action).0 == c,
        c.respond(action).1.len() == 0,
{
}

/// Answering an action never makes a character readier to react, and every
/// answer makes it less ready. Nothing but its AP and MP changes.
pub proof fn lemma_respond(c: CharacterView, action: ActionView)
    ensures
        c.respond(action).0 == (CharacterView {
            ap: c.respond(action).0.ap,
            mp: c.respond(action).0.mp,
            ..c
        }),
        readiness(c.respond(action).0) <= readiness(c),
        c.respond(action).1.len() > 0 ==> readiness(c.respond(action).0) < readiness(c),
{
    if c.ap >= 0 {
        lemma_respond_upto(c, action, c.reactions().len());
    }
}

/// The lines of equipment one behind the other, each in `len` characters.
pub open spec fn equipment_lines(equipment: Seq<EquipmentView>, len: nat) -> Seq<char>
    decreases equipment.len(),
{
    if equipment.len() == 0 {
        Seq::empty()
    } else {
        equipment_lines(equipment.drop_last(), len) + equipment.last().line_text(len)
    }
}

/// What a character wears, in `len` characters: every piece gets an equal
/// share of the length.
pub open spec fn equipment_description(equipment: Seq<EquipmentView>, len: nat) -> Seq<char> {
    if equipment.len() == 0 {
        fitted("<no EQ>"@, len)
    } else {
        equipment_lines(equipment, len / equipment.len())
    }
}

impl CharacterView {
    /// The line at position `i` of a character's display in lines of `w`
    /// characters: the name, the bars for HP, MP and AP, the equipment.
    pub open spec fn display_line(self, i: int, w: usize, formatting: TextFormatting) -> Seq<char> {
        if i == 0 {
            fitted(self.name, w as nat)
        } else if i == 1 {
            labelled_bar(
                "HP:"@,
                w as nat,
                self.hp as int,
                self.game_stats().mhp as int,
                BarStyle::DoubleLines,
                Some(('<', '>')),
                Some((formatting, "hp"@, "Hitpoint Infos"@)),
            )
        } else if i == 2 {
            labelled_bar(
                "MP:"@,
                w as nat,
                self.mp as int,
                self.game_stats().mmp as int,
                BarStyle::TwoChars('>', '-'),
                None,
                Some((formatting, "mp"@, "MP Infos"@)),
            )
        } else if i == 3 {
            labelled_bar(
                "AP:"@,
                w as nat,
                self.ap as int,
                self.game_stats().map as int,
                BarStyle::TwoChars('!', '.'),
                None,
                Some((formatting, "ap"@, "AP Infos"@)),
            )
        } else {
            "EQ: "@ + equipment_description(self.equipment, room_after(w as nat, 4))
        }
    }
}

/// A character shows itself in up to five lines: its name, its hit points,
/// mental points and action points as bars, and its equipment.
impl InfoGrid for Character {
    open spec fn grid(&self, w: usize, h: usize, formatting: TextFormatting) -> Seq<Seq<char>> {
        Seq::new(
            if h < 5 {
                h as nat
            } else {
                5
            },
            |i: int| self@.display_line(i, w, formatting),
        )
    }

    fn display(&self, w: usize, h: usize, formatting: TextFormatting) -> (lines: Vec<String>) {
        let max_len = w;
        let num_lines: usize = if h < 5 {
            h
        } else {
            5
        };
        let stats = self.calculate_game_stats();
        let mut lines: Vec<String> = Vec::new();
        let mut i: usize = 0;
        while i < num_lines
            invariant
                i <= num_lines <= 5,
                max_len == w,
                stats == self@.game_stats(),
                lines.len() == i,
                forall|k: int| 0 <= k < i ==> (#[trigger] lines@[k])@ == self@.display_line(
                    k,
                    w,
                    formatting,
                ),
            decreases num_lines - i,
        {
            let line = if i == 0 {
                // The name
                self.name.format_line(max_len, formatting)
            } else if i == 1 {
                // The HP bar
                render_bar_with_num(
                    "HP:",
                    max_len,
                    self.hp,
                    stats.mhp,
                    BarStyle::DoubleLines,
                    Some(('<', '>')),
                    Some((&formatting, "hp", String::from_str("Hitpoint Infos"))),
                )
            } else if i == 2 {
                // The MP bar
                render_bar_with_num(
                    "MP:",
                    max_len,
                    self.mp,
                    stats.mmp,
                    BarStyle::TwoChars('>', '-'),
                    None,
                    Some((&formatting, "mp", String::from_str("MP Infos"))),
                )
            } else if i == 3 {
                // The AP bar
                render_bar_with_num(
                    "AP:",
                    max_len,
                    self.ap,
                    stats.map,
                    BarStyle::TwoChars('!', '.'),
                    None,
                    Some((&formatting, "ap", String::from_str("AP Infos"))),
                )
            } else {
                // A short overview of the gear, less four characters for
                // "EQ: "
                let mut text = String::from_str("EQ: ");
                text.append(self.build_equipment_description(room_left(max_len, 4)).as_str());
                text
            };
            lines.push(line);
            i += 1;
        }
        lines
    }
}

impl View for Character {
    type V = CharacterView;

    closed spec fn view(&self) -> CharacterView {
        CharacterView {
            name: self.name@,
            owner: option_view(self.owner),
            party: self.party@,
            base_stats: self.base_stats,
            equipment: equipment_views(self.equipment@),
            timed_effects: self.timed_effects@,
            hp: self.hp,
            mp: self.mp,
            ap: self.ap,
            vit: self.vit,
            equipment_cap: self.equipment_cap,
        }
    }
}

impl Character {
    /// A character with the default limit on equipment, in no party, with no
    /// equipment and no effects, and with every resource at its maximum.
    pub fn new(name: String, owner: Option<String>, base_stats: Stats) -> (c: Character)
        ensures
            c@ == (CharacterView {
                name: name@,
                owner: option_view(owner),
                party: "<no party>"@,
                base_stats,
                equipment: Seq::empty(),
                timed_effects: Seq::empty(),
                hp: base_stats.spec_max_hp() as i64,
                mp: base_stats.spec_max_mp() as i64,
                ap: base_stats.spec_max_ap() as i64,
                vit: base_stats.spec_max_vit() as i64,
                equipment_cap: DEFAULT_EQUIPMENT_CAP,
            }),
            c@.wf(),
    {
        Character::with_equipment_cap(name, owner, base_stats, DEFAULT_EQUIPMENT_CAP)
    }

    /// Like [`Character::new`], for a character that can wear
    /// `equipment_cap` pieces of equipment.
    pub fn with_equipment_cap(
        name: String,
        owner: Option<String>,
        base_stats: Stats,
        equipment_cap: usize,
    ) -> (c: Character)
        ensures
            c@ == (CharacterView {
                name: name@,
                owner: option_view(owner),
                party: "<no party>"@,
                base_stats,
                equipment: Seq::empty(),
                timed_effects: Seq::empty(),
                hp: base_stats.spec_max_hp() as i64,
                mp: base_stats.spec_max_mp() as i64,
                ap: base_stats.spec_max_ap() as i64,
                vit: base_stats.spec_max_vit() as i64,
                equipment_cap,
            }),
            c@.wf(),
    {
        let hp = base_stats.max_hp();
        let mp = base_stats.max_mp();
        let ap = base_stats.max_ap();
        let vit = base_stats.max_vit();
        let equipment: Vec<Equipment> = Vec::new();
        let timed_effects: Vec<TimedEffect> = Vec::new();
        proof {
            assert(equipment_views(equipment@) =~= Seq::empty());
        }
        let character = Character {
            name,
            owner,
            // By default, characters are part of no party.
            party: String::from_str("<no party>"),
            base_stats,
            equipment,
            timed_effects,
            hp,
            mp,
            ap,
            vit,
            equipment_cap,
        };
        character
    }

    /// The effects on this character in the order in which they resolve.
    pub fn all_current_effects(&self) -> (effects: Vec<EffectKind>)
        ensures
            effects@ == in_resolution_order(self@.active_effects()),
    {
        let mut effect_list: Vec<EffectKind> = Vec::new();
        let mut i: usize = 0;
        while i < self.timed_effects.len()
            invariant
                i <= self.timed_effects.len(),
                effect_list@ == effects_of(self.timed_effects@).take(i as int),
            decreases self.timed_effects.len() - i,
        {
            effect_list.push(self.timed_effects[i].0);
            i += 1;
        }
        // In addition, all permanent effects of the equipment.
        let mut k: usize = 0;
        while k < self.equipment.len()
            invariant
                k <= self.equipment.len(),
                effect_list@ == effects_of(self.timed_effects@) + all_passive_effects(
                    equipment_views(self.equipment@).take(k as int),
                ),
            decreases self.equipment.len() - k,
        {
            proof {
                let shown = equipment_views(self.equipment@).take(k + 1);
                assert(shown.drop_last() =~= equipment_views(self.equipment@).take(k as int));
            }
            self.equipment[k].add_passive_effects(&mut effect_list);
            k += 1;
        }
        assert(equipment_views(self.equipment@).take(self.equipment.len() as int)
            =~= equipment_views(self.equipment@));
        // All effects are in: bring them into the order of resolution.
        sort_for_resolution(&effect_list)
    }

    /// The reactions that this character has at this time.
    pub fn all_current_reactions(&self) -> (reactions: Vec<ReactionKind>)
        ensures
            reactions@ == self@.reactions(),
    {
        let mut ret: Vec<ReactionKind> = Vec::new();
        let mut k: usize = 0;
        while k < self.equipment.len()
            invariant
                k <= self.equipment.len(),
                ret@ == all_reactions(equipment_views(self.equipment@).take(k as int)),
            decreases self.equipment.len() - k,
        {
            proof {
                let shown = equipment_views(self.equipment@).take(k + 1);
                assert(shown.drop_last() =~= equipment_views(self.equipment@).take(k as int));
            }
            self.equipment[k].add_reactions(&mut ret);
            k += 1;
        }
        assert(equipment_views(self.equipment@).take(self.equipment.len() as int)
            =~= equipment_views(self.equipment@));
        ret
    }

    /// The attributes of this character as they are now: the base attributes
    /// and the effects on the character.
    pub fn calculate_current_stats(&self) -> (stats: Stats)
        ensures
            stats == self@.current_stats(),
    {
        let mut stats = self.base_stats.copy();
        let effects = self.all_current_effects();
        apply_all_to_stats(&effects, &mut stats);
        stats
    }

    /// The capacities of this character as they are now.
    pub fn calculate_game_stats(&self) -> (stats: GameStats)
        ensures
            stats == self@.game_stats(),
    {
        let mut game_stats = self.calculate_current_stats().to_game_stats();
        let effects = self.all_current_effects();
        apply_all_to_game_stats(&effects, &mut game_stats);
        game_stats
    }

    /// Current hit points.
    pub fn hp(&self) -> (hp: i64)
        ensures
            hp == self@.hp,
    {
        self.hp
    }

    /// Current mental points.
    pub fn mp(&self) -> (mp: i64)
        ensures
            mp == self@.mp,
    {
        self.mp
    }

    /// Current action points.
    pub fn ap(&self) -> (ap: i64)
        ensures
            ap == self@.ap,
    {
        self.ap
    }

    /// Current vitality.
    pub fn vit(&self) -> (vit: i64)
        ensures
            vit == self@.vit,
    {
        self.vit
    }

    /// Hit points as a share of the current maximum.
    pub fn hp_to_max_hp_ratio(&self) -> (ratio: Factor)
        ensures
            ratio.millis == self@.hp_ratio(),
    {
        Factor::ratio(self.hp, self.calculate_game_stats().mhp)
    }

    /// The name of the character.
    pub fn name(&self) -> (name: &String)
        ensures
            name@ == self@.name,
    {
        &self.name
    }

    /// The player who owns the character, if any.
    pub fn owner(&self) -> (owner: &Option<String>)
        ensures
            option_view(*owner) == self@.owner,
    {
        &self.owner
    }

    /// The party of the character.
    pub fn party(&self) -> (party: &String)
        ensures
            party@ == self@.party,
    {
        &self.party
    }

    /// Moves the character to another party.
    pub fn set_party(&mut self, party: String)
        ensures
            final(self)@ == (CharacterView { party: party@, ..old(self)@ }),
    {
        self.party = party;
    }

    /// Whether this character belongs to the party `party_name`.
    pub fn party_check(&self, party_name: &String) -> (same: bool)
        ensures
            same == (self@.party == party_name@),
    {
        self.party == *party_name
    }

    /// The pointer that addresses this character alone.
    pub fn as_target(&self) -> (p: EntityPointer)
        ensures
            p@ == self@.pointer(),
    {
        let mut names: Vec<String> = Vec::new();
        names.push(self.name.clone());
        assert(crate::strutil::names_view(names@) =~= seq![self.name@]);
        EntityPointer::Character(names)
    }

    /// How many pieces of equipment the character can wear.
    pub fn equipment_cap(&self) -> (cap: usize)
        ensures
            cap == self@.equipment_cap,
    {
        self.equipment_cap
    }

    /// What the character wears.
    pub fn equipment(&self) -> (equipment: &Vec<Equipment>)
        ensures
            equipment_views(equipment@) == self@.equipment,
    {
        &self.equipment
    }

    /// The pieces that the character wears, one after the other.
    pub fn iter_equipment(&self) -> (iter: core::slice::Iter<'_, Equipment>)
        ensures
            equipment_views(vstd::std_specs::slice::into_iter_elts(iter)) == self@.equipment,
    {
        let slice = self.equipment.as_slice();
        let iter = slice.iter();
        proof {
            vstd::std_specs::slice::axiom_spec_slice_iter(slice);
        }
        iter
    }

    /// The timed effects on the character, each with the turns it has left.
    pub fn timed_effects(&self) -> (effects: &Vec<TimedEffect>)
        ensures
            effects@ == self@.timed_effects,
    {
        &self.timed_effects
    }

    /// How many pieces of type `eq_type` the character wears.
    pub fn count_equipped(&self, eq_type: &EquipmentType) -> (count: usize)
        ensures
            count == count_of_type(self@.equipment, *eq_type),
    {
        let mut count: usize = 0;
        let mut k: usize = 0;
        while k < self.equipment.len()
            invariant
                k <= self.equipment.len(),
                count <= k,
                count == count_of_type(equipment_views(self.equipment@).take(k as int), *eq_type),
            decreases self.equipment.len() - k,
        {
            proof {
                let shown = equipment_views(self.equipment@).take(k + 1);
                assert(shown.drop_last() =~= equipment_views(self.equipment@).take(k as int));
            }
            if *self.equipment[k].get_eq_type() == *eq_type {
                count += 1;
            }
            k += 1;
        }
        assert(equipment_views(self.equipment@).take(self.equipment.len() as int)
            =~= equipment_views(self.equipment@));
        count
    }

    /// What the character wears, in `len` characters.
    pub fn build_equipment_description(&self, len: usize) -> (text: String)
        ensures
            text@ == equipment_description(self@.equipment, len as nat),
    {
        if self.equipment.len() == 0 {
            return String::from_str("<no EQ>").format_line(len, TextFormatting::Plain);
        }
        // Every piece gets an equal share of the length.
        let eq_max_length = len / self.equipment.len();
        let mut ret = String::new();
        let mut k: usize = 0;
        let ghost worn = equipment_views(self.equipment@);
        while k < self.equipment.len()
            invariant
                k <= self.equipment.len(),
                worn == equipment_views(self.equipment@),
                ret@ == equipment_lines(worn.take(k as int), eq_max_length as nat),
            decreases self.equipment.len() - k,
        {
            proof {
                assert(worn.take(k + 1).drop_last() =~= worn.take(k as int));
            }
            ret.append(
                self.equipment[k].format_line(eq_max_length, TextFormatting::Plain).as_str(),
            );
            k += 1;
        }
        assert(worn.take(self.equipment.len() as int) =~= worn);
        ret
    }

    /// Puts on a piece of equipment, unless something prevents it. On failure
    /// the character is as before.
    pub fn equip(&mut self, equipment: Equipment) -> (result: Result<(), EquipError>)
        ensures
            match result {
                Ok(_) => old(self)@.equip_error(equipment@) is None && final(self)@ == (
                CharacterView {
                    equipment: old(self)@.equipment.push(equipment@),
                    ..old(self)@
                }),
                Err(e) => old(self)@.equip_error(equipment@) == Some(e) && final(self)@ == old(
                    self,
                )@,
            },
            old(self)@.wf() ==> final(self)@.wf(),
    {
        // Check 1: the number of pieces
        if self.equipment.len() >= self.equipment_cap {
            return Err(EquipError::CapacityExceeded(self.equipment_cap));
        }
        // Check 2: the attributes that the piece asks for
        if !self.calculate_current_stats().meets_requirements(equipment.get_stat_requirements()) {
            return Err(EquipError::RequirementUnmet);
        }
        // Check 3: the number of pieces of this type
        let eq_type = *equipment.get_eq_type();
        if !eq_type.can_equip(self) {
            return Err(EquipError::TypeCapExceeded(eq_type));
        }
        // All checks passed.
        proof {
            let before = equipment_views(self.equipment@);
            let after = before.push(equipment@);
            assert(after.drop_last() =~= before);
            if old(self)@.wf() {
                assert forall|t: EquipmentType| #[trigger]
                    count_of_type(after, t) <= t.spec_max() by {
                    assert(count_of_type(before, t) <= t.spec_max());
                }
            }
            assert(equipment_views(self.equipment@.push(equipment)) =~= after);
        }
        self.equipment.push(equipment);
        Ok(())
    }

}

impl Actor for Character {
    /// Regeneration before the maneuvers of a round.
    fn pre_turn(&mut self)
        ensures
            final(self)@ == old(self)@.after_pre_turn(),
    {
        let stats = self.calculate_game_stats();
        let hp = min_i64(sat_add(self.hp, stats.hrg), stats.mhp);
        let mp = min_i64(sat_add(self.mp, stats.mrg), stats.mmp);
        let ap = min_i64(sat_add(self.ap, stats.tap), stats.map);
        self.hp = hp;
        self.mp = mp;
        self.ap = ap;
    }

    /// The end of a round: timed effects lose a turn, and those that run
    /// out or ask to be cancelled are dropped.
    fn post_turn(&mut self)
        ensures
            final(self)@ == old(self)@.after_post_turn(),
    {
        let mut kept: Vec<TimedEffect> = Vec::new();
        let mut i: usize = 0;
        while i < self.timed_effects.len()
            invariant
                i <= self.timed_effects.len(),
                kept@ == tick_effects(self.timed_effects@.take(i as int)),
            decreases self.timed_effects.len() - i,
        {
            proof {
                assert(self.timed_effects@.take(i + 1).drop_last() =~= self.timed_effects@.take(
                    i as int,
                ));
            }
            let effect = self.timed_effects[i].0;
            let remaining_time = sat_sub(self.timed_effects[i].1, 1);
            if remaining_time > 0 && !effect.cancel_self() {
                kept.push(TimedEffect(effect, remaining_time));
            }
            i += 1;
        }
        assert(self.timed_effects@.take(self.timed_effects.len() as int) =~= self.timed_effects@);
        self.timed_effects = kept;
    }

    /// Takes damage: the defense against its type is taken off first.
    fn apply_damage(&mut self, damage: &Damage)
        ensures
            final(self)@ == old(self)@.after_damage(*damage),
    {
        let gamestats = self.calculate_game_stats();
        // The defense against this type of damage
        let defense_adjust: i64 = match damage.dmg_type() {
            DamageType::PHY(_) => gamestats.pdf,
            DamageType::MAG(_) => gamestats.mdf,
            DamageType::ZAP(_) => clamp_to_i64(div_trunc(gamestats.mdf as i128, 2)),
            // Nothing defends against ultimate damage.
            DamageType::ULT => 0,
        };
        // Damage that is too small does not turn into healing.
        let reduced = sat_sub(damage.amount(), defense_adjust);
        let effective_damage: i64 = if reduced > 0 {
            reduced
        } else {
            0
        };
        match damage.dmg_type() {
            // Zap damage drains mental points.
            DamageType::ZAP(_) => {
                let mp = sat_sub(self.mp, effective_damage);
                self.mp = mp;
            },
            // All other damage costs hit points.
            _ => {
                let hp = sat_sub(self.hp, effective_damage);
                self.hp = hp;
            },
        }
    }

    /// Applies `val` directly, whatever the defenses and effects: this is
    /// how healing is resolved.
    fn apply_directly(&mut self, val: &CharUnit)
        ensures
            final(self)@ == old(self)@.after_direct(*val),
    {
        match val {
            CharUnit::HP(v) => {
                let hp = sat_add(self.hp, *v);
                self.hp = hp;
            },
            CharUnit::MP(v) => {
                self.mp = *v;
            },
            CharUnit::AP(v) => {
                self.ap = *v;
            },
            CharUnit::VIT(v) => {
                let vit = sat_add(self.vit, *v);
                self.vit = vit;
            },
        }
    }

    /// Gives the character an effect for `effect_duration` turns.
    fn apply_timed_effect(&mut self, effect: EffectKind, effect_duration: i64)
        ensures
            final(self)@ == old(self)@.after_timed_effect(effect, effect_duration),
    {
        self.timed_effects.push(TimedEffect(effect, effect_duration));
    }

    /// The maneuver for this turn.
    fn next_move(&self) -> (m: ManeuverKind)
        ensures
            m == self@.next_move(),
    {
        ManeuverKind::BarehandedBlow(BarehandedBlow)
    }

    /// Called for every action that enters the stack, so that the character
    /// can answer it as far as its reactions and its points allow. The
    /// answers are appended to `reactions`.
    fn respond_to_action(&mut self, action: &Action, reactions: &mut Vec<Action>)
        ensures
            final(self)@ == old(self)@.respond(action@).0,
            actions_view(final(reactions)@) == actions_view(old(reactions)@) + old(self)@.respond(
                action@,
            ).1,
    {
        if self.ap < 0 {
            // Once AP are below zero, the character can no longer react.
            return ;
        }
        let available = self.all_current_reactions();
        let mut k: usize = 0;
        while k < available.len()
            invariant
                k <= available.len(),
                action@.stack_position is Some,
                available@ == old(self)@.reactions(),
                self@ == old(self)@.respond_upto(action@, k as nat).0,
                self@.reactions() == old(self)@.reactions(),
                actions_view(reactions@) == actions_view(old(reactions)@) + old(
                    self,
                )@.respond_upto(action@, k as nat).1,
            decreases available.len() - k,
        {
            let reaction = available[k];
            let mp_cost = reaction.mp_cost();
            if mp_cost > 0 && self.mp < mp_cost {
                // The character cannot afford this reaction.
            } else {
                if let Some(react) = reaction.react(self, action) {
                    // Pay the AP cost. This may put the character below zero,
                    // which stops it from reacting until it has recovered.
                    let ap = sat_sub(self.ap, reaction.ap_cost());
                    self.ap = ap;
                    // Pay the MP cost, if there is one.
                    if mp_cost > 0 {
                        let mp = sat_sub(self.mp, mp_cost);
                        self.mp = mp;
                    }
                    // Add the actions that have been built.
                    let ghost before = actions_view(reactions@);
                    let ghost added = actions_view(react@);
                    let mut react = react;
                    reactions.append(&mut react);
                    assert(actions_view(reactions@) =~= before + added);
                }
            }
            k += 1;
        }
    }
}



/// The smaller of two values.
pub fn min_i64(a: i64, b: i64) -> (m: i64)
    ensures
        m == min_int(a as int, b as int),
{
    if a <= b {
        a
    } else {
        b
    }
}

} // verus!
