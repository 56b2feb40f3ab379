//! Damage, actions, the action stack and the combat that drives them.
use vstd::prelude::*;
use crate::characters::{
    lemma_identity_kept, lemma_pre_turn, lemma_respond, readiness, same_identity, CharUnit,
    Character, CharacterView,
};
use crate::mov::{Maneuver, ManeuverKind};
use crate::world::{LogSink, TurnLogger, WorldContext};
use crate::order::{is_stable_order, lemma_stable_order, stable_order, stable_order_of};
use crate::effects::EffectKind;
use crate::arith::{clamp_i64, clamp_to_i64, div_floor, sat_add};
use crate::factor::{scaled_floor, Factor};
use crate::strutil::{
    clone_names, decimal, names_contain, names_view, push_decimal, push_signed, signed_decimal,
    str_eq,
};
use crate::text::{
    enriched, shortened, split_words, word_entries, InfoLine, MakesWords,
    TextFormatting,
};
use crate::effects::Effect;

verus! {

/// The kinds of damage. Physical, magical and zap damage carry a subtype such
/// as `PHY("Slash")` or `MAG("Fire")`.
#[derive(Clone, Copy, Debug)]
pub enum DamageType {
    /// Physical damage with its subtype
    PHY(&'static str),
    /// Magical damage with its subtype
    MAG(&'static str),
    /// Zap damage drains mental points instead of hit points
    ZAP(&'static str),
    /// Ultimate damage: no defense applies, and it has no subtypes
    ULT,
}

impl DamageType {
    /// The subtype, empty for ultimate damage.
    pub open spec fn subtype(self) -> Seq<char> {
        match self {
            DamageType::PHY(t) => t@,
            DamageType::MAG(t) => t@,
            DamageType::ZAP(t) => t@,
            DamageType::ULT => ""@,
        }
    }

    /// The three-letter name of the kind.
    pub open spec fn kind_name(self) -> Seq<char> {
        match self {
            DamageType::PHY(_) => "PHY"@,
            DamageType::MAG(_) => "MAG"@,
            DamageType::ZAP(_) => "ZAP"@,
            DamageType::ULT => "ULT"@,
        }
    }

    /// Whether both are of the same kind, whatever their subtypes.
    pub open spec fn same_kind(self, other: DamageType) -> bool {
        match (self, other) {
            (DamageType::PHY(_), DamageType::PHY(_)) => true,
            (DamageType::MAG(_), DamageType::MAG(_)) => true,
            (DamageType::ZAP(_), DamageType::ZAP(_)) => true,
            (DamageType::ULT, DamageType::ULT) => true,
            _ => false,
        }
    }

    /// The verb that tells what an attack of this type does.
    pub open spec fn spec_verb(self) -> Seq<char> {
        match self {
            DamageType::PHY(t) => if t@ == "Pierce"@ {
                "stabs"@
            } else if t@ == "Slash"@ {
                "strikes"@
            } else if t@ == "Blunt"@ {
                "pummels"@
            } else {
                "attacks"@
            },
            DamageType::MAG(t) => if t@ == "Fire"@ {
                "burns"@
            } else if t@ == "Ice"@ {
                "freezes"@
            } else {
                "casts a spell attack on"@
            },
            DamageType::ZAP(_) => "zaps"@,
            DamageType::ULT => "obliterates"@,
        }
    }

    /// The type as text: `ULTIMATE`, or the kind in brackets and the subtype.
    pub open spec fn display(self) -> Seq<char> {
        match self {
            DamageType::ULT => "ULTIMATE"@,
            _ => "["@ + self.kind_name() + "] "@ + self.subtype(),
        }
    }

    /// The type as text.
    pub fn to_string(&self) -> (text: String)
        ensures
            text@ == self.display(),
    {
        if let DamageType::ULT = self {
            return String::from_str("ULTIMATE");
        }
        let mut text = String::from_str("[");
        text.append(self.get_damage_type_name());
        text.append("] ");
        text.append(self.get_subtype_name());
        text
    }

    /// The subtype, empty for ultimate damage.
    pub fn get_subtype_name(&self) -> (s: &'static str)
        ensures
            s@ == self.subtype(),
    {
        match self {
            DamageType::PHY(t) => t,
            DamageType::MAG(t) => t,
            DamageType::ULT => "",
            DamageType::ZAP(t) => t,
        }
    }

    /// The three-letter name of the kind.
    pub fn get_damage_type_name(&self) -> (s: &'static str)
        ensures
            s@ == self.kind_name(),
    {
        match self {
            DamageType::PHY(_) => "PHY",
            DamageType::MAG(_) => "MAG",
            DamageType::ULT => "ULT",
            DamageType::ZAP(_) => "ZAP",
        }
    }

    /// The verb that tells what an attack of this type does.
    pub fn verb(&self) -> (s: &'static str)
        ensures
            s@ == self.spec_verb(),
    {
        match self {
            DamageType::PHY(t) => {
                if str_eq(t, "Pierce") {
                    "stabs"
                } else if str_eq(t, "Slash") {
                    "strikes"
                } else if str_eq(t, "Blunt") {
                    "pummels"
                } else {
                    "attacks"
                }
            },
            DamageType::MAG(t) => {
                if str_eq(t, "Fire") {
                    "burns"
                } else if str_eq(t, "Ice") {
                    "freezes"
                } else {
                    "casts a spell attack on"
                }
            },
            DamageType::ZAP(_) => "zaps",
            DamageType::ULT => "obliterates",
        }
    }
}

/// An amount of damage of one type.
#[derive(Clone, Copy, Debug)]
pub struct Damage(pub DamageType, pub i64);

impl Damage {
    /// The damage as text: the amount and the type.
    pub open spec fn display(self) -> Seq<char> {
        signed_decimal(self.1 as int) + " "@ + self.0.display()
    }

    /// The damage as text.
    pub fn to_string(&self) -> (text: String)
        ensures
            text@ == self.display(),
    {
        let mut text = String::new();
        push_signed(&mut text, self.1);
        text.append(" ");
        text.append(self.0.to_string().as_str());
        text
    }

    /// The type of the damage.
    pub fn dmg_type(&self) -> (t: &DamageType)
        ensures
            *t == self.0,
    {
        &self.0
    }

    /// The amount of the damage.
    pub fn amount(&self) -> (a: i64)
        ensures
            a == self.1,
    {
        self.1
    }
}

/// Damage shows itself as its amount and its type, whatever the length and
/// the formatting.
impl InfoLine for Damage {
    open spec fn line(&self, len: usize, formatting: TextFormatting) -> Seq<char> {
        self.display()
    }

    fn format_line(&self, len: usize, formatting: TextFormatting) -> (s: String) {
        self.to_string()
    }
}

/// A symbolic pointer to whatever an action comes from or is aimed at.
pub enum EntityPointer {
    /// One or many characters of the encounter, by name
    Character(Vec<String>),
    /// One action on the action stack, by its position
    Action(usize),
    /// An effect, by the entity that holds it and by its name
    Effect(Box<EntityPointer>, String),
    /// The environment as a whole, as the source of heat, say
    Environment,
}

/// What an [`EntityPointer`] points at, in mathematical terms.
pub enum PointerView {
    Character(Seq<Seq<char>>),
    Action(usize),
    Effect(Box<PointerView>, Seq<char>),
    Environment,
}

/// What `pointer` points at.
pub open spec fn pointer_view(pointer: EntityPointer) -> PointerView
    decreases pointer,
{
    match pointer {
        EntityPointer::Character(names) => PointerView::Character(names_view(names@)),
        EntityPointer::Action(i) => PointerView::Action(i),
        EntityPointer::Effect(holder, name) => PointerView::Effect(
            Box::new(pointer_view(*holder)),
            name@,
        ),
        EntityPointer::Environment => PointerView::Environment,
    }
}

impl View for EntityPointer {
    type V = PointerView;

    open spec fn view(&self) -> PointerView {
        pointer_view(*self)
    }
}

/// Names with a comma between them. Nothing separates what comes behind an
/// empty beginning.
pub open spec fn listed(names: Seq<Seq<char>>) -> Seq<char>
    decreases names.len(),
{
    if names.len() == 0 {
        Seq::empty()
    } else {
        let earlier = listed(names.drop_last());
        if earlier.len() == 0 {
            names.last()
        } else {
            earlier + ", "@ + names.last()
        }
    }
}

/// Names with a space in front of each.
pub open spec fn spaced(names: Seq<Seq<char>>) -> Seq<char>
    decreases names.len(),
{
    if names.len() == 0 {
        Seq::empty()
    } else {
        spaced(names.drop_last()) + " "@ + names.last()
    }
}

impl PointerView {
    /// The pointer in a sentence: the one name, `the group of` several,
    /// and a few words for what is no character.
    pub open spec fn text(self) -> Seq<char> {
        match self {
            PointerView::Character(names) => if names.len() == 1 {
                names[0]
            } else {
                "the group of "@ + listed(names)
            },
            PointerView::Action(_) => "a previous action"@,
            PointerView::Effect(_, name) => "an effect ("@ + name + ")"@,
            PointerView::Environment => "the environment"@,
        }
    }

    /// The pointer in brief.
    pub open spec fn display(self) -> Seq<char> {
        match self {
            PointerView::Character(names) => spaced(names),
            PointerView::Action(i) => "prev: "@ + decimal(i as nat),
            PointerView::Effect(_, name) => "effect: "@ + name,
            PointerView::Environment => "the environment"@,
        }
    }

    /// Whether the pointer names the character `name`.
    pub open spec fn names(self, name: Seq<char>) -> bool {
        self matches PointerView::Character(names) && names.contains(name)
    }

    /// How many entities the pointer addresses.
    pub open spec fn count(self) -> nat {
        match self {
            PointerView::Character(names) => names.len(),
            _ => 1,
        }
    }
}

impl Clone for EntityPointer {
    fn clone(&self) -> (copy: Self)
        ensures
            copy@ == self@,
    {
        self.duplicate()
    }
}

impl EntityPointer {
    /// A copy that points at the same entities.
    pub fn duplicate(&self) -> (copy: EntityPointer)
        ensures
            copy@ == self@,
        decreases self,
    {
        match self {
            EntityPointer::Character(names) => EntityPointer::Character(clone_names(names)),
            EntityPointer::Action(i) => EntityPointer::Action(*i),
            EntityPointer::Effect(holder, name) => {
                let inner: EntityPointer = holder.duplicate();
                EntityPointer::Effect(Box::new(inner), name.clone())
            },
            EntityPointer::Environment => EntityPointer::Environment,
        }
    }

    /// The pointer in brief.
    pub fn to_string(&self) -> (text: String)
        ensures
            text@ == self@.display(),
    {
        match self {
            EntityPointer::Character(c) => {
                let mut text = String::new();
                let mut i: usize = 0;
                let ghost names = names_view(c@);
                while i < c.len()
                    invariant
                        i <= c.len(),
                        names == names_view(c@),
                        text@ == spaced(names.take(i as int)),
                    decreases c.len() - i,
                {
                    proof {
                        assert(names.take(i + 1).drop_last() =~= names.take(i as int));
                    }
                    text.append(" ");
                    text.append(c[i].as_str());
                    i += 1;
                }
                assert(names.take(c.len() as int) =~= names);
                text
            },
            EntityPointer::Action(i) => {
                let mut text = String::from_str("prev: ");
                push_decimal(&mut text, *i as u64);
                text
            },
            EntityPointer::Effect(_, name) => {
                let mut text = String::from_str("effect: ");
                text.append(name.as_str());
                text
            },
            EntityPointer::Environment => String::from_str("the environment"),
        }
    }

    /// The first character that this points at, if it points at characters
    /// and `context` holds one of that name.
    pub fn get_character<'a>(&self, context: &'a Combat) -> (found: Option<&'a Character>)
        ensures
            match found {
                Some(c) => self@ matches PointerView::Character(names) && names.len() > 0
                    && position_of(context@, names[0], context@.len()) is Some && c@
                    == context@[position_of(context@, names[0], context@.len())->0],
                None => self@ matches PointerView::Character(names) ==> names.len() == 0
                    || position_of(context@, names[0], context@.len()) is None,
            },
    {
        match self {
            EntityPointer::Character(name) => {
                if name.len() > 0 {
                    context.find_character(&name[0])
                } else {
                    None
                }
            },
            // What is no character has no character to show.
            _ => None,
        }
    }

    /// Whether this points at anything but characters.
    pub fn is_action(&self) -> (b: bool)
        ensures
            b == !(self@ is Character),
    {
        match self {
            EntityPointer::Character(_) => false,
            _ => true,
        }
    }

    /// How many entities this addresses: one, or as many as there are names.
    pub fn num_entities(&self) -> (n: usize)
        ensures
            n == self@.count(),
    {
        match self {
            EntityPointer::Character(targets) => targets.len(),
            EntityPointer::Action(_) => 1,
            EntityPointer::Effect(_, _) => 1,
            EntityPointer::Environment => 1,
        }
    }
}

/// A pointer shows itself as it stands in a sentence, whatever the length
/// and the formatting.
impl InfoLine for EntityPointer {
    open spec fn line(&self, len: usize, formatting: TextFormatting) -> Seq<char> {
        self@.text()
    }

    fn format_line(&self, len: usize, formatting: TextFormatting) -> (s: String) {
        match self {
            EntityPointer::Character(c) => {
                if c.len() == 1 {
                    c[0].clone()
                } else {
                    let mut res = String::new();
                    let mut i: usize = 0;
                    let ghost names = names_view(c@);
                    while i < c.len()
                        invariant
                            i <= c.len(),
                            names == names_view(c@),
                            res@ == listed(names.take(i as int)),
                        decreases c.len() - i,
                    {
                        proof {
                            assert(names.take(i + 1).drop_last() =~= names.take(i as int));
                        }
                        if res.as_str().is_empty() {
                            res = c[i].clone();
                        } else {
                            res.append(", ");
                            res.append(c[i].as_str());
                        }
                        i += 1;
                    }
                    assert(names.take(c.len() as int) =~= names);
                    let mut text = String::from_str("the group of ");
                    text.append(res.as_str());
                    text
                }
            },
            EntityPointer::Action(_) => String::from_str("a previous action"),
            EntityPointer::Effect(_, name) => {
                let mut text = String::from_str("an effect (");
                text.append(name.as_str());
                text.append(")");
                text
            },
            EntityPointer::Environment => String::from_str("the environment"),
        }
    }
}

/// The atomic effects that are resolved on the action stack.
pub enum ActionEffect {
    /// Deals damage to the target characters
    Attack(Damage),
    /// Applies the wrapped amount directly to the target characters. A
    /// negative amount takes away, and no defense applies.
    Heal(CharUnit),
    /// Gives the target characters an effect for a number of turns
    GiveTimedEffect(EffectKind, i64),
    /// Cancels the target action
    Cancel,
    /// A cancelled action: it does nothing
    Canceled,
    /// Adds to the damage of the target attack
    AdjustDamageAbs(i64),
    /// Multiplies the damage of the target attack
    AdjustDamageMul(Factor),
    /// Points the target action at something else
    ChangeTarget(EntityPointer),
}

/// What an [`ActionEffect`] is, in mathematical terms.
pub enum ActionEffectView {
    Attack(Damage),
    Heal(CharUnit),
    GiveTimedEffect(EffectKind, i64),
    Cancel,
    Canceled,
    AdjustDamageAbs(i64),
    AdjustDamageMul(Factor),
    ChangeTarget(PointerView),
}

impl View for ActionEffect {
    type V = ActionEffectView;

    open spec fn view(&self) -> ActionEffectView {
        match self {
            ActionEffect::Attack(d) => ActionEffectView::Attack(*d),
            ActionEffect::Heal(u) => ActionEffectView::Heal(*u),
            ActionEffect::GiveTimedEffect(e, t) => ActionEffectView::GiveTimedEffect(*e, *t),
            ActionEffect::Cancel => ActionEffectView::Cancel,
            ActionEffect::Canceled => ActionEffectView::Canceled,
            ActionEffect::AdjustDamageAbs(d) => ActionEffectView::AdjustDamageAbs(*d),
            ActionEffect::AdjustDamageMul(f) => ActionEffectView::AdjustDamageMul(*f),
            ActionEffect::ChangeTarget(t) => ActionEffectView::ChangeTarget(t@),
        }
    }
}

impl Clone for ActionEffect {
    fn clone(&self) -> (copy: Self)
        ensures
            copy@ == self@,
    {
        match self {
            ActionEffect::Attack(d) => ActionEffect::Attack(*d),
            ActionEffect::Heal(u) => ActionEffect::Heal(*u),
            ActionEffect::GiveTimedEffect(e, t) => ActionEffect::GiveTimedEffect(*e, *t),
            ActionEffect::Cancel => ActionEffect::Cancel,
            ActionEffect::Canceled => ActionEffect::Canceled,
            ActionEffect::AdjustDamageAbs(d) => ActionEffect::AdjustDamageAbs(*d),
            ActionEffect::AdjustDamageMul(f) => ActionEffect::AdjustDamageMul(*f),
            ActionEffect::ChangeTarget(t) => ActionEffect::ChangeTarget(t.clone()),
        }
    }
}

impl ActionEffectView {
    /// A code of three letters for the kind of effect.
    pub open spec fn short_name(self) -> Seq<char> {
        match self {
            ActionEffectView::Attack(_) => "ATK"@,
            ActionEffectView::GiveTimedEffect(_, _) => "EFF"@,
            ActionEffectView::Cancel => "CCL"@,
            ActionEffectView::Canceled => "XXX"@,
            ActionEffectView::AdjustDamageAbs(_) => "ADA"@,
            ActionEffectView::AdjustDamageMul(_) => "ADM"@,
            ActionEffectView::ChangeTarget(_) => "CHT"@,
            ActionEffectView::Heal(_) => "HEA"@,
        }
    }

    /// The verb that tells what the effect does.
    pub open spec fn verb(self) -> Seq<char> {
        match self {
            ActionEffectView::Attack(d) => d.0.spec_verb(),
            ActionEffectView::GiveTimedEffect(_, _) => "affects"@,
            ActionEffectView::Cancel => "cancels"@,
            ActionEffectView::Canceled => "--"@,
            ActionEffectView::AdjustDamageAbs(d) => if d > 0 {
                "increases the damage of"@
            } else {
                "decreases the damage of"@
            },
            ActionEffectView::AdjustDamageMul(f) => if f.millis > 1000 {
                "increases the damage of"@
            } else {
                "decreases the damage of"@
            },
            ActionEffectView::ChangeTarget(_) => "change the target of"@,
            ActionEffectView::Heal(_) => "heals"@,
        }
    }

    /// The preposition that leads to the value of the effect, as in
    /// "attacks for" and "increases the damage by".
    pub open spec fn preposition(self) -> Seq<char> {
        match self {
            ActionEffectView::Attack(_) => "for"@,
            ActionEffectView::GiveTimedEffect(_, _) => "with"@,
            ActionEffectView::Cancel => ""@,
            ActionEffectView::Canceled => ""@,
            ActionEffectView::AdjustDamageAbs(_) => "by"@,
            ActionEffectView::AdjustDamageMul(_) => "by"@,
            ActionEffectView::ChangeTarget(_) => "to"@,
            ActionEffectView::Heal(_) => "for"@,
        }
    }

    /// The value of the effect as text: the damage, the effect and its
    /// turns, the amount, the percentage that a factor takes off, the new
    /// target.
    pub open spec fn value_text(self, len: usize, formatting: TextFormatting) -> Seq<char> {
        match self {
            ActionEffectView::Attack(d) => d.display(),
            ActionEffectView::GiveTimedEffect(e, t) => enriched(
                formatting,
                e.description(),
                "effect"@,
                None,
            ) + " for "@ + signed_decimal(t as int) + " turns"@,
            ActionEffectView::Cancel => ""@,
            ActionEffectView::Canceled => ""@,
            ActionEffectView::AdjustDamageAbs(a) => shortened(a as int, len as nat),
            ActionEffectView::AdjustDamageMul(m) => (if m.millis < 0 {
                "-"@
            } else {
                ""@
            }) + signed_decimal((1000 - m.millis) / 10) + "%"@,
            ActionEffectView::ChangeTarget(t) => t.text(),
            ActionEffectView::Heal(unit) => unit.line(len, formatting),
        }
    }
}

impl ActionEffect {
    /// A code of three letters for the kind of effect.
    pub fn short_name(&self) -> (name: &'static str)
        ensures
            name@ == self@.short_name(),
    {
        match self {
            ActionEffect::Attack(_) => "ATK",
            ActionEffect::GiveTimedEffect(_, _) => "EFF",
            ActionEffect::Cancel => "CCL",
            ActionEffect::Canceled => "XXX",
            ActionEffect::AdjustDamageAbs(_) => "ADA",
            ActionEffect::AdjustDamageMul(_) => "ADM",
            ActionEffect::ChangeTarget(_) => "CHT",
            ActionEffect::Heal(_) => "HEA",
        }
    }

    /// A verb, in the third person, that tells what the effect does. It
    /// serves to narrate the resolution of a turn.
    pub fn verb(&self) -> (verb: &'static str)
        ensures
            verb@ == self@.verb(),
    {
        match self {
            ActionEffect::Attack(d) => d.0.verb(),
            ActionEffect::GiveTimedEffect(_, _) => "affects",
            ActionEffect::Cancel => "cancels",
            ActionEffect::Canceled => "--",
            ActionEffect::AdjustDamageAbs(d) => if *d > 0 {
                "increases the damage of"
            } else {
                "decreases the damage of"
            },
            ActionEffect::AdjustDamageMul(f) => if f.millis > 1000 {
                "increases the damage of"
            } else {
                "decreases the damage of"
            },
            ActionEffect::ChangeTarget(_) => "change the target of",
            ActionEffect::Heal(_) => "heals",
        }
    }

    /// The preposition that leads to the value of the effect.
    pub fn preposition(&self) -> (word: &'static str)
        ensures
            word@ == self@.preposition(),
    {
        match self {
            ActionEffect::Attack(_) => "for",
            ActionEffect::GiveTimedEffect(_, _) => "with",
            ActionEffect::Cancel => "",
            ActionEffect::Canceled => "",
            ActionEffect::AdjustDamageAbs(_) => "by",
            ActionEffect::AdjustDamageMul(_) => "by",
            ActionEffect::ChangeTarget(_) => "to",
            ActionEffect::Heal(_) => "for",
        }
    }

    /// The value of the effect as `formatting` shows it.
    pub fn format_value(&self, len: usize, formatting: TextFormatting) -> (text: String)
        ensures
            text@ == self@.value_text(len, formatting),
    {
        match self {
            ActionEffect::Attack(d) => d.to_string(),
            ActionEffect::GiveTimedEffect(e, t) => {
                let mut text = formatting.enrich_text(e.describe(), "effect", None);
                text.append(" for ");
                push_signed(&mut text, *t);
                text.append(" turns");
                text
            },
            ActionEffect::Cancel => String::from_str(""),
            ActionEffect::Canceled => String::from_str(""),
            ActionEffect::AdjustDamageAbs(a) => a.format_line(len, formatting),
            ActionEffect::AdjustDamageMul(m) => {
                // The percentage that the factor takes off
                let percentage_points = clamp_to_i64(
                    div_floor(1000 - m.millis as i128, 10),
                );
                let mut text = String::from_str(
                    if m.millis < 0 {
                        "-"
                    } else {
                        ""
                    },
                );
                push_signed(&mut text, percentage_points);
                text.append("%");
                text
            },
            ActionEffect::ChangeTarget(t) => t.format_line(len, formatting),
            ActionEffect::Heal(unit) => unit.format_line(len, formatting),
        }
    }

    /// Lets this effect take hold of `character`. Effects that are meant for
    /// actions do nothing.
    pub fn apply_to_character(&self, character: &mut Character)
        ensures
            final(character)@ == effect_on_character(self@, old(character)@),
    {
        match self {
            ActionEffect::Attack(d) => character.apply_damage(d),
            ActionEffect::GiveTimedEffect(e, t) => character.apply_timed_effect(*e, *t),
            ActionEffect::Cancel => {},
            ActionEffect::Canceled => {},
            ActionEffect::AdjustDamageAbs(_) => {},
            ActionEffect::AdjustDamageMul(_) => {},
            ActionEffect::ChangeTarget(_) => {},
            ActionEffect::Heal(v) => character.apply_directly(v),
        }
    }

    /// Lets this effect take hold of `action`. Effects that are meant for
    /// characters do nothing.
    pub fn apply_to_action(&self, action: &mut Action)
        ensures
            final(action)@ == effect_on_action(self@, old(action)@),
    {
        match self {
            ActionEffect::Attack(_) => {},
            ActionEffect::GiveTimedEffect(_, _) => {},
            ActionEffect::Cancel => action.set_effect(ActionEffect::Canceled),
            ActionEffect::Canceled => {},
            ActionEffect::AdjustDamageAbs(d) => {
                let adjusted = match action.get_effect() {
                    ActionEffect::Attack(damage) => Some(Damage(damage.0, sat_add(damage.1, *d))),
                    _ => None,
                };
                if let Some(damage) = adjusted {
                    action.set_effect(ActionEffect::Attack(damage));
                }
            },
            ActionEffect::AdjustDamageMul(f) => {
                let adjusted = match action.get_effect() {
                    ActionEffect::Attack(damage) => Some(Damage(damage.0, f.scale_floor(damage.1))),
                    _ => None,
                };
                if let Some(damage) = adjusted {
                    action.set_effect(ActionEffect::Attack(damage));
                }
            },
            ActionEffect::ChangeTarget(t) => {
                // The effect keeps its target, so the action gets a copy.
                action.set_target(t.clone());
            },
            ActionEffect::Heal(_) => {},
        }
    }
}

/// An atomic action on the stack: who acts, what happens, and to whom.
pub struct Action {
    source: EntityPointer,
    effect: ActionEffect,
    target: EntityPointer,
    /// The position of this action on the stack, set when the action is
    /// pushed.
    stack_position: Option<usize>,
}

/// What an [`Action`] is, in mathematical terms.
pub struct ActionView {
    pub source: PointerView,
    pub effect: ActionEffectView,
    pub target: PointerView,
    pub stack_position: Option<usize>,
}

impl View for Action {
    type V = ActionView;

    closed spec fn view(&self) -> ActionView {
        ActionView {
            source: self.source@,
            effect: self.effect@,
            target: self.target@,
            stack_position: self.stack_position,
        }
    }
}

impl ActionView {
    /// The action as a sentence: who does what to whom, and with what.
    pub open spec fn sentence(self, len: usize, formatting: TextFormatting) -> Seq<char> {
        self.source.text() + " "@ + self.effect.verb() + " "@ + self.target.text() + " "@
            + self.effect.preposition() + " "@ + self.effect.value_text(len, formatting)
    }

    /// The action in brief: the source in brackets, the kind of effect, and
    /// the target.
    pub open spec fn display(self) -> Seq<char> {
        "["@ + self.source.display() + "] "@ + self.effect.short_name() + " on "@
            + self.target.display()
    }
}

/// An action shows itself as a sentence.
impl InfoLine for Action {
    open spec fn line(&self, len: usize, formatting: TextFormatting) -> Seq<char> {
        self@.sentence(len, formatting)
    }

    fn format_line(&self, len: usize, formatting: TextFormatting) -> (s: String) {
        let mut text = self.source.format_line(0, formatting);
        text.append(" ");
        text.append(self.effect.verb());
        text.append(" ");
        text.append(self.target.format_line(0, formatting).as_str());
        text.append(" ");
        text.append(self.effect.preposition());
        text.append(" ");
        text.append(self.effect.format_value(len, formatting).as_str());
        text
    }
}

impl Clone for Action {
    fn clone(&self) -> (copy: Self)
        ensures
            copy@ == self@,
    {
        Action {
            source: self.source.clone(),
            effect: self.effect.clone(),
            target: self.target.clone(),
            stack_position: self.stack_position,
        }
    }
}

impl Action {
    /// The action in brief.
    pub fn to_string(&self) -> (text: String)
        ensures
            text@ == self@.display(),
    {
        let mut text = String::from_str("[");
        text.append(self.source.to_string().as_str());
        text.append("] ");
        text.append(self.effect.short_name());
        text.append(" on ");
        text.append(self.target.to_string().as_str());
        text
    }

    /// A new action that has no position on a stack yet.
    pub fn from_source(source: EntityPointer, effect: ActionEffect, target: EntityPointer) -> (a:
        Action)
        ensures
            a@ == (ActionView {
                source: source@,
                effect: effect@,
                target: target@,
                stack_position: None,
            }),
    {
        Action { source, effect, target, stack_position: None }
    }

    /// Who acts.
    pub fn get_source(&self) -> (p: &EntityPointer)
        ensures
            p@ == self@.source,
    {
        &self.source
    }

    /// What happens.
    pub fn get_effect(&self) -> (e: &ActionEffect)
        ensures
            e@ == self@.effect,
    {
        &self.effect
    }

    /// Replaces what happens.
    pub fn set_effect(&mut self, effect: ActionEffect)
        ensures
            final(self)@ == (ActionView { effect: effect@, ..old(self)@ }),
    {
        self.effect = effect;
    }

    /// To whom it happens.
    pub fn get_target(&self) -> (p: &EntityPointer)
        ensures
            p@ == self@.target,
    {
        &self.target
    }

    /// Replaces the target.
    pub fn set_target(&mut self, target: EntityPointer)
        ensures
            final(self)@ == (ActionView { target: target@, ..old(self)@ }),
    {
        self.target = target;
    }

    /// The position of this action on its stack, once it has been pushed.
    pub fn stack_position(&self) -> (p: Option<usize>)
        ensures
            p == self@.stack_position,
    {
        self.stack_position
    }

    /// A pointer to this very action on its stack. The action must have been
    /// pushed.
    pub fn build_self_target(&self) -> (p: EntityPointer)
        requires
            self@.stack_position is Some,
        ensures
            p@ == PointerView::Action(self@.stack_position->0),
    {
        match self.stack_position {
            Some(position) => EntityPointer::Action(position),
            None => EntityPointer::Environment,
        }
    }

    /// Whether this action is aimed at characters and `name` is among them.
    pub fn targets_character(&self, name: &String) -> (b: bool)
        ensures
            b == self@.target.names(name@),
    {
        if let EntityPointer::Character(chars) = &self.target {
            names_contain(chars, name)
        } else {
            false
        }
    }

    /// Records where on the stack this action lies.
    pub fn set_stack_location(&mut self, position: usize)
        ensures
            final(self)@ == (ActionView { stack_position: Some(position), ..old(self)@ }),
    {
        self.stack_position = Some(position);
    }

    /// Lets this action take hold of the characters it is aimed at. An action
    /// that is aimed at anything else does nothing here.
    pub fn resolve_on_chars(&self, context: &mut Combat)
        ensures
            final(context)@ == match self@.target {
                PointerView::Character(names) => effect_on_roster(
                    old(context)@,
                    names,
                    self@.effect,
                ),
                _ => old(context)@,
            },
    {
        match &self.target {
            EntityPointer::Character(c) => {
                let mut i: usize = 0;
                let ghost names = names_view(c@);
                let ghost wanted = effect_on_roster(old(context)@, names, self@.effect);
                while i < context.participants.len()
                    invariant
                        i <= context.participants.len(),
                        names == names_view(c@),
                        wanted == effect_on_roster(old(context)@, names, self@.effect),
                        context@.len() == old(context)@.len(),
                        forall|k: int| 0 <= k < i ==> context@[k] == wanted[k],
                        forall|k: int| i <= k < context@.len() ==> context@[k] == old(context)@[k],
                    decreases context.participants.len() - i,
                {
                    if names_contain(c, context.participants[i].name()) {
                        self.effect.apply_to_character(&mut context.participants[i]);
                    }
                    i += 1;
                }
            },
            EntityPointer::Action(_) => {},
            EntityPointer::Effect(_, _) => {},
            EntityPointer::Environment => {},
        }
    }

    /// Lets this action take hold of `action`.
    pub fn resolve_on_action(&self, action: &mut Action)
        ensures
            final(action)@ == effect_on_action(self@.effect, old(action)@),
    {
        self.effect.apply_to_action(action);
    }
}

/// The views of a list of actions.
pub open spec fn actions_view(actions: Seq<Action>) -> Seq<ActionView> {
    Seq::new(actions.len(), |i: int| actions[i]@)
}

/// The views of a list of characters.
pub open spec fn roster_view(characters: Seq<Character>) -> Seq<CharacterView> {
    Seq::new(characters.len(), |i: int| characters[i]@)
}

/// What takes part in combat: it prepares for and winds up each round, picks
/// its maneuver, takes damage and healing, and answers the actions of others.
pub trait Actor {
    /// Called for every actor before the maneuvers of a round.
    fn pre_turn(&mut self);

    /// Called for every actor after the maneuvers of a round.
    fn post_turn(&mut self);

    /// The maneuver that the actor makes in its turn.
    fn next_move(&self) -> ManeuverKind;

    /// Takes damage, as far as the defenses let it through.
    fn apply_damage(&mut self, damage: &Damage);

    /// Applies `val` directly, whatever the defenses and effects.
    fn apply_directly(&mut self, val: &CharUnit);

    /// Gives the actor an effect for `effect_duration` turns.
    fn apply_timed_effect(&mut self, effect: EffectKind, effect_duration: i64);

    /// Called for every action that enters the stack, before it is resolved.
    /// The actor appends its answers to `reactions` and pays for them; what
    /// is in `reactions` already stays as it is. Every answer will be put on
    /// the stack, where others may answer it in turn.
    fn respond_to_action(&mut self, action: &Action, reactions: &mut Vec<Action>)
        requires
            action@.stack_position is Some,
    ;
}

/// The current mobility of each character of the roster.
pub open spec fn mobilities(roster: Seq<CharacterView>) -> Seq<i64> {
    Seq::new(roster.len(), |i: int| roster[i].game_stats().mob)
}

/// The turn order: the positions of the roster in ascending order of current
/// mobility, and in the order of the roster among equals.
pub open spec fn turn_order(roster: Seq<CharacterView>) -> Seq<usize> {
    stable_order(mobilities(roster))
}

/// The position of the first character called `name`, if there is one.
pub open spec fn position_of(roster: Seq<CharacterView>, name: Seq<char>, n: nat) -> Option<int>
    decreases n,
{
    if n == 0 {
        None
    } else {
        match position_of(roster, name, (n - 1) as nat) {
            Some(i) => Some(i),
            None => if roster[n - 1].name == name {
                Some(n - 1)
            } else {
                None
            },
        }
    }
}

/// How ready the roster as a whole is to react: the sum of the
/// [`readiness`] of its members.
pub open spec fn total_readiness(roster: Seq<CharacterView>) -> nat
    decreases roster.len(),
{
    if roster.len() == 0 {
        0
    } else {
        total_readiness(roster.drop_last()) + readiness(roster.last())
    }
}

/// The roster and the answers after the last `k` entries of `order` have
/// been asked to react to `action`, the last entry first. An entry that is
/// no position of the roster is passed over.
pub open spec fn solicit_upto(
    roster: Seq<CharacterView>,
    order: Seq<usize>,
    action: ActionView,
    k: nat,
) -> (Seq<CharacterView>, Seq<ActionView>)
    decreases k,
{
    if k == 0 || k > order.len() {
        (roster, Seq::empty())
    } else {
        let (earlier, answers) = solicit_upto(roster, order, action, (k - 1) as nat);
        let who = order[order.len() - k] as int;
        if who < earlier.len() {
            let (after, more) = earlier[who].respond(action);
            (earlier.update(who, after), answers + more)
        } else {
            (earlier, answers)
        }
    }
}

/// The roster and the answers after everyone has been asked to react to
/// `action`, in the reverse of `order`.
pub open spec fn solicit(roster: Seq<CharacterView>, order: Seq<usize>, action: ActionView) -> (
    Seq<CharacterView>,
    Seq<ActionView>,
) {
    solicit_upto(roster, order, action, order.len())
}

/// Replacing one member changes the readiness of the roster by the
/// difference between the two.
pub proof fn lemma_total_readiness_update(roster: Seq<CharacterView>, i: int, c: CharacterView)
    requires
        0 <= i < roster.len(),
    ensures
        total_readiness(roster.update(i, c)) + readiness(roster[i]) == total_readiness(roster)
            + readiness(c),
    decreases roster.len(),
{
    let updated = roster.update(i, c);
    if i == roster.len() - 1 {
        assert(updated.drop_last() =~= roster.drop_last());
    } else {
        assert(updated.drop_last() =~= roster.drop_last().update(i, c));
        lemma_total_readiness_update(roster.drop_last(), i, c);
    }
}

/// Asking for reactions changes nothing about the roster but the AP and MP
/// of its members. The roster never gets readier to react, and every answer
/// makes it less ready.
pub proof fn lemma_solicit_upto(
    roster: Seq<CharacterView>,
    order: Seq<usize>,
    action: ActionView,
    k: nat,
)
    ensures
        solicit_upto(roster, order, action, k).0.len() == roster.len(),
        forall|i: int|
            0 <= i < roster.len() ==> (#[trigger] solicit_upto(roster, order, action, k).0[i])
                == (CharacterView {
                ap: solicit_upto(roster, order, action, k).0[i].ap,
                mp: solicit_upto(roster, order, action, k).0[i].mp,
                ..roster[i]
            }),
        total_readiness(solicit_upto(roster, order, action, k).0) <= total_readiness(roster),
        solicit_upto(roster, order, action, k).1.len() > 0 ==> total_readiness(
            solicit_upto(roster, order, action, k).0,
        ) < total_readiness(roster),
    decreases k,
{
    if k == 0 || k > order.len() {
    } else {
        lemma_solicit_upto(roster, order, action, (k - 1) as nat);
        let (earlier, answers) = solicit_upto(roster, order, action, (k - 1) as nat);
        let who = order[order.len() - k] as int;
        if who < earlier.len() {
            lemma_respond(earlier[who], action);
            lemma_total_readiness_update(earlier, who, earlier[who].respond(action).0);
        }
    }
}

/// Combat between characters. The party of each character says on which side
/// it stands.
pub struct Combat {
    /// All who take part, of whatever party. Combat owns them while it lasts.
    participants: Vec<Character>,
}

impl View for Combat {
    type V = Seq<CharacterView>;

    closed spec fn view(&self) -> Seq<CharacterView> {
        roster_view(self.participants@)
    }
}

/// The characters behind a list of references.
pub open spec fn members_of(found: Seq<&Character>) -> Seq<Character> {
    Seq::new(found.len(), |i: int| *found[i])
}

/// The characters that `filter` says yes to.
pub open spec fn accepted_by<F: Fn(&Character) -> bool>(filter: F) -> spec_fn(Character) -> bool {
    |c: Character| call_ensures(filter, (&c,), true)
}

impl Combat {
    /// The characters that take part, in the order of the roster.
    pub closed spec fn members(&self) -> Seq<Character> {
        self.participants@
    }

    /// Combat between `participants`.
    pub fn from_participants(participants: Vec<Character>) -> (combat: Combat)
        ensures
            combat@ == roster_view(participants@),
    {
        Combat { participants }
    }

    /// All who take part, in the order of the roster.
    pub fn participants(&self) -> (roster: &Vec<Character>)
        ensures
            roster_view(roster@) == self@,
            roster@ == self.members(),
    {
        &self.participants
    }

    /// The characters that take part, one after the other.
    pub fn iter_characters(&self) -> (iter: core::slice::Iter<'_, Character>)
        ensures
            roster_view(vstd::std_specs::slice::into_iter_elts(iter)) == self@,
    {
        let slice = self.participants.as_slice();
        let iter = slice.iter();
        proof {
            vstd::std_specs::slice::axiom_spec_slice_iter(slice);
        }
        iter
    }

    /// The turn order for the state of the roster as it is now.
    pub fn build_turn_order(&self) -> (order: Vec<usize>)
        ensures
            order@ == turn_order(self@),
            is_stable_order(mobilities(self@), order@),
    {
        let mut keys: Vec<i64> = Vec::new();
        let mut i: usize = 0;
        while i < self.participants.len()
            invariant
                i <= self.participants.len(),
                keys@ == mobilities(self@).take(i as int),
            decreases self.participants.len() - i,
        {
            keys.push(self.participants[i].calculate_game_stats().mob);
            i += 1;
        }
        assert(keys@ =~= mobilities(self@));
        stable_order_of(&keys)
    }

    /// The first character called `name`, if there is one.
    pub fn find_character(&self, name: &String) -> (found: Option<&Character>)
        ensures
            match found {
                Some(c) => position_of(self@, name@, self@.len()) is Some && c@ == self@[position_of(
                    self@,
                    name@,
                    self@.len(),
                )->0],
                None => position_of(self@, name@, self@.len()) is None,
            },
    {
        let mut i: usize = 0;
        while i < self.participants.len()
            invariant
                i <= self.participants.len(),
                position_of(self@, name@, i as nat) is None,
            decreases self.participants.len() - i,
        {
            if *self.participants[i].name() == *name {
                proof {
                    lemma_position_found(self@, name@, i as int, self@.len());
                }
                return Some(&self.participants[i]);
            }
            i += 1;
        }
        None
    }

    /// The first character called `name`, if there is one, to change it in
    /// place.
    pub fn find_character_mut(&mut self, name: &String) -> (found: Option<&mut Character>)
        ensures
            match found {
                Some(c) => {
                    &&& position_of(old(self)@, name@, old(self)@.len()) is Some
                    &&& c@ == old(self)@[position_of(old(self)@, name@, old(self)@.len())->0]
                    &&& final(self)@ == old(self)@.update(
                        position_of(old(self)@, name@, old(self)@.len())->0,
                        final(c)@,
                    )
                },
                None => position_of(old(self)@, name@, old(self)@.len()) is None && final(self)@
                    == old(self)@,
            },
    {
        let mut i: usize = 0;
        while i < self.participants.len()
            invariant
                i <= self.participants.len(),
                *self == *old(self),
                position_of(self@, name@, i as nat) is None,
            decreases self.participants.len() - i,
        {
            if *self.participants[i].name() == *name {
                proof {
                    lemma_position_found(self@, name@, i as int, self@.len());
                }
                return Some(self.member_mut(i));
            }
            i += 1;
        }
        None
    }

    /// All characters that `filter` accepts, in the order of the roster. The
    /// filter must give one answer for each character.
    pub fn find_characters<F: Fn(&Character) -> bool>(&self, filter: F) -> (found: Vec<&Character>)
        requires
            forall|c: Character| call_requires(filter, (&c,)),
            forall|c: Character|
                !(call_ensures(filter, (&c,), true) && call_ensures(filter, (&c,), false)),
        ensures
            members_of(found@) == self.members().filter(accepted_by(filter)),
    {
        let mut found: Vec<&Character> = Vec::new();
        let mut i: usize = 0;
        proof {
            reveal(Seq::filter);
        }
        while i < self.participants.len()
            invariant
                i <= self.participants.len(),
                forall|c: Character| call_requires(filter, (&c,)),
                forall|c: Character|
                    !(call_ensures(filter, (&c,), true) && call_ensures(filter, (&c,), false)),
                members_of(found@) == self.members().take(i as int).filter(accepted_by(filter)),
            decreases self.participants.len() - i,
        {
            proof {
                reveal(Seq::filter);
                assert(self.members().take(i + 1).drop_last() =~= self.members().take(i as int));
            }
            if filter(&self.participants[i]) {
                found.push(&self.participants[i]);
            }
            i += 1;
        }
        assert(self.members().take(self.participants.len() as int) =~= self.members());
        found
    }

    /// The member at position `i`, to change it in place.
    pub fn member_mut(&mut self, i: usize) -> (member: &mut Character)
        requires
            i < old(self)@.len(),
        ensures
            member@ == old(self)@[i as int],
            final(self)@ == old(self)@.update(i as int, final(member)@),
    {
        &mut self.participants[i]
    }

    /// Asks everyone to react to `action`, in the reverse of `order`, and
    /// collects the answers. Those who answer pay for it.
    pub fn request_reactions_in(&mut self, order: &Vec<usize>, action: &Action) -> (reactions: Vec<
        Action,
    >)
        requires
            action@.stack_position is Some,
        ensures
            final(self)@ == solicit(old(self)@, order@, action@).0,
            actions_view(reactions@) == solicit(old(self)@, order@, action@).1,
    {
        let mut reactions: Vec<Action> = Vec::new();
        let mut k: usize = 0;
        while k < order.len()
            invariant
                k <= order.len(),
                action@.stack_position is Some,
                self@ == solicit_upto(old(self)@, order@, action@, k as nat).0,
                actions_view(reactions@) == solicit_upto(old(self)@, order@, action@, k as nat).1,
            decreases order.len() - k,
        {
            let who = order[order.len() - 1 - k];
            if who < self.participants.len() {
                self.participants[who].respond_to_action(action, &mut reactions);
            }
            k += 1;
        }
        reactions
    }
}

/// The first character of a name found at `i` is the one that
/// [`position_of`] gives for every longer stretch of the roster.
pub proof fn lemma_position_found(roster: Seq<CharacterView>, name: Seq<char>, i: int, n: nat)
    requires
        0 <= i < n,
        position_of(roster, name, i as nat) is None,
        roster[i].name == name,
    ensures
        position_of(roster, name, n) == Some(i),
    decreases n,
{
    if n > i + 1 {
        lemma_position_found(roster, name, i, (n - 1) as nat);
    }
}

/// `action` with the stack position `position`.
pub open spec fn placed_at(action: ActionView, position: nat) -> ActionView {
    ActionView { stack_position: Some(position as usize), ..action }
}

/// The roster and the stack after the actions of `pending` and everything
/// they provoke have been put on `stack`.
///
/// The build goes depth first. The first pending action takes the next
/// position on the stack, everyone is asked at once to react to it, in the
/// reverse of `order`, and the answers are dealt with before the rest of
/// `pending`. So what answers an action lies above it on the stack, and below
/// the next action that was pending.
pub open spec fn build_from(
    roster: Seq<CharacterView>,
    order: Seq<usize>,
    stack: Seq<ActionView>,
    pending: Seq<ActionView>,
) -> (Seq<CharacterView>, Seq<ActionView>)
    decreases total_readiness(roster), pending.len(),
    via build_from_terminates
{
    if pending.len() == 0 {
        (roster, stack)
    } else {
        let action = placed_at(pending[0], stack.len());
        let (after, answers) = solicit(roster, order, action);
        build_from(after, order, stack.push(action), answers + pending.drop_first())
    }
}

#[via_fn]
proof fn build_from_terminates(
    roster: Seq<CharacterView>,
    order: Seq<usize>,
    stack: Seq<ActionView>,
    pending: Seq<ActionView>,
) {
    if pending.len() != 0 {
        let action = placed_at(pending[0], stack.len());
        lemma_solicit_upto(roster, order, action, order.len());
    }
}

/// Building from a list of pending actions is building from its first part
/// and then, on what that gave, from its second part.
pub proof fn lemma_build_from_split(
    roster: Seq<CharacterView>,
    order: Seq<usize>,
    stack: Seq<ActionView>,
    first: Seq<ActionView>,
    second: Seq<ActionView>,
)
    ensures
        build_from(roster, order, stack, first + second) == build_from(
            build_from(roster, order, stack, first).0,
            order,
            build_from(roster, order, stack, first).1,
            second,
        ),
    decreases total_readiness(roster), first.len(),
{
    if first.len() == 0 {
    } else {
        let all = first + second;
        let action = placed_at(first[0], stack.len());
        let (after, answers) = solicit(roster, order, action);
        lemma_solicit_upto(roster, order, action, order.len());
        assert(answers + all.drop_first() =~= (answers + first.drop_first()) + second);
        lemma_build_from_split(
            after,
            order,
            stack.push(action),
            answers + first.drop_first(),
            second,
        );
    }
}

/// Building never makes the roster readier to react, and it changes nothing
/// about the roster but the AP and MP of its members.
pub proof fn lemma_build_from(
    roster: Seq<CharacterView>,
    order: Seq<usize>,
    stack: Seq<ActionView>,
    pending: Seq<ActionView>,
)
    ensures
        build_from(roster, order, stack, pending).0.len() == roster.len(),
        total_readiness(build_from(roster, order, stack, pending).0) <= total_readiness(roster),
        forall|i: int|
            0 <= i < roster.len() ==> (#[trigger] build_from(roster, order, stack, pending).0[i])
                == (CharacterView {
                ap: build_from(roster, order, stack, pending).0[i].ap,
                mp: build_from(roster, order, stack, pending).0[i].mp,
                ..roster[i]
            }),
        build_from(roster, order, stack, pending).1.len() >= stack.len() + pending.len(),
        forall|i: int|
            0 <= i < stack.len() ==> (#[trigger] build_from(roster, order, stack, pending).1[i])
                == stack[i],
    decreases total_readiness(roster), pending.len(),
{
    if pending.len() != 0 {
        let action = placed_at(pending[0], stack.len());
        let (after, answers) = solicit(roster, order, action);
        lemma_solicit_upto(roster, order, action, order.len());
        lemma_build_from(after, order, stack.push(action), answers + pending.drop_first());
        let built = build_from(after, order, stack.push(action), answers + pending.drop_first());
        assert forall|i: int| 0 <= i < stack.len() implies (#[trigger] built.1[i]) == stack[i] by {
        }
    }
}

/// `action` after an effect that is aimed at it has taken hold.
///
/// A cancellation leaves it inert. An adjustment rewrites the amount of an
/// attack and leaves anything else alone. A change of target rewrites the
/// target. Effects that are meant for characters do nothing to an action.
pub open spec fn effect_on_action(effect: ActionEffectView, action: ActionView) -> ActionView {
    match effect {
        ActionEffectView::Cancel => ActionView { effect: ActionEffectView::Canceled, ..action },
        ActionEffectView::AdjustDamageAbs(d) => match action.effect {
            ActionEffectView::Attack(damage) => ActionView {
                effect: ActionEffectView::Attack(
                    Damage(damage.0, clamp_i64(damage.1 + d) as i64),
                ),
                ..action
            },
            _ => action,
        },
        ActionEffectView::AdjustDamageMul(f) => match action.effect {
            ActionEffectView::Attack(damage) => ActionView {
                effect: ActionEffectView::Attack(
                    Damage(damage.0, clamp_i64(scaled_floor(f.millis as int, damage.1 as int)) as i64),
                ),
                ..action
            },
            _ => action,
        },
        ActionEffectView::ChangeTarget(target) => ActionView { target, ..action },
        _ => action,
    }
}

/// `character` after an effect that is aimed at it has taken hold. Effects
/// that are meant for actions do nothing to a character.
pub open spec fn effect_on_character(effect: ActionEffectView, character: CharacterView) -> CharacterView {
    match effect {
        ActionEffectView::Attack(damage) => character.after_damage(damage),
        ActionEffectView::Heal(unit) => character.after_direct(unit),
        ActionEffectView::GiveTimedEffect(e, turns) => character.after_timed_effect(e, turns),
        _ => character,
    }
}

/// The roster after `effect` has taken hold of every member whose name is
/// among `names`.
pub open spec fn effect_on_roster(
    roster: Seq<CharacterView>,
    names: Seq<Seq<char>>,
    effect: ActionEffectView,
) -> Seq<CharacterView> {
    Seq::new(
        roster.len(),
        |i: int|
            if names.contains(roster[i].name) {
                effect_on_character(effect, roster[i])
            } else {
                roster[i]
            },
    )
}

/// An action that is aimed at another action and waits for it to be
/// resolved, with the stack position it is aimed at.
pub struct Waiting {
    pub position: usize,
    pub action: Action,
}

/// What a [`Waiting`] is, in mathematical terms.
pub struct WaitingView {
    pub position: usize,
    pub action: ActionView,
}

impl View for Waiting {
    type V = WaitingView;

    open spec fn view(&self) -> WaitingView {
        WaitingView { position: self.position, action: self.action@ }
    }
}

/// The views of a list of waiting actions.
pub open spec fn waiting_view(waiting: Seq<Waiting>) -> Seq<WaitingView> {
    Seq::new(waiting.len(), |i: int| waiting[i]@)
}

/// `action`, which lies at `position`, after the first `k` of the waiting
/// actions have been looked at: those aimed at `position` have taken hold of
/// it, in the order in which they came to wait.
pub open spec fn with_waiting(
    waiting: Seq<WaitingView>,
    position: int,
    action: ActionView,
    k: nat,
) -> ActionView
    decreases k,
{
    if k == 0 || k > waiting.len() {
        action
    } else {
        let earlier = with_waiting(waiting, position, action, (k - 1) as nat);
        if waiting[k - 1].position == position {
            effect_on_action(waiting[k - 1].action.effect, earlier)
        } else {
            earlier
        }
    }
}

/// The roster after `stack` has been resolved, and the actions in the order
/// and in the form in which they were resolved.
///
/// Actions leave the stack from the top. Before an action is resolved, every
/// waiting action that is aimed at its position takes hold of it. Then the
/// target decides: an action aimed at characters takes hold of every member
/// of the roster it names; an action aimed at an action joins those that
/// wait; an action aimed at an effect or at the environment does nothing.
pub open spec fn resolve_from(
    roster: Seq<CharacterView>,
    stack: Seq<ActionView>,
    waiting: Seq<WaitingView>,
) -> (Seq<CharacterView>, Seq<ActionView>)
    decreases stack.len(),
{
    if stack.len() == 0 {
        (roster, Seq::empty())
    } else {
        let position = stack.len() - 1;
        let action = with_waiting(waiting, position, stack.last(), waiting.len());
        let (after, rest) = match action.target {
            PointerView::Character(names) => resolve_from(
                effect_on_roster(roster, names, action.effect),
                stack.drop_last(),
                waiting,
            ),
            PointerView::Action(i) => resolve_from(
                roster,
                stack.drop_last(),
                waiting.push(WaitingView { position: i, action }),
            ),
            _ => resolve_from(roster, stack.drop_last(), waiting),
        };
        (after, seq![action] + rest)
    }
}

/// The roster after `stack` has been resolved.
pub open spec fn resolve(roster: Seq<CharacterView>, stack: Seq<ActionView>) -> Seq<CharacterView> {
    resolve_from(roster, stack, Seq::empty()).0
}

/// The actions of `stack` in the order and in the form in which they are
/// resolved.
pub open spec fn resolution_log(stack: Seq<ActionView>, roster: Seq<CharacterView>) -> Seq<
    ActionView,
> {
    resolve_from(roster, stack, Seq::empty()).1
}

/// An effect that takes hold of an action leaves its source and its stack
/// position as they are.
pub proof fn lemma_with_waiting_keeps_identity(
    waiting: Seq<WaitingView>,
    position: int,
    action: ActionView,
    k: nat,
)
    ensures
        with_waiting(waiting, position, action, k).source == action.source,
        with_waiting(waiting, position, action, k).stack_position == action.stack_position,
    decreases k,
{
    if k == 0 || k > waiting.len() {
    } else {
        lemma_with_waiting_keeps_identity(waiting, position, action, (k - 1) as nat);
    }
}

/// Resolution is last in, first out: every action of the stack is resolved
/// once, and the action resolved in place `k` is the one that lay `k` below
/// the top.
pub proof fn lemma_resolution_is_lifo(
    roster: Seq<CharacterView>,
    stack: Seq<ActionView>,
    waiting: Seq<WaitingView>,
)
    ensures
        resolve_from(roster, stack, waiting).0.len() == roster.len(),
        resolve_from(roster, stack, waiting).1.len() == stack.len(),
        forall|k: int|
            0 <= k < stack.len() ==> {
                &&& (#[trigger] resolve_from(roster, stack, waiting).1[k]).source == stack[
                    stack.len() - 1 - k].source
                &&& resolve_from(roster, stack, waiting).1[k].stack_position == stack[
                    stack.len() - 1 - k].stack_position
            },
    decreases stack.len(),
{
    if stack.len() > 0 {
        let position = stack.len() - 1;
        let action = with_waiting(waiting, position, stack.last(), waiting.len());
        lemma_with_waiting_keeps_identity(waiting, position, stack.last(), waiting.len());
        let below = stack.drop_last();
        match action.target {
            PointerView::Character(names) => {
                lemma_resolution_is_lifo(
                    effect_on_roster(roster, names, action.effect),
                    below,
                    waiting,
                );
            },
            PointerView::Action(i) => {
                lemma_resolution_is_lifo(
                    roster,
                    below,
                    waiting.push(WaitingView { position: i, action }),
                );
            },
            _ => {
                lemma_resolution_is_lifo(roster, below, waiting);
            },
        }
        let log = resolve_from(roster, stack, waiting).1;
        assert forall|k: int| 0 <= k < stack.len() implies {
            &&& (#[trigger] log[k]).source == stack[stack.len() - 1 - k].source
            &&& log[k].stack_position == stack[stack.len() - 1 - k].stack_position
        } by {
        }
    }
}

/// Every action that building puts on the stack knows its position there,
/// and positions never change while the stack is built.
pub proof fn lemma_build_positions(
    roster: Seq<CharacterView>,
    order: Seq<usize>,
    stack: Seq<ActionView>,
    pending: Seq<ActionView>,
)
    ensures
        forall|i: int|
            stack.len() <= i < build_from(roster, order, stack, pending).1.len() && i
                <= usize::MAX ==> (#[trigger] build_from(
                roster,
                order,
                stack,
                pending,
            ).1[i]).stack_position == Some(i as usize),
    decreases total_readiness(roster), pending.len(),
{
    if pending.len() != 0 {
        let action = placed_at(pending[0], stack.len());
        let (after, answers) = solicit(roster, order, action);
        let above = stack.push(action);
        let rest = answers + pending.drop_first();
        lemma_solicit_upto(roster, order, action, order.len());
        lemma_build_positions(after, order, above, rest);
        lemma_build_from(after, order, above, rest);
        let built = build_from(after, order, above, rest).1;
        assert forall|i: int| stack.len() <= i < built.len() && i <= usize::MAX implies (
        #[trigger] built[i]).stack_position == Some(i as usize) by {
        }
    }
}

/// The stack on which the actions of one maneuver and all that they provoke
/// are collected before they are resolved.
///
/// As others react to what happens, their actions are put on top. The stack
/// is resolved from the top: who reacted last is served first.
pub struct ActionStack {
    stack: Vec<Action>,
}

impl View for ActionStack {
    type V = Seq<ActionView>;

    closed spec fn view(&self) -> Seq<ActionView> {
        actions_view(self.stack@)
    }
}

/// The actions of a stack in brief, each on a line of its own behind a line
/// break.
pub open spec fn narration_brief(stack: Seq<ActionView>) -> Seq<char>
    decreases stack.len(),
{
    if stack.len() == 0 {
        Seq::empty()
    } else {
        narration_brief(stack.drop_last()) + "\n"@ + stack.last().display()
    }
}

/// The actions of a stack as sentences, with a line break between every
/// two.
pub open spec fn narration(stack: Seq<ActionView>, formatting: TextFormatting) -> Seq<char>
    decreases stack.len(),
{
    if stack.len() == 0 {
        Seq::empty()
    } else {
        let earlier = narration(stack.drop_last(), formatting);
        if earlier.len() == 0 {
            stack.last().sentence(0, formatting)
        } else {
            earlier + "\n"@ + stack.last().sentence(0, formatting)
        }
    }
}

/// A stack shows itself as the sentences of its actions, from the bottom
/// up, whatever the length.
impl InfoLine for ActionStack {
    open spec fn line(&self, len: usize, formatting: TextFormatting) -> Seq<char> {
        narration(self@, formatting)
    }

    fn format_line(&self, len: usize, formatting: TextFormatting) -> (s: String) {
        let mut narration = String::new();
        let mut i: usize = 0;
        while i < self.stack.len()
            invariant
                i <= self.stack.len(),
                narration@ == crate::combat::narration(self@.take(i as int), formatting),
            decreases self.stack.len() - i,
        {
            proof {
                assert(self@.take(i + 1).drop_last() =~= self@.take(i as int));
            }
            if narration.as_str().is_empty() {
                narration = self.stack[i].format_line(0, formatting);
            } else {
                narration.append("\n");
                narration.append(self.stack[i].format_line(0, formatting).as_str());
            }
            i += 1;
        }
        assert(self@.take(self.stack.len() as int) =~= self@);
        narration
    }
}

/// A stack tells itself in the words of its plain narration.
impl MakesWords for ActionStack {
    open spec fn words(&self, formatting: TextFormatting) -> Seq<(Seq<char>, usize)> {
        word_entries(
            formatting,
            split_words(narration(self@, TextFormatting::Plain)),
            "action"@,
            None,
        )
    }

    fn format_words(&self, formatting: TextFormatting) -> (words: Vec<(String, usize)>) {
        formatting.to_words(self.format_line(0, TextFormatting::Plain), "action", None)
    }
}

impl ActionStack {
    /// Tells the stack in brief: one line for every action.
    pub fn brief_narration(&self) -> (text: String)
        ensures
            text@ == narration_brief(self@),
    {
        let mut narration = String::new();
        let mut i: usize = 0;
        while i < self.stack.len()
            invariant
                i <= self.stack.len(),
                narration@ == narration_brief(self@.take(i as int)),
            decreases self.stack.len() - i,
        {
            proof {
                assert(self@.take(i + 1).drop_last() =~= self@.take(i as int));
            }
            narration.append("\n");
            narration.append(self.stack[i].to_string().as_str());
            i += 1;
        }
        assert(self@.take(self.stack.len() as int) =~= self@);
        narration
    }

    /// An empty stack.
    pub fn new() -> (stack: ActionStack)
        ensures
            stack@ == Seq::<ActionView>::empty(),
    {
        let stack: Vec<Action> = Vec::new();
        ActionStack { stack }
    }

    /// How many actions lie on the stack.
    pub fn len(&self) -> (n: usize)
        ensures
            n == self@.len(),
    {
        self.stack.len()
    }

    /// The actions on the stack, from the bottom up.
    pub fn actions(&self) -> (actions: &Vec<Action>)
        ensures
            actions_view(actions@) == self@,
    {
        &self.stack
    }

    /// The action at position `i`.
    pub fn get_action(&self, i: usize) -> (action: &Action)
        requires
            i < self@.len(),
        ensures
            action@ == self@[i as int],
    {
        &self.stack[i]
    }

    /// Builds the stack from the actions with which a maneuver starts: each
    /// of them is put on the stack together with everything it provokes.
    /// Reactions are asked for in the reverse of `order`.
    pub fn build(&mut self, actions: Vec<Action>, context: &mut Combat, order: &Vec<usize>)
        ensures
            final(context)@ == build_from(
                old(context)@,
                order@,
                old(self)@,
                actions_view(actions@),
            ).0,
            final(self)@ == build_from(old(context)@, order@, old(self)@, actions_view(actions@)).1,
    {
        let mut i: usize = 0;
        let ghost all = actions_view(actions@);
        while i < actions.len()
            invariant
                i <= actions.len(),
                all == actions_view(actions@),
                context@ == build_from(old(context)@, order@, old(self)@, all.take(i as int)).0,
                self@ == build_from(old(context)@, order@, old(self)@, all.take(i as int)).1,
            decreases actions.len() - i,
        {
            proof {
                lemma_build_from_split(
                    old(context)@,
                    order@,
                    old(self)@,
                    all.take(i as int),
                    seq![all[i as int]],
                );
                assert(all.take(i as int) + seq![all[i as int]] =~= all.take(i + 1));
            }
            let action = actions[i].clone();
            self.add_action(action, context, order);
            i += 1;
        }
        assert(all.take(actions.len() as int) =~= all);
    }

    /// Puts `action` on the stack, and on top of it everything that it
    /// provokes.
    pub fn add_action(&mut self, action: Action, context: &mut Combat, order: &Vec<usize>)
        ensures
            final(context)@ == build_from(old(context)@, order@, old(self)@, seq![action@]).0,
            final(self)@ == build_from(old(context)@, order@, old(self)@, seq![action@]).1,
        decreases total_readiness(old(context)@),
    {
        let mut action = action;
        // The action learns where on the stack it lies, for those that aim
        // at actions rather than at characters.
        action.set_stack_location(self.stack.len());
        // Ask for reactions.
        let reactions = context.request_reactions_in(order, &action);
        let ghost placed = action@;
        let ghost answers = actions_view(reactions@);
        let ghost asked = context@;
        let ghost below = self@.push(placed);
        proof {
            lemma_solicit_upto(old(context)@, order@, placed, order@.len());
        }
        // Put the action on the stack.
        self.stack.push(action);
        // Every reaction has been paid for, so every one goes on the stack.
        let mut i: usize = 0;
        while i < reactions.len()
            invariant
                i <= reactions.len(),
                answers == actions_view(reactions@),
                total_readiness(asked) <= total_readiness(old(context)@),
                answers.len() > 0 ==> total_readiness(asked) < total_readiness(old(context)@),
                total_readiness(context@) <= total_readiness(asked),
                context@ == build_from(asked, order@, below, answers.take(i as int)).0,
                self@ == build_from(asked, order@, below, answers.take(i as int)).1,
            decreases reactions.len() - i,
        {
            proof {
                lemma_build_from_split(
                    asked,
                    order@,
                    below,
                    answers.take(i as int),
                    seq![answers[i as int]],
                );
                assert(answers.take(i as int) + seq![answers[i as int]] =~= answers.take(i + 1));
                lemma_build_from(asked, order@, below, answers.take(i + 1));
            }
            let reaction = reactions[i].clone();
            self.add_action(reaction, context, order);
            i += 1;
        }
        assert(answers.take(reactions.len() as int) =~= answers);
    }

    /// Resolves the stack on `context`, from the top down, until it is
    /// empty. What happens to the characters happens as the actions are
    /// resolved. Returns the actions in the order and in the form in which
    /// they were resolved.
    pub fn resolve(&mut self, context: &mut Combat) -> (log: Vec<Action>)
        ensures
            final(context)@ == resolve(old(context)@, old(self)@),
            actions_view(log@) == resolution_log(old(self)@, old(context)@),
            final(self)@ == Seq::<ActionView>::empty(),
    {
        // The actions that are aimed at other actions of this stack.
        let mut targeting_actions: Vec<Waiting> = Vec::new();
        let mut log: Vec<Action> = Vec::new();
        let ghost goal = resolve_from(old(context)@, old(self)@, Seq::empty());
        assert(waiting_view(targeting_actions@) =~= Seq::<WaitingView>::empty());
        // Take the actions off the stack, the last one first.
        while self.stack.len() > 0
            invariant
                goal.0 == resolve_from(context@, self@, waiting_view(targeting_actions@)).0,
                goal.1 == actions_view(log@) + resolve_from(
                    context@,
                    self@,
                    waiting_view(targeting_actions@),
                ).1,
            decreases self.stack.len(),
        {
            let ghost stack_before = self@;
            let ghost waiting = waiting_view(targeting_actions@);
            let current_stack_index: usize = self.stack.len() - 1;
            let mut action = match self.stack.pop() {
                Some(action) => action,
                None => {
                    return log;
                },
            };
            assert(self@ =~= stack_before.drop_last());
            // Before the action is resolved, whatever waits for it takes hold
            // of it.
            let mut k: usize = 0;
            while k < targeting_actions.len()
                invariant
                    k <= targeting_actions.len(),
                    stack_before.len() > 0,
                    waiting == waiting_view(targeting_actions@),
                    action@ == with_waiting(
                        waiting,
                        current_stack_index as int,
                        stack_before.last(),
                        k as nat,
                    ),
                decreases targeting_actions.len() - k,
            {
                if targeting_actions[k].position == current_stack_index {
                    targeting_actions[k].action.resolve_on_action(&mut action);
                }
                k += 1;
            }
            log.push(action.clone());
            // What the action is aimed at decides what happens next.
            let aimed_at: Option<usize> = match action.get_target() {
                EntityPointer::Action(i) => Some(*i),
                _ => None,
            };
            match aimed_at {
                // An action aimed at another action waits for that one.
                Some(i) => {
                    let ghost joined = waiting.push(WaitingView { position: i, action: action@ });
                    targeting_actions.push(Waiting { position: i, action });
                    assert(waiting_view(targeting_actions@) =~= joined);
                },
                // An action aimed at characters takes hold of them now.
                // Effects and the environment cannot be aimed at.
                None => {
                    action.resolve_on_chars(context);
                },
            }
        }
        log
    }
}

/// Whether every character of the roster has someone of another party to go
/// for.
pub open spec fn everyone_has_opponent(roster: Seq<CharacterView>) -> bool {
    forall|i: int| 0 <= i < roster.len() ==> #[trigger] has_opponent(roster, i)
}

/// Whether someone on the roster is of another party than member `i`.
pub open spec fn has_opponent(roster: Seq<CharacterView>, i: int) -> bool {
    exists|j: int| 0 <= j < roster.len() && #[trigger] roster[j].party != roster[i].party
}

/// The roster after everyone has regenerated.
pub open spec fn after_pre_turns(roster: Seq<CharacterView>) -> Seq<CharacterView> {
    Seq::new(roster.len(), |i: int| roster[i].after_pre_turn())
}

/// The roster after everyone's timed effects have lost a turn.
pub open spec fn after_post_turns(roster: Seq<CharacterView>) -> Seq<CharacterView> {
    Seq::new(roster.len(), |i: int| roster[i].after_post_turn())
}

/// The actions with which member `who` opens its turn.
pub open spec fn opening(roster: Seq<CharacterView>, who: int) -> Seq<ActionView> {
    roster[who].next_move().spec_execute(roster[who], roster)
}

/// The roster and the stack after the stack for the turn of member `who` has
/// been built: a fresh stack for every turn.
pub open spec fn built_stack(roster: Seq<CharacterView>, order: Seq<usize>, who: int) -> (
    Seq<CharacterView>,
    Seq<ActionView>,
) {
    build_from(roster, order, Seq::empty(), opening(roster, who))
}

/// The roster after the turn of member `who`: its stack is built, then
/// resolved.
pub open spec fn actor_turn(roster: Seq<CharacterView>, order: Seq<usize>, who: int) -> Seq<
    CharacterView,
> {
    resolve(built_stack(roster, order, who).0, built_stack(roster, order, who).1)
}

/// The roster after the first `k` of `order` have had their turns, one after
/// the other.
pub open spec fn turns_upto(roster: Seq<CharacterView>, order: Seq<usize>, k: nat) -> Seq<
    CharacterView,
>
    decreases k,
{
    if k == 0 || k > order.len() {
        roster
    } else {
        let earlier = turns_upto(roster, order, (k - 1) as nat);
        let who = order[k - 1] as int;
        if who < earlier.len() {
            actor_turn(earlier, order, who)
        } else {
            earlier
        }
    }
}

/// The stacks of the turns of the first `k` of `order`, each as it was built
/// and not yet resolved.
pub open spec fn stacks_upto(roster: Seq<CharacterView>, order: Seq<usize>, k: nat) -> Seq<
    Seq<ActionView>,
>
    decreases k,
{
    if k == 0 || k > order.len() {
        Seq::empty()
    } else {
        let earlier = turns_upto(roster, order, (k - 1) as nat);
        let who = order[k - 1] as int;
        if who < earlier.len() {
            stacks_upto(roster, order, (k - 1) as nat).push(built_stack(earlier, order, who).1)
        } else {
            stacks_upto(roster, order, (k - 1) as nat)
        }
    }
}

/// The roster after one round.
///
/// The turn order is fixed at the start, from the mobility that everyone has
/// then. Everyone regenerates. Then everyone has a turn, in turn order, and
/// reactions are asked for in the reverse of that order. At the end
/// everyone's timed effects lose a turn.
pub open spec fn round(roster: Seq<CharacterView>) -> Seq<CharacterView> {
    let order = turn_order(roster);
    after_post_turns(turns_upto(after_pre_turns(roster), order, order.len()))
}

/// The stacks of the turns of one round, in turn order, each as it was built
/// and not yet resolved.
pub open spec fn round_stacks(roster: Seq<CharacterView>) -> Seq<Seq<ActionView>> {
    let order = turn_order(roster);
    stacks_upto(after_pre_turns(roster), order, order.len())
}

/// Whether two rosters hold the same characters in the same places, whatever
/// has become of their points and timed effects.
pub open spec fn same_cast(a: Seq<CharacterView>, b: Seq<CharacterView>) -> bool {
    &&& a.len() == b.len()
    &&& forall|i: int| 0 <= i < a.len() ==> same_identity(#[trigger] a[i], b[i])
}

/// The turn order lists everyone exactly once, in ascending order of current
/// mobility, and in the order of the roster among equals.
pub proof fn lemma_turn_order(roster: Seq<CharacterView>)
    requires
        roster.len() <= usize::MAX,
    ensures
        is_stable_order(mobilities(roster), turn_order(roster)),
{
    lemma_stable_order(mobilities(roster));
}

/// Resolving a stack leaves the cast as it is.
pub proof fn lemma_resolve_keeps_cast(
    roster: Seq<CharacterView>,
    stack: Seq<ActionView>,
    waiting: Seq<WaitingView>,
)
    ensures
        same_cast(resolve_from(roster, stack, waiting).0, roster),
    decreases stack.len(),
{
    if stack.len() > 0 {
        let position = stack.len() - 1;
        let action = with_waiting(waiting, position, stack.last(), waiting.len());
        let below = stack.drop_last();
        match action.target {
            PointerView::Character(names) => {
                let hit = effect_on_roster(roster, names, action.effect);
                assert forall|i: int| 0 <= i < roster.len() implies same_identity(
                    #[trigger] hit[i],
                    roster[i],
                ) by {
                    lemma_effect_keeps_identity(action.effect, roster[i]);
                }
                lemma_resolve_keeps_cast(hit, below, waiting);
                let done = resolve_from(hit, below, waiting).0;
                assert forall|i: int| 0 <= i < done.len() implies same_identity(
                    #[trigger] done[i],
                    roster[i],
                ) by {
                }
            },
            PointerView::Action(i) => {
                lemma_resolve_keeps_cast(
                    roster,
                    below,
                    waiting.push(WaitingView { position: i, action }),
                );
            },
            _ => {
                lemma_resolve_keeps_cast(roster, below, waiting);
            },
        }
    }
}

/// An effect that takes hold of a character leaves its identity alone.
pub proof fn lemma_effect_keeps_identity(effect: ActionEffectView, c: CharacterView)
    ensures
        same_identity(effect_on_character(effect, c), c),
{
    match effect {
        ActionEffectView::Attack(damage) => {
            lemma_identity_kept(c, damage, CharUnit::HP(0), arbitrary(), 0);
        },
        ActionEffectView::Heal(unit) => {
            lemma_identity_kept(c, arbitrary(), unit, arbitrary(), 0);
        },
        ActionEffectView::GiveTimedEffect(e, turns) => {
            lemma_identity_kept(c, arbitrary(), CharUnit::HP(0), e, turns);
        },
        _ => {},
    }
}

/// A turn leaves the cast as it is.
pub proof fn lemma_actor_turn_keeps_cast(roster: Seq<CharacterView>, order: Seq<usize>, who: int)
    ensures
        same_cast(actor_turn(roster, order, who), roster),
{
    let built = built_stack(roster, order, who);
    lemma_build_from(roster, order, Seq::empty(), opening(roster, who));
    lemma_resolve_keeps_cast(built.0, built.1, Seq::empty());
    let done = actor_turn(roster, order, who);
    assert forall|i: int| 0 <= i < done.len() implies same_identity(
        #[trigger] done[i],
        roster[i],
    ) by {
    }
}

/// Any number of turns leaves the cast as it is.
pub proof fn lemma_turns_keep_cast(roster: Seq<CharacterView>, order: Seq<usize>, k: nat)
    ensures
        same_cast(turns_upto(roster, order, k), roster),
    decreases k,
{
    if k == 0 || k > order.len() {
    } else {
        lemma_turns_keep_cast(roster, order, (k - 1) as nat);
        let earlier = turns_upto(roster, order, (k - 1) as nat);
        let who = order[k - 1] as int;
        if who < earlier.len() {
            lemma_actor_turn_keeps_cast(earlier, order, who);
            let done = actor_turn(earlier, order, who);
            assert forall|i: int| 0 <= i < done.len() implies same_identity(
                #[trigger] done[i],
                roster[i],
            ) by {
            }
        }
    }
}

/// A round leaves the cast as it is: as many characters as before, each in
/// its place, with its name, party, base attributes and equipment.
pub proof fn lemma_round_keeps_cast(roster: Seq<CharacterView>)
    ensures
        same_cast(round(roster), roster),
{
    let order = turn_order(roster);
    let rested = after_pre_turns(roster);
    let fought = turns_upto(rested, order, order.len());
    lemma_turns_keep_cast(rested, order, order.len());
    let done = round(roster);
    assert forall|i: int| 0 <= i < done.len() implies same_identity(
        #[trigger] done[i],
        roster[i],
    ) by {
        lemma_pre_turn(roster[i]);
        lemma_identity_kept(fought[i], arbitrary(), CharUnit::HP(0), arbitrary(), 0);
    }
}

/// After the regeneration of a round nobody is above a maximum, and
/// everybody has gained its rate or reached its maximum.
pub proof fn lemma_pre_turns(roster: Seq<CharacterView>, i: int)
    requires
        0 <= i < roster.len(),
    ensures
        after_pre_turns(roster)[i] == roster[i].after_pre_turn(),
        after_pre_turns(roster)[i].hp <= after_pre_turns(roster)[i].game_stats().mhp,
        after_pre_turns(roster)[i].mp <= after_pre_turns(roster)[i].game_stats().mmp,
        after_pre_turns(roster)[i].ap <= after_pre_turns(roster)[i].game_stats().map,
{
    lemma_pre_turn(roster[i]);
}

impl Combat {
    /// Whether every character has someone of another party to go for.
    pub fn everyone_has_opponent(&self) -> (all: bool)
        ensures
            all == everyone_has_opponent(self@),
    {
        if self.participants.len() == 0 {
            return true;
        }
        // Where one member is of another party than the first, everyone has
        // an opponent: the first, or that one.
        let mut i: usize = 1;
        while i < self.participants.len()
            invariant
                1 <= i <= self.participants.len(),
                forall|k: int| 0 <= k < i ==> (#[trigger] self@[k]).party == self@[0].party,
            decreases self.participants.len() - i,
        {
            if !self.participants[i].party_check(self.participants[0].party()) {
                proof {
                    let roster = self@;
                    assert forall|a: int| 0 <= a < roster.len() implies #[trigger] has_opponent(
                        roster,
                        a,
                    ) by {
                        if roster[a].party == roster[0].party {
                            assert(roster[i as int].party != roster[a].party);
                        } else {
                        }
                    }
                }
                return true;
            }
            i += 1;
        }
        proof {
            let roster = self@;
            assert(!has_opponent(roster, 0)) by {
            }
        }
        false
    }

    /// Everyone regenerates.
    pub fn pre_turns(&mut self)
        ensures
            final(self)@ == after_pre_turns(old(self)@),
    {
        let mut i: usize = 0;
        while i < self.participants.len()
            invariant
                i <= self.participants.len(),
                self@.len() == old(self)@.len(),
                forall|k: int| 0 <= k < i ==> self@[k] == (#[trigger] old(self)@[k]).after_pre_turn(),
                forall|k: int| i <= k < self@.len() ==> self@[k] == old(self)@[k],
            decreases self.participants.len() - i,
        {
            self.participants[i].pre_turn();
            i += 1;
        }
    }

    /// Everyone's timed effects lose a turn.
    pub fn post_turns(&mut self)
        ensures
            final(self)@ == after_post_turns(old(self)@),
    {
        let mut i: usize = 0;
        while i < self.participants.len()
            invariant
                i <= self.participants.len(),
                self@.len() == old(self)@.len(),
                forall|k: int|
                    0 <= k < i ==> self@[k] == (#[trigger] old(self)@[k]).after_post_turn(),
                forall|k: int| i <= k < self@.len() ==> self@[k] == old(self)@[k],
            decreases self.participants.len() - i,
        {
            self.participants[i].post_turn();
            i += 1;
        }
    }

    /// The turn of the member at position `who`: a new stack is built from
    /// its maneuver, shown to `logger`, and resolved. Reactions are asked for
    /// in the reverse of `order`.
    pub fn take_turn(&mut self, who: usize, order: &Vec<usize>, logger: &mut LogSink)
        requires
            who < old(self)@.len(),
        ensures
            final(self)@ == actor_turn(old(self)@, order@, who as int),
            final(logger).shown() == old(logger).shown().push(
                built_stack(old(self)@, order@, who as int).1,
            ),
    {
        // A new stack for this maneuver
        let mut maneuver_stack = ActionStack::new();
        let next_move = self.participants[who].next_move();
        let actions = next_move.execute(&self.participants[who], self);
        // The stack grows from the actions of the maneuver.
        maneuver_stack.build(actions, self, order);
        logger.show(&maneuver_stack);
        // The stack now holds all that happens, from the maneuver to the last
        // reaction. Resolve it.
        let _ = maneuver_stack.resolve(self);
    }

    /// Everyone has a turn, in the order of `turn_order`, and `logger` is
    /// shown the stack of every turn.
    pub fn take_turns(&mut self, turn_order: &Vec<usize>, logger: &mut LogSink)
        ensures
            final(self)@ == turns_upto(old(self)@, turn_order@, turn_order@.len()),
            final(logger).shown() == old(logger).shown() + stacks_upto(
                old(self)@,
                turn_order@,
                turn_order@.len(),
            ),
    {
        let mut k: usize = 0;
        while k < turn_order.len()
            invariant
                k <= turn_order.len(),
                self@ == turns_upto(old(self)@, turn_order@, k as nat),
                logger.shown() == old(logger).shown() + stacks_upto(
                    old(self)@,
                    turn_order@,
                    k as nat,
                ),
            decreases turn_order.len() - k,
        {
            let who = turn_order[k];
            if who < self.participants.len() {
                self.take_turn(who, turn_order, logger);
            } else {
            }
            k += 1;
        }
    }

    /// Runs one round and shows `logger` the stack of every turn.
    pub fn run_round(&mut self, logger: &mut LogSink)
        ensures
            final(self)@ == round(old(self)@),
            final(logger).shown() == old(logger).shown() + round_stacks(old(self)@),
    {
        // The turn order for this round
        let turn_order = self.build_turn_order();
        // Before the maneuvers of the round, everyone regenerates.
        self.pre_turns();
        // In turn order, everyone makes a maneuver.
        self.take_turns(&turn_order, logger);
        // After the maneuvers of the round, everyone winds up.
        self.post_turns();
    }
}

/// Each combat is a world context: it processes its turns on its own.
impl WorldContext for Combat {
    open spec fn roster(&self) -> Seq<CharacterView> {
        self@
    }

    fn process_turn(&mut self, logger: Option<&mut dyn TurnLogger>) -> (result: Result<
        (),
        String,
    >) {
        if !self.everyone_has_opponent() {
            return Err(String::from_str("Couldn't find a target"));
        }
        let mut sink = LogSink::to(logger);
        self.run_round(&mut sink);
        Ok(())
    }

    fn characters(&self) -> (roster: &Vec<Character>) {
        &self.participants
    }

    fn get_character(&self, name: &String) -> (found: Option<&Character>) {
        self.find_character(name)
    }

    fn get_character_mut(&mut self, name: &String) -> (found: Option<&mut Character>) {
        self.find_character_mut(name)
    }

    fn request_reactions(&mut self, action: &Action) -> (reactions: Vec<Action>) {
        // Reactions come in the reverse of the turn order.
        let turn_order = self.build_turn_order();
        self.request_reactions_in(&turn_order, action)
    }
}

} // verus!
