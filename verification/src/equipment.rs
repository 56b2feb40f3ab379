//! Equipment: what characters wear and wield.
//!
//! A piece of equipment grants passive effects, maneuvers and reactions for as
//! long as it is worn.
use vstd::prelude::*;
use crate::characters::{count_of_type, Character, Stats};
use crate::effects::EffectKind;
use crate::mov::{ManeuverKind, ReactionKind};
use crate::strutil::{byte_len, push_repeated, repeated, string_len};
use crate::text::{InfoLine, TextFormatting};

verus! {

/// The slot that a piece of equipment takes. A character can wear only so
/// many pieces of one type: nobody wears two helmets.
#[derive(Clone, Copy, Debug, PartialEq, Eq, Structural)]
pub enum EquipmentType {
    Weapon,
    Head,
    Chest,
    Arms,
    Hands,
    Feet,
    Ring,
    Accessory,
}

impl EquipmentType {
    /// How many pieces of this type one character can wear at once.
    pub open spec fn spec_max(self) -> usize {
        match self {
            EquipmentType::Head => 1,
            EquipmentType::Chest => 1,
            EquipmentType::Arms => 2,
            EquipmentType::Hands => 2,
            EquipmentType::Feet => 2,
            EquipmentType::Ring => 4,
            EquipmentType::Weapon => 2,
            EquipmentType::Accessory => 2,
        }
    }

    /// The four-letter code of this type.
    pub open spec fn spec_shortcode(self) -> Seq<char> {
        match self {
            EquipmentType::Head => "HEAD"@,
            EquipmentType::Chest => "CHST"@,
            EquipmentType::Arms => "ARMS"@,
            EquipmentType::Hands => "HNDS"@,
            EquipmentType::Feet => "FEET"@,
            EquipmentType::Ring => "RING"@,
            EquipmentType::Weapon => "WPON"@,
            EquipmentType::Accessory => "ACCS"@,
        }
    }

    /// The type as text: its code in brackets.
    pub open spec fn display(self) -> Seq<char> {
        "["@ + self.spec_shortcode() + "]"@
    }

    /// The type as text.
    pub fn to_string(&self) -> (text: String)
        ensures
            text@ == self.display(),
    {
        let mut text = String::from_str("[");
        text.append(self.shortcode());
        text.append("]");
        text
    }

    /// How many pieces of this type one character can wear at once.
    pub fn equipment_max(&self) -> (max: usize)
        ensures
            max == self.spec_max(),
    {
        match self {
            EquipmentType::Head => 1,
            EquipmentType::Chest => 1,
            EquipmentType::Arms => 2,
            EquipmentType::Hands => 2,
            EquipmentType::Feet => 2,
            EquipmentType::Ring => 4,
            EquipmentType::Weapon => 2,
            EquipmentType::Accessory => 2,
        }
    }

    /// The four-letter code of this type.
    pub fn shortcode(&self) -> (code: &'static str)
        ensures
            code@ == self.spec_shortcode(),
    {
        match self {
            EquipmentType::Head => "HEAD",
            EquipmentType::Chest => "CHST",
            EquipmentType::Arms => "ARMS",
            EquipmentType::Hands => "HNDS",
            EquipmentType::Feet => "FEET",
            EquipmentType::Ring => "RING",
            EquipmentType::Weapon => "WPON",
            EquipmentType::Accessory => "ACCS",
        }
    }

    /// Whether `character` could put on one more piece of this type. This
    /// looks at the number of pieces of the type alone, not at the attributes
    /// a piece may ask for.
    pub fn can_equip(&self, character: &Character) -> (can: bool)
        ensures
            can == (count_of_type(character@.equipment, *self) < self.spec_max()),
    {
        let currently_equipped = character.count_equipped(self);
        currently_equipped < self.equipment_max()
    }
}

/// A piece of equipment.
pub struct Equipment {
    /// Name of the piece
    name: String,
    /// Its slot
    eq_type: EquipmentType,
    /// The least attributes needed to use it. Most are zero as a rule.
    stat_requirements: Stats,
    /// Effects that hold for as long as the piece is worn
    passive_effects: Vec<EffectKind>,
    /// Maneuvers that the piece makes available
    moves: Vec<ManeuverKind>,
    /// Reactions that the piece makes available
    reactions: Vec<ReactionKind>,
}

/// What a piece of equipment is, in mathematical terms.
pub struct EquipmentView {
    pub name: Seq<char>,
    pub eq_type: EquipmentType,
    pub stat_requirements: Stats,
    pub passive_effects: Seq<EffectKind>,
    pub moves: Seq<ManeuverKind>,
    pub reactions: Seq<ReactionKind>,
}

impl EquipmentView {
    /// The room for the name in a line of `len` characters: what the type
    /// in its brackets and a space leave.
    pub open spec fn name_room(len: nat) -> nat {
        if len < 7 {
            0
        } else {
            (len - 7) as nat
        }
    }

    /// The name in `room` characters: padded with spaces where it is
    /// shorter, cut two characters short and ended with two dots otherwise.
    pub open spec fn name_text(self, room: nat) -> Seq<char> {
        if byte_len(self.name) < room {
            self.name + repeated(' ', (room - byte_len(self.name)) as nat)
        } else {
            let keep: nat = if room < 2 {
                0
            } else {
                (room - 2) as nat
            };
            self.name.take(if keep < self.name.len() {
                keep as int
            } else {
                self.name.len() as int
            }) + ".."@
        }
    }

    /// The piece in one line: its type and its name.
    pub open spec fn line_text(self, len: nat) -> Seq<char> {
        self.eq_type.display() + " "@ + self.name_text(Self::name_room(len))
    }
}

/// A piece of equipment shows itself as its type and its name, whatever the
/// formatting.
impl InfoLine for Equipment {
    open spec fn line(&self, len: usize, formatting: TextFormatting) -> Seq<char> {
        self@.line_text(len as nat)
    }

    fn format_line(&self, len: usize, formatting: TextFormatting) -> (s: String) {
        // The room taken by the type: its code, the brackets and a space
        let total_type: usize = 4 + 2 + 1;
        let total_name: usize = if len < total_type {
            0
        } else {
            len - total_type
        };
        let size = string_len(&self.name);
        let mut name = String::new();
        if size < total_name {
            // Pad as needed.
            name.append(self.name.as_str());
            push_repeated(&mut name, ' ', total_name - size);
        } else {
            let chars = self.name.as_str().unicode_len();
            let room: usize = if total_name < 2 {
                0
            } else {
                total_name - 2
            };
            let keep = if room < chars {
                room
            } else {
                chars
            };
            let mut i: usize = 0;
            while i < keep
                invariant
                    i <= keep <= self.name@.len(),
                    name@ == self.name@.take(i as int),
                decreases keep - i,
            {
                name.push(self.name.as_str().get_char(i));
                i += 1;
            }
            name.append("..");
        }
        let mut text = self.eq_type.to_string();
        text.append(" ");
        text.append(name.as_str());
        text
    }
}

impl View for Equipment {
    type V = EquipmentView;

    closed spec fn view(&self) -> EquipmentView {
        EquipmentView {
            name: self.name@,
            eq_type: self.eq_type,
            stat_requirements: self.stat_requirements,
            passive_effects: self.passive_effects@,
            moves: self.moves@,
            reactions: self.reactions@,
        }
    }
}

impl Equipment {
    /// A piece that grants nothing yet.
    pub fn new(name: String, eq_type: EquipmentType, stat_requirements: Stats) -> (e: Equipment)
        ensures
            e@ == (EquipmentView {
                name: name@,
                eq_type,
                stat_requirements,
                passive_effects: Seq::empty(),
                moves: Seq::empty(),
                reactions: Seq::empty(),
            }),
    {
        Equipment {
            name,
            eq_type,
            stat_requirements,
            passive_effects: Vec::new(),
            moves: Vec::new(),
            reactions: Vec::new(),
        }
    }

    /// Adds an effect that holds while the piece is worn.
    pub fn add_passive_effect(&mut self, effect: EffectKind)
        ensures
            final(self)@ == (EquipmentView {
                passive_effects: old(self)@.passive_effects.push(effect),
                ..old(self)@
            }),
    {
        self.passive_effects.push(effect);
    }

    /// Adds a maneuver that the piece makes available.
    pub fn add_move(&mut self, mov: ManeuverKind)
        ensures
            final(self)@ == (EquipmentView { moves: old(self)@.moves.push(mov), ..old(self)@ }),
    {
        self.moves.push(mov);
    }

    /// Adds a reaction that the piece makes available.
    pub fn add_reaction(&mut self, reaction: ReactionKind)
        ensures
            final(self)@ == (EquipmentView {
                reactions: old(self)@.reactions.push(reaction),
                ..old(self)@
            }),
    {
        self.reactions.push(reaction);
    }

    /// The name of the piece.
    pub fn name(&self) -> (name: &String)
        ensures
            name@ == self@.name,
    {
        &self.name
    }

    /// The slot of the piece.
    pub fn get_eq_type(&self) -> (t: &EquipmentType)
        ensures
            *t == self@.eq_type,
    {
        &self.eq_type
    }

    /// The least attributes needed to use the piece.
    pub fn get_stat_requirements(&self) -> (req: &Stats)
        ensures
            *req == self@.stat_requirements,
    {
        &self.stat_requirements
    }

    /// The effects that hold while the piece is worn.
    pub fn get_passive_effects(&self) -> (effects: &Vec<EffectKind>)
        ensures
            effects@ == self@.passive_effects,
    {
        &self.passive_effects
    }

    /// The maneuvers that the piece makes available.
    pub fn get_moves(&self) -> (moves: &Vec<ManeuverKind>)
        ensures
            moves@ == self@.moves,
    {
        &self.moves
    }

    /// Appends the reactions of this piece to `reactions`.
    pub fn add_reactions(&self, reactions: &mut Vec<ReactionKind>)
        ensures
            final(reactions)@ == old(reactions)@ + self@.reactions,
    {
        let mut i: usize = 0;
        while i < self.reactions.len()
            invariant
                i <= self.reactions.len(),
                reactions@ == old(reactions)@ + self.reactions@.take(i as int),
            decreases self.reactions.len() - i,
        {
            reactions.push(self.reactions[i]);
            i += 1;
        }
    }

    /// Appends the passive effects of this piece to `effects`.
    pub fn add_passive_effects(&self, effects: &mut Vec<EffectKind>)
        ensures
            final(effects)@ == old(effects)@ + self@.passive_effects,
    {
        let mut i: usize = 0;
        while i < self.passive_effects.len()
            invariant
                i <= self.passive_effects.len(),
                effects@ == old(effects)@ + self.passive_effects@.take(i as int),
            decreases self.passive_effects.len() - i,
        {
            effects.push(self.passive_effects[i]);
            i += 1;
        }
    }
}

} // verus!
