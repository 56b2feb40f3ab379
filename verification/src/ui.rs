//! Text interfaces: what puts the state of a context and the story of its
//! turns into a block of text of a given size.
use vstd::prelude::*;
use crate::characters::CharacterView;
use crate::combat::{ActionStack, ActionView};
use crate::layouts::{
    display_row, distribute_sizes, distributed, equal_weights, lemma_distributed_len,
    push_stacked_block, row_contents, side_by_side, side_lines, side_room, stacked,
    stacked_block, stacked_blocks, LayoutWeight,
};
use crate::text::{
    entries_view, lines_view, FrameType, InfoGrid, MakesWords, TextFormatting,
};
use crate::world::{TurnLogger, WorldContext};

verus! {

/// A text interface. Unlike a single entity that shows itself, it stands for
/// no entity of the game: it listens to the turns of a context and renders
/// all that it was told, together with what it reads off the context.
///
/// It is used in three steps. The context is brought to the time of
/// interest, maybe by working out many turns in silence. Then the turns of
/// interest are worked out with the interface as their logger. At last the
/// interface renders what it has logged.
pub trait TextUI: TurnLogger {
    /// The text that the interface renders for a context with `roster`, in
    /// `h` lines of `w` characters.
    spec fn rendered(
        &self,
        roster: Seq<CharacterView>,
        w: usize,
        h: usize,
        formatting: TextFormatting,
    ) -> Seq<Seq<char>>;

    /// Renders all that has been logged, and what the interface reads off
    /// `context`, into `h` lines of `w` characters.
    fn render(&self, context: &dyn WorldContext, w: usize, h: usize, formatting: TextFormatting) -> (lines:
        Vec<String>)
        ensures
            lines_view(lines@) == self.rendered(context.roster(), w, h, formatting),
    ;
}

/// The display of the turns of a combat: the characters side by side, and
/// below them the story of the turns in words.
pub struct CombatTurnDisplay {
    /// The formatting of the words of the story
    formatting: TextFormatting,
    /// The story so far: the words of every stack that has been logged
    turn_description: Vec<(String, usize)>,
}

/// The words of a list of stacks, stack after stack.
pub open spec fn story(stacks: Seq<Seq<ActionView>>, formatting: TextFormatting) -> Seq<
    (Seq<char>, usize),
>
    decreases stacks.len(),
{
    if stacks.len() == 0 {
        Seq::empty()
    } else {
        story(stacks.drop_last(), formatting) + stack_words(stacks.last(), formatting)
    }
}

/// The words of one stack.
pub open spec fn stack_words(stack: Seq<ActionView>, formatting: TextFormatting) -> Seq<
    (Seq<char>, usize),
> {
    crate::text::word_entries(
        formatting,
        crate::text::split_words(crate::combat::narration(stack, TextFormatting::Plain)),
        "action"@,
        None,
    )
}

/// The two halves of the display: both share the lines in equal parts.
pub open spec fn halves() -> Seq<LayoutWeight> {
    seq![LayoutWeight::Distribute(1), LayoutWeight::Distribute(1)]
}

/// The display of a combat in `h` lines of `w` characters: in the upper half
/// the characters side by side in a single frame, in the lower half the
/// story in words.
pub open spec fn combat_text(
    roster: Seq<CharacterView>,
    story: Seq<(Seq<char>, usize)>,
    w: usize,
    h: usize,
    formatting: TextFormatting,
) -> Seq<Seq<char>> {
    let heights = distributed(halves(), h as nat);
    stacked(
        None,
        seq![
            cast_text(roster, w, heights[0], formatting),
            story_text(story, w, heights[1]),
        ],
        w as nat,
    )
}

/// The display of one character in `h` lines of `w` characters.
pub open spec fn character_text(
    character: CharacterView,
    w: usize,
    h: usize,
    formatting: TextFormatting,
) -> Seq<Seq<char>> {
    Seq::new(
        if h < 5 {
            h as nat
        } else {
            5
        },
        |i: int| character.display_line(i, w, formatting),
    )
}

/// The characters side by side in a single frame, with equal shares of the
/// width.
pub open spec fn cast_text(
    roster: Seq<CharacterView>,
    w: usize,
    h: usize,
    formatting: TextFormatting,
) -> Seq<Seq<char>> {
    let frame = Some(FrameType::Single);
    let rows = side_lines(frame, h as nat);
    let widths = distributed(equal_weights(roster.len()), side_room(frame, roster.len(), w as nat));
    side_by_side(
        frame,
        widths,
        Seq::new(
            roster.len(),
            |k: int| character_text(roster[k], widths[k], rows as usize, formatting),
        ),
        rows,
    )
}

/// The story wrapped into lines.
pub open spec fn story_text(story: Seq<(Seq<char>, usize)>, w: usize, h: usize) -> Seq<Seq<char>> {
    crate::text::filled_lines(
        crate::text::first_lines(crate::text::wrapped_text(story, w as nat), h as nat),
        w as nat,
        h as nat,
    )
}

impl CombatTurnDisplay {
    /// The formatting of the words of the story.
    pub closed spec fn spec_formatting(&self) -> TextFormatting {
        self.formatting
    }

    /// The words of the story so far.
    pub closed spec fn story_so_far(&self) -> Seq<(Seq<char>, usize)> {
        entries_view(self.turn_description@)
    }

    /// A display that has been shown nothing yet.
    pub fn with(formatting: TextFormatting) -> (display: Self)
        ensures
            display.story_so_far() == Seq::<(Seq<char>, usize)>::empty(),
            display.spec_formatting() == formatting,
    {
        let turn_description: Vec<(String, usize)> = Vec::new();
        CombatTurnDisplay { formatting, turn_description }
    }

    /// The story so far.
    pub fn turn_description(&self) -> (words: &Vec<(String, usize)>)
        ensures
            entries_view(words@) == self.story_so_far(),
    {
        &self.turn_description
    }
}

/// The display logs every stack by adding its words to the story.
impl TurnLogger for CombatTurnDisplay {
    fn maneuver_stack(&mut self, stack: &ActionStack)
        ensures
            final(self).story_so_far() == old(self).story_so_far() + stack_words(
                stack@,
                old(self).spec_formatting(),
            ),
            final(self).spec_formatting() == old(self).spec_formatting(),
    {
        let mut new_words = stack.format_words(self.formatting);
        self.turn_description.append(&mut new_words);
    }
}

/// The display renders the characters of the context above the story of
/// the turns that it has logged.
impl TextUI for CombatTurnDisplay {
    open spec fn rendered(
        &self,
        roster: Seq<CharacterView>,
        w: usize,
        h: usize,
        formatting: TextFormatting,
    ) -> Seq<Seq<char>> {
        combat_text(roster, self.story_so_far(), w, h, formatting)
    }

    fn render(&self, context: &dyn WorldContext, w: usize, h: usize, formatting: TextFormatting) -> (lines:
        Vec<String>) {
        let cast = context.characters();
        let ghost roster = context.roster();
        // Both halves share the lines in equal parts.
        let mut weights: Vec<LayoutWeight> = Vec::new();
        weights.push(LayoutWeight::Distribute(1));
        weights.push(LayoutWeight::Distribute(1));
        assert(weights@ =~= halves());
        let heights = distribute_sizes(&weights, h);
        proof {
            lemma_distributed_len(weights@, h as nat);
        }
        // The characters side by side
        let frame = Some(FrameType::Single);
        let upper = display_row(cast, &frame, w, heights[0], formatting);
        proof {
            let rows = side_lines(frame, heights@[0] as nat);
            let widths = distributed(
                equal_weights(roster.len()),
                side_room(frame, roster.len(), w as nat),
            );
            assert(row_contents(cast@, widths, rows as usize, formatting) =~= Seq::new(
                roster.len(),
                |k: int| character_text(roster[k], widths[k], rows as usize, formatting),
            )) by {
                assert forall|k: int| 0 <= k < roster.len() implies (#[trigger] row_contents(
                    cast@,
                    widths,
                    rows as usize,
                    formatting,
                )[k]) == character_text(roster[k], widths[k], rows as usize, formatting) by {
                }
            }
        }
        // The story below them
        let lower = self.turn_description.display(w, heights[1], formatting);
        // One above the other, without a frame
        let mut output: Vec<String> = Vec::new();
        let none: Option<FrameType> = None;
        push_stacked_block(&mut output, &none, &upper, w, false);
        push_stacked_block(&mut output, &none, &lower, w, true);
        proof {
            let contents = seq![lines_view(upper@), lines_view(lower@)];
            assert(stacked_blocks(None, contents, w as nat, 0) =~= Seq::<Seq<char>>::empty());
            assert(stacked_blocks(None, contents, w as nat, 1) =~= stacked_block(
                None,
                contents[0],
                w as nat,
                false,
                contents[0].len(),
            ));
        }
        output
    }
}

} // verus!
