//! The world around the actors: contexts that process turns, and the sinks
//! that listen to them.
use vstd::prelude::*;
use crate::characters::{Character, CharacterView};
use crate::combat::{
    actions_view, everyone_has_opponent, position_of, roster_view, round, solicit, turn_order,
    Action, ActionStack, ActionView,
};

verus! {

/// A context of the simulated world, such as a battle. Every context owns the
/// characters that take part in it and processes its turns on its own.
pub trait WorldContext {
    /// The characters of the context, in the order of its roster.
    spec fn roster(&self) -> Seq<CharacterView>;

    /// Processes one round.
    ///
    /// The round fails, and nothing has changed, where some character has
    /// nobody of another party to go for. Otherwise the roster is what
    /// [`round`] says. The logger, if there is one, is shown the stack of
    /// every actor's turn, in turn order, each as it was built and not yet
    /// resolved; whether there is a logger makes no difference to the round.
    fn process_turn(&mut self, logger: Option<&mut dyn TurnLogger>) -> (result: Result<(), String>)
        ensures
            match result {
                Ok(_) => everyone_has_opponent(old(self).roster()) && final(self).roster()
                    == round(old(self).roster()),
                Err(_) => !everyone_has_opponent(old(self).roster()) && final(self).roster()
                    == old(self).roster(),
            },
    ;

    /// All characters of the context, in the order of its roster, to look at.
    fn characters(&self) -> (roster: &Vec<Character>)
        ensures
            roster_view(roster@) == self.roster(),
    ;

    /// The first character called `name`, if it is part of this context.
    fn get_character(&self, name: &String) -> (found: Option<&Character>)
        ensures
            match found {
                Some(c) => position_of(self.roster(), name@, self.roster().len()) is Some && c@
                    == self.roster()[position_of(self.roster(), name@, self.roster().len())->0],
                None => position_of(self.roster(), name@, self.roster().len()) is None,
            },
    ;

    /// The first character called `name`, if it is part of this context, to
    /// change it in place.
    fn get_character_mut(&mut self, name: &String) -> (found: Option<&mut Character>)
        ensures
            match found {
                Some(c) => {
                    &&& position_of(old(self).roster(), name@, old(self).roster().len()) is Some
                    &&& c@ == old(self).roster()[position_of(
                        old(self).roster(),
                        name@,
                        old(self).roster().len(),
                    )->0]
                    &&& final(self).roster() == old(self).roster().update(
                        position_of(old(self).roster(), name@, old(self).roster().len())->0,
                        final(c)@,
                    )
                },
                None => position_of(old(self).roster(), name@, old(self).roster().len()) is None
                    && final(self).roster() == old(self).roster(),
            },
    ;

    /// Called while a stack is built: everyone in the context gets to react
    /// to `action`, in the reverse of the turn order as it is now. Returns all
    /// reactions that have been made, and they have been paid for.
    fn request_reactions(&mut self, action: &Action) -> (reactions: Vec<Action>)
        requires
            action@.stack_position is Some,
        ensures
            final(self).roster() == solicit(
                old(self).roster(),
                turn_order(old(self).roster()),
                action@,
            ).0,
            actions_view(reactions@) == solicit(
                old(self).roster(),
                turn_order(old(self).roster()),
                action@,
            ).1,
    ;
}

/// A sink for what happens in a turn. While hundreds of turns are worked
/// out in a row, the maneuvers and reactions of each are thrown away once
/// they have taken effect; a logger gets to see them first.
pub trait TurnLogger {
    /// Called once for every actor's turn, after its stack has been built and
    /// before it is resolved.
    fn maneuver_stack(&mut self, stack: &ActionStack);
}

/// The way from a context to its logger, if it has one. It keeps account of
/// the stacks that it has passed on.
pub struct LogSink<'a> {
    logger: Option<&'a mut dyn TurnLogger>,
    shown: Ghost<Seq<Seq<ActionView>>>,
}

impl<'a> LogSink<'a> {
    /// The stacks that have been passed on so far, in the order in which
    /// they came.
    pub closed spec fn shown(&self) -> Seq<Seq<ActionView>> {
        self.shown@
    }

    /// The way to `logger`, on which nothing has been passed yet.
    pub fn to(logger: Option<&'a mut dyn TurnLogger>) -> (sink: LogSink<'a>)
        ensures
            sink.shown() == Seq::<Seq<ActionView>>::empty(),
    {
        LogSink { logger, shown: Ghost(Seq::empty()) }
    }

    /// Passes `stack` on to the logger, if there is one.
    pub fn show(&mut self, stack: &ActionStack)
        ensures
            final(self).shown() == old(self).shown().push(stack@),
    {
        match &mut self.logger {
            Some(logger) => {
                logger.maneuver_stack(stack);
            },
            None => {},
        }
        self.shown = Ghost(self.shown@.push(stack@));
    }
}

} // verus!
