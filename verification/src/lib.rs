//! Turn-based combat between roster members split into opposing parties.
//!
//! The heart of the crate is the action/reaction engine in [`combat`]: turn
//! order, the protocol by which actors answer actions that are still in
//! flight, and the stack that first collects a chain of actions and counter
//! actions and then resolves it last-in, first-out.
//!
//! Every executable function carries a contract over the mathematical model of
//! the state it touches; the models are the `*View` types and the `spec`
//! functions next to them.
//!
//! * [`characters`]: attributes, derived capacities, characters
//! * [`effects`], [`equipment`], [`mov`]: what characters carry and can do
//! * [`combat`], [`world`]: actions, the action stack, rounds
//! * [`text`], [`layouts`], [`ui`]: showing all of it as monospaced text
//! * [`arith`], [`factor`], [`order`], [`strutil`]: the ground they stand on
pub mod arith;
pub mod characters;
pub mod combat;
pub mod effects;
pub mod equipment;
pub mod factor;
pub mod layouts;
pub mod mov;
pub mod order;
pub mod strutil;
pub mod text;
pub mod ui;
pub mod world;
