//! Decision logic of a chat bot that moves item postings between a "shop"
//! channel and a "stock" channel in response to emoji reactions.
//!
//! Every event handler of the bot is split into a verified decision, which
//! turns plain values (channel names, ids, message text, the emoji) into a
//! list of [`action::Action`]s, and the I/O that carries those actions out.
//! The effect of an action list on the channels is modelled by
//! [`action::Board`], and the behaviour promised for each event is proved
//! over that model in [`laws`].
pub mod action;
pub mod channel;
pub mod command;
pub mod laws;
pub mod plan;
pub mod reaction;
pub mod text;
