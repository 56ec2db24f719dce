//! What the bot does for each event, as a list of actions.
use vstd::prelude::*;
use crate::action::{actions_view, Action, ActionView};
use crate::channel::Channel;
use crate::reaction::Transition;
use crate::text::{strike, struck};

verus! {

/// The actions of a transition on a message whose text is `text`.
///
/// When an item is bought, its shop message is struck through, so that it
/// shows as sold, and its original text is posted in the stock.
pub open spec fn transition_plan(t: Transition, text: Seq<char>) -> Seq<ActionView> {
    match t {
        Transition::Bought => seq![
            ActionView::EditSource(struck(text)),
            ActionView::Post(Channel::Stock, text),
        ],
        Transition::Consumed => seq![ActionView::EditSource(struck(text))],
        Transition::Restocked => seq![
            ActionView::EditSource(struck(text)),
            ActionView::Post(Channel::Shop, text),
        ],
        Transition::Ignored => seq![],
    }
}

/// The actions for a reaction that brings about `t` on a message whose text
/// is `text`.
pub fn transition_actions(t: Transition, text: &str) -> (r: Vec<Action>)
    ensures
        actions_view(r@) == transition_plan(t, text@),
{
    let mut r: Vec<Action> = Vec::new();
    match t {
        Transition::Bought => {
            r.push(Action::EditSource(strike(text)));
            r.push(Action::Post(Channel::Stock, String::from_str(text)));
        },
        Transition::Consumed => {
            r.push(Action::EditSource(strike(text)));
        },
        Transition::Restocked => {
            r.push(Action::EditSource(strike(text)));
            r.push(Action::Post(Channel::Shop, String::from_str(text)));
        },
        Transition::Ignored => {},
    }
    assert(actions_view(r@) =~= transition_plan(t, text@));
    r
}

/// The actions for a message with text `text` received in the channel with
/// id `channel_id`, where `shop_id` is the shop's id and `from_self` tells
/// whether the bot wrote it.
///
/// A message someone else posts in the shop is posted again by the bot and
/// the original deleted, so that every item in the shop is the bot's.
pub open spec fn message_plan(shop_id: u64, channel_id: u64, from_self: bool, text: Seq<char>) -> Seq<
    ActionView,
> {
    if channel_id == shop_id && !from_self {
        seq![ActionView::Post(Channel::Shop, text), ActionView::DeleteSource]
    } else {
        seq![]
    }
}

/// The actions for a message received (see [`message_plan`]).
pub fn message_actions(shop_id: u64, channel_id: u64, from_self: bool, text: &str) -> (r: Vec<
    Action,
>)
    ensures
        actions_view(r@) == message_plan(shop_id, channel_id, from_self, text@),
{
    let mut r: Vec<Action> = Vec::new();
    if channel_id == shop_id && !from_self {
        r.push(Action::Post(Channel::Shop, String::from_str(text)));
        r.push(Action::DeleteSource);
    }
    assert(actions_view(r@) =~= message_plan(shop_id, channel_id, from_self, text@));
    r
}

/// The actions that make sure both managed channels exist, given whether
/// each exists already: each missing one is created, the shop first.
pub open spec fn bootstrap_plan(shop_exists: bool, stock_exists: bool) -> Seq<ActionView> {
    (if shop_exists {
        seq![]
    } else {
        seq![ActionView::CreateChannel(Channel::Shop)]
    }) + (if stock_exists {
        seq![]
    } else {
        seq![ActionView::CreateChannel(Channel::Stock)]
    })
}

/// The actions when the bot's view of the guild is first complete (see
/// [`bootstrap_plan`]).
pub fn bootstrap_actions(shop_exists: bool, stock_exists: bool) -> (r: Vec<Action>)
    ensures
        actions_view(r@) == bootstrap_plan(shop_exists, stock_exists),
{
    let mut r: Vec<Action> = Vec::new();
    if !shop_exists {
        r.push(Action::CreateChannel(Channel::Shop));
    }
    if !stock_exists {
        r.push(Action::CreateChannel(Channel::Stock));
    }
    assert(actions_view(r@) =~= bootstrap_plan(shop_exists, stock_exists));
    r
}

/// The actions for a reaction with emoji `emoji` (`None`: a custom emoji)
/// added to a message with text `text`, in the channel called `name`: the
/// composition of `channel_of_name`, `trigger_of`, `transition_of` and
/// [`transition_actions`].
pub open spec fn reaction_plan(name: Seq<char>, emoji: Option<Seq<char>>, text: Seq<char>) -> Seq<
    ActionView,
> {
    transition_plan(
        crate::reaction::transition_for(
            crate::channel::channel_named(name),
            crate::reaction::trigger_for(emoji),
        ),
        text,
    )
}

} // verus!
