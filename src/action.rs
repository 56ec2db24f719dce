//! The requests the bot makes of the chat platform, and a model of what they
//! do to the managed channels.
use vstd::prelude::*;
use crate::channel::Channel;

verus! {

/// One request to the chat platform.
///
/// "The source" is the message that the event being handled is about: the
/// message received, or the message a reaction was added to.
#[derive(Clone, Debug, PartialEq, Eq)]
pub enum Action {
    /// Create the channel, as a text channel under its name.
    CreateChannel(Channel),
    /// Post a new message with this text, authored by the bot, in the channel.
    Post(Channel, String),
    /// Replace the text of the source with this text.
    EditSource(String),
    /// Delete the source.
    DeleteSource,
}

/// An [`Action`] with its text as a sequence of characters.
pub enum ActionView {
    CreateChannel(Channel),
    Post(Channel, Seq<char>),
    EditSource(Seq<char>),
    DeleteSource,
}

impl View for Action {
    type V = ActionView;

    open spec fn view(&self) -> ActionView {
        match self {
            Action::CreateChannel(c) => ActionView::CreateChannel(*c),
            Action::Post(c, t) => ActionView::Post(*c, t@),
            Action::EditSource(t) => ActionView::EditSource(t@),
            Action::DeleteSource => ActionView::DeleteSource,
        }
    }
}

/// The views of a list of actions, in order.
pub open spec fn actions_view(v: Seq<Action>) -> Seq<ActionView> {
    v.map_values(|a: Action| a@)
}

/// What the bot can observe of a guild: how many channels go by each managed
/// name, the texts of the messages the bot posted in each managed channel
/// (oldest first), and the source message's text (`None` once deleted).
pub struct Board {
    pub shop_channels: nat,
    pub stock_channels: nat,
    pub shop: Seq<Seq<char>>,
    pub stock: Seq<Seq<char>>,
    pub source: Option<Seq<char>>,
}

/// The board after one action.
pub open spec fn apply(b: Board, a: ActionView) -> Board {
    match a {
        ActionView::CreateChannel(Channel::Shop) => Board { shop_channels: b.shop_channels + 1, ..b },
        ActionView::CreateChannel(Channel::Stock) => Board {
            stock_channels: b.stock_channels + 1,
            ..b
        },
        ActionView::Post(Channel::Shop, t) => Board { shop: b.shop.push(t), ..b },
        ActionView::Post(Channel::Stock, t) => Board { stock: b.stock.push(t), ..b },
        ActionView::EditSource(t) => match b.source {
            Some(_) => Board { source: Some(t), ..b },
            None => b,
        },
        ActionView::DeleteSource => Board { source: None, ..b },
    }
}

/// The board after the actions, carried out first to last.
pub open spec fn apply_all(b: Board, s: Seq<ActionView>) -> Board
    decreases s.len(),
{
    if s.len() == 0 {
        b
    } else {
        apply_all(apply(b, s[0]), s.drop_first())
    }
}

} // verus!
