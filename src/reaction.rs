//! What a reaction means: the emoji it carries and the transition it asks for.
use vstd::prelude::*;
use crate::channel::Channel;

verus! {

/// The meaning of a reaction's emoji.
#[derive(Clone, Copy, Debug, PartialEq, Eq, Structural)]
pub enum Trigger {
    /// ✅: the item was bought (in the shop) or used up (in the stock).
    MarkSold,
    /// ♻️: the item goes back on sale.
    Restock,
    /// Any other emoji, custom emoji included.
    Unrecognized,
}

/// The check mark emoji, U+2705.
pub open spec fn mark_sold_emoji() -> Seq<char> {
    seq!['\u{2705}']
}

/// The recycling emoji: U+267B followed by the emoji variation selector U+FE0F.
pub open spec fn restock_emoji() -> Seq<char> {
    seq!['\u{267b}', '\u{fe0f}']
}

/// The trigger of a reaction whose emoji is the unicode text `emoji`, or a
/// custom emoji when `None`. Only an exact match counts.
pub open spec fn trigger_for(emoji: Option<Seq<char>>) -> Trigger {
    match emoji {
        Some(e) => if e == mark_sold_emoji() {
            Trigger::MarkSold
        } else if e == restock_emoji() {
            Trigger::Restock
        } else {
            Trigger::Unrecognized
        },
        None => Trigger::Unrecognized,
    }
}

/// Classifies a reaction's emoji: `Some(text)` for a unicode emoji, `None`
/// for a custom one.
pub fn trigger_of(emoji: Option<&str>) -> (r: Trigger)
    ensures
        r == trigger_for(
            match emoji {
                Some(e) => Some(e@),
                None => None,
            },
        ),
{
    match emoji {
        Some(e) => {
            let n = e.unicode_len();
            if n == 1 && e.get_char(0) == '\u{2705}' {
                assert(e@ =~= mark_sold_emoji());
                Trigger::MarkSold
            } else if n == 2 && e.get_char(0) == '\u{267b}' && e.get_char(1) == '\u{fe0f}' {
                assert(e@ =~= restock_emoji());
                Trigger::Restock
            } else {
                proof {
                    if e@ == mark_sold_emoji() {
                        assert(e@[0] == '\u{2705}');
                    }
                    if e@ == restock_emoji() {
                        assert(e@[0] == '\u{267b}' && e@[1] == '\u{fe0f}');
                    }
                }
                Trigger::Unrecognized
            }
        },
        None => Trigger::Unrecognized,
    }
}

/// The step of an item's life that a reaction brings about.
///
/// An item posted in the shop is `Bought` with ✅: it is struck through in
/// the shop and copied to the stock. An item in the stock is `Consumed` with
/// ✅ (struck through, final) or `Restocked` with ♻️ (struck through, and
/// posted again in the shop).
#[derive(Clone, Copy, Debug, PartialEq, Eq, Structural)]
pub enum Transition {
    Bought,
    Consumed,
    Restocked,
    Ignored,
}

/// The transition for a reaction in channel `role` (`None`: some other
/// channel) with the given trigger.
pub open spec fn transition_for(role: Option<Channel>, trigger: Trigger) -> Transition {
    match (role, trigger) {
        (Some(Channel::Shop), Trigger::MarkSold) => Transition::Bought,
        (Some(Channel::Stock), Trigger::MarkSold) => Transition::Consumed,
        (Some(Channel::Stock), Trigger::Restock) => Transition::Restocked,
        _ => Transition::Ignored,
    }
}

/// Decides what a reaction in channel `role` with the given trigger does.
pub fn transition_of(role: Option<Channel>, trigger: Trigger) -> (r: Transition)
    ensures
        r == transition_for(role, trigger),
{
    match (role, trigger) {
        (Some(Channel::Shop), Trigger::MarkSold) => Transition::Bought,
        (Some(Channel::Stock), Trigger::MarkSold) => Transition::Consumed,
        (Some(Channel::Stock), Trigger::Restock) => Transition::Restocked,
        _ => Transition::Ignored,
    }
}

} // verus!
