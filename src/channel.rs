//! The two distinguished channels of a guild and their names.
use vstd::prelude::*;

verus! {

/// One of the two channels the bot manages: the shop, where items for sale
/// are posted, and the stock, where items that were bought are kept.
#[derive(Clone, Copy, Debug, PartialEq, Eq, Structural)]
pub enum Channel {
    Shop,
    Stock,
}

/// The name a channel goes by in its guild.
pub open spec fn name_of(c: Channel) -> Seq<char> {
    match c {
        Channel::Shop => seq!['\u{1f6d2}', '-', 's', 'h', 'o', 'p'],
        Channel::Stock => seq!['\u{1f4e6}', '-', 's', 't', 'o', 'c', 'k'],
    }
}

/// The channel that goes by `name`, if any.
pub open spec fn channel_named(name: Seq<char>) -> Option<Channel> {
    if name == name_of(Channel::Shop) {
        Some(Channel::Shop)
    } else if name == name_of(Channel::Stock) {
        Some(Channel::Stock)
    } else {
        None
    }
}

/// The name under which the channel is looked up and created.
pub fn channel_name(c: Channel) -> (r: &'static str)
    ensures
        r@ == name_of(c),
{
    match c {
        Channel::Shop => {
            let s = "🛒-shop";
            proof {
                reveal_strlit("🛒-shop");
            }
            assert(s@ =~= name_of(c));
            s
        },
        Channel::Stock => {
            let s = "📦-stock";
            proof {
                reveal_strlit("📦-stock");
            }
            assert(s@ =~= name_of(c));
            s
        },
    }
}

/// Which of the managed channels, if any, a channel called `name` is.
pub fn channel_of_name(name: &str) -> (r: Option<Channel>)
    ensures
        r == channel_named(name@),
{
    if crate::text::same_text(name, channel_name(Channel::Shop)) {
        Some(Channel::Shop)
    } else if crate::text::same_text(name, channel_name(Channel::Stock)) {
        Some(Channel::Stock)
    } else {
        None
    }
}

} // verus!
