//! What each event does to the managed channels, proved over [`Board`].
use vstd::prelude::*;
use crate::action::{apply, apply_all, ActionView, Board};
use crate::channel::{channel_named, name_of, Channel};
use crate::command::{is_shop_command, shop_command_plan, shop_item};
use crate::plan::{bootstrap_plan, message_plan, reaction_plan};
use crate::reaction::{mark_sold_emoji, restock_emoji, trigger_for, Trigger};
use crate::text::struck;

verus! {

proof fn lemma_apply_none(b: Board)
    ensures
        apply_all(b, seq![]) == b,
{
}

proof fn lemma_apply_one(b: Board, x: ActionView)
    ensures
        apply_all(b, seq![x]) == apply(b, x),
{
    let s = seq![x];
    assert(s.drop_first() =~= seq![]);
    lemma_apply_none(apply(b, x));
}

proof fn lemma_apply_two(b: Board, x: ActionView, y: ActionView)
    ensures
        apply_all(b, seq![x, y]) == apply(apply(b, x), y),
{
    let s = seq![x, y];
    assert(s.drop_first() =~= seq![y]);
    lemma_apply_one(apply(b, x), y);
}

proof fn lemma_names_differ()
    ensures
        name_of(Channel::Shop) != name_of(Channel::Stock),
        channel_named(name_of(Channel::Shop)) == Some(Channel::Shop),
        channel_named(name_of(Channel::Stock)) == Some(Channel::Stock),
{
    assert(name_of(Channel::Shop).len() != name_of(Channel::Stock).len());
}

proof fn lemma_emojis()
    ensures
        trigger_for(Some(mark_sold_emoji())) == Trigger::MarkSold,
        trigger_for(Some(restock_emoji())) == Trigger::Restock,
{
    assert(mark_sold_emoji().len() != restock_emoji().len());
}

/// A message someone else posts in the shop ends up there exactly once,
/// as the bot's own post: the original is deleted, and the bot's copy, when
/// it arrives in turn as a message from the bot, changes nothing more.
pub proof fn lemma_shop_message_reposted_once(b: Board, shop_id: u64, text: Seq<char>)
    requires
        b.source == Some(text),
    ensures
        ({
            let after = apply_all(b, message_plan(shop_id, shop_id, false, text));
            &&& after == (Board { shop: b.shop.push(text), source: None, ..b })
            &&& apply_all(after, message_plan(shop_id, shop_id, true, text)) == after
        }),
{
    lemma_apply_two(b, ActionView::Post(Channel::Shop, text), ActionView::DeleteSource);
    let after = apply_all(b, message_plan(shop_id, shop_id, false, text));
    lemma_apply_none(after);
}

/// A message outside the shop, or one the bot wrote, changes nothing.
pub proof fn lemma_other_messages_change_nothing(
    b: Board,
    shop_id: u64,
    channel_id: u64,
    from_self: bool,
    text: Seq<char>,
)
    requires
        channel_id != shop_id || from_self,
    ensures
        apply_all(b, message_plan(shop_id, channel_id, from_self, text)) == b,
{
    lemma_apply_none(b);
}

/// ✅ on a message in the shop strikes it through and posts its text in the
/// stock, once.
pub proof fn lemma_bought_copies_to_stock(b: Board, text: Seq<char>)
    requires
        b.source == Some(text),
    ensures
        apply_all(b, reaction_plan(name_of(Channel::Shop), Some(mark_sold_emoji()), text))
            == (Board { stock: b.stock.push(text), source: Some(struck(text)), ..b }),
{
    lemma_names_differ();
    lemma_emojis();
    lemma_apply_two(
        b,
        ActionView::EditSource(struck(text)),
        ActionView::Post(Channel::Stock, text),
    );
}

/// ✅ on a message in the stock strikes it through and posts nothing.
pub proof fn lemma_consumed_strikes_only(b: Board, text: Seq<char>)
    requires
        b.source == Some(text),
    ensures
        apply_all(b, reaction_plan(name_of(Channel::Stock), Some(mark_sold_emoji()), text))
            == (Board { source: Some(struck(text)), ..b }),
{
    lemma_names_differ();
    lemma_emojis();
    lemma_apply_one(b, ActionView::EditSource(struck(text)));
}

/// ♻️ on a message in the stock strikes it through and posts its original
/// text in the shop, once.
pub proof fn lemma_restocked_returns_to_shop(b: Board, text: Seq<char>)
    requires
        b.source == Some(text),
    ensures
        apply_all(b, reaction_plan(name_of(Channel::Stock), Some(restock_emoji()), text))
            == (Board { shop: b.shop.push(text), source: Some(struck(text)), ..b }),
{
    lemma_names_differ();
    lemma_emojis();
    lemma_apply_two(
        b,
        ActionView::EditSource(struck(text)),
        ActionView::Post(Channel::Shop, text),
    );
}

/// A reaction with any emoji but ✅ and ♻️, or in a channel the bot does not
/// manage, changes nothing; so does ♻️ in the shop.
pub proof fn lemma_other_reactions_change_nothing(
    b: Board,
    name: Seq<char>,
    emoji: Option<Seq<char>>,
    text: Seq<char>,
)
    requires
        trigger_for(emoji) == Trigger::Unrecognized || channel_named(name) is None || (
        channel_named(name) == Some(Channel::Shop) && trigger_for(emoji) == Trigger::Restock),
    ensures
        apply_all(b, reaction_plan(name, emoji, text)) == b,
{
    lemma_apply_none(b);
}

/// Reactions are not deduplicated: the same reaction delivered twice acts
/// twice, the second time on the text the first one left (struck through).
/// After a repeated ✅ in the shop the stock holds two new posts, after a
/// repeated ♻️ in the stock the shop does, and a repeated ✅ in the stock
/// strikes the message through twice.
pub proof fn lemma_redelivered_reaction_acts_twice(
    b: Board,
    name: Seq<char>,
    emoji: Option<Seq<char>>,
    text: Seq<char>,
)
    requires
        b.source == Some(text),
    ensures
        ({
            let once = apply_all(b, reaction_plan(name, emoji, text));
            let twice = apply_all(once, reaction_plan(name, emoji, once.source.unwrap()));
            &&& (name == name_of(Channel::Shop) && emoji == Some(mark_sold_emoji())) ==> twice
                == (Board {
                stock: b.stock.push(text).push(struck(text)),
                source: Some(struck(struck(text))),
                ..b
            })
            &&& (name == name_of(Channel::Stock) && emoji == Some(restock_emoji())) ==> twice
                == (Board {
                shop: b.shop.push(text).push(struck(text)),
                source: Some(struck(struck(text))),
                ..b
            })
            &&& (name == name_of(Channel::Stock) && emoji == Some(mark_sold_emoji())) ==> twice
                == (Board { source: Some(struck(struck(text))), ..b })
        }),
{
    let once = apply_all(b, reaction_plan(name, emoji, text));
    if name == name_of(Channel::Shop) && emoji == Some(mark_sold_emoji()) {
        lemma_bought_copies_to_stock(b, text);
        lemma_bought_copies_to_stock(once, struck(text));
    }
    if name == name_of(Channel::Stock) && emoji == Some(restock_emoji()) {
        lemma_restocked_returns_to_shop(b, text);
        lemma_restocked_returns_to_shop(once, struck(text));
    }
    if name == name_of(Channel::Stock) && emoji == Some(mark_sold_emoji()) {
        lemma_consumed_strikes_only(b, text);
        lemma_consumed_strikes_only(once, struck(text));
    }
}

/// When the bot starts, each managed channel that is missing is created and
/// no other: from at most one channel of each name, there is then exactly
/// one of each, and nothing else changes.
pub proof fn lemma_bootstrap_one_channel_each(b: Board)
    requires
        b.shop_channels <= 1,
        b.stock_channels <= 1,
    ensures
        apply_all(b, bootstrap_plan(b.shop_channels > 0, b.stock_channels > 0)) == (Board {
            shop_channels: 1,
            stock_channels: 1,
            ..b
        }),
{
    let shop = ActionView::CreateChannel(Channel::Shop);
    let stock = ActionView::CreateChannel(Channel::Stock);
    if b.shop_channels > 0 && b.stock_channels > 0 {
        assert(bootstrap_plan(true, true) =~= seq![]);
        lemma_apply_none(b);
    } else if b.shop_channels > 0 {
        assert(bootstrap_plan(true, false) =~= seq![stock]);
        lemma_apply_one(b, stock);
    } else if b.stock_channels > 0 {
        assert(bootstrap_plan(false, true) =~= seq![shop]);
        lemma_apply_one(b, shop);
    } else {
        assert(bootstrap_plan(false, false) =~= seq![shop, stock]);
        lemma_apply_two(b, shop, stock);
    }
}

/// `!shop <text>` posts `<text>` in the shop once, creating the shop first
/// when it is missing, so that there is then exactly one shop.
pub proof fn lemma_shop_command_posts_item(b: Board, content: Seq<char>)
    requires
        is_shop_command(content),
        b.shop_channels <= 1,
    ensures
        apply_all(b, shop_command_plan(b.shop_channels > 0, shop_item(content))) == (Board {
            shop_channels: 1,
            shop: b.shop.push(shop_item(content)),
            ..b
        }),
{
    let post = ActionView::Post(Channel::Shop, shop_item(content));
    if b.shop_channels > 0 {
        assert(shop_command_plan(true, shop_item(content)) =~= seq![post]);
        lemma_apply_one(b, post);
    } else {
        let create = ActionView::CreateChannel(Channel::Shop);
        assert(shop_command_plan(false, shop_item(content)) =~= seq![create, post]);
        lemma_apply_two(b, create, post);
    }
}

} // verus!
