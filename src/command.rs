//! The `!shop <text>` chat command.
use vstd::prelude::*;
use crate::action::{actions_view, Action, ActionView};
use crate::channel::Channel;

verus! {

/// The text a shop command starts with: `!shop` and one space.
pub open spec fn shop_prefix() -> Seq<char> {
    seq!['!', 's', 'h', 'o', 'p', ' ']
}

/// Whether `content` starts with exactly the shop command's prefix.
pub open spec fn is_shop_command(content: Seq<char>) -> bool {
    content.len() >= shop_prefix().len() && content.subrange(0, shop_prefix().len() as int)
        == shop_prefix()
}

/// What follows the prefix in a shop command.
pub open spec fn shop_item(content: Seq<char>) -> Seq<char> {
    content.subrange(shop_prefix().len() as int, content.len() as int)
}

/// Whether `content` is a shop command, i.e. starts with `!shop ` exactly.
pub fn has_shop_prefix(content: &str) -> (r: bool)
    ensures
        r == is_shop_command(content@),
{
    let n = content.unicode_len();
    if n < 6 {
        return false;
    }
    let head = content.substring_char(0, 6);
    let prefix = "!shop ";
    proof {
        reveal_strlit("!shop ");
        assert(prefix@ =~= shop_prefix());
    }
    crate::text::same_text(head, prefix)
}

/// The item text of a shop command: `content` without its `!shop ` prefix.
pub fn parse_shop_message(content: String) -> (r: String)
    requires
        is_shop_command(content@),
    ensures
        r@ == shop_item(content@),
{
    let n = content.as_str().unicode_len();
    String::from_str(content.as_str().substring_char(6, n))
}

/// The actions of a shop command whose item text is `item`: create the shop
/// if it does not exist, then post the item there.
pub open spec fn shop_command_plan(shop_exists: bool, item: Seq<char>) -> Seq<ActionView> {
    (if shop_exists {
        seq![]
    } else {
        seq![ActionView::CreateChannel(Channel::Shop)]
    }).push(ActionView::Post(Channel::Shop, item))
}

/// The actions for the chat message `content` read as a shop command, given
/// whether the shop channel exists; `None` when it is not a shop command.
pub fn shop_command_actions(content: &str, shop_exists: bool) -> (r: Option<Vec<Action>>)
    ensures
        r is None <==> !is_shop_command(content@),
        r matches Some(v) ==> actions_view(v@) == shop_command_plan(
            shop_exists,
            shop_item(content@),
        ),
{
    if !has_shop_prefix(content) {
        return None;
    }
    let item = parse_shop_message(String::from_str(content));
    let mut r: Vec<Action> = Vec::new();
    if !shop_exists {
        r.push(Action::CreateChannel(Channel::Shop));
    }
    r.push(Action::Post(Channel::Shop, item));
    assert(actions_view(r@) =~= shop_command_plan(shop_exists, shop_item(content@)));
    Some(r)
}

} // verus!
