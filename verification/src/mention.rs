//! Mentions: the text that pings a user, role or channel in a message.
use vstd::prelude::*;
use crate::text::{decimal, push_decimal, push_str};

verus! {

/// Trait for items that can be mentioned in Discord.
pub trait Mention {
    /// Returns the mention string for this item (e.g., <@123>).
    fn mention(&self) -> String;
}

/// The mention text `prefix`, the decimal ID, then `>`.
pub open spec fn mention_text(prefix: Seq<char>, id: u64) -> Seq<char> {
    prefix + decimal(id as nat) + ">"@
}

/// Builds `prefix`, the decimal form of `id`, then `>`.
pub fn mention_of(prefix: &str, id: u64) -> (r: String)
    ensures
        r@ == mention_text(prefix@, id),
{
    let mut s = String::new();
    push_str(&mut s, prefix);
    push_decimal(&mut s, id);
    push_str(&mut s, ">");
    assert(s@ =~= mention_text(prefix@, id));
    s
}

} // verus!
