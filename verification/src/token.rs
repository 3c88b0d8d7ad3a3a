//! Telling flag tokens from data tokens.

use vstd::prelude::*;

verus! {

/// A token is a flag exactly when it starts with two hyphens.
pub open spec fn is_flag(token: Seq<char>) -> bool {
    token.len() >= 2 && token[0] == '-' && token[1] == '-'
}

/// Decides whether `token` starts with the flag prefix `--`.
pub fn is_flag_token(token: &String) -> (flagged: bool)
    ensures
        flagged == is_flag(token@),
{
    let text: &str = token.as_str();
    let mut chars = text.chars();
    match chars.next() {
        Some('-') => match chars.next() {
            Some('-') => true,
            _ => false,
        },
        _ => false,
    }
}

} // verus!
