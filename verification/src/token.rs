//! The device token file's content.

use vstd::prelude::*;
use crate::text::{is_white, lemma_trim_empty, trim, trim_spec};

verus! {

/// The token held in the token file's `contents`: the text without
/// surrounding whitespace, or `None` when nothing is left.
pub fn token_from_file(contents: &str) -> (r: Option<String>)
    ensures
        match r {
            Some(t) => t@ == trim_spec(contents@) && t@.len() > 0,
            None => trim_spec(contents@).len() == 0,
        },
{
    let t = trim(contents);
    if t.as_str().unicode_len() == 0 {
        None
    } else {
        Some(t)
    }
}

/// A token file yields no token exactly when it holds only whitespace (or
/// nothing).
pub proof fn law_no_token_iff_blank(contents: Seq<char>)
    ensures
        (trim_spec(contents).len() == 0) <==> (forall|i: int|
            0 <= i < contents.len() ==> is_white(#[trigger] contents[i])),
{
    lemma_trim_empty(contents);
}

} // verus!
