//! The seal of a token: its text falls into three parts at two dots, and the
//! last part is the signature of what stands before it. The codec looks at
//! the seal of every token that the verification has let through, so that
//! what it accepts is known to be sealed.

use crate::auth::hs256::{hs256_signature, sign_message};
use vstd::prelude::*;
use vstd::string::{StrSliceExecFns, StringExecFns};
use vstd::utf8::is_ascii_chars;

verus! {

/// Where the last dot of `text` stands; -1 where there is no dot.
pub open spec fn last_dot(text: Seq<char>) -> int
    decreases text.len(),
{
    if text.len() == 0 {
        -1
    } else if text.last() == '.' {
        text.len() - 1
    } else {
        last_dot(text.drop_last())
    }
}

/// What stands before the last dot of `text`.
pub open spec fn before_last_dot(text: Seq<char>) -> Seq<char> {
    text.take(last_dot(text))
}

/// What stands after the last dot of `text`.
pub open spec fn after_last_dot(text: Seq<char>) -> Seq<char> {
    text.skip(last_dot(text) + 1)
}

/// Whether `text` has exactly two dots.
pub open spec fn three_parts(text: Seq<char>) -> bool {
    &&& last_dot(text) >= 0
    &&& last_dot(before_last_dot(text)) >= 0
    &&& last_dot(before_last_dot(before_last_dot(text))) < 0
}

/// Whether `token` is sealed under `secret`: plain ASCII in three parts, the
/// third being the signature of the first two with the dot between them.
pub open spec fn sealed(secret: Seq<char>, token: Seq<char>) -> bool {
    &&& is_ascii_chars(token)
    &&& three_parts(token)
    &&& hs256_signature(secret, before_last_dot(token)) == Some(after_last_dot(token))
}

/// The last dot is a dot, and no dot follows it.
pub proof fn lemma_last_dot(text: Seq<char>)
    ensures
        -1 <= last_dot(text) < text.len(),
        last_dot(text) >= 0 ==> text[last_dot(text)] == '.',
        forall|j: int| last_dot(text) < j < text.len() ==> text[j] != '.',
    decreases text.len(),
{
    if text.len() > 0 && text.last() != '.' {
        lemma_last_dot(text.drop_last());
        assert forall|j: int| last_dot(text) < j < text.len() implies text[j] != '.' by {
            if j < text.len() - 1 {
                assert(text.drop_last()[j] == text[j]);
            }
        }
    }
}

/// A dot that no dot follows is the last dot.
pub proof fn lemma_last_dot_is(text: Seq<char>, at: int)
    requires
        0 <= at < text.len(),
        text[at] == '.',
        forall|j: int| at < j < text.len() ==> text[j] != '.',
    ensures
        last_dot(text) == at,
{
    lemma_last_dot(text);
}

/// A text without a dot has no last dot.
proof fn lemma_no_dot(text: Seq<char>)
    requires
        forall|j: int| 0 <= j < text.len() ==> text[j] != '.',
    ensures
        last_dot(text) == -1,
{
    lemma_last_dot(text);
}

/// Finds the last dot of an ASCII text.
fn find_last_dot(text: &str) -> (at: Option<usize>)
    requires
        is_ascii_chars(text@),
    ensures
        match at {
            Some(i) => i == last_dot(text@),
            None => last_dot(text@) == -1,
        },
{
    let mut i: usize = text.unicode_len();
    while i > 0
        invariant
            i <= text@.len(),
            is_ascii_chars(text@),
            forall|j: int| i <= j < text@.len() ==> text@[j] != '.',
        decreases i,
    {
        i -= 1;
        let byte: u8 = text.get_ascii(i);
        if byte == 46u8 {
            proof {
                assert(text@[i as int] == '.');
                lemma_last_dot_is(text@, i as int);
            }
            return Some(i);
        }
        assert(text@[i as int] != '.');
    }
    proof {
        lemma_no_dot(text@);
    }
    None
}

/// Whether `token` is sealed under `secret`.
pub fn is_sealed(secret: &str, token: &str) -> (answer: bool)
    ensures
        answer == sealed(secret@, token@),
{
    if !token.is_ascii() {
        return false;
    }
    let len: usize = token.unicode_len();
    let second: usize = match find_last_dot(token) {
        Some(at) => at,
        None => {
            return false;
        },
    };
    proof {
        lemma_last_dot(token@);
    }
    let message: &str = token.substring_ascii(0, second);
    let signature: &str = token.substring_ascii(second + 1, len);
    let first: usize = match find_last_dot(message) {
        Some(at) => at,
        None => {
            return false;
        },
    };
    proof {
        lemma_last_dot(message@);
    }
    let header: &str = message.substring_ascii(0, first);
    if find_last_dot(header).is_some() {
        return false;
    }
    assert(message@ == before_last_dot(token@));
    assert(signature@ == after_last_dot(token@));
    assert(header@ == before_last_dot(message@));
    match sign_message(secret, message) {
        None => false,
        Some(expected) => {
            let found = String::from_str(signature);
            expected == found
        },
    }
}

} // verus!
