//! Termination tokens: random alphanumeric secrets of a fixed length.

use vstd::prelude::*;
use vstd::string::*;

verus! {

/// Length of the token written at install time.
pub const TOKEN_LENGTH: usize = 24;

/// Number of characters a token is drawn from.
pub const ALPHABET_SIZE: usize = 62;

/// The characters a token is drawn from.
pub open spec fn alphabet() -> Seq<char> {
    "ABCDEFGHIJKLMNOPQRSTUVWXYZabcdefghijklmnopqrstuvwxyz0123456789"@
}

/// An ASCII letter or digit.
pub open spec fn is_token_char(c: char) -> bool {
    ('A' <= c && c <= 'Z') || ('a' <= c && c <= 'z') || ('0' <= c && c <= '9')
}

/// A token of the given length: nothing but ASCII letters and digits.
pub open spec fn is_token(text: Seq<char>, length: nat) -> bool {
    &&& text.len() == length
    &&& forall|i: int| 0 <= i < text.len() ==> is_token_char(#[trigger] text[i])
}

/// The alphabet has `ALPHABET_SIZE` characters, each a letter or a digit.
pub proof fn alphabet_is_alphanumeric()
    ensures
        alphabet().len() == ALPHABET_SIZE,
        forall|i: int| 0 <= i < alphabet().len() ==> is_token_char(#[trigger] alphabet()[i]),
{
    reveal_strlit("ABCDEFGHIJKLMNOPQRSTUVWXYZabcdefghijklmnopqrstuvwxyz0123456789");
}

/// The character of the alphabet at `index`.
pub fn token_char(index: usize) -> (c: char)
    requires
        index < ALPHABET_SIZE,
    ensures
        c == alphabet()[index as int],
        is_token_char(c),
{
    proof {
        alphabet_is_alphanumeric();
    }
    "ABCDEFGHIJKLMNOPQRSTUVWXYZabcdefghijklmnopqrstuvwxyz0123456789".get_char(index)
}

/// `String::push` of std: the character is appended to the string.
pub assume_specification[ String::push ](s: &mut String, ch: char)
    ensures
        final(s)@ == old(s)@.push(ch),
;

/// Draws one number below `bound` from `rand::thread_rng()` with
/// `Rng::gen_range(0..bound)`. The range must not be empty, and the
/// contract claims only that the number lies in it.
#[verifier::external_body]
fn random_below(bound: usize) -> (n: usize)
    requires
        bound > 0,
    ensures
        n < bound,
{
    rand::Rng::gen_range(&mut rand::thread_rng(), 0..bound)
}

/// A fresh random token of `length` characters.
pub fn generate_token(length: usize) -> (token: String)
    ensures
        is_token(token@, length as nat),
{
    let mut token = String::new();
    let mut made: usize = 0;
    while made < length
        invariant
            made <= length,
            is_token(token@, made as nat),
        decreases length - made,
    {
        let index = random_below(ALPHABET_SIZE);
        let c = token_char(index);
        token.push(c);
        made += 1;
    }
    token
}

} // verus!
