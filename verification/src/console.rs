//! Reading a yes/no answer.

use vstd::prelude::*;
use crate::text::chars_of;

verus! {

/// White space as `str::trim` strips it.
pub open spec fn is_space(c: char) -> bool {
    let n = c as u32;
    (0x09 <= n && n <= 0x0D) || n == 0x20 || n == 0x85 || n == 0xA0 || n == 0x1680 || (0x2000 <= n
        && n <= 0x200A) || n == 0x2028 || n == 0x2029 || n == 0x202F || n == 0x205F || n == 0x3000
}

fn space(c: char) -> (r: bool)
    ensures
        r == is_space(c),
{
    let n: u32 = c as u32;
    (0x09 <= n && n <= 0x0D) || n == 0x20 || n == 0x85 || n == 0xA0 || n == 0x1680 || (0x2000 <= n
        && n <= 0x200A) || n == 0x2028 || n == 0x2029 || n == 0x202F || n == 0x205F || n == 0x3000
}

/// Position of the first character of `answer` that is no white space, or
/// its length where there is none.
pub open spec fn first_word(answer: Seq<char>) -> int
    decreases answer.len(),
{
    if answer.len() == 0 || !is_space(answer[0]) {
        0
    } else {
        1 + first_word(answer.drop_first())
    }
}

/// Whether an answer means yes: after leading white space it starts with
/// `y` or `Y`.
pub open spec fn affirms(answer: Seq<char>) -> bool {
    let at = first_word(answer);
    at < answer.len() && (answer[at] == 'y' || answer[at] == 'Y')
}

proof fn first_word_skips(answer: Seq<char>, n: int)
    requires
        0 <= n <= answer.len(),
        forall|j: int| 0 <= j < n ==> is_space(#[trigger] answer[j]),
    ensures
        first_word(answer) == n + first_word(answer.skip(n)),
    decreases n,
{
    if n == 0 {
        assert(answer.skip(0) =~= answer);
    } else {
        let rest = answer.drop_first();
        assert forall|j: int| 0 <= j < n - 1 implies is_space(#[trigger] rest[j]) by {
            assert(rest[j] == answer[j + 1]);
        }
        first_word_skips(rest, n - 1);
        assert(rest.skip(n - 1) =~= answer.skip(n));
    }
}

/// Decides a yes/no question from the line that was typed.
pub fn confirm(answer: &str) -> (yes: bool)
    ensures
        yes == affirms(answer@),
{
    let chars = chars_of(answer);
    let mut i: usize = 0;
    while i < chars.len() && space(chars[i])
        invariant
            i <= chars.len(),
            forall|j: int| 0 <= j < i ==> is_space(#[trigger] chars@[j]),
        decreases chars.len() - i,
    {
        i += 1;
    }
    proof {
        first_word_skips(chars@, i as int);
        if i < chars.len() {
            assert(chars@.skip(i as int)[0] == chars@[i as int]);
        }
    }
    i < chars.len() && (chars[i] == 'y' || chars[i] == 'Y')
}

} // verus!
