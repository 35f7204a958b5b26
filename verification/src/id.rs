//! Random short codes.

use rand::Rng;
use vstd::prelude::*;
use vstd::string::StrSliceExecFns;

verus! {

/// The characters a generated code is drawn from.
pub open spec fn code_alphabet() -> Seq<char> {
    "abcdefghijklmnopqrstuvwxyz0123456789"@
}

/// `text` consists of `length` characters of the code alphabet.
pub open spec fn is_code(text: Seq<char>, length: nat) -> bool {
    &&& text.len() == length
    &&& forall|i: int| 0 <= i < text.len() ==> code_alphabet().contains(#[trigger] text[i])
}

/// Draws an index below `bound` from the thread-local generator, by
/// `rand::thread_rng` and `Rng::gen_range` over `0..bound`. The draw is
/// random, so the contract says only that it lies in the range; an empty
/// range, on which `gen_range` panics, is excluded.
#[verifier::external_body]
fn random_below(bound: usize) -> (index: usize)
    requires
        bound > 0,
    ensures
        index < bound,
{
    rand::thread_rng().gen_range(0..bound)
}

/// Appends one character with `String::push`.
#[verifier::external_body]
fn push_char(text: &mut String, c: char)
    ensures
        final(text)@ == old(text)@.push(c),
{
    text.push(c)
}

/// Generate an alphanumeric ID, `length` characters long.
pub fn gen_id(length: usize) -> (code: String)
    ensures
        is_code(code@, length as nat),
{
    let alphabet = "abcdefghijklmnopqrstuvwxyz0123456789";
    proof {
        reveal_strlit("abcdefghijklmnopqrstuvwxyz0123456789");
    }
    let symbols = alphabet.unicode_len();
    let mut code = String::new();
    let mut made: usize = 0;
    while made < length
        invariant
            made <= length,
            alphabet@ == code_alphabet(),
            symbols == alphabet@.len(),
            symbols == 36,
            is_code(code@, made as nat),
        decreases length - made,
    {
        let pick = random_below(symbols);
        let c = alphabet.get_char(pick);
        push_char(&mut code, c);
        made = made + 1;
    }
    code
}

} // verus!
