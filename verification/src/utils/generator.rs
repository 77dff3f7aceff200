//! Random codes.

use rand::Rng;
use vstd::prelude::*;
use vstd::string::*;

verus! {

/// The characters of a code of digits.
pub open spec fn digits() -> Seq<char> {
    "0123456789"@
}

/// The characters of a code of letters and digits. The digit 0 is left out.
pub open spec fn letters_and_digits() -> Seq<char> {
    "ABCDEFGHIJKLMNOPQRSTUVWXYZabcdefghijklmnopqrstuvwxyz123456789"@
}

/// The characters that a code is drawn from.
pub open spec fn charset(just_numbers: bool) -> Seq<char> {
    if just_numbers {
        digits()
    } else {
        letters_and_digits()
    }
}

/// Whether `code` has `size` characters, each of them from the set that
/// `just_numbers` selects.
pub open spec fn is_code(code: Seq<char>, size: nat, just_numbers: bool) -> bool {
    &&& code.len() == size
    &&& forall|i: int| 0 <= i < code.len() ==> charset(just_numbers).contains(#[trigger] code[i])
}

/// No code holds the sign `$`, with which every hash starts: a code is never
/// taken for a hash.
pub proof fn lemma_code_has_no_dollar(code: Seq<char>, size: nat, just_numbers: bool)
    requires
        is_code(code, size, just_numbers),
    ensures
        forall|i: int| 0 <= i < code.len() ==> code[i] != '$',
{
    reveal_strlit("0123456789");
    reveal_strlit("ABCDEFGHIJKLMNOPQRSTUVWXYZabcdefghijklmnopqrstuvwxyz123456789");
    let set = charset(just_numbers);
    assert forall|k: int| 0 <= k < set.len() implies set[k] != '$' by {}
    assert forall|i: int| 0 <= i < code.len() implies code[i] != '$' by {
        assert(set.contains(code[i]));
        let k = choose|k: int| 0 <= k < set.len() && set[k] == code[i];
        assert(set[k] != '$');
    }
}

/// Draws a number below `bound` with `random_range` of `rand`'s generator
/// for the current thread. The number depends on chance; all that is
/// claimed is that it lies in `0..bound`. The range must not be empty.
#[verifier::external_body]
fn random_below(bound: usize) -> (n: usize)
    requires
        bound > 0,
    ensures
        n < bound,
{
    rand::rng().random_range(0..bound)
}

/// `picks` turned into text: the characters of `alphabet` at the positions
/// that `picks` names, in that order.
pub open spec fn spelled(alphabet: Seq<char>, picks: Seq<usize>) -> Seq<char> {
    Seq::new(picks.len(), |i: int| alphabet[picks[i] as int])
}

/// Spells out `picks` in `alphabet`.
pub fn spell(alphabet: &str, picks: &Vec<usize>) -> (code: String)
    requires
        forall|i: int| 0 <= i < picks@.len() ==> picks@[i] < alphabet@.len(),
    ensures
        code@ == spelled(alphabet@, picks@),
{
    let n: usize = alphabet.unicode_len();
    let mut code: String = String::new();
    let mut i: usize = 0;
    while i < picks.len()
        invariant
            i <= picks.len(),
            n == alphabet@.len(),
            forall|k: int| 0 <= k < picks@.len() ==> picks@[k] < alphabet@.len(),
            code@ == spelled(alphabet@, picks@.subrange(0, i as int)),
        decreases picks.len() - i,
    {
        let at: usize = picks[i];
        let one: &str = alphabet.substring_char(at, at + 1);
        code.append(one);
        i += 1;
        assert(code@ == spelled(alphabet@, picks@.subrange(0, i as int)));
    }
    assert(picks@.subrange(0, picks@.len() as int) == picks@);
    code
}

/// A random code of `size` characters: digits only where `just_numbers` is
/// set, else letters and the digits 1 to 9.
pub fn generator_code(size: usize, just_numbers: bool) -> (code: String)
    ensures
        is_code(code@, size as nat, just_numbers),
{
    let alphabet: &str = if just_numbers {
        "0123456789"
    } else {
        "ABCDEFGHIJKLMNOPQRSTUVWXYZabcdefghijklmnopqrstuvwxyz123456789"
    };
    let n: usize = alphabet.unicode_len();
    proof {
        reveal_strlit("0123456789");
        reveal_strlit("ABCDEFGHIJKLMNOPQRSTUVWXYZabcdefghijklmnopqrstuvwxyz123456789");
    }
    let mut picks: Vec<usize> = Vec::new();
    let mut i: usize = 0;
    while i < size
        invariant
            i <= size,
            n == alphabet@.len(),
            n > 0,
            picks@.len() == i,
            forall|k: int| 0 <= k < picks@.len() ==> picks@[k] < n,
        decreases size - i,
    {
        picks.push(random_below(n));
        i += 1;
    }
    let code: String = spell(alphabet, &picks);
    assert forall|k: int| 0 <= k < code@.len() implies charset(just_numbers).contains(
        #[trigger] code@[k],
    ) by {
        assert(code@[k] == alphabet@[picks@[k] as int]);
    }
    code
}

} // verus!
