//! The identifier normalizer: maps identifiers from the source naming
//! convention to the target's word-boundary-delimited lowercase convention.
//! A case transition starts a new word; each uppercase letter after the
//! first is its own boundary, which deliberately over-segments acronym runs
//! rather than guessing word groupings.
use vstd::prelude::*;
use vstd::string::StrSliceExecFns;
use crate::text::push_char;

verus! {

/// Whether a character counts as uppercase; the value that
/// `char::is_uppercase` returns for it.
pub uninterp spec fn upper_of(c: char) -> bool;

/// The lowercase form of one character; the first character that
/// `char::to_lowercase` yields for it.
pub uninterp spec fn lower_of(c: char) -> char;

/// Relies on `char::is_uppercase`: whether the character has the Unicode
/// uppercase property, a function of the character alone.
#[verifier::external_body]
fn char_is_uppercase(c: char) -> (r: bool)
    ensures
        r == upper_of(c),
{
    c.is_uppercase()
}

/// Relies on `char::to_lowercase`: its Unicode lowercase mapping, a function
/// of the character alone. The body takes the mapping's first character; the
/// iterator always yields at least one, so the fallback never fires.
#[verifier::external_body]
fn char_lowercase(c: char) -> (r: char)
    ensures
        r == lower_of(c),
{
    c.to_lowercase().next().unwrap_or(c)
}

/// What one character contributes to a normalized identifier: a separator
/// before an uppercase letter, except at the very start, then the lowercase
/// form.
pub open spec fn emit_char(c: char, at_start: bool) -> Seq<char> {
    if upper_of(c) && !at_start {
        seq!['_', lower_of(c)]
    } else {
        seq![lower_of(c)]
    }
}

/// The identifier in the target convention: each character lowered, with a
/// separator inserted at every uppercase letter after the first position.
pub open spec fn snake_of(s: Seq<char>) -> Seq<char>
    decreases s.len(),
{
    if s.len() == 0 {
        Seq::empty()
    } else {
        snake_of(s.drop_last()) + emit_char(s.last(), s.len() == 1)
    }
}

/// Normalizes an identifier to the target convention. Total: empty input
/// yields empty output, and no input is rejected.
pub fn to_snake_case(s: &str) -> (r: String)
    ensures
        r@ == snake_of(s@),
{
    let n: usize = s.unicode_len();
    let mut result = String::new();
    let mut i: usize = 0;
    while i < n
        invariant
            n == s@.len(),
            i <= n,
            result@ == snake_of(s@.subrange(0, i as int)),
        decreases n - i,
    {
        let c = s.get_char(i);
        if char_is_uppercase(c) && i > 0 {
            push_char(&mut result, '_');
        }
        push_char(&mut result, char_lowercase(c));
        proof {
            let sub1 = s@.subrange(0, i as int + 1);
            assert(sub1.drop_last() =~= s@.subrange(0, i as int));
            assert(sub1.last() == s@[i as int]);
            assert(result@ == snake_of(sub1));
        }
        i = i + 1;
    }
    proof {
        assert(s@.subrange(0, n as int) =~= s@);
    }
    result
}

/// The lowercase form of a whole string; the value that `str::to_lowercase`
/// returns for it.
pub uninterp spec fn lower_str_of(s: Seq<char>) -> Seq<char>;

/// Relies on `str::to_lowercase`: the Unicode lowercase mapping of the whole
/// string, a function of its characters alone.
#[verifier::external_body]
pub(crate) fn lowercase_str(s: &str) -> (r: String)
    ensures
        r@ == lower_str_of(s@),
{
    s.to_lowercase()
}

/// Whether an identifier is already in the target convention: no character
/// is uppercase and every character is fixed under lowercasing.
pub open spec fn is_normalized(s: Seq<char>) -> bool {
    forall|i: int| 0 <= i < s.len() ==> !upper_of(#[trigger] s[i]) && lower_of(s[i]) == s[i]
}

/// Normalization is idempotent: an identifier already in the target
/// convention is returned unchanged.
pub proof fn lemma_snake_of_normalized(s: Seq<char>)
    requires
        is_normalized(s),
    ensures
        snake_of(s) == s,
    decreases s.len(),
{
    if s.len() == 0 {
        assert(snake_of(s) =~= s);
    } else {
        assert(forall|i: int| 0 <= i < s.drop_last().len() ==> s.drop_last()[i] == s[i]);
        lemma_snake_of_normalized(s.drop_last());
        assert(s.last() == s[s.len() - 1]);
        assert(snake_of(s) =~= s);
    }
}

} // verus!
