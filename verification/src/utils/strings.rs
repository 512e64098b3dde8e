//! Turning field names into labels.

use vstd::prelude::*;
use vstd::string::StringExecFns;

verus! {

/// The uppercase form of a character: what `char::to_uppercase` yields for
/// it, in order. It may be longer than one character.
pub uninterp spec fn uppercase_of(c: char) -> Seq<char>;

/// `char::to_uppercase`, collected. Trusted: the result is the character's
/// uppercase mapping under the Unicode tables that std carries, which
/// depends on nothing but the character.
#[verifier::external_body]
fn to_uppercase(c: char) -> (upper: String)
    ensures
        upper@ == uppercase_of(c),
{
    c.to_uppercase().collect()
}

/// `String::push`. Trusted: std documents that it appends the character to
/// the end of the string.
pub assume_specification[ String::push ](s: &mut String, c: char)
    ensures
        final(s)@ == old(s)@.push(c),
;

/// Whether position `i` of `s` starts a word: the words of a snake-case
/// name are what stands between its underscores.
pub open spec fn starts_word(s: Seq<char>, i: int) -> bool {
    i == 0 || s[i - 1] == '_'
}

/// What one character of a name becomes in the label, given whether it
/// starts a word and given its uppercase form: an underscore becomes a
/// space, the first character of a word becomes its uppercase form, and
/// every other character stays.
pub open spec fn label_piece(c: char, starts_word: bool, upper: Seq<char>) -> Seq<char> {
    if c == '_' {
        seq![' ']
    } else if starts_word {
        upper
    } else {
        seq![c]
    }
}

/// What position `i` of `s` becomes in the label.
pub open spec fn capitalized_at(s: Seq<char>, i: int) -> Seq<char> {
    label_piece(s[i], starts_word(s, i), uppercase_of(s[i]))
}

/// What the first `n` positions of `s` become, in order.
pub open spec fn capitalized_prefix(s: Seq<char>, n: nat) -> Seq<char>
    decreases n,
{
    if n == 0 {
        Seq::empty()
    } else {
        capitalized_prefix(s, (n - 1) as nat) + capitalized_at(s, n - 1)
    }
}

/// The label of a snake-case name: its words, each with its first
/// character in uppercase, separated by single spaces. An empty word, which
/// two adjacent underscores or one at either end leave, stays empty.
pub open spec fn capitalized(s: Seq<char>) -> Seq<char> {
    capitalized_prefix(s, s.len())
}

/// Appends to `label` what the character `c` of a name becomes, where
/// `upper` is the uppercase form of `c`.
pub fn push_label_piece(label: &mut String, c: char, starts_word: bool, upper: &str)
    ensures
        final(label)@ == old(label)@ + label_piece(c, starts_word, upper@),
{
    if c == '_' {
        label.push(' ');
    } else if starts_word {
        label.append(upper);
    } else {
        label.push(c);
    }
}

/// Capitalizes "snake_case" words (e.g. snake_case -> Snake Case).
pub fn capitalize(str: &str) -> (label: String)
    ensures
        label@ == capitalized(str@),
{
    let mut label = String::new();
    let mut at_start = true;
    for c in it: str.chars()
        invariant
            it.seq() == str@,
            label@ == capitalized_prefix(str@, it.index() as nat),
            at_start == starts_word(str@, it.index() as int),
    {
        if at_start && c != '_' {
            let upper = to_uppercase(c);
            push_label_piece(&mut label, c, at_start, upper.as_str());
        } else {
            // The uppercase form is not looked at here.
            push_label_piece(&mut label, c, at_start, "");
        }
        at_start = c == '_';
    }
    label
}

} // verus!
