//! Splitting text into words at white space.

use vstd::prelude::*;

verus! {

/// Whether `c` is white space: one of the twenty-five characters to which
/// Unicode gives the property `White_Space`.
pub open spec fn is_space(c: char) -> bool {
    let n = c as u32;
    ||| 0x09 <= n <= 0x0d
    ||| n == 0x20
    ||| n == 0x85
    ||| n == 0xa0
    ||| n == 0x1680
    ||| 0x2000 <= n <= 0x200a
    ||| n == 0x2028
    ||| n == 0x2029
    ||| n == 0x202f
    ||| n == 0x205f
    ||| n == 0x3000
}

/// Tells whether `c` is white space.
pub fn is_whitespace(c: char) -> (space: bool)
    ensures
        space == is_space(c),
{
    let n = c as u32;
    (0x09 <= n && n <= 0x0d) || n == 0x20 || n == 0x85 || n == 0xa0 || n == 0x1680 || (0x2000 <= n
        && n <= 0x200a) || n == 0x2028 || n == 0x2029 || n == 0x202f || n == 0x205f || n == 0x3000
}

/// The words of `text`: its longest runs of characters that are not white
/// space, from left to right. A character that is not white space begins a
/// word of its own where white space or the end of the text follows it, and
/// else stands in front of the word that the next character begins.
pub open spec fn words(text: Seq<char>) -> Seq<Seq<char>>
    decreases text.len(),
{
    if text.len() == 0 {
        Seq::empty()
    } else if is_space(text[0]) {
        words(text.drop_first())
    } else if text.len() == 1 || is_space(text[1]) {
        seq![seq![text[0]]] + words(text.drop_first())
    } else {
        let rest = words(text.drop_first());
        seq![seq![text[0]] + rest[0]] + rest.drop_first()
    }
}

/// White space in front of a text adds no word.
pub proof fn lemma_words_after_space(text: Seq<char>)
    requires
        text.len() > 0,
        is_space(text[0]),
    ensures
        words(text) == words(text.skip(1)),
{
    assert(text.skip(1) =~= text.drop_first());
}

/// A run of `n` characters without white space, with white space or the end
/// of the text behind it, is the first word of the text.
pub proof fn lemma_first_word(text: Seq<char>, n: int)
    requires
        0 < n <= text.len(),
        forall|i: int| 0 <= i < n ==> !is_space(#[trigger] text[i]),
        n == text.len() || is_space(text[n]),
    ensures
        words(text) == seq![text.take(n)] + words(text.skip(n)),
    decreases n,
{
    let rest = text.drop_first();
    assert(text.skip(1) =~= rest);
    if n == 1 {
        assert(text.take(1) =~= seq![text[0]]);
    } else {
        assert(rest[0] == text[1]);
        assert forall|i: int| 0 <= i < n - 1 implies !is_space(#[trigger] rest[i]) by {
            assert(rest[i] == text[i + 1]);
        }
        lemma_first_word(rest, n - 1);
        assert(rest.skip(n - 1) =~= text.skip(n));
        assert(seq![text[0]] + rest.take(n - 1) =~= text.take(n));
        let found = seq![rest.take(n - 1)] + words(rest.skip(n - 1));
        assert(found[0] == rest.take(n - 1));
        assert(found.drop_first() =~= words(rest.skip(n - 1)));
    }
}

/// A text that begins with a character that is not white space has a word.
pub proof fn lemma_words_begin(text: Seq<char>)
    requires
        text.len() > 0,
        !is_space(text[0]),
    ensures
        words(text).len() > 0,
{
}

/// No word is empty, and no word holds white space.
pub proof fn lemma_words_are_solid(text: Seq<char>, i: int)
    requires
        0 <= i < words(text).len(),
    ensures
        words(text)[i].len() > 0,
        forall|k: int| 0 <= k < words(text)[i].len() ==> !is_space(#[trigger] words(text)[i][k]),
    decreases text.len(),
{
    let rest = text.drop_first();
    if is_space(text[0]) {
        lemma_words_are_solid(rest, i);
    } else if text.len() == 1 || is_space(text[1]) {
        if i > 0 {
            lemma_words_are_solid(rest, i - 1);
        }
    } else {
        assert(rest[0] == text[1]);
        lemma_words_begin(rest);
        lemma_words_are_solid(rest, i);
    }
}

} // verus!
