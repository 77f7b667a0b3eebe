//! Escapes in the text to lay out.
//!
//! The one escape is a backslash followed by the letter `n`, which stands
//! for a line break. Every other character, a lone backslash too, stands
//! for itself.

use vstd::prelude::*;

verus! {

/// `String::push` appends one character to the string.
pub assume_specification[ String::push ](s: &mut String, ch: char)
    ensures
        final(s)@ == old(s)@.push(ch),
;

/// The text with every backslash-`n` pair, read from the left, replaced by
/// a line break.
pub open spec fn unescaped(text: Seq<char>) -> Seq<char>
    decreases text.len(),
{
    if text.len() == 0 {
        text
    } else if text.len() >= 2 && text[0] == '\\' && text[1] == 'n' {
        seq!['\n'] + unescaped(text.skip(2))
    } else {
        seq![text[0]] + unescaped(text.skip(1))
    }
}

/// A backslash that was read and not yet written, as a text of its own.
spec fn held_back(pending: bool) -> Seq<char> {
    if pending {
        seq!['\\']
    } else {
        Seq::empty()
    }
}

/// An escaped line break splits the text: what stands before it and what
/// stands after it are converted each on its own, whatever they hold.
pub proof fn lemma_unescaped_splits_at_escape(before: Seq<char>, after: Seq<char>)
    ensures
        unescaped(before + seq!['\\', 'n'] + after) == unescaped(before) + seq!['\n'] + unescaped(
            after,
        ),
    decreases before.len(),
{
    let text = before + seq!['\\', 'n'] + after;
    if before.len() == 0 {
        assert(text.skip(2) =~= after);
        assert(unescaped(before) =~= Seq::<char>::empty());
        assert(unescaped(text) =~= unescaped(before) + seq!['\n'] + unescaped(after));
    } else if before.len() >= 2 && before[0] == '\\' && before[1] == 'n' {
        lemma_unescaped_splits_at_escape(before.skip(2), after);
        assert(text.skip(2) =~= before.skip(2) + seq!['\\', 'n'] + after);
        assert(unescaped(text) =~= unescaped(before) + seq!['\n'] + unescaped(after));
    } else {
        lemma_unescaped_splits_at_escape(before.skip(1), after);
        assert(text.skip(1) =~= before.skip(1) + seq!['\\', 'n'] + after);
        assert(text[0] == before[0]);
        assert(text[1] == if before.len() >= 2 {
            before[1]
        } else {
            '\\'
        });
        assert(unescaped(text) =~= unescaped(before) + seq!['\n'] + unescaped(after));
    }
}

/// Replaces every backslash-`n` pair of the text by a line break.
///
/// Pairs are found from the left and do not overlap; no other escape is
/// known, so any other backslash stays as it is.
pub fn convert_escapes(text: &str) -> (converted: String)
    ensures
        converted@ == unescaped(text@),
{
    let mut converted = String::new();
    let mut pending = false;
    assert(text@.skip(0) =~= text@);
    for ch in it: text.chars()
        invariant
            it.seq() == text@,
            unescaped(text@) == converted@ + unescaped(
                held_back(pending) + text@.skip(it.index()),
            ),
    {
        let ghost rest = text@.skip(it.index());
        let ghost before = held_back(pending) + rest;
        let ghost written = converted@;
        assert(rest[0] == ch);
        assert(rest.skip(1) =~= text@.skip(it.index() + 1));
        if pending {
            assert(before[0] == '\\' && before[1] == ch);
            assert(before.skip(1) =~= rest);
            if ch == 'n' {
                assert(before.skip(2) =~= held_back(false) + rest.skip(1));
                converted.push('\n');
                pending = false;
                assert(converted@ + unescaped(held_back(false) + rest.skip(1)) =~= written
                    + unescaped(before));
            } else if ch == '\\' {
                assert(rest =~= held_back(true) + rest.skip(1));
                converted.push('\\');
                assert(converted@ + unescaped(held_back(true) + rest.skip(1)) =~= written
                    + unescaped(before));
            } else {
                assert(rest.skip(1) =~= held_back(false) + rest.skip(1));
                converted.push('\\');
                converted.push(ch);
                pending = false;
                assert(unescaped(rest) == seq![ch] + unescaped(rest.skip(1)));
                assert(unescaped(before) == seq!['\\'] + unescaped(rest));
                assert(converted@ + unescaped(held_back(false) + rest.skip(1)) =~= written
                    + unescaped(before));
            }
        } else {
            assert(before =~= rest);
            if ch == '\\' {
                assert(rest =~= held_back(true) + rest.skip(1));
                pending = true;
            } else {
                assert(rest.skip(1) =~= held_back(false) + rest.skip(1));
                converted.push(ch);
                assert(converted@ + unescaped(held_back(false) + rest.skip(1)) =~= written
                    + unescaped(before));
            }
        }
    }
    proof {
        let rest = text@.skip(text@.len() as int);
        assert(rest =~= Seq::<char>::empty());
        assert(held_back(pending) + rest =~= held_back(pending));
        if pending {
            assert(held_back(true).skip(1) =~= Seq::<char>::empty());
            assert(unescaped(Seq::<char>::empty()) =~= Seq::<char>::empty());
            assert(unescaped(held_back(true)) =~= seq!['\\']);
        }
    }
    if pending {
        converted.push('\\');
    }
    assert(converted@ =~= unescaped(text@));
    converted
}

} // verus!
