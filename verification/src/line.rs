use vstd::prelude::*;

verus! {

/// The line that shows `tokens`: each followed by one space, but the last, which
/// is followed by one newline. No tokens make no line at all.
pub open spec fn line_of(tokens: Seq<Seq<char>>) -> Seq<char>
    decreases tokens.len(),
{
    if tokens.len() == 0 {
        Seq::empty()
    } else if tokens.len() == 1 {
        tokens[0] + seq!['\n']
    } else {
        tokens[0] + seq![' '] + line_of(tokens.skip(1))
    }
}

/// Whether a character ends a token on a line.
pub open spec fn is_separator(c: char) -> bool {
    c == ' ' || c == '\n'
}

/// A word is not empty and holds neither a space nor a newline.
pub open spec fn is_word(token: Seq<char>) -> bool {
    &&& token.len() > 0
    &&& forall|i: int| 0 <= i < token.len() ==> !is_separator(#[trigger] token[i])
}

/// How many characters stand before the first separator of `text`.
pub open spec fn word_len(text: Seq<char>) -> nat
    decreases text.len(),
{
    if text.len() == 0 || is_separator(text[0]) {
        0
    } else {
        1 + word_len(text.skip(1))
    }
}

/// The tokens that a line is read back as: it is cut at every space and at
/// every newline, and each cut ends a token, even an empty one.
pub open spec fn tokens_of(line: Seq<char>) -> Seq<Seq<char>>
    decreases line.len(),
{
    if line.len() == 0 {
        Seq::empty()
    } else {
        let n = word_len(line) as int;
        if n >= line.len() {
            seq![line]
        } else {
            seq![line.take(n)] + tokens_of(line.skip(n + 1))
        }
    }
}

/// What holds of a line of words: it begins with a word and ends in a newline,
/// its only one; no space stands before that newline; and no cut of the line
/// leaves an empty token, so no space stands first, last or next to another.
pub open spec fn well_separated(line: Seq<char>) -> bool {
    &&& line.len() >= 2
    &&& !is_separator(line[0])
    &&& line.last() == '\n'
    &&& !is_separator(line[line.len() - 2])
    &&& forall|i: int| 0 <= i < line.len() - 1 ==> line[i] != '\n'
    &&& forall|i: int| 0 <= i < tokens_of(line).len() ==> is_word(#[trigger] tokens_of(line)[i])
}

/// Lays the tokens out on one line: single spaces between them, a newline after
/// the last, and nothing where there are no tokens.
pub fn format_line(tokens: &Vec<String>) -> (line: String)
    ensures
        line@ == line_of(tokens.deep_view()),
{
    let ghost all = tokens.deep_view();
    let mut line = String::new();
    let mut i: usize = 0;
    assert(all.skip(0) == all);
    while i < tokens.len()
        invariant
            i <= tokens.len(),
            all == tokens.deep_view(),
            line_of(all) == line@ + line_of(all.skip(i as int)),
        decreases tokens.len() - i,
    {
        let ghost before = line@;
        let ghost rest = all.skip(i as int);
        assert(rest[0] == tokens@[i as int]@);
        assert(rest.skip(1) == all.skip(i + 1));
        line.append(tokens[i].as_str());
        if i + 1 < tokens.len() {
            proof {
                reveal_strlit(" ");
            }
            line.append(" ");
            assert(" "@ == seq![' ']);
            assert(line@ + line_of(rest.skip(1)) == before + line_of(rest));
        } else {
            proof {
                reveal_strlit("\n");
            }
            line.append("\n");
            assert("\n"@ == seq!['\n']);
            assert(line_of(rest.skip(1)) == Seq::<char>::empty());
            assert(line@ + line_of(rest.skip(1)) == before + line_of(rest));
        }
        i = i + 1;
    }
    assert(line_of(all.skip(i as int)) == Seq::<char>::empty());
    line
}

/// A word followed by a separator is as long as the word: the first cut of the
/// text falls right behind it.
proof fn lemma_word_len_before_separator(word: Seq<char>, separator: char, rest: Seq<char>)
    requires
        forall|i: int| 0 <= i < word.len() ==> !is_separator(#[trigger] word[i]),
        is_separator(separator),
    ensures
        word_len(word + seq![separator] + rest) == word.len(),
    decreases word.len(),
{
    let text = word + seq![separator] + rest;
    if word.len() == 0 {
        assert(text[0] == separator);
    } else {
        assert(text[0] == word[0]);
        assert(text.skip(1) == word.skip(1) + seq![separator] + rest);
        assert forall|i: int| 0 <= i < word.skip(1).len() implies !is_separator(
            #[trigger] word.skip(1)[i],
        ) by {
            assert(word.skip(1)[i] == word[i + 1]);
        }
        lemma_word_len_before_separator(word.skip(1), separator, rest);
    }
}

/// The separator invariant. A line of words begins with the first character of
/// its first word and ends in a newline, which is its only one; no space stands
/// before that newline; and cutting the line at its spaces and its newline gives
/// the words back, so exactly one space stands between two words.
pub proof fn line_separates_words(tokens: Seq<Seq<char>>)
    requires
        tokens.len() > 0,
        forall|i: int| 0 <= i < tokens.len() ==> is_word(#[trigger] tokens[i]),
    ensures
        well_separated(line_of(tokens)),
        tokens_of(line_of(tokens)) == tokens,
    decreases tokens.len(),
{
    let line = line_of(tokens);
    let first = tokens[0];
    assert(is_word(first));
    assert(!is_separator(first[0]));
    assert(!is_separator(first[first.len() - 1]));
    if tokens.len() == 1 {
        let rest = Seq::<char>::empty();
        assert(line == first + seq!['\n'] + rest);
        lemma_word_len_before_separator(first, '\n', rest);
        assert(line.take(first.len() as int) == first);
        assert(line.skip(first.len() as int + 1) == rest);
        assert(tokens_of(line) == seq![first] + tokens_of(rest));
        assert(tokens_of(line) == tokens);
        assert forall|i: int| 0 <= i < line.len() - 1 implies line[i] != '\n' by {
            assert(line[i] == first[i]);
            assert(!is_separator(first[i]));
        }
        assert(line[0] == first[0]);
        assert(line[line.len() - 2] == first[first.len() - 1]);
    } else {
        let others = tokens.skip(1);
        let rest = line_of(others);
        assert forall|i: int| 0 <= i < others.len() implies is_word(#[trigger] others[i]) by {
            assert(others[i] == tokens[i + 1]);
        }
        line_separates_words(others);
        assert(line == first + seq![' '] + rest);
        lemma_word_len_before_separator(first, ' ', rest);
        assert(line.take(first.len() as int) == first);
        assert(line.skip(first.len() as int + 1) == rest);
        assert(tokens_of(line) == seq![first] + tokens_of(rest));
        assert(tokens_of(line) == tokens);
        assert forall|i: int| 0 <= i < line.len() - 1 implies line[i] != '\n' by {
            if i < first.len() {
                assert(line[i] == first[i]);
                assert(!is_separator(first[i]));
            } else if i == first.len() {
                assert(line[i] == ' ');
            } else {
                assert(line[i] == rest[i - first.len() - 1]);
            }
        }
        assert(line.last() == rest.last());
        assert(line[line.len() - 2] == rest[rest.len() - 2]);
        assert(line[0] == first[0]);
    }
}

} // verus!
