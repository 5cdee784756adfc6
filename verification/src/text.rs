//! Lines of text: splitting a text at its newlines, and building a line from
//! pieces of others. Columns count characters, never bytes.

use vstd::prelude::*;
use vstd::string::StrSliceExecFns;
use vstd::string::StringExecFns;

verus! {

/// The character sequences that a run of strings holds, in order.
pub open spec fn texts(strings: Seq<String>) -> Seq<Seq<char>> {
    Seq::new(strings.len(), |i: int| strings[i]@)
}

/// How many characters `s` has before its first newline: all of them, if it
/// has none.
pub open spec fn first_line_len(s: Seq<char>) -> int
    decreases s.len(),
{
    if s.len() == 0 || s[0] == '\n' {
        0
    } else {
        1 + first_line_len(s.drop_first())
    }
}

/// The pieces of `s` between its newlines, in order: what stands before the
/// first newline, then the pieces of what follows it. A text with `n`
/// newlines has `n + 1` pieces; a piece is empty where two newlines meet and
/// where the text begins or ends with one.
pub open spec fn split_lines(s: Seq<char>) -> Seq<Seq<char>>
    decreases s.len(),
{
    let n = first_line_len(s);
    if 0 <= n < s.len() {
        seq![s.take(n)] + split_lines(s.skip(n + 1))
    } else {
        seq![s]
    }
}

/// The pieces put back together with one newline between neighbours.
pub open spec fn join_lines(parts: Seq<Seq<char>>) -> Seq<char>
    decreases parts.len(),
{
    if parts.len() == 0 {
        Seq::<char>::empty()
    } else if parts.len() == 1 {
        parts[0]
    } else {
        parts[0].push('\n') + join_lines(parts.drop_first())
    }
}

/// `line` with `text` put in before column `col`.
pub open spec fn spliced(line: Seq<char>, col: int, text: Seq<char>) -> Seq<char> {
    line.take(col) + text + line.skip(col)
}

/// `line` without the columns from `from` up to, not including, `to`.
pub open spec fn without(line: Seq<char>, from: int, to: int) -> Seq<char> {
    line.take(from) + line.skip(to)
}

/// The pieces of a text that has one more character at its end: a newline
/// opens a new, empty piece, and any other character joins the last piece.
pub open spec fn pieces_with(pieces: Seq<Seq<char>>, c: char) -> Seq<Seq<char>> {
    if c == '\n' {
        pieces.push(Seq::<char>::empty())
    } else {
        pieces.update(pieces.len() - 1, pieces.last().push(c))
    }
}

/// The first line ends at the first newline: no character before it is a
/// newline, and the one behind it, if there is one, is.
pub proof fn lemma_first_line(s: Seq<char>)
    ensures
        0 <= first_line_len(s) <= s.len(),
        forall|i: int| 0 <= i < first_line_len(s) ==> s[i] != '\n',
        first_line_len(s) < s.len() ==> s[first_line_len(s)] == '\n',
    decreases s.len(),
{
    if s.len() != 0 && s[0] != '\n' {
        let rest = s.drop_first();
        lemma_first_line(rest);
        assert forall|i: int| 0 <= i < first_line_len(s) implies s[i] != '\n' by {
            if i > 0 {
                assert(s[i] == rest[i - 1]);
            }
        }
        if first_line_len(s) < s.len() {
            assert(s[first_line_len(s)] == rest[first_line_len(rest)]);
        }
    }
}

/// Splitting never yields nothing: even the empty text is one empty piece.
pub proof fn lemma_split_nonempty(s: Seq<char>)
    ensures
        split_lines(s).len() >= 1,
{
}

/// A text without a newline is its own single piece, and only such a text
/// splits into one piece.
pub proof fn lemma_split_single(s: Seq<char>)
    ensures
        !s.contains('\n') <==> split_lines(s).len() == 1,
        !s.contains('\n') ==> split_lines(s) == seq![s],
{
    lemma_first_line(s);
    let n = first_line_len(s);
    if n < s.len() {
        assert(s[n] == '\n');
        lemma_split_nonempty(s.skip(n + 1));
    } else if s.contains('\n') {
        let i = choose|i: int| 0 <= i < s.len() && s[i] == '\n';
        assert(s[i] != '\n');
    }
}

/// One more character at the end of a text changes its pieces at their end
/// only.
pub proof fn lemma_split_push(s: Seq<char>, c: char)
    ensures
        split_lines(s.push(c)) == pieces_with(split_lines(s), c),
    decreases s.len(),
{
    let longer = s.push(c);
    let n = first_line_len(s);
    lemma_first_line(s);
    lemma_first_line(longer);
    let m = first_line_len(longer);
    if n < s.len() {
        assert(longer[n] == s[n]);
        assert forall|i: int| 0 <= i < n implies longer[i] != '\n' by {
            assert(longer[i] == s[i]);
        }
        if m < n {
            assert(longer[m] == s[m]);
        }
        assert(m == n);
        let rest = s.skip(n + 1);
        lemma_split_push(rest, c);
        lemma_split_nonempty(rest);
        assert(longer.skip(n + 1) =~= rest.push(c));
        assert(longer.take(n) =~= s.take(n));
        assert(split_lines(longer) =~= pieces_with(split_lines(s), c));
    } else {
        assert forall|i: int| 0 <= i < s.len() implies longer[i] != '\n' by {
            assert(longer[i] == s[i]);
        }
        assert(longer[s.len() as int] == c);
        if c == '\n' {
            if m < s.len() {
                assert(longer[m] == s[m]);
            }
            assert(m == s.len());
            let nothing = Seq::<char>::empty();
            assert(longer.take(m) =~= s);
            assert(longer.skip(m + 1) =~= nothing);
            assert(split_lines(nothing) =~= seq![nothing]);
            assert(split_lines(s) =~= seq![s]);
            assert(split_lines(longer) =~= seq![s] + seq![nothing]);
            assert(split_lines(longer) =~= pieces_with(split_lines(s), c));
        } else {
            if m < longer.len() {
                assert(longer[m] == '\n');
            }
            assert(m == longer.len());
            assert(split_lines(longer) =~= pieces_with(split_lines(s), c));
        }
    }
}

/// Splitting loses nothing and leaves no newline behind: the pieces joined by
/// newlines are the text again, and no piece holds a newline.
pub proof fn split_loses_nothing(s: Seq<char>)
    ensures
        join_lines(split_lines(s)) == s,
        forall|k: int| 0 <= k < split_lines(s).len() ==> !(#[trigger] split_lines(s)[k]).contains('\n'),
    decreases s.len(),
{
    lemma_first_line(s);
    let n = first_line_len(s);
    if n < s.len() {
        let head = s.take(n);
        let rest = s.skip(n + 1);
        let pieces = split_lines(s);
        split_loses_nothing(rest);
        lemma_split_nonempty(rest);
        assert(pieces.drop_first() =~= split_lines(rest));
        assert(pieces[0] == head);
        assert(head.push('\n') + rest =~= s);
        assert forall|k: int| 0 <= k < pieces.len() implies !(#[trigger] pieces[k]).contains('\n') by {
            if k == 0 {
                if head.contains('\n') {
                    let i = choose|i: int| 0 <= i < head.len() && head[i] == '\n';
                    assert(s[i] == '\n');
                }
            } else {
                assert(pieces[k] == split_lines(rest)[k - 1]);
            }
        }
    } else {
        if s.contains('\n') {
            let i = choose|i: int| 0 <= i < s.len() && s[i] == '\n';
            assert(s[i] != '\n');
        }
    }
}

/// Appends one character to a string. This is `String::push` of the standard
/// library, taken on trust: the string afterwards is the string before with
/// `c` at its end.
#[verifier::external_body]
pub(crate) fn push_char(s: &mut String, c: char)
    ensures
        final(s)@ == old(s)@.push(c),
{
    s.push(c)
}

/// Splits `text` at its newlines.
pub fn split(text: &str) -> (parts: Vec<String>)
    ensures
        texts(parts@) == split_lines(text@),
        parts@.len() >= 1,
{
    broadcast use vstd::string::axiom_spec_iter;

    let mut parts: Vec<String> = Vec::new();
    let mut current = String::new();
    let chars = text.chars();
    assert(texts(parts@) =~= Seq::<Seq<char>>::empty());
    assert(text@.take(0) =~= Seq::<char>::empty());
    for c in it: chars
        invariant
            it.seq() == text@,
            texts(parts@).push(current@) == split_lines(text@.take(it.index())),
    {
        let ghost seen = it.index();
        let ghost done = texts(parts@);
        let ghost partial = current@;
        proof {
            lemma_split_push(text@.take(seen), c);
            assert(text@.take(seen + 1) =~= text@.take(seen).push(c));
        }
        if c == '\n' {
            parts.push(current);
            current = String::new();
            assert(texts(parts@) =~= done.push(partial));
        } else {
            push_char(&mut current, c);
            assert(texts(parts@).push(current@) =~= done.push(partial).update(
                done.len() as int,
                current@,
            ));
        }
    }
    assert(text@.take(text@.len() as int) =~= text@);
    let ghost done = texts(parts@);
    parts.push(current);
    assert(texts(parts@) =~= done.push(current@));
    parts
}

/// The number of characters in `line`.
pub fn char_len(line: &str) -> (n: usize)
    ensures
        n == line@.len(),
{
    line.unicode_len()
}

/// Builds `line` with `text` put in before column `col`, and tells the column
/// just behind what was put in.
pub(crate) fn splice(line: &str, col: usize, text: &str) -> (out: (String, usize))
    requires
        col <= line@.len(),
    ensures
        out.0@ == spliced(line@, col as int, text@),
        out.1 == col + text@.len(),
{
    let n = line.unicode_len();
    let mut grown = String::from_str(line.substring_char(0, col));
    grown.append(text);
    let end = grown.as_str().unicode_len();
    grown.append(line.substring_char(col, n));
    assert(grown@ =~= spliced(line@, col as int, text@));
    (grown, end)
}

/// Builds `line` without the columns from `from` up to, not including, `to`.
pub(crate) fn cut(line: &str, from: usize, to: usize) -> (out: String)
    requires
        from <= to <= line@.len(),
    ensures
        out@ == without(line@, from as int, to as int),
{
    let n = line.unicode_len();
    let mut out = String::from_str(line.substring_char(0, from));
    out.append(line.substring_char(to, n));
    assert(out@ =~= without(line@, from as int, to as int));
    out
}

/// Builds the first `col` columns of `head` followed by what `tail` holds
/// from column `from` on.
pub(crate) fn weld(head: &str, col: usize, tail: &str, from: usize) -> (out: String)
    requires
        col <= head@.len(),
        from <= tail@.len(),
    ensures
        out@ == head@.take(col as int) + tail@.skip(from as int),
{
    let n = tail.unicode_len();
    let mut out = String::from_str(head.substring_char(0, col));
    out.append(tail.substring_char(from, n));
    assert(out@ =~= head@.take(col as int) + tail@.skip(from as int));
    out
}

} // verus!
