//! Positions in a text by line and column.

use crate::lexer::{lemma_run_end_bounds, run_end};
use crate::text::{digits_of, extend, from_chars, push_natural, slice, to_chars};
use vstd::prelude::*;

verus! {

/// A position in a text: the line and the column, both from 0, and the
/// index of the character.
#[derive(Debug, Clone, Copy, PartialEq, Eq, Structural, Default)]
pub struct Position {
    pub line: usize,
    pub col: usize,
    pub index: usize,
}

/// The position after the character `ch` of a text was passed at position `p`.
pub open spec fn advanced(p: Position, ch: char) -> Position {
    if ch == '\n' {
        Position { line: (p.line + 1) as usize, col: 0, index: (p.index + 1) as usize }
    } else {
        Position { line: p.line, col: (p.col + 1) as usize, index: (p.index + 1) as usize }
    }
}

/// The position after the first `n` characters of `text`, from the start.
pub open spec fn position_at(text: Seq<char>, n: nat) -> Position
    decreases n,
{
    if n == 0 {
        Position { line: 0, col: 0, index: 0 }
    } else {
        advanced(position_at(text, (n - 1) as nat), text[n - 1])
    }
}

/// The lines of `s` from index `i` on.  A line ends before a newline, or
/// before a carriage return and a newline, or at the end of the text; no
/// line follows a newline that ends the text.
pub open spec fn lines_from(s: Seq<char>, i: int) -> Seq<Seq<char>>
    decreases s.len() - i,
    when 0 <= i <= s.len()
{
    if i >= s.len() {
        seq![]
    } else {
        let end = run_end(s, i, |c: char| c != '\n');
        proof {
            lemma_run_end_bounds(s, i, |c: char| c != '\n');
        }
        if end >= s.len() {
            seq![s.subrange(i, end)]
        } else if i < end && s[end - 1] == '\r' {
            seq![s.subrange(i, end - 1)] + lines_from(s, end + 1)
        } else {
            seq![s.subrange(i, end)] + lines_from(s, end + 1)
        }
    }
}

/// The lines of a text.
pub open spec fn lines_of(s: Seq<char>) -> Seq<Seq<char>> {
    lines_from(s, 0)
}

/// A line with its number: the number of the line at index `i` is `i + 1`.
pub open spec fn numbered(i: int, line: Seq<char>) -> Seq<char> {
    digits_of((i + 1) as nat) + seq![' ', '|', ' '] + line
}

/// The lines at the indices `from..to`, with their numbers, one below the other.
pub open spec fn numbered_lines(lines: Seq<Seq<char>>, from: int, to: int) -> Seq<char>
    decreases to - from,
{
    if from >= to {
        seq![]
    } else if from + 1 == to {
        numbered(from, lines[from])
    } else {
        numbered_lines(lines, from, to - 1) + seq!['\n'] + numbered(to - 1, lines[to - 1])
    }
}

/// `n` times the character `c`.
pub open spec fn repeated(c: char, n: int) -> Seq<char> {
    Seq::new(
        if n >= 0 {
            n as nat
        } else {
            0
        },
        |i: int| c,
    )
}

/// The smaller of two numbers.
pub open spec fn least(a: int, b: int) -> int {
    if a <= b {
        a
    } else {
        b
    }
}

/// The lines of `source` from that of `a` to that of `b`, with their
/// numbers, and under them a line of carets from the column of `a` to that
/// of `b`, set off by the width of a one-digit line number.
pub open spec fn display_between(a: Position, b: Position, source: Seq<char>) -> Seq<char> {
    let lines = lines_of(source);
    numbered_lines(
        lines,
        least(a.line as int, lines.len() as int),
        least(b.line + 1, lines.len() as int),
    ) + seq!['\n'] + repeated(' ', a.col + 3) + repeated('^', b.col - a.col + 1)
}

/// The lines of a text: see [`lines_of`].
pub fn split_lines(text: &Vec<char>) -> (lines: Vec<Vec<char>>)
    ensures
        lines@.len() == lines_of(text@).len(),
        forall|k: int| 0 <= k < lines@.len() ==> (#[trigger] lines@[k])@ == lines_of(text@)[k],
{
    let mut lines: Vec<Vec<char>> = Vec::new();
    let ghost mut done: Seq<Seq<char>> = Seq::empty();
    let mut i: usize = 0;
    while i < text.len()
        invariant
            i <= text.len(),
            lines@.len() == done.len(),
            forall|k: int| 0 <= k < lines@.len() ==> (#[trigger] lines@[k])@ == done[k],
            lines_of(text@) == done + lines_from(text@, i as int),
        decreases text.len() - i,
    {
        let start = i;
        while i < text.len() && text[i] != '\n'
            invariant
                start <= i <= text.len(),
                run_end(text@, start as int, |c: char| c != '\n') == run_end(
                    text@,
                    i as int,
                    |c: char| c != '\n',
                ),
            decreases text.len() - i,
        {
            i += 1;
        }
        let ghost rest = lines_from(text@, start as int);
        if i >= text.len() {
            let line = slice(text, start, i);
            proof {
                done = done.push(line@);
                assert(rest =~= seq![line@]);
                assert(lines_from(text@, i as int) =~= Seq::empty());
            }
            lines.push(line);
        } else {
            let end = if start < i && text[i - 1] == '\r' {
                i - 1
            } else {
                i
            };
            let line = slice(text, start, end);
            i += 1;
            proof {
                assert(rest =~= seq![line@] + lines_from(text@, i as int));
                assert(done + rest =~= done.push(line@) + lines_from(text@, i as int));
                done = done.push(line@);
            }
            lines.push(line);
        }
    }
    proof {
        assert(lines_from(text@, i as int) =~= Seq::empty());
        assert(done + Seq::<Seq<char>>::empty() =~= done);
    }
    lines
}

/// Appends `n` times the character `c` to `out`.
fn push_repeated(out: &mut Vec<char>, c: char, n: usize)
    ensures
        final(out)@ == old(out)@ + repeated(c, n as int),
{
    let mut i: usize = 0;
    while i < n
        invariant
            i <= n,
            out@ == old(out)@ + repeated(c, i as int),
        decreases n - i,
    {
        out.push(c);
        i += 1;
        assert(out@ =~= old(out)@ + repeated(c, i as int));
    }
}

impl Position {
    /// The lines of `source` between this position and `other`, with a line
    /// of carets under them: see [`display_between`].
    pub fn get_lines_between_as_display(&self, other: &Position, source: &str) -> (r: String)
        requires
            self.line <= other.line,
            self.col <= other.col,
            other.col < usize::MAX - 3,
            other.line < usize::MAX,
        ensures
            r@ == display_between(*self, *other, source@),
    {
        let text = to_chars(source);
        let lines = split_lines(&text);
        let ghost views = lines_of(source@);
        let from = if self.line <= lines.len() {
            self.line
        } else {
            lines.len()
        };
        let to = if other.line + 1 <= lines.len() {
            other.line + 1
        } else {
            lines.len()
        };
        let mut out: Vec<char> = Vec::new();
        let mut i: usize = from;
        while i < to
            invariant
                from <= to <= lines.len(),
                from <= i <= to || (to < from && i == from),
                lines@.len() == views.len(),
                forall|k: int| 0 <= k < lines@.len() ==> (#[trigger] lines@[k])@ == views[k],
                out@ == numbered_lines(views, from as int, i as int),
            decreases to - i,
        {
            if i > from {
                out.push('\n');
            }
            push_natural(&mut out, (i as u64) + 1);
            out.push(' ');
            out.push('|');
            out.push(' ');
            extend(&mut out, &lines[i]);
            i += 1;
            assert(out@ =~= numbered_lines(views, from as int, i as int));
        }
        out.push('\n');
        push_repeated(&mut out, ' ', self.col + 3);
        push_repeated(&mut out, '^', other.col - self.col + 1);
        from_chars(&out)
    }

    /// Moves over the character `ch`: to the next column, or after a
    /// newline to the start of the next line.
    pub fn advance(&mut self, ch: char)
        requires
            old(self).index < usize::MAX,
            old(self).col < usize::MAX,
            old(self).line < usize::MAX,
        ensures
            *final(self) == advanced(*old(self), ch),
    {
        self.index += 1;
        self.col += 1;
        if ch == '\n' {
            self.line += 1;
            self.col = 0;
        }
    }

    /// The position of the character at index `n` of `text`.
    pub fn locate(text: &Vec<char>, n: usize) -> (p: Position)
        requires
            n <= text.len(),
        ensures
            p == position_at(text@, n as nat),
    {
        let mut p = Position { line: 0, col: 0, index: 0 };
        let mut i: usize = 0;
        while i < n
            invariant
                i <= n <= text.len(),
                p == position_at(text@, i as nat),
                p.index == i,
                p.col <= i,
                p.line <= i,
            decreases n - i,
        {
            p.advance(text[i]);
            i += 1;
        }
        p
    }
}

} // verus!
