//! Reading the trace endpoint's answer.
//!
//! The endpoint answers with `key=value` lines. The tunnel carries traffic
//! when one of them is exactly `warp=on` or `warp=plus`.

use vstd::prelude::*;

verus! {

/// The status that a trace answer reports for a working tunnel.
#[derive(Clone, Copy, Debug, PartialEq, Eq, Structural)]
pub enum WarpStatus {
    /// The line `warp=on`.
    On,
    /// The line `warp=plus`.
    Plus,
}

/// Index of the first line feed of `s`, or `s.len()` where it has none.
pub open spec fn line_end(s: Seq<char>) -> int
    decreases s.len(),
{
    if s.len() == 0 || s[0] == '\n' {
        0
    } else {
        1 + line_end(s.drop_first())
    }
}

/// `line` without one trailing carriage return.
pub open spec fn strip_cr(line: Seq<char>) -> Seq<char> {
    if line.len() > 0 && line.last() == '\r' {
        line.drop_last()
    } else {
        line
    }
}

/// The lines of `s`.
///
/// A line ends at a line feed, or at a carriage return directly followed by a
/// line feed; neither belongs to the line. The last line needs no line ending,
/// and a text that ends with one has no empty line after it. A carriage return
/// anywhere else is an ordinary character.
pub open spec fn lines(s: Seq<char>) -> Seq<Seq<char>>
    decreases s.len(),
{
    let n = line_end(s);
    if s.len() == 0 {
        Seq::empty()
    } else if n >= s.len() {
        seq![s]
    } else {
        proof {
            lemma_line_end(s);
        }
        seq![strip_cr(s.take(n))] + lines(s.skip(n + 1))
    }
}

/// The status that `line` reports: the line has to match in full, letter for
/// letter.
pub open spec fn status_of(line: Seq<char>) -> Option<WarpStatus> {
    if line == "warp=plus"@ {
        Some(WarpStatus::Plus)
    } else if line == "warp=on"@ {
        Some(WarpStatus::On)
    } else {
        None
    }
}

/// The status of the first of `ls` that reports one.
pub open spec fn first_status(ls: Seq<Seq<char>>) -> Option<WarpStatus>
    decreases ls.len(),
{
    if ls.len() == 0 {
        None
    } else if status_of(ls[0]) is Some {
        status_of(ls[0])
    } else {
        first_status(ls.drop_first())
    }
}

/// The status reported by the first status line of `body`, if it has one.
pub open spec fn status_line(body: Seq<char>) -> Option<WarpStatus> {
    first_status(lines(body))
}

/// `line_end` points at the first line feed.
pub proof fn lemma_line_end(s: Seq<char>)
    ensures
        0 <= line_end(s) <= s.len(),
        forall|k: int| 0 <= k < line_end(s) ==> s[k] != '\n',
        line_end(s) < s.len() ==> s[line_end(s)] == '\n',
    decreases s.len(),
{
    if s.len() != 0 && s[0] != '\n' {
        let t = s.drop_first();
        lemma_line_end(t);
        assert forall|k: int| 0 <= k < line_end(s) implies s[k] != '\n' by {
            if k > 0 {
                assert(s[k] == t[k - 1]);
            }
        }
    }
}

/// A position `n` with a line feed, or the end of `s`, and no line feed before
/// it is `line_end(s)`.
proof fn lemma_line_end_is(s: Seq<char>, n: int)
    requires
        0 <= n <= s.len(),
        forall|k: int| 0 <= k < n ==> s[k] != '\n',
        n < s.len() ==> s[n] == '\n',
    ensures
        line_end(s) == n,
{
    lemma_line_end(s);
}

/// The lines of a text are its first line, up to the first line feed, and
/// the lines of what follows that line feed; a text without a line feed is
/// one line, unless it is empty.
pub proof fn lemma_lines_of_first_and_rest(first: Seq<char>, rest: Seq<char>)
    requires
        !first.contains('\n'),
    ensures
        lines(first + seq!['\n'] + rest) == seq![strip_cr(first)] + lines(rest),
        first.len() > 0 ==> lines(first) == seq![first],
        lines(Seq::<char>::empty()) == Seq::<Seq<char>>::empty(),
{
    let text = first + seq!['\n'] + rest;
    assert forall|k: int| 0 <= k < first.len() implies text[k] != '\n' by {
        assert(first.contains(text[k]));
    }
    lemma_line_end_is(text, first.len() as int);
    assert(text.take(first.len() as int) =~= first);
    assert(text.skip(first.len() as int + 1) =~= rest);
    if first.len() > 0 {
        assert forall|k: int| 0 <= k < first.len() implies first[k] != '\n' by {
            assert(first.contains(first[k]));
        }
        lemma_line_end_is(first, first.len() as int);
    }
}

/// Whether a line begins right after `before`: at the start of the text, or
/// behind a line feed.
pub open spec fn ends_a_line(before: Seq<char>) -> bool {
    before.len() == 0 || before.last() == '\n'
}

/// Whether a line ends right before `after`: at the end of the text, before
/// a line feed, or before a carriage return that a line feed follows.
pub open spec fn begins_a_break(after: Seq<char>) -> bool {
    ||| after.len() == 0
    ||| after[0] == '\n'
    ||| after.len() >= 2 && after[0] == '\r' && after[1] == '\n'
}

/// A word that stands between two line breaks, or between a line break and
/// an end of the text, is one of the lines of the text.
pub proof fn lemma_line_between_breaks(before: Seq<char>, word: Seq<char>, after: Seq<char>)
    requires
        ends_a_line(before),
        begins_a_break(after),
        word.len() > 0,
        !word.contains('\n'),
        word.last() != '\r',
    ensures
        lines(before + word + after).contains(word),
    decreases before.len(),
{
    let text = before + word + after;
    assert forall|k: int| 0 <= k < word.len() implies word[k] != '\n' by {
        assert(word.contains(word[k]));
    }
    if before.len() == 0 {
        assert(text =~= word + after);
        if after.len() == 0 {
            assert(text =~= word);
            lemma_lines_of_first_and_rest(word, Seq::empty());
            assert(lines(text)[0] == word);
        } else if after[0] == '\n' {
            let rest = after.skip(1);
            assert(text =~= word + seq!['\n'] + rest);
            lemma_lines_of_first_and_rest(word, rest);
            assert(lines(text)[0] == word);
        } else {
            let first = word.push('\r');
            let rest = after.skip(2);
            assert(text =~= first + seq!['\n'] + rest);
            assert forall|k: int| 0 <= k < first.len() implies first[k] != '\n' by {}
            assert(!first.contains('\n'));
            lemma_lines_of_first_and_rest(first, rest);
            assert(strip_cr(first) =~= word);
            assert(lines(text)[0] == word);
        }
    } else {
        lemma_line_end(before);
        let n = line_end(before);
        assert(n < before.len()) by {
            if n >= before.len() {
                assert(before[before.len() - 1] != '\n');
            }
        }
        let first = before.take(n);
        let left = before.skip(n + 1);
        assert forall|k: int| 0 <= k < first.len() implies first[k] != '\n' by {}
        assert(!first.contains('\n'));
        assert(text =~= first + seq!['\n'] + (left + word + after));
        lemma_lines_of_first_and_rest(first, left + word + after);
        assert(ends_a_line(left)) by {
            if left.len() > 0 {
                assert(left.last() == before.last());
            }
        }
        lemma_line_between_breaks(left, word, after);
        let tail = lines(left + word + after);
        let i = choose|i: int| 0 <= i < tail.len() && tail[i] == word;
        assert(lines(text)[i + 1] == word);
    }
}

/// The first status found among `ls` is that of some line, and no line before
/// it reports one; none is found only where no line reports one.
pub proof fn lemma_first_status(ls: Seq<Seq<char>>)
    ensures
        first_status(ls) is Some <==> exists|i: int|
            0 <= i < ls.len() && (#[trigger] status_of(ls[i])) is Some,
        first_status(ls) is Some ==> exists|i: int|
            0 <= i < ls.len() && #[trigger] status_of(ls[i]) == first_status(ls) && forall|j: int|
                0 <= j < i ==> (#[trigger] status_of(ls[j])) is None,
    decreases ls.len(),
{
    if ls.len() > 0 {
        let rest = ls.drop_first();
        lemma_first_status(rest);
        if status_of(ls[0]) is Some {
            assert(status_of(ls[0]) == first_status(ls));
        } else {
            if first_status(rest) is Some {
                let i = choose|i: int|
                    0 <= i < rest.len() && #[trigger] status_of(rest[i]) == first_status(rest)
                        && forall|j: int| 0 <= j < i ==> (#[trigger] status_of(rest[j])) is None;
                assert(rest[i] == ls[i + 1]);
                assert(status_of(ls[i + 1]) == first_status(ls));
                assert forall|j: int| 0 <= j < i + 1 implies (#[trigger] status_of(
                    ls[j],
                )) is None by {
                    if j > 0 {
                        assert(rest[j - 1] == ls[j]);
                    }
                }
            }
            if exists|i: int| 0 <= i < ls.len() && (#[trigger] status_of(ls[i])) is Some {
                let i = choose|i: int| 0 <= i < ls.len() && (#[trigger] status_of(ls[i])) is Some;
                assert(rest[i - 1] == ls[i]);
                assert(status_of(rest[i - 1]) is Some);
            }
        }
    }
}

/// The characters of `text`, in order.
fn chars_of(text: &str) -> (out: Vec<char>)
    ensures
        out@ == text@,
{
    let mut out: Vec<char> = Vec::new();
    for c in it: text.chars()
        invariant
            out@ == it.seq().take(it.index() as int),
            it.seq() == text@,
    {
        out.push(c);
    }
    out
}

/// Position of the first line feed of `text` at or after `start`, or
/// `text.len()`.
fn next_line_feed(text: &Vec<char>, start: usize) -> (end: usize)
    requires
        start <= text.len(),
    ensures
        start <= end <= text.len(),
        end - start == line_end(text@.skip(start as int)),
{
    let mut end: usize = start;
    while end < text.len() && text[end] != '\n'
        invariant
            start <= end <= text.len(),
            forall|k: int| start <= k < end ==> text@[k] != '\n',
        decreases text.len() - end,
    {
        end += 1;
    }
    proof {
        lemma_line_end_is(text@.skip(start as int), end - start);
    }
    end
}

/// Whether `text[start..stop]` is `word`.
fn equals_at(text: &Vec<char>, start: usize, stop: usize, word: &Vec<char>) -> (same: bool)
    requires
        start <= stop <= text.len(),
    ensures
        same == (text@.subrange(start as int, stop as int) == word@),
{
    if stop - start != word.len() {
        return false;
    }
    let ghost part = text@.subrange(start as int, stop as int);
    let mut i: usize = 0;
    while i < word.len()
        invariant
            start <= stop <= text.len(),
            stop - start == word.len(),
            i <= word.len(),
            part == text@.subrange(start as int, stop as int),
            forall|k: int| 0 <= k < i ==> part[k] == word@[k],
        decreases word.len() - i,
    {
        if text[start + i] != word[i] {
            assert(part[i as int] != word@[i as int]);
            return false;
        }
        i += 1;
    }
    assert(part =~= word@);
    true
}

/// Looks for the first line of `body` that is exactly `warp=on` or
/// `warp=plus` and tells which of the two it is.
pub fn find_status_line(body: &str) -> (found: Option<WarpStatus>)
    ensures
        found == status_line(body@),
{
    let text = chars_of(body);
    let on = chars_of("warp=on");
    let plus = chars_of("warp=plus");
    let n = text.len();
    let mut start: usize = 0;
    assert(text@.skip(0) =~= text@);
    while start < n
        invariant
            start <= n,
            n == text.len(),
            text@ == body@,
            on@ == "warp=on"@,
            plus@ == "warp=plus"@,
            status_line(body@) == status_line(text@.skip(start as int)),
        decreases n - start,
    {
        let ghost rest = text@.skip(start as int);
        let end = next_line_feed(&text, start);
        let stop = if end < n && start < end && text[end - 1] == '\r' {
            end - 1
        } else {
            end
        };
        let ghost line = text@.subrange(start as int, stop as int);
        let ghost tail = if end < n {
            lines(text@.skip(end + 1))
        } else {
            Seq::empty()
        };
        proof {
            if end < n {
                assert(rest.take(end - start) =~= text@.subrange(start as int, end as int));
                assert(rest.skip(end - start + 1) =~= text@.skip(end + 1));
                assert(strip_cr(text@.subrange(start as int, end as int)) =~= line);
            } else {
                assert(rest =~= line);
            }
            assert(lines(rest) == seq![line] + tail);
            assert((seq![line] + tail).drop_first() =~= tail);
            assert(status_line(rest) == if status_of(line) is Some {
                status_of(line)
            } else {
                first_status(tail)
            });
        }
        let status = if equals_at(&text, start, stop, &plus) {
            Some(WarpStatus::Plus)
        } else if equals_at(&text, start, stop, &on) {
            Some(WarpStatus::On)
        } else {
            None
        };
        assert(status == status_of(line));
        if status.is_some() {
            return status;
        }
        if end == n {
            return None;
        }
        start = end + 1;
    }
    None
}

} // verus!
