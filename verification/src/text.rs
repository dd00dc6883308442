//! Text as sequences of characters.

use vstd::prelude::*;

verus! {

/// `String::push` appends one character to the end of the string.
pub assume_specification[ String::push ](text: &mut String, ch: char)
    ensures
        final(text)@ == old(text)@.push(ch),
;

/// The characters of `text`, in order.
pub fn chars_of(text: &str) -> (chars: Vec<char>)
    ensures
        chars@ == text@,
{
    let mut chars: Vec<char> = Vec::new();
    for ch in iter: text.chars()
        invariant
            iter.seq() == text@,
            chars@ == text@.take(iter.index() as int),
    {
        chars.push(ch);
    }
    assert(text@.take(text@.len() as int) == text@);
    chars
}

/// The string that holds exactly these characters.
pub fn string_of(chars: &Vec<char>) -> (text: String)
    ensures
        text@ == chars@,
{
    let mut text = String::new();
    for i in 0..chars.len()
        invariant
            text@ == chars@.take(i as int),
    {
        text.push(chars[i]);
    }
    assert(chars@.take(chars@.len() as int) == chars@);
    text
}

/// Where `ch` first occurs in `text`, or the length of `text` if it does not.
pub open spec fn find_spec(text: Seq<char>, ch: char) -> nat
    decreases text.len(),
{
    if text.len() == 0 || text[0] == ch {
        0
    } else {
        1 + find_spec(text.drop_first(), ch)
    }
}

/// `find_spec` is the only index with no `ch` before it that is either the end
/// of the text or the place of a `ch`.
pub proof fn find_is_first(text: Seq<char>, ch: char, at: int)
    requires
        0 <= at <= text.len(),
        forall|i: int| 0 <= i < at ==> text[i] != ch,
        at < text.len() ==> text[at] == ch,
    ensures
        find_spec(text, ch) == at,
    decreases text.len(),
{
    if at > 0 {
        find_is_first(text.drop_first(), ch, at - 1);
    }
}

/// Finds the first `ch` at or behind `from`; the length of `text` if there is
/// none.
fn find_from(text: &Vec<char>, ch: char, from: usize) -> (at: usize)
    requires
        from <= text@.len(),
    ensures
        from <= at <= text@.len(),
        at == from + find_spec(text@.skip(from as int), ch),
        at < text@.len() ==> text@[at as int] == ch,
{
    let mut at: usize = from;
    while at < text.len() && text[at] != ch
        invariant
            from <= at <= text@.len(),
            forall|i: int| from <= i < at ==> text@[i] != ch,
        decreases text@.len() - at,
    {
        at = at + 1;
    }
    proof {
        find_is_first(text@.skip(from as int), ch, at - from);
    }
    at
}

/// The characters of `text` from `from` up to `to`.
fn copy_range(text: &Vec<char>, from: usize, to: usize) -> (part: Vec<char>)
    requires
        from <= to <= text@.len(),
    ensures
        part@ == text@.subrange(from as int, to as int),
{
    let mut part: Vec<char> = Vec::new();
    for i in from..to
        invariant
            to <= text@.len(),
            from <= i,
            part@ == text@.subrange(from as int, i as int),
    {
        part.push(text[i]);
    }
    part
}

/// `line` without the carriage return that it may end in.
pub open spec fn without_carriage_return(line: Seq<char>) -> Seq<char> {
    if line.len() > 0 && line.last() == '\r' {
        line.drop_last()
    } else {
        line
    }
}

/// The lines of `text`. A line ends in a line feed, with or without a carriage
/// return before it; behind the last line feed a line may stand without one.
pub open spec fn lines_spec(text: Seq<char>) -> Seq<Seq<char>>
    decreases text.len(),
{
    let end = find_spec(text, '\n') as int;
    if text.len() == 0 {
        seq![]
    } else if end >= text.len() {
        seq![text]
    } else {
        seq![without_carriage_return(text.take(end))] + lines_spec(text.skip(end + 1))
    }
}

/// What a list of character vectors stands for.
pub open spec fn views(lines: Seq<Vec<char>>) -> Seq<Seq<char>> {
    lines.map_values(|line: Vec<char>| line@)
}

/// Splits `text` into its lines.
pub fn lines(text: &Vec<char>) -> (lines: Vec<Vec<char>>)
    ensures
        views(lines@) == lines_spec(text@),
{
    let mut lines: Vec<Vec<char>> = Vec::new();
    let mut start: usize = 0;
    assert(text@.skip(0) == text@);
    assert(views(lines@) + lines_spec(text@) == lines_spec(text@));
    while start < text.len()
        invariant
            start <= text@.len(),
            views(lines@) + lines_spec(text@.skip(start as int)) == lines_spec(text@),
        decreases text@.len() - start,
    {
        let ghost rest = text@.skip(start as int);
        let ghost done = views(lines@);
        let end = find_from(text, '\n', start);
        if end == text.len() {
            let line = copy_range(text, start, end);
            proof {
                assert(line@ == rest);
                assert(views(lines@.push(line)) == done.push(rest));
                assert(lines_spec(rest) == seq![rest]);
                assert(done.push(rest) == done + seq![rest]);
                assert(text@.skip(text@.len() as int).len() == 0);
                assert(done.push(rest) + lines_spec(text@.skip(text@.len() as int)) == done.push(
                    rest,
                ));
            }
            lines.push(line);
            start = text.len();
        } else {
            let stop: usize = if end > start && text[end - 1] == '\r' {
                end - 1
            } else {
                end
            };
            let line = copy_range(text, start, stop);
            proof {
                let head = rest.take(end - start);
                assert(head.len() > 0 ==> head.last() == text@[end - 1]);
                assert(line@ == without_carriage_return(head));
                assert(rest.skip(end - start + 1) == text@.skip(end + 1));
                assert(lines_spec(rest) == seq![line@] + lines_spec(text@.skip(end + 1)));
                assert(views(lines@.push(line)) == done.push(line@));
                assert(done.push(line@) + lines_spec(text@.skip(end + 1)) == done + (seq![line@]
                    + lines_spec(text@.skip(end + 1))));
            }
            lines.push(line);
            start = end + 1;
        }
    }
    proof {
        assert(text@.skip(start as int).len() == 0);
        assert(views(lines@) + lines_spec(text@.skip(start as int)) == views(lines@));
    }
    lines
}

/// What stands before and behind the first `ch` of `text`.
pub open spec fn split_once_spec(text: Seq<char>, ch: char) -> Option<(Seq<char>, Seq<char>)> {
    let at = find_spec(text, ch) as int;
    if at < text.len() {
        Some((text.take(at), text.skip(at + 1)))
    } else {
        None
    }
}

/// Splits `text` at its first `ch`.
pub fn split_once(text: &Vec<char>, ch: char) -> (parts: Option<(Vec<char>, Vec<char>)>)
    ensures
        match parts {
            Some((before, behind)) => split_once_spec(text@, ch) == Some((before@, behind@)),
            None => split_once_spec(text@, ch) is None,
        },
{
    let at = find_from(text, ch, 0);
    assert(text@.skip(0) == text@);
    if at < text.len() {
        let before = copy_range(text, 0, at);
        let behind = copy_range(text, at + 1, text.len());
        assert(before@ == text@.take(at as int));
        assert(behind@ == text@.skip(at + 1));
        Some((before, behind))
    } else {
        None
    }
}

/// `text` without the `ch` that it starts with.
pub open spec fn trim_start_spec(text: Seq<char>, ch: char) -> Seq<char>
    decreases text.len(),
{
    if text.len() > 0 && text[0] == ch {
        trim_start_spec(text.drop_first(), ch)
    } else {
        text
    }
}

/// `text` without the `ch` that it ends in.
pub open spec fn trim_end_spec(text: Seq<char>, ch: char) -> Seq<char>
    decreases text.len(),
{
    if text.len() > 0 && text.last() == ch {
        trim_end_spec(text.drop_last(), ch)
    } else {
        text
    }
}

/// `text` without the `ch` at either end.
pub open spec fn trim_matches_spec(text: Seq<char>, ch: char) -> Seq<char> {
    trim_end_spec(trim_start_spec(text, ch), ch)
}

/// Takes every `ch` off both ends of `text`.
pub fn trim_matches(text: &Vec<char>, ch: char) -> (trimmed: Vec<char>)
    ensures
        trimmed@ == trim_matches_spec(text@, ch),
{
    let mut start: usize = 0;
    assert(text@.skip(0) == text@);
    while start < text.len() && text[start] == ch
        invariant
            start <= text@.len(),
            trim_start_spec(text@.skip(start as int), ch) == trim_start_spec(text@, ch),
        decreases text@.len() - start,
    {
        assert(text@.skip(start as int).drop_first() == text@.skip(start + 1));
        start = start + 1;
    }
    let ghost kept = text@.skip(start as int);
    assert(kept == trim_start_spec(text@, ch));
    let mut end: usize = text.len();
    assert(text@.subrange(start as int, end as int) == kept);
    while end > start && text[end - 1] == ch
        invariant
            start <= end <= text@.len(),
            trim_end_spec(text@.subrange(start as int, end as int), ch) == trim_end_spec(kept, ch),
        decreases end,
    {
        assert(text@.subrange(start as int, end as int).drop_last() == text@.subrange(
            start as int,
            end - 1,
        ));
        end = end - 1;
    }
    copy_range(text, start, end)
}

/// A text is split at its first `ch`, whatever stands before and behind it.
pub proof fn split_is_at_first(before: Seq<char>, ch: char, behind: Seq<char>)
    requires
        !before.contains(ch),
    ensures
        split_once_spec(before + seq![ch] + behind, ch) == Some((before, behind)),
{
    let text = before + seq![ch] + behind;
    let at = before.len() as int;
    assert forall|i: int| 0 <= i < at implies text[i] != ch by {
        assert(before.contains(before[i]));
    }
    find_is_first(text, ch, at);
    assert(text.take(at) == before);
    assert(text.skip(at + 1) == behind);
}

/// A text without `ch` is not split.
pub proof fn text_without_separator_is_not_split(text: Seq<char>, ch: char)
    requires
        !text.contains(ch),
    ensures
        split_once_spec(text, ch) is None,
{
    assert forall|i: int| 0 <= i < text.len() implies text[i] != ch by {
        assert(text.contains(text[i]));
    }
    find_is_first(text, ch, text.len() as int);
}

/// `count` times the same character.
pub open spec fn run_of(ch: char, count: nat) -> Seq<char> {
    Seq::new(count, |i: int| ch)
}

/// Trimming takes off every `ch` at both ends, however many there are, and leaves
/// everything between them.
pub proof fn trimming_leaves_core(front: nat, core: Seq<char>, back: nat, ch: char)
    requires
        core.len() > 0 ==> core[0] != ch && core.last() != ch,
    ensures
        trim_matches_spec(run_of(ch, front) + core + run_of(ch, back), ch) == core,
{
    lemma_trim_front(front, core + run_of(ch, back), ch);
    assert(run_of(ch, front) + (core + run_of(ch, back)) == run_of(ch, front) + core + run_of(
        ch,
        back,
    ));
    if core.len() > 0 {
        assert((core + run_of(ch, back))[0] == core[0]);
        lemma_trim_back(core, back, ch);
    } else {
        lemma_trim_front(back, seq![], ch);
        assert(run_of(ch, back) + Seq::<char>::empty() == run_of(ch, back));
        assert(core + run_of(ch, back) == run_of(ch, back));
        assert(core == Seq::<char>::empty());
    }
}

proof fn lemma_trim_front(front: nat, rest: Seq<char>, ch: char)
    ensures
        trim_start_spec(run_of(ch, front) + rest, ch) == trim_start_spec(rest, ch),
    decreases front,
{
    let text = run_of(ch, front) + rest;
    if front > 0 {
        let fewer = (front - 1) as nat;
        assert(text.drop_first() == run_of(ch, fewer) + rest);
        assert(text[0] == ch);
        lemma_trim_front(fewer, rest, ch);
    } else {
        assert(text == rest);
    }
}

proof fn lemma_trim_back(core: Seq<char>, back: nat, ch: char)
    requires
        core.len() > 0,
        core.last() != ch,
    ensures
        trim_end_spec(core + run_of(ch, back), ch) == core,
    decreases back,
{
    let text = core + run_of(ch, back);
    if back > 0 {
        let fewer = (back - 1) as nat;
        assert(text.drop_last() == core + run_of(ch, fewer));
        assert(text.last() == ch);
        lemma_trim_back(core, fewer, ch);
    } else {
        assert(text == core);
    }
}

/// A line ends at its line feed. What follows is split on its own.
pub proof fn line_ends_at_line_feed(line: Seq<char>, rest: Seq<char>)
    requires
        !line.contains('\n'),
        line.len() > 0 ==> line.last() != '\r',
    ensures
        lines_spec(line + seq!['\n'] + rest) == seq![line] + lines_spec(rest),
{
    lemma_first_line(line, rest);
}

/// A carriage return before the line feed belongs to the end of the line, but no
/// other one does.
pub proof fn line_ends_at_carriage_return(line: Seq<char>, rest: Seq<char>)
    requires
        !line.contains('\n'),
    ensures
        lines_spec(line + seq!['\r', '\n'] + rest) == seq![line] + lines_spec(rest),
{
    let ended = line.push('\r');
    assert(line + seq!['\r', '\n'] + rest == ended + seq!['\n'] + rest);
    assert forall|i: int| 0 <= i < ended.len() implies ended[i] != '\n' by {
        if i < line.len() {
            assert(line.contains(line[i]));
        }
    }
    assert(ended.drop_last() == line);
    lemma_first_line(ended, rest);
}

proof fn lemma_first_line(line: Seq<char>, rest: Seq<char>)
    requires
        !line.contains('\n'),
    ensures
        lines_spec(line + seq!['\n'] + rest) == seq![without_carriage_return(line)] + lines_spec(
            rest,
        ),
{
    let text = line + seq!['\n'] + rest;
    let at = line.len() as int;
    assert forall|i: int| 0 <= i < at implies text[i] != '\n' by {
        assert(line.contains(line[i]));
    }
    find_is_first(text, '\n', at);
    assert(text.take(at) == line);
    assert(text.skip(at + 1) == rest);
}

/// A text without line feeds is one line as it stands, and an empty one has no
/// line.
pub proof fn last_line_needs_no_line_feed(text: Seq<char>)
    requires
        !text.contains('\n'),
    ensures
        lines_spec(text) == if text.len() > 0 {
            seq![text]
        } else {
            seq![]
        },
{
    assert forall|i: int| 0 <= i < text.len() implies text[i] != '\n' by {
        assert(text.contains(text[i]));
    }
    find_is_first(text, '\n', text.len() as int);
}

/// What the functions of this module return are the texts that their results are
/// said to stand for.
pub proof fn splitting_is_exact(
    text: Vec<char>,
    ch: char,
    all: Vec<Vec<char>>,
    parts: Option<(Vec<char>, Vec<char>)>,
    trimmed: Vec<char>,
)
    requires
        call_ensures(lines, (&text,), all),
        call_ensures(split_once, (&text, ch), parts),
        call_ensures(trim_matches, (&text, ch), trimmed),
    ensures
        all@.len() == lines_spec(text@).len(),
        forall|i: int| 0 <= i < all@.len() ==> (#[trigger] all@[i])@ == lines_spec(text@)[i],
        parts is None <==> !text@.contains(ch),
        parts matches Some((before, behind)) ==> {
            &&& !before@.contains(ch)
            &&& before@ + seq![ch] + behind@ == text@
        },
        trimmed@ == trim_matches_spec(text@, ch),
{
    assert(views(all@).len() == all@.len());
    assert forall|i: int| 0 <= i < all@.len() implies (#[trigger] all@[i])@ == lines_spec(
        text@,
    )[i] by {
        assert(views(all@)[i] == all@[i]@);
    }
    if text@.contains(ch) {
        let k = choose|k: int| 0 <= k < text@.len() && text@[k] == ch;
        lemma_find_bounds(text@, ch);
        let at = find_spec(text@, ch) as int;
        assert(at <= k);
        let before = text@.take(at);
        let behind = text@.skip(at + 1);
        assert(before + seq![ch] + behind == text@);
    } else {
        text_without_separator_is_not_split(text@, ch);
    }
}

proof fn lemma_find_bounds(text: Seq<char>, ch: char)
    ensures
        find_spec(text, ch) <= text.len(),
        find_spec(text, ch) < text.len() ==> text[find_spec(text, ch) as int] == ch,
        forall|i: int| 0 <= i < find_spec(text, ch) ==> text[i] != ch,
    decreases text.len(),
{
    if text.len() > 0 && text[0] != ch {
        lemma_find_bounds(text.drop_first(), ch);
        let rest = text.drop_first();
        assert forall|i: int| 0 <= i < find_spec(text, ch) implies text[i] != ch by {
            if i > 0 {
                assert(rest[i - 1] == text[i]);
            }
        }
    }
}

} // verus!
