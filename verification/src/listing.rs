//! Reading the output of the window-listing tool.
//!
//! The listing holds one window per line. The first four whitespace-separated
//! fields of a line are the window's identifier, desktop, process and class;
//! the title follows. A line with fewer than five fields is not a window.

use vstd::prelude::*;
use crate::text::chars_of;

verus! {

/// The least number of fields that a line of the listing must hold.
pub const MIN_FIELDS: usize = 5;

/// One open window, as the listing names it.
#[derive(Debug)]
pub struct WindowRecord {
    pub id: String,
}

impl View for WindowRecord {
    type V = Seq<char>;

    /// A window is modelled by the characters of its identifier.
    open spec fn view(&self) -> Seq<char> {
        self.id@
    }
}

/// Unicode white space: the characters that separate the fields of a line.
pub open spec fn is_space(c: char) -> bool {
    let n = c as u32;
    ||| 0x09 <= n <= 0x0D
    ||| n == 0x20
    ||| n == 0x85
    ||| n == 0xA0
    ||| n == 0x1680
    ||| 0x2000 <= n <= 0x200A
    ||| n == 0x2028
    ||| n == 0x2029
    ||| n == 0x202F
    ||| n == 0x205F
    ||| n == 0x3000
}

/// A field starts at `i` where a character that is no white space follows
/// the start of the line or white space.
pub open spec fn is_field_start(line: Seq<char>, i: int) -> bool {
    &&& 0 <= i < line.len()
    &&& !is_space(line[i])
    &&& (i == 0 || is_space(line[i - 1]))
}

/// The number of fields of `line` that start before position `upto`.
pub open spec fn fields_before(line: Seq<char>, upto: int) -> nat
    decreases upto,
{
    if upto <= 0 {
        0
    } else {
        fields_before(line, upto - 1) + if is_field_start(line, upto - 1) {
            1nat
        } else {
            0nat
        }
    }
}

/// The number of whitespace-separated fields of `line`.
pub open spec fn field_count(line: Seq<char>) -> nat {
    fields_before(line, line.len() as int)
}

/// The first position at or after `i` that holds no white space, or the
/// length of the line.
pub open spec fn skip_spaces(line: Seq<char>, i: int) -> int
    decreases line.len() - i,
{
    if 0 <= i < line.len() && is_space(line[i]) {
        skip_spaces(line, i + 1)
    } else {
        i
    }
}

/// The first position at or after `i` that holds white space, or the length
/// of the line.
pub open spec fn skip_word(line: Seq<char>, i: int) -> int
    decreases line.len() - i,
{
    if 0 <= i < line.len() && !is_space(line[i]) {
        skip_word(line, i + 1)
    } else {
        i
    }
}

/// The first field of `line`: its first maximal run of characters that are
/// no white space. Empty where the line holds white space only.
pub open spec fn first_field(line: Seq<char>) -> Seq<char> {
    let begin = skip_spaces(line, 0);
    line.subrange(begin, skip_word(line, begin))
}

/// The identifier of the window that `line` describes, if it describes one.
pub open spec fn window_id(line: Seq<char>) -> Option<Seq<char>> {
    if field_count(line) >= MIN_FIELDS as nat {
        Some(first_field(line))
    } else {
        None
    }
}

/// The end of the line that starts at `from`: the position of the next line
/// feed, or the length of the text.
pub open spec fn line_end(text: Seq<char>, from: int) -> int
    decreases text.len() - from,
{
    if 0 <= from < text.len() && text[from] != '\n' {
        line_end(text, from + 1)
    } else {
        from
    }
}

/// A line ends at or after its start, and inside the text.
pub proof fn lemma_line_end_bounds(text: Seq<char>, from: int)
    requires
        0 <= from <= text.len(),
    ensures
        from <= line_end(text, from) <= text.len(),
        line_end(text, from) < text.len() ==> text[line_end(text, from)] == '\n',
        forall|i: int| from <= i < line_end(text, from) ==> text[i] != '\n',
    decreases text.len() - from,
{
    if from < text.len() && text[from] != '\n' {
        lemma_line_end_bounds(text, from + 1);
    }
}

/// What one line contributes to the enumeration: its window's identifier,
/// or nothing.
pub open spec fn line_ids(line: Seq<char>) -> Seq<Seq<char>> {
    match window_id(line) {
        Some(id) => seq![id],
        None => Seq::empty(),
    }
}

/// The identifiers of the windows that the lines of `text` from position
/// `from` on describe, in the order of the lines.
pub open spec fn window_ids_from(text: Seq<char>, from: int) -> Seq<Seq<char>>
    decreases text.len() + 1 - from,
{
    if from < 0 || from >= text.len() {
        Seq::empty()
    } else {
        let end = line_end(text, from);
        proof {
            lemma_line_end_bounds(text, from);
        }
        line_ids(text.subrange(from, end)) + window_ids_from(text, end + 1)
    }
}

/// The identifiers of the windows that the listing `text` describes: one
/// for each line with at least five fields, in the order of the lines.
pub open spec fn window_ids(text: Seq<char>) -> Seq<Seq<char>> {
    window_ids_from(text, 0)
}

/// The identifiers of `records`, in order.
pub open spec fn ids_of(records: Seq<WindowRecord>) -> Seq<Seq<char>> {
    records.map_values(|r: WindowRecord| r@)
}

/// Whether `c` separates fields.
pub fn is_whitespace(c: char) -> (r: bool)
    ensures
        r == is_space(c),
{
    let n: u32 = c as u32;
    (0x09 <= n && n <= 0x0D) || n == 0x20 || n == 0x85 || n == 0xA0 || n == 0x1680 || (0x2000 <= n
        && n <= 0x200A) || n == 0x2028 || n == 0x2029 || n == 0x202F || n == 0x205F || n == 0x3000
}

/// Scans the line `chars[start..end]`. Where it has at least five fields the
/// result is the range of its first field, as positions in `chars`.
fn scan_line(chars: &Vec<char>, start: usize, end: usize) -> (r: Option<(usize, usize)>)
    requires
        start <= end <= chars.len(),
    ensures
        ({
            let line = chars@.subrange(start as int, end as int);
            match r {
                Some((a, b)) => {
                    &&& field_count(line) >= MIN_FIELDS as nat
                    &&& start <= a <= b <= end
                    &&& a - start == skip_spaces(line, 0)
                    &&& b - start == skip_word(line, skip_spaces(line, 0))
                },
                None => field_count(line) < MIN_FIELDS as nat,
            }
        }),
{
    let ghost line = chars@.subrange(start as int, end as int);
    let mut count: usize = 0;
    let mut in_space: bool = true;
    let mut i: usize = start;
    while i < end
        invariant
            start <= i <= end <= chars.len(),
            line == chars@.subrange(start as int, end as int),
            count == fields_before(line, i - start),
            count <= i - start,
            in_space == (i == start || is_space(line[i - start - 1])),
        decreases end - i,
    {
        let space = is_whitespace(chars[i]);
        assert(chars[i as int] == line[i - start]);
        if in_space && !space {
            count = count + 1;
        }
        in_space = space;
        i = i + 1;
    }
    if count < MIN_FIELDS {
        return None;
    }
    let mut a: usize = start;
    while a < end && is_whitespace(chars[a])
        invariant
            start <= a <= end <= chars.len(),
            line == chars@.subrange(start as int, end as int),
            skip_spaces(line, 0) == skip_spaces(line, a - start),
        decreases end - a,
    {
        assert(chars[a as int] == line[a - start]);
        a = a + 1;
    }
    assert(a < end ==> chars[a as int] == line[a - start]);
    let mut b: usize = a;
    while b < end && !is_whitespace(chars[b])
        invariant
            start <= a <= b <= end <= chars.len(),
            line == chars@.subrange(start as int, end as int),
            skip_word(line, a - start) == skip_word(line, b - start),
        decreases end - b,
    {
        assert(chars[b as int] == line[b - start]);
        b = b + 1;
    }
    assert(b < end ==> chars[b as int] == line[b - start]);
    Some((a, b))
}

/// Reads one line of the listing. A line with at least five fields gives the
/// window whose identifier is the line's first field; any other line gives
/// nothing.
pub fn parse_window_line(line: &str) -> (r: Option<WindowRecord>)
    ensures
        r.is_some() <==> field_count(line@) >= MIN_FIELDS as nat,
        r matches Some(w) ==> w@ == first_field(line@),
        match r {
            Some(w) => window_id(line@) == Some(w@),
            None => window_id(line@) is None,
        },
{
    let chars = chars_of(line);
    assert(chars@.subrange(0, chars@.len() as int) =~= line@);
    match scan_line(&chars, 0, chars.len()) {
        Some((a, b)) => {
            let id = line.substring_char(a, b).to_owned();
            Some(WindowRecord { id })
        },
        None => None,
    }
}

/// Reads the whole listing: one window for each line that has at least five
/// fields, in the order of the lines. Other lines are passed over.
pub fn parse_listing(output: &str) -> (windows: Vec<WindowRecord>)
    ensures
        ids_of(windows@) == window_ids(output@),
{
    let chars = chars_of(output);
    let mut windows: Vec<WindowRecord> = Vec::new();
    let mut pos: usize = 0;
    assert(ids_of(windows@) =~= Seq::<Seq<char>>::empty());
    while pos < chars.len()
        invariant
            chars@ == output@,
            pos <= chars.len(),
            window_ids(output@) == ids_of(windows@) + window_ids_from(output@, pos as int),
        decreases chars.len() - pos,
    {
        let mut end: usize = pos;
        while end < chars.len() && chars[end] != '\n'
            invariant
                pos <= end <= chars.len(),
                chars@ == output@,
                line_end(output@, pos as int) == line_end(output@, end as int),
            decreases chars.len() - end,
        {
            end = end + 1;
        }
        let ghost before = ids_of(windows@);
        let ghost here = line_ids(output@.subrange(pos as int, end as int));
        match scan_line(&chars, pos, end) {
            Some((a, b)) => {
                let id = output.substring_char(a, b).to_owned();
                proof {
                    let line = output@.subrange(pos as int, end as int);
                    assert(id@ =~= first_field(line));
                }
                windows.push(WindowRecord { id });
            },
            None => {},
        }
        assert(ids_of(windows@) =~= before + here);
        assert(window_ids_from(output@, pos as int) == here + window_ids_from(
            output@,
            end as int + 1,
        ));
        if end == chars.len() {
            assert(window_ids_from(output@, end as int + 1) =~= Seq::<Seq<char>>::empty());
            assert(before + here + Seq::<Seq<char>>::empty() =~= before + here);
            assert(window_ids_from(output@, end as int) =~= Seq::<Seq<char>>::empty());
            pos = end;
        } else {
            assert(before + (here + window_ids_from(output@, end as int + 1)) =~= (before + here)
                + window_ids_from(output@, end as int + 1));
            pos = end + 1;
        }
    }
    assert(window_ids_from(output@, pos as int) =~= Seq::<Seq<char>>::empty());
    assert(ids_of(windows@) + Seq::<Seq<char>>::empty() =~= ids_of(windows@));
    windows
}

/// Where no line feed stands between `from` and `end`, and the text ends
/// or holds a line feed at `end`, the line that starts at `from` ends at
/// `end`.
pub proof fn lemma_line_end_is(text: Seq<char>, from: int, end: int)
    requires
        0 <= from <= end <= text.len(),
        forall|i: int| from <= i < end ==> text[i] != '\n',
        end < text.len() ==> text[end] == '\n',
    ensures
        line_end(text, from) == end,
    decreases end - from,
{
    if from < end {
        lemma_line_end_is(text, from + 1, end);
    }
}

/// The enumeration from a position on depends only on the text from that
/// position on.
pub proof fn lemma_window_ids_shift(text: Seq<char>, offset: int, k: int)
    requires
        0 <= offset <= text.len(),
        0 <= k,
    ensures
        window_ids_from(text, offset + k) == window_ids_from(text.skip(offset), k),
    decreases text.len() + 1 - offset - k,
{
    let tail = text.skip(offset);
    if k < tail.len() {
        lemma_line_end_bounds(tail, k);
        let end = line_end(tail, k);
        assert forall|i: int| offset + k <= i < offset + end implies text[i] != '\n' by {
            assert(tail[i - offset] == text[i]);
        }
        if end < tail.len() {
            assert(tail[end] == text[offset + end]);
        }
        lemma_line_end_is(text, offset + k, offset + end);
        assert(text.subrange(offset + k, offset + end) =~= tail.subrange(k, end));
        lemma_window_ids_shift(text, offset, end + 1);
    }
}

/// A listing is read line by line: a first line that is followed by a
/// line feed contributes its own window, if it has at least five fields,
/// before the windows of the text that follows the line feed.
pub proof fn lemma_window_ids_by_line(line: Seq<char>, rest: Seq<char>)
    requires
        forall|i: int| 0 <= i < line.len() ==> line[i] != '\n',
    ensures
        window_ids(line + seq!['\n'] + rest) == line_ids(line) + window_ids(rest),
{
    let text = line + seq!['\n'] + rest;
    let end = line.len() as int;
    lemma_line_end_is(text, 0, end);
    assert(text.subrange(0, end) =~= line);
    assert(text.skip(end + 1) =~= rest);
    lemma_window_ids_shift(text, end + 1, 0);
}

/// A listing of one line without a line feed holds that line's window, if
/// the line has at least five fields, and nothing else.
pub proof fn lemma_window_ids_of_last_line(line: Seq<char>)
    requires
        forall|i: int| 0 <= i < line.len() ==> line[i] != '\n',
    ensures
        window_ids(line) == line_ids(line),
{
    if line.len() > 0 {
        lemma_line_end_is(line, 0, line.len() as int);
        assert(line.subrange(0, line.len() as int) =~= line);
        assert(window_ids_from(line, line.len() as int + 1) =~= Seq::<Seq<char>>::empty());
        assert(line_ids(line) + Seq::<Seq<char>>::empty() =~= line_ids(line));
    } else {
        assert(fields_before(line, 0) == 0);
        assert(window_id(line) is None);
        assert(window_ids_from(line, 0) =~= Seq::<Seq<char>>::empty());
    }
}

/// A line with fewer than five fields gives no window; one with at least
/// five gives exactly one, named by the line's first field.
pub proof fn lemma_line_ids_by_field_count(line: Seq<char>)
    ensures
        field_count(line) < 5 ==> line_ids(line) == Seq::<Seq<char>>::empty(),
        field_count(line) >= 5 ==> line_ids(line) == seq![first_field(line)],
{
}

} // verus!
